use vstd::prelude::*;
use vstd::string::*;
use crate::errors::Error;

verus! {

/// The credential and continuation state persisted across launches.
///
/// The record exists on disk exactly when a login has succeeded at least
/// once for the storage directory; the password is never part of it.
#[derive(Clone, Debug)]
pub struct SessionRecord {
    pub user_id: String,
    pub device_id: String,
    pub access_token: String,
    pub refresh_token: Option<String>,
}

/// The mathematical value of a session record.
pub struct SessionRecordView {
    pub user_id: Seq<char>,
    pub device_id: Seq<char>,
    pub access_token: Seq<char>,
    pub refresh_token: Option<Seq<char>>,
}

impl View for SessionRecord {
    type V = SessionRecordView;

    open spec fn view(&self) -> SessionRecordView {
        SessionRecordView {
            user_id: self.user_id@,
            device_id: self.device_id@,
            access_token: self.access_token@,
            refresh_token: match self.refresh_token {
                Option::None => Option::None,
                Option::Some(rt) => Option::Some(rt@),
            },
        }
    }
}

/// How one character is written inside a quoted string of the session file:
/// the two delimiter characters are preceded by a backslash, everything else
/// stands as itself.
pub open spec fn escape_char(c: char) -> Seq<char> {
    if c == '"' || c == '\\' {
        seq!['\\', c]
    } else {
        seq![c]
    }
}

/// The escaped form of a whole string.
pub open spec fn escape_seq(s: Seq<char>) -> Seq<char>
    decreases s.len(),
{
    if s.len() == 0 {
        Seq::empty()
    } else {
        escape_char(s[0]) + escape_seq(s.skip(1))
    }
}

proof fn lemma_escape_snoc(t: Seq<char>, c: char)
    ensures
        escape_seq(t.push(c)) == escape_seq(t) + escape_char(c),
    decreases t.len(),
{
    if t.len() == 0 {
        assert(t.push(c) =~= seq![c]);
        assert(t.push(c).skip(1) =~= Seq::<char>::empty());
        assert(escape_seq(Seq::<char>::empty()) =~= Seq::<char>::empty());
        assert(escape_seq(t.push(c)) == escape_char(c) + escape_seq(t.push(c).skip(1)));
        assert(escape_seq(t.push(c)) =~= escape_seq(t) + escape_char(c));
    } else {
        assert(t.push(c).skip(1) =~= t.skip(1).push(c));
        lemma_escape_snoc(t.skip(1), c);
        assert(t.push(c)[0] == t[0]);
        assert(escape_seq(t.push(c)) == escape_char(t[0]) + (escape_seq(t.skip(1))
            + escape_char(c)));
        assert(escape_char(t[0]) + (escape_seq(t.skip(1)) + escape_char(c)) =~= (escape_char(t[0])
            + escape_seq(t.skip(1))) + escape_char(c));
        assert(escape_seq(t.push(c)) =~= escape_seq(t) + escape_char(c));
    }
}

/// Append the escaped form of `s` to `out`.
fn append_escaped(out: &mut String, s: &str)
    ensures
        final(out)@ == old(out)@ + escape_seq(s@),
{
    let n = s.unicode_len();
    let mut i: usize = 0;
    while i < n
        invariant
            i <= n,
            n == s@.len(),
            out@ == old(out)@ + escape_seq(s@.subrange(0, i as int)),
        decreases n - i,
    {
        let c = s.get_char(i);
        if c == '"' {
            out.append("\\\"");
            proof {
                reveal_strlit("\\\"");
                assert("\\\""@ =~= escape_char('"'));
            }
        } else if c == '\\' {
            out.append("\\\\");
            proof {
                reveal_strlit("\\\\");
                assert("\\\\"@ =~= escape_char('\\'));
            }
        } else {
            out.append(s.substring_char(i, i + 1));
            proof {
                assert(s@.subrange(i as int, i + 1 as int) =~= escape_char(s@[i as int]));
            }
        }
        proof {
            lemma_escape_snoc(s@.subrange(0, i as int), s@[i as int]);
            assert(s@.subrange(0, i as int).push(s@[i as int]) =~= s@.subrange(0, i + 1 as int));
        }
        i = i + 1;
    }
    proof {
        assert(s@.subrange(0, n as int) =~= s@);
    }
}

pub open spec fn lit_head() -> Seq<char> {
    "{\"user_id\":\""@
}

pub open spec fn lit_device() -> Seq<char> {
    ",\"device_id\":\""@
}

pub open spec fn lit_access() -> Seq<char> {
    ",\"access_token\":\""@
}

pub open spec fn lit_refresh() -> Seq<char> {
    ",\"refresh_token\":\""@
}

pub open spec fn lit_quote() -> Seq<char> {
    "\""@
}

pub open spec fn lit_close() -> Seq<char> {
    "}"@
}

/// The exact text that `encode_session` writes for a record: one flat object
/// with the three mandatory fields, and the refresh token only when present.
pub open spec fn encode_spec(v: SessionRecordView) -> Seq<char> {
    lit_head() + escape_seq(v.user_id) + lit_quote() + lit_device() + escape_seq(v.device_id)
        + lit_quote() + lit_access() + escape_seq(v.access_token) + lit_quote() + (match v
        .refresh_token {
        Option::None => lit_close(),
        Option::Some(rt) => lit_refresh() + escape_seq(rt) + lit_quote() + lit_close(),
    })
}

/// Serialise a session record to the text stored in the session file.
pub fn encode_session(r: &SessionRecord) -> (out: String)
    ensures
        out@ == encode_spec(r@),
{
    let mut out = String::new();
    out.append("{\"user_id\":\"");
    append_escaped(&mut out, r.user_id.as_str());
    out.append("\"");
    out.append(",\"device_id\":\"");
    append_escaped(&mut out, r.device_id.as_str());
    out.append("\"");
    out.append(",\"access_token\":\"");
    append_escaped(&mut out, r.access_token.as_str());
    out.append("\"");
    match &r.refresh_token {
        Option::None => {
            out.append("}");
        },
        Option::Some(rt) => {
            out.append(",\"refresh_token\":\"");
            append_escaped(&mut out, rt.as_str());
            out.append("\"");
            out.append("}");
        },
    }
    proof {
        assert(out@ =~= encode_spec(r@));
    }
    out
}

/// Scan the escaped body of a quoted string: the decoded content up to the
/// first unescaped `'"'`, and what follows that closing quote. `None` when
/// the string is unterminated or holds a stray backslash.
pub open spec fn scan_string(s: Seq<char>) -> Option<(Seq<char>, Seq<char>)>
    decreases s.len(),
{
    if s.len() == 0 {
        Option::None
    } else if s[0] == '"' {
        Option::Some((Seq::empty(), s.skip(1)))
    } else if s[0] == '\\' {
        if s.len() >= 2 && (s[1] == '"' || s[1] == '\\') {
            match scan_string(s.skip(2)) {
                Option::Some(cr) => Option::Some((seq![s[1]] + cr.0, cr.1)),
                Option::None => Option::None,
            }
        } else {
            Option::None
        }
    } else {
        match scan_string(s.skip(1)) {
            Option::Some(cr) => Option::Some((seq![s[0]] + cr.0, cr.1)),
            Option::None => Option::None,
        }
    }
}

/// Scanning an escaped string up to its closing quote undoes the escaping
/// and leaves exactly what stood after the quote.
proof fn lemma_scan_escaped(x: Seq<char>, rest: Seq<char>)
    ensures
        scan_string(escape_seq(x) + lit_quote() + rest) == Option::Some((x, rest)),
    decreases x.len(),
{
    reveal_strlit("\"");
    let s = escape_seq(x) + lit_quote() + rest;
    if x.len() == 0 {
        assert(escape_seq(x) =~= Seq::<char>::empty());
        assert(s[0] == '"');
        assert(s.skip(1) =~= rest);
        assert(scan_string(s) == Option::Some((x, rest)));
    } else {
        let c = x[0];
        let x1 = x.skip(1);
        lemma_scan_escaped(x1, rest);
        assert(escape_seq(x) == escape_char(c) + escape_seq(x1));
        if c == '"' || c == '\\' {
            assert(s[0] == '\\');
            assert(s[1] == c);
            assert(s.len() >= 2);
            assert(s.skip(2) =~= escape_seq(x1) + lit_quote() + rest);
            assert(scan_string(s.skip(2)) == Option::Some((x1, rest)));
            assert(seq![c] + x1 =~= x);
            assert(scan_string(s) == Option::Some((x, rest)));
        } else {
            assert(s[0] == c);
            assert(s.skip(1) =~= escape_seq(x1) + lit_quote() + rest);
            assert(scan_string(s.skip(1)) == Option::Some((x1, rest)));
            assert(seq![c] + x1 =~= x);
            assert(scan_string(s) == Option::Some((x, rest)));
        }
    }
}

/// What is left of `s` after a literal prefix `p`, or `None` where `s` does
/// not start with `p`.
pub open spec fn strip_prefix(s: Seq<char>, p: Seq<char>) -> Option<Seq<char>> {
    if p.len() <= s.len() && s.subrange(0, p.len() as int) == p {
        Option::Some(s.skip(p.len() as int))
    } else {
        Option::None
    }
}

proof fn lemma_strip_prefix_concat(p: Seq<char>, t: Seq<char>)
    ensures
        strip_prefix(p + t, p) == Option::Some(t),
{
    assert((p + t).subrange(0, p.len() as int) =~= p);
    assert((p + t).skip(p.len() as int) =~= t);
}

/// The exact content that the session file may hold: the canonical object
/// that `encode_session` writes, field for field.
pub open spec fn parse_spec(s: Seq<char>) -> Option<SessionRecordView> {
    match strip_prefix(s, lit_head()) {
        Option::None => Option::None,
        Option::Some(s1) => match scan_string(s1) {
            Option::None => Option::None,
            Option::Some((u, s2)) => match strip_prefix(s2, lit_device()) {
                Option::None => Option::None,
                Option::Some(s3) => match scan_string(s3) {
                    Option::None => Option::None,
                    Option::Some((d, s4)) => match strip_prefix(s4, lit_access()) {
                        Option::None => Option::None,
                        Option::Some(s5) => match scan_string(s5) {
                            Option::None => Option::None,
                            Option::Some((a, s6)) => if s6 == lit_close() {
                                Option::Some(
                                    SessionRecordView {
                                        user_id: u,
                                        device_id: d,
                                        access_token: a,
                                        refresh_token: Option::None,
                                    },
                                )
                            } else {
                                match strip_prefix(s6, lit_refresh()) {
                                    Option::None => Option::None,
                                    Option::Some(s7) => match scan_string(s7) {
                                        Option::None => Option::None,
                                        Option::Some((rt, s8)) => if s8 == lit_close() {
                                            Option::Some(
                                                SessionRecordView {
                                                    user_id: u,
                                                    device_id: d,
                                                    access_token: a,
                                                    refresh_token: Option::Some(rt),
                                                },
                                            )
                                        } else {
                                            Option::None
                                        },
                                    },
                                }
                            },
                        },
                    },
                },
            },
        },
    }
}

/// Round trip: decoding the encoded form of any session record yields the
/// record back, exactly.
pub proof fn lemma_session_round_trip(v: SessionRecordView)
    ensures
        parse_spec(encode_spec(v)) == Option::Some(v),
{
    reveal_strlit("{\"user_id\":\"");
    reveal_strlit(",\"device_id\":\"");
    reveal_strlit(",\"access_token\":\"");
    reveal_strlit(",\"refresh_token\":\"");
    reveal_strlit("\"");
    reveal_strlit("}");
    let e = encode_spec(v);
    let ending = match v.refresh_token {
        Option::None => lit_close(),
        Option::Some(rt) => lit_refresh() + escape_seq(rt) + lit_quote() + lit_close(),
    };
    let t1 = escape_seq(v.user_id) + lit_quote() + (lit_device() + escape_seq(v.device_id)
        + lit_quote() + (lit_access() + escape_seq(v.access_token) + lit_quote() + ending));
    assert(e =~= lit_head() + t1);
    lemma_strip_prefix_concat(lit_head(), t1);
    let r1 = lit_device() + escape_seq(v.device_id) + lit_quote() + (lit_access() + escape_seq(
        v.access_token,
    ) + lit_quote() + ending);
    assert(t1 =~= escape_seq(v.user_id) + lit_quote() + r1);
    lemma_scan_escaped(v.user_id, r1);
    let r2 = escape_seq(v.device_id) + lit_quote() + (lit_access() + escape_seq(v.access_token)
        + lit_quote() + ending);
    assert(r1 =~= lit_device() + r2);
    lemma_strip_prefix_concat(lit_device(), r2);
    let r3 = lit_access() + escape_seq(v.access_token) + lit_quote() + ending;
    assert(r2 =~= escape_seq(v.device_id) + lit_quote() + r3);
    lemma_scan_escaped(v.device_id, r3);
    let r4 = escape_seq(v.access_token) + lit_quote() + ending;
    assert(r3 =~= lit_access() + r4);
    lemma_strip_prefix_concat(lit_access(), r4);
    lemma_scan_escaped(v.access_token, ending);
    assert(r4 =~= escape_seq(v.access_token) + lit_quote() + ending);
    match v.refresh_token {
        Option::None => {
            assert(ending == lit_close());
        },
        Option::Some(rt) => {
            assert(ending.len() >= lit_refresh().len());
            assert(ending != lit_close());
            let r5 = escape_seq(rt) + lit_quote() + lit_close();
            assert(ending =~= lit_refresh() + r5);
            lemma_strip_prefix_concat(lit_refresh(), r5);
            lemma_scan_escaped(rt, lit_close());
            assert(r5 =~= escape_seq(rt) + lit_quote() + lit_close());
        },
    }
}

/// Check that `s` carries the literal `lit` at position `start`; on success
/// the returned index is just past it.
fn expect_lit(s: &str, start: usize, lit: &str) -> (r: Option<usize>)
    requires
        start <= s@.len(),
    ensures
        match strip_prefix(s@.skip(start as int), lit@) {
            Option::Some(rest) => {
                &&& r is Some
                &&& start <= r->0 <= s@.len()
                &&& s@.skip(r->0 as int) == rest
            },
            Option::None => r is None,
        },
{
    let n = s.unicode_len();
    let m = lit.unicode_len();
    if m > n - start {
        proof {
            assert(strip_prefix(s@.skip(start as int), lit@) is None);
        }
        return Option::None;
    }
    let mut j: usize = 0;
    while j < m
        invariant
            j <= m,
            start + m <= n,
            n == s@.len(),
            m == lit@.len(),
            forall|k: int| 0 <= k < j ==> s@[start + k] == lit@[k],
        decreases m - j,
    {
        if s.get_char(start + j) != lit.get_char(j) {
            proof {
                let tail = s@.skip(start as int);
                assert(tail[j as int] == s@[start + j]);
                assert(tail.subrange(0, m as int)[j as int] != lit@[j as int]);
                assert(strip_prefix(tail, lit@) is None);
            }
            return Option::None;
        }
        j = j + 1;
    }
    proof {
        let tail = s@.skip(start as int);
        assert(tail.subrange(0, m as int) =~= lit@);
        assert(tail.skip(m as int) =~= s@.skip(start + m));
    }
    Option::Some(start + m)
}

/// `scan_string` with the decoded content prepended by `p`.
spec fn scan_prepend(p: Seq<char>, o: Option<(Seq<char>, Seq<char>)>) -> Option<
    (Seq<char>, Seq<char>),
> {
    match o {
        Option::Some(cr) => Option::Some((p + cr.0, cr.1)),
        Option::None => Option::None,
    }
}

/// Decode the escaped body of a quoted string starting at `start`; on
/// success the returned index is just past the closing quote.
fn scan_exec(s: &str, start: usize) -> (r: Option<(String, usize)>)
    requires
        start <= s@.len(),
    ensures
        match scan_string(s@.skip(start as int)) {
            Option::Some(cr) => {
                &&& r is Some
                &&& (r->0).0@ == cr.0
                &&& start <= (r->0).1 <= s@.len()
                &&& s@.skip((r->0).1 as int) == cr.1
            },
            Option::None => r is None,
        },
{
    let n = s.unicode_len();
    let mut i: usize = start;
    let mut out = String::new();
    loop
        invariant
            start <= i <= n,
            n == s@.len(),
            scan_string(s@.skip(start as int)) == scan_prepend(
                out@,
                scan_string(s@.skip(i as int)),
            ),
        decreases n - i,
    {
        proof {
            assert(s@.skip(i as int).len() == n - i);
        }
        if i == n {
            return Option::None;
        }
        let c = s.get_char(i);
        proof {
            assert(s@.skip(i as int)[0] == s@[i as int]);
        }
        if c == '"' {
            proof {
                assert(s@.skip(i as int).skip(1) =~= s@.skip(i + 1));
                assert(scan_string(s@.skip(i as int)) == Option::Some(
                    (Seq::<char>::empty(), s@.skip(i + 1)),
                ));
                assert(out@ + Seq::<char>::empty() =~= out@);
            }
            return Option::Some((out, i + 1));
        } else if c == '\\' {
            if i + 1 == n {
                proof {
                    assert(scan_string(s@.skip(i as int)) is None);
                }
                return Option::None;
            }
            let e = s.get_char(i + 1);
            proof {
                assert(s@.skip(i as int)[1] == s@[i + 1]);
            }
            if e == '"' || e == '\\' {
                let ghost old_out = out@;
                out.append(s.substring_char(i + 1, i + 2));
                proof {
                    assert(s@.subrange(i + 1, i + 2) =~= seq![s@[i + 1]]);
                    assert(s@.skip(i as int).skip(2) =~= s@.skip(i + 2));
                    assert forall|cr: (Seq<char>, Seq<char>)|
                        scan_string(s@.skip(i + 2)) == Option::Some(cr) implies out@ + cr.0
                        =~= old_out + (seq![s@[i + 1]] + cr.0) by {}
                }
                i = i + 2;
            } else {
                proof {
                    assert(scan_string(s@.skip(i as int)) is None);
                }
                return Option::None;
            }
        } else {
            let ghost old_out = out@;
            out.append(s.substring_char(i, i + 1));
            proof {
                assert(s@.subrange(i as int, i + 1) =~= seq![s@[i as int]]);
                assert(s@.skip(i as int).skip(1) =~= s@.skip(i + 1));
                assert forall|cr: (Seq<char>, Seq<char>)|
                    scan_string(s@.skip(i + 1)) == Option::Some(cr) implies out@ + cr.0 =~= old_out
                    + (seq![s@[i as int]] + cr.0) by {}
            }
            i = i + 1;
        }
    }
}

/// Decode the text of a session file.
///
/// Returns the record exactly when the content is the canonical encoded
/// form of one, and `CorruptSession` for any other content.
pub fn decode_session(s: &str) -> (r: Result<SessionRecord, Error>)
    ensures
        match parse_spec(s@) {
            Option::Some(v) => r is Ok && r->Ok_0@ == v,
            Option::None => r is Err && r->Err_0 == Error::CorruptSession,
        },
{
    proof {
        assert(s@.skip(0) =~= s@);
    }
    let i1 = match expect_lit(s, 0, "{\"user_id\":\"") {
        Option::Some(i) => i,
        Option::None => {
            return Result::Err(Error::CorruptSession);
        },
    };
    let (user_id, i2) = match scan_exec(s, i1) {
        Option::Some(p) => p,
        Option::None => {
            return Result::Err(Error::CorruptSession);
        },
    };
    let i3 = match expect_lit(s, i2, ",\"device_id\":\"") {
        Option::Some(i) => i,
        Option::None => {
            return Result::Err(Error::CorruptSession);
        },
    };
    let (device_id, i4) = match scan_exec(s, i3) {
        Option::Some(p) => p,
        Option::None => {
            return Result::Err(Error::CorruptSession);
        },
    };
    let i5 = match expect_lit(s, i4, ",\"access_token\":\"") {
        Option::Some(i) => i,
        Option::None => {
            return Result::Err(Error::CorruptSession);
        },
    };
    let (access_token, i6) = match scan_exec(s, i5) {
        Option::Some(p) => p,
        Option::None => {
            return Result::Err(Error::CorruptSession);
        },
    };
    let n = s.unicode_len();
    proof {
        reveal_strlit("}");
    }
    if i6 < n && s.get_char(i6) == '}' && n - i6 == 1 {
        proof {
            assert(s@.skip(i6 as int) =~= lit_close());
        }
        return Result::Ok(
            SessionRecord { user_id, device_id, access_token, refresh_token: Option::None },
        );
    }
    proof {
        let tail = s@.skip(i6 as int);
        assert(lit_close().len() == 1 && lit_close()[0] == '}');
        assert(tail.len() == n - i6);
        if tail.len() == 1 {
            assert(tail[0] == s@[i6 as int]);
            assert(tail != lit_close());
        } else {
            assert(tail != lit_close());
        }
    }
    let i7 = match expect_lit(s, i6, ",\"refresh_token\":\"") {
        Option::Some(i) => i,
        Option::None => {
            return Result::Err(Error::CorruptSession);
        },
    };
    let (refresh, i8) = match scan_exec(s, i7) {
        Option::Some(p) => p,
        Option::None => {
            return Result::Err(Error::CorruptSession);
        },
    };
    if i8 < n && s.get_char(i8) == '}' && n - i8 == 1 {
        proof {
            assert(s@.skip(i8 as int) =~= lit_close());
        }
        return Result::Ok(
            SessionRecord {
                user_id,
                device_id,
                access_token,
                refresh_token: Option::Some(refresh),
            },
        );
    }
    proof {
        let tail = s@.skip(i8 as int);
        assert(lit_close().len() == 1 && lit_close()[0] == '}');
        assert(tail.len() == n - i8);
        if tail.len() == 1 {
            assert(tail[0] == s@[i8 as int]);
            assert(tail != lit_close());
        } else {
            assert(tail != lit_close());
        }
    }
    Result::Err(Error::CorruptSession)
}

/// The fixed name of the session file inside the storage directory.
pub fn session_file_name() -> (r: &'static str)
    ensures
        r@ == "session.json"@,
{
    "session.json"
}

/// The load half of the session store, once the driver has read the file.
///
/// Absence of the file is absence of a session; text that decodes is the
/// session; any other text is a corrupt session, surfaced as an error and
/// never silently ignored.
pub fn interpret_session_file(content: Option<&str>) -> (r: Result<Option<SessionRecord>, Error>)
    ensures
        match content {
            Option::None => r is Ok && r->Ok_0 is None,
            Option::Some(s) => match parse_spec(s@) {
                Option::Some(v) => r is Ok && r->Ok_0 is Some && r->Ok_0->0@ == v,
                Option::None => r is Err && r->Err_0 == Error::CorruptSession,
            },
        },
{
    match content {
        Option::None => Result::Ok(Option::None),
        Option::Some(s) => match decode_session(s) {
            Result::Ok(record) => Result::Ok(Option::Some(record)),
            Result::Err(e) => Result::Err(e),
        },
    }
}

} // verus!
