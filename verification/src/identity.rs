use vstd::prelude::*;
use vstd::string::*;
use crate::errors::Error;

verus! {

/// The index of the first `':'` in `s` at or after position `i`, or `s.len()`
/// if there is none.
pub open spec fn first_colon_from(s: Seq<char>, i: int) -> int
    decreases s.len() - i,
{
    if i < 0 || i >= s.len() {
        s.len() as int
    } else if s[i] == ':' {
        i
    } else {
        first_colon_from(s, i + 1)
    }
}

/// A username is a structured identity `@localpart:domain`: the `@` sigil,
/// a non-empty localpart running up to the first `':'`, and a non-empty
/// server domain after it.
pub open spec fn is_valid_user_id(s: Seq<char>) -> bool {
    let k = first_colon_from(s, 1);
    &&& s.len() > 0
    &&& s[0] == '@'
    &&& 1 < k
    &&& k + 1 < s.len()
}

/// The mathematical value of a parsed identity.
pub struct UserIdView {
    pub localpart: Seq<char>,
    pub domain: Seq<char>,
}

/// A user identity resolved from a username string: the localpart names the
/// account, the domain names the server the client must talk to.
#[derive(Clone, Debug)]
pub struct UserId {
    pub localpart: String,
    pub domain: String,
}

impl View for UserId {
    type V = UserIdView;

    open spec fn view(&self) -> UserIdView {
        UserIdView { localpart: self.localpart@, domain: self.domain@ }
    }
}

/// If no `':'` occurs in `s` between `lo` and `k`, and `k` is either the end
/// of `s` or a `':'`, then `k` is the first colon position from `lo`.
proof fn lemma_first_colon(s: Seq<char>, lo: int, k: int)
    requires
        0 <= lo <= k <= s.len(),
        forall|j: int| lo <= j < k ==> s[j] != ':',
        k == s.len() || s[k] == ':',
    ensures
        first_colon_from(s, lo) == k,
    decreases k - lo,
{
    if lo == k {
    } else {
        lemma_first_colon(s, lo + 1, k);
    }
}

impl UserId {
    /// Parse a username into its structured identity.
    ///
    /// Returns the identity exactly when the username has the required
    /// structural parts, and `InvalidIdentity` otherwise; nothing but the
    /// input string is inspected.
    pub fn parse(username: &str) -> (r: Result<UserId, Error>)
        ensures
            r is Ok <==> is_valid_user_id(username@),
            r is Ok ==> ({
                let k = first_colon_from(username@, 1);
                &&& r->Ok_0@.localpart == username@.subrange(1, k)
                &&& r->Ok_0@.domain == username@.subrange(k + 1, username@.len() as int)
            }),
            r is Err ==> r->Err_0 == Error::InvalidIdentity,
    {
        let n = username.unicode_len();
        if n == 0 {
            return Err(Error::InvalidIdentity);
        }
        if username.get_char(0) != '@' {
            return Err(Error::InvalidIdentity);
        }
        let mut i: usize = 1;
        loop
            invariant
                1 <= i <= n,
                n == username@.len(),
                forall|j: int| 1 <= j < i ==> username@[j] != ':',
            ensures
                1 <= i <= n,
                forall|j: int| 1 <= j < i ==> username@[j] != ':',
                i < n ==> username@[i as int] == ':',
            decreases n - i,
        {
            if i == n {
                break;
            }
            if username.get_char(i) == ':' {
                break;
            }
            i = i + 1;
        }
        proof {
            lemma_first_colon(username@, 1, i as int);
        }
        if 1 < i && i < n && n - i > 1 {
            let localpart = username.substring_char(1, i).to_owned();
            let domain = username.substring_char(i + 1, n).to_owned();
            Ok(UserId { localpart, domain })
        } else {
            Err(Error::InvalidIdentity)
        }
    }

    /// The account-local part of the identity.
    pub fn localpart(&self) -> (r: &str)
        ensures
            r@ == self@.localpart,
    {
        self.localpart.as_str()
    }

    /// The domain of the server this identity lives on.
    pub fn server_name(&self) -> (r: &str)
        ensures
            r@ == self@.domain,
    {
        self.domain.as_str()
    }
}

} // verus!
