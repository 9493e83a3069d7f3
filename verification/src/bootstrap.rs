use vstd::prelude::*;
use vstd::string::*;
use crate::errors::Error;
use crate::identity::{UserId, UserIdView, is_valid_user_id, first_colon_from};
use crate::session::{
    SessionRecord, SessionRecordView, encode_session, decode_session, encode_spec, parse_spec,
};

verus! {

/// One step of outside work that the driver performs for the machine.
///
/// The machine never asks for the same login twice, and a resume never
/// carries the password: only `FreshLogin` does.
pub enum BootstrapAction {
    /// Create the storage directory (and its parents) if absent.
    CreateStorageDir,
    /// Construct the protocol client bound to this server domain and to
    /// local persistent storage under the storage directory.
    BuildClient { server_name: String },
    /// Read the session file, reporting its text or its absence.
    ReadSessionFile,
    /// Perform an interactive login with the account's credentials.
    FreshLogin { localpart: String, password: String, device_name: String },
    /// Log in again from the stored session record: its device identifier
    /// and stored credential, never the password.
    ResumeLogin { record: SessionRecord },
    /// Write this text to the session file, overwriting prior content.
    SaveSessionFile { contents: String },
}

/// What the driver observed while performing the last action.
pub enum BootstrapEvent {
    DirCreated,
    DirFailed,
    ClientBuilt,
    ClientFailed,
    /// The session file exists and holds this text.
    SessionFileFound { contents: String },
    /// No session file exists yet.
    SessionFileAbsent,
    /// The session file exists but could not be read.
    SessionFileUnreadable,
    /// The login call succeeded; the record is the session state read back
    /// from the live client.
    LoginSucceeded { record: SessionRecord },
    /// The server rejected the login or resume attempt.
    LoginRejected,
    SessionSaved,
    SessionSaveFailed,
}

/// Where the construction of a client stands.
pub enum BootstrapPhase {
    CreatingDir { user: UserId, password: String, device_name: String },
    BuildingClient { user: UserId, password: String, device_name: String },
    LoadingSession { user: UserId, password: String, device_name: String },
    LoggingInFresh,
    LoggingInResume,
    SavingSession { record: SessionRecord },
    /// Construction is complete; this record is on disk.
    Ready { record: SessionRecord },
    /// Construction has failed; no client is returned and nothing is
    /// retried.
    Failed { error: Error },
}

/// The mathematical value of an action.
pub enum ActionV {
    CreateStorageDir,
    BuildClient { server_name: Seq<char> },
    ReadSessionFile,
    FreshLogin { localpart: Seq<char>, password: Seq<char>, device_name: Seq<char> },
    ResumeLogin { record: SessionRecordView },
    SaveSessionFile { contents: Seq<char> },
}

/// The mathematical value of an event.
pub enum EventV {
    DirCreated,
    DirFailed,
    ClientBuilt,
    ClientFailed,
    SessionFileFound { contents: Seq<char> },
    SessionFileAbsent,
    SessionFileUnreadable,
    LoginSucceeded { record: SessionRecordView },
    LoginRejected,
    SessionSaved,
    SessionSaveFailed,
}

/// The mathematical value of a phase.
pub enum PhaseV {
    CreatingDir { user: UserIdView, password: Seq<char>, device_name: Seq<char> },
    BuildingClient { user: UserIdView, password: Seq<char>, device_name: Seq<char> },
    LoadingSession { user: UserIdView, password: Seq<char>, device_name: Seq<char> },
    LoggingInFresh,
    LoggingInResume,
    SavingSession { record: SessionRecordView },
    Ready { record: SessionRecordView },
    Failed { error: Error },
}

impl View for BootstrapAction {
    type V = ActionV;

    open spec fn view(&self) -> ActionV {
        match self {
            BootstrapAction::CreateStorageDir => ActionV::CreateStorageDir,
            BootstrapAction::BuildClient { server_name } => ActionV::BuildClient {
                server_name: server_name@,
            },
            BootstrapAction::ReadSessionFile => ActionV::ReadSessionFile,
            BootstrapAction::FreshLogin { localpart, password, device_name } => ActionV::FreshLogin {
                localpart: localpart@,
                password: password@,
                device_name: device_name@,
            },
            BootstrapAction::ResumeLogin { record } => ActionV::ResumeLogin { record: record@ },
            BootstrapAction::SaveSessionFile { contents } => ActionV::SaveSessionFile {
                contents: contents@,
            },
        }
    }
}

impl View for BootstrapEvent {
    type V = EventV;

    open spec fn view(&self) -> EventV {
        match self {
            BootstrapEvent::DirCreated => EventV::DirCreated,
            BootstrapEvent::DirFailed => EventV::DirFailed,
            BootstrapEvent::ClientBuilt => EventV::ClientBuilt,
            BootstrapEvent::ClientFailed => EventV::ClientFailed,
            BootstrapEvent::SessionFileFound { contents } => EventV::SessionFileFound {
                contents: contents@,
            },
            BootstrapEvent::SessionFileAbsent => EventV::SessionFileAbsent,
            BootstrapEvent::SessionFileUnreadable => EventV::SessionFileUnreadable,
            BootstrapEvent::LoginSucceeded { record } => EventV::LoginSucceeded {
                record: record@,
            },
            BootstrapEvent::LoginRejected => EventV::LoginRejected,
            BootstrapEvent::SessionSaved => EventV::SessionSaved,
            BootstrapEvent::SessionSaveFailed => EventV::SessionSaveFailed,
        }
    }
}

impl View for BootstrapPhase {
    type V = PhaseV;

    open spec fn view(&self) -> PhaseV {
        match self {
            BootstrapPhase::CreatingDir { user, password, device_name } => PhaseV::CreatingDir {
                user: user@,
                password: password@,
                device_name: device_name@,
            },
            BootstrapPhase::BuildingClient { user, password, device_name } => PhaseV::BuildingClient {
                user: user@,
                password: password@,
                device_name: device_name@,
            },
            BootstrapPhase::LoadingSession { user, password, device_name } => PhaseV::LoadingSession {
                user: user@,
                password: password@,
                device_name: device_name@,
            },
            BootstrapPhase::LoggingInFresh => PhaseV::LoggingInFresh,
            BootstrapPhase::LoggingInResume => PhaseV::LoggingInResume,
            BootstrapPhase::SavingSession { record } => PhaseV::SavingSession { record: record@ },
            BootstrapPhase::Ready { record } => PhaseV::Ready { record: record@ },
            BootstrapPhase::Failed { error } => PhaseV::Failed { error: *error },
        }
    }
}

/// The complete transition relation of the bootstrap machine.
///
/// Every pairing of phase and event not listed leaves the phase unchanged
/// and asks for nothing; in particular `Ready` and `Failed` absorb all
/// events, so a failed construction never retries anything.
pub open spec fn step_v(p: PhaseV, e: EventV) -> (PhaseV, Option<ActionV>) {
    match (p, e) {
        (PhaseV::CreatingDir { user, password, device_name }, EventV::DirCreated) => (
            PhaseV::BuildingClient { user, password, device_name },
            Option::Some(ActionV::BuildClient { server_name: user.domain }),
        ),
        (PhaseV::CreatingDir { .. }, EventV::DirFailed) => (
            PhaseV::Failed { error: Error::IoError },
            Option::None,
        ),
        (PhaseV::BuildingClient { user, password, device_name }, EventV::ClientBuilt) => (
            PhaseV::LoadingSession { user, password, device_name },
            Option::Some(ActionV::ReadSessionFile),
        ),
        (PhaseV::BuildingClient { .. }, EventV::ClientFailed) => (
            PhaseV::Failed { error: Error::ClientInitError },
            Option::None,
        ),
        (PhaseV::LoadingSession { user, password, device_name }, EventV::SessionFileAbsent) => (
            PhaseV::LoggingInFresh,
            Option::Some(
                ActionV::FreshLogin { localpart: user.localpart, password, device_name },
            ),
        ),
        (PhaseV::LoadingSession { .. }, EventV::SessionFileFound { contents }) => (match parse_spec(
            contents,
        ) {
            Option::Some(v) => (
                PhaseV::LoggingInResume,
                Option::Some(ActionV::ResumeLogin { record: v }),
            ),
            Option::None => (PhaseV::Failed { error: Error::CorruptSession }, Option::None),
        }),
        (PhaseV::LoadingSession { .. }, EventV::SessionFileUnreadable) => (
            PhaseV::Failed { error: Error::IoError },
            Option::None,
        ),
        (PhaseV::LoggingInFresh, EventV::LoginSucceeded { record }) => (
            PhaseV::SavingSession { record },
            Option::Some(ActionV::SaveSessionFile { contents: encode_spec(record) }),
        ),
        (PhaseV::LoggingInResume, EventV::LoginSucceeded { record }) => (
            PhaseV::SavingSession { record },
            Option::Some(ActionV::SaveSessionFile { contents: encode_spec(record) }),
        ),
        (PhaseV::LoggingInFresh, EventV::LoginRejected) => (
            PhaseV::Failed { error: Error::AuthError },
            Option::None,
        ),
        (PhaseV::LoggingInResume, EventV::LoginRejected) => (
            PhaseV::Failed { error: Error::AuthError },
            Option::None,
        ),
        (PhaseV::SavingSession { record }, EventV::SessionSaved) => (
            PhaseV::Ready { record },
            Option::None,
        ),
        (PhaseV::SavingSession { .. }, EventV::SessionSaveFailed) => (
            PhaseV::Failed { error: Error::IoError },
            Option::None,
        ),
        (other, _) => (other, Option::None),
    }
}

/// The view of an optional action.
pub open spec fn opt_action_view(a: Option<BootstrapAction>) -> Option<ActionV> {
    match a {
        Option::Some(x) => Option::Some(x@),
        Option::None => Option::None,
    }
}

/// Begin constructing a client: validate the username and, if it is a
/// structured identity, ask the driver for the first piece of outside work.
///
/// A malformed username is rejected before any action is requested, so no
/// filesystem or network access happens for it.
pub fn bootstrap_start(username: &str, password: &str, device_name: &str) -> (r: Result<
    (BootstrapPhase, BootstrapAction),
    Error,
>)
    ensures
        r is Ok <==> is_valid_user_id(username@),
        r is Err ==> r->Err_0 == Error::InvalidIdentity,
        r is Ok ==> ({
            let k = first_colon_from(username@, 1);
            let u = UserIdView {
                localpart: username@.subrange(1, k),
                domain: username@.subrange(k + 1, username@.len() as int),
            };
            &&& (r->Ok_0).0@ == (PhaseV::CreatingDir {
                user: u,
                password: password@,
                device_name: device_name@,
            })
            &&& (r->Ok_0).1@ == ActionV::CreateStorageDir
        }),
{
    let user = match UserId::parse(username) {
        Result::Ok(u) => u,
        Result::Err(e) => {
            return Result::Err(e);
        },
    };
    let phase = BootstrapPhase::CreatingDir {
        user,
        password: password.to_owned(),
        device_name: device_name.to_owned(),
    };
    Result::Ok((phase, BootstrapAction::CreateStorageDir))
}

/// Advance the machine by one observed event.
///
/// The returned phase and optional action are exactly `step_v` of the views
/// of the inputs.
pub fn bootstrap_step(phase: BootstrapPhase, event: BootstrapEvent) -> (r: (
    BootstrapPhase,
    Option<BootstrapAction>,
))
    ensures
        (r.0@, opt_action_view(r.1)) == step_v(phase@, event@),
{
    match (phase, event) {
        (
            BootstrapPhase::CreatingDir { user, password, device_name },
            BootstrapEvent::DirCreated,
        ) => {
            let server_name = user.domain.clone();
            (
                BootstrapPhase::BuildingClient { user, password, device_name },
                Option::Some(BootstrapAction::BuildClient { server_name }),
            )
        },
        (BootstrapPhase::CreatingDir { .. }, BootstrapEvent::DirFailed) => (
            BootstrapPhase::Failed { error: Error::IoError },
            Option::None,
        ),
        (
            BootstrapPhase::BuildingClient { user, password, device_name },
            BootstrapEvent::ClientBuilt,
        ) => (
            BootstrapPhase::LoadingSession { user, password, device_name },
            Option::Some(BootstrapAction::ReadSessionFile),
        ),
        (
            BootstrapPhase::BuildingClient { .. },
            BootstrapEvent::ClientFailed,
        ) => (BootstrapPhase::Failed { error: Error::ClientInitError }, Option::None),
        (
            BootstrapPhase::LoadingSession { user, password, device_name },
            BootstrapEvent::SessionFileAbsent,
        ) => (
            BootstrapPhase::LoggingInFresh,
            Option::Some(
                BootstrapAction::FreshLogin { localpart: user.localpart, password, device_name },
            ),
        ),
        (
            BootstrapPhase::LoadingSession { .. },
            BootstrapEvent::SessionFileFound { contents },
        ) => {
            match decode_session(contents.as_str()) {
                Result::Ok(record) => (
                    BootstrapPhase::LoggingInResume,
                    Option::Some(BootstrapAction::ResumeLogin { record }),
                ),
                Result::Err(e) => (BootstrapPhase::Failed { error: e }, Option::None),
            }
        },
        (
            BootstrapPhase::LoadingSession { .. },
            BootstrapEvent::SessionFileUnreadable,
        ) => (BootstrapPhase::Failed { error: Error::IoError }, Option::None),
        (BootstrapPhase::LoggingInFresh, BootstrapEvent::LoginSucceeded { record }) => {
            let contents = encode_session(&record);
            (
                BootstrapPhase::SavingSession { record },
                Option::Some(BootstrapAction::SaveSessionFile { contents }),
            )
        },
        (BootstrapPhase::LoggingInResume, BootstrapEvent::LoginSucceeded { record }) => {
            let contents = encode_session(&record);
            (
                BootstrapPhase::SavingSession { record },
                Option::Some(BootstrapAction::SaveSessionFile { contents }),
            )
        },
        (BootstrapPhase::LoggingInFresh, BootstrapEvent::LoginRejected) => (
            BootstrapPhase::Failed { error: Error::AuthError },
            Option::None,
        ),
        (BootstrapPhase::LoggingInResume, BootstrapEvent::LoginRejected) => (
            BootstrapPhase::Failed { error: Error::AuthError },
            Option::None,
        ),
        (BootstrapPhase::SavingSession { record }, BootstrapEvent::SessionSaved) => (
            BootstrapPhase::Ready { record },
            Option::None,
        ),
        (BootstrapPhase::SavingSession { .. }, BootstrapEvent::SessionSaveFailed) => (
            BootstrapPhase::Failed { error: Error::IoError },
            Option::None,
        ),
        (other, _) => (other, Option::None),
    }
}

/// The phase reached after consuming `events` one by one.
pub open spec fn run_state(p: PhaseV, events: Seq<EventV>) -> PhaseV
    decreases events.len(),
{
    if events.len() == 0 {
        p
    } else {
        run_state(step_v(p, events[0]).0, events.skip(1))
    }
}

/// Every action the machine requests while consuming `events`, in order.
pub open spec fn run_actions(p: PhaseV, events: Seq<EventV>) -> Seq<ActionV>
    decreases events.len(),
{
    if events.len() == 0 {
        Seq::empty()
    } else {
        let s = step_v(p, events[0]);
        (match s.1 {
            Option::Some(a) => seq![a],
            Option::None => Seq::<ActionV>::empty(),
        }) + run_actions(s.0, events.skip(1))
    }
}

/// How many of these actions are interactive logins.
pub open spec fn fresh_login_count(actions: Seq<ActionV>) -> int
    decreases actions.len(),
{
    if actions.len() == 0 {
        0
    } else {
        (if actions[0] is FreshLogin {
            1int
        } else {
            0int
        }) + fresh_login_count(actions.skip(1))
    }
}

proof fn lemma_fresh_count_concat(a: Seq<ActionV>, b: Seq<ActionV>)
    ensures
        fresh_login_count(a + b) == fresh_login_count(a) + fresh_login_count(b),
    decreases a.len(),
{
    if a.len() == 0 {
        assert(a + b =~= b);
    } else {
        assert((a + b)[0] == a[0]);
        assert((a + b).skip(1) =~= a.skip(1) + b);
        lemma_fresh_count_concat(a.skip(1), b);
    }
}

/// The machine requests an interactive login only in answer to the session
/// file being reported absent, and only while it is still loading it.
pub proof fn lemma_fresh_login_only_on_absence(p: PhaseV, e: EventV)
    ensures
        (step_v(p, e).1 matches Option::Some(a) && a is FreshLogin) ==> (p is LoadingSession
            && e is SessionFileAbsent),
{
}

/// The phases in which an interactive login may still lie ahead.
pub open spec fn before_login(p: PhaseV) -> bool {
    ||| p is CreatingDir
    ||| p is BuildingClient
    ||| p is LoadingSession
}

/// In any run of the machine, from any phase and under any events, an
/// interactive login is requested at most once; once the machine has moved
/// past the session-file check, never again.
pub proof fn lemma_fresh_login_at_most_once(p: PhaseV, events: Seq<EventV>)
    ensures
        fresh_login_count(run_actions(p, events)) <= 1,
        !before_login(p) ==> fresh_login_count(run_actions(p, events)) == 0,
    decreases events.len(),
{
    if events.len() == 0 {
    } else {
        let s = step_v(p, events[0]);
        let first = (match s.1 {
            Option::Some(a) => seq![a],
            Option::None => Seq::<ActionV>::empty(),
        });
        lemma_fresh_login_at_most_once(s.0, events.skip(1));
        lemma_fresh_count_concat(first, run_actions(s.0, events.skip(1)));
        lemma_fresh_login_only_on_absence(p, events[0]);
        if s.1 matches Option::Some(a) && a is FreshLogin {
            assert(!before_login(s.0));
            assert(fresh_login_count(first) == 1) by {
                assert(fresh_login_count(Seq::<ActionV>::empty()) == 0);
                assert(first.skip(1) =~= Seq::<ActionV>::empty());
            }
        } else {
            assert(fresh_login_count(first) == 0) by {
                assert(fresh_login_count(Seq::<ActionV>::empty()) == 0);
                if s.1 is Some {
                    assert(first.skip(1) =~= Seq::<ActionV>::empty());
                }
            }
        }
        if !before_login(p) {
            assert(!before_login(s.0));
        }
    }
}

/// The password leaves the machine only inside a fresh interactive login,
/// and that is requested only when the session file was reported absent: a
/// run whose events never report it absent never sends the password.
pub proof fn lemma_no_fresh_login_without_absence(p: PhaseV, events: Seq<EventV>)
    requires
        forall|i: int| 0 <= i < events.len() ==> !(events[i] is SessionFileAbsent),
    ensures
        fresh_login_count(run_actions(p, events)) == 0,
    decreases events.len(),
{
    if events.len() == 0 {
    } else {
        let s = step_v(p, events[0]);
        let first = (match s.1 {
            Option::Some(a) => seq![a],
            Option::None => Seq::<ActionV>::empty(),
        });
        assert(forall|i: int|
            0 <= i < events.skip(1).len() ==> !(events.skip(1)[i] is SessionFileAbsent));
        lemma_no_fresh_login_without_absence(s.0, events.skip(1));
        lemma_fresh_count_concat(first, run_actions(s.0, events.skip(1)));
        lemma_fresh_login_only_on_absence(p, events[0]);
        assert(fresh_login_count(first) == 0) by {
            assert(fresh_login_count(Seq::<ActionV>::empty()) == 0);
            if s.1 is Some {
                assert(first.skip(1) =~= Seq::<ActionV>::empty());
            }
        }
    }
}

/// A failed construction is final: whatever events still arrive, the error
/// stays what it was and no further action is ever requested.
pub proof fn lemma_failed_is_final(err: Error, events: Seq<EventV>)
    ensures
        run_state(PhaseV::Failed { error: err }, events) == (PhaseV::Failed { error: err }),
        run_actions(PhaseV::Failed { error: err }, events) =~= Seq::<ActionV>::empty(),
    decreases events.len(),
{
    if events.len() == 0 {
    } else {
        lemma_failed_is_final(err, events.skip(1));
        assert(run_actions(PhaseV::Failed { error: err }, events) =~= Seq::<ActionV>::empty());
    }
}

/// A session file with undecodable content fails the construction with
/// `CorruptSession`; the machine does not fall back to a fresh login — it
/// requests nothing further at all, whatever events still arrive.
pub proof fn lemma_corrupt_session_fails(
    user: UserIdView,
    password: Seq<char>,
    device_name: Seq<char>,
    contents: Seq<char>,
    later: Seq<EventV>,
)
    requires
        parse_spec(contents) is None,
    ensures
        ({
            let p = PhaseV::LoadingSession { user, password, device_name };
            let s = step_v(p, EventV::SessionFileFound { contents });
            &&& s.0 == (PhaseV::Failed { error: Error::CorruptSession })
            &&& s.1 is None
            &&& run_state(s.0, later) == (PhaseV::Failed { error: Error::CorruptSession })
            &&& run_actions(s.0, later) =~= Seq::<ActionV>::empty()
        }),
{
    lemma_failed_is_final(Error::CorruptSession, later);
}

/// After either login branch succeeds, the text the machine asks to write to
/// the session file decodes back to exactly the session that was
/// established.
pub proof fn lemma_saved_file_decodes(p: PhaseV, record: SessionRecordView)
    requires
        p is LoggingInFresh || p is LoggingInResume,
    ensures
        ({
            let s = step_v(p, EventV::LoginSucceeded { record });
            &&& s.0 == (PhaseV::SavingSession { record })
            &&& s.1 matches Option::Some(a) && a matches ActionV::SaveSessionFile { contents }
                && crate::session::parse_spec(contents) == Option::Some(record)
        }),
{
    crate::session::lemma_session_round_trip(record);
}

/// A fresh start: when the driver reports no session file, a successful run
/// performs exactly one interactive login and exactly one save of the newly
/// established record, in this order, and completes with that record.
pub proof fn lemma_fresh_run(
    user: UserIdView,
    password: Seq<char>,
    device_name: Seq<char>,
    record: SessionRecordView,
)
    ensures
        ({
            let p0 = PhaseV::CreatingDir { user, password, device_name };
            let events = seq![
                EventV::DirCreated,
                EventV::ClientBuilt,
                EventV::SessionFileAbsent,
                EventV::LoginSucceeded { record },
                EventV::SessionSaved,
            ];
            &&& run_state(p0, events) == (PhaseV::Ready { record })
            &&& run_actions(p0, events) =~= seq![
                ActionV::BuildClient { server_name: user.domain },
                ActionV::ReadSessionFile,
                ActionV::FreshLogin { localpart: user.localpart, password, device_name },
                ActionV::SaveSessionFile { contents: encode_spec(record) },
            ]
        }),
{
    let p0 = PhaseV::CreatingDir { user, password, device_name };
    let events = seq![
        EventV::DirCreated,
        EventV::ClientBuilt,
        EventV::SessionFileAbsent,
        EventV::LoginSucceeded { record },
        EventV::SessionSaved,
    ];
    let e1 = events.skip(1);
    let e2 = events.skip(2);
    let e3 = events.skip(3);
    let e4 = events.skip(4);
    let e5 = events.skip(5);
    assert(e1 =~= seq![
        EventV::ClientBuilt,
        EventV::SessionFileAbsent,
        EventV::LoginSucceeded { record },
        EventV::SessionSaved,
    ]);
    assert(e2 =~= seq![
        EventV::SessionFileAbsent,
        EventV::LoginSucceeded { record },
        EventV::SessionSaved,
    ]);
    assert(e3 =~= seq![EventV::LoginSucceeded { record }, EventV::SessionSaved]);
    assert(e4 =~= seq![EventV::SessionSaved]);
    assert(e5 =~= Seq::<EventV>::empty());
    assert(e1.skip(1) =~= e2);
    assert(e2.skip(1) =~= e3);
    assert(e3.skip(1) =~= e4);
    assert(e4.skip(1) =~= e5);
    let p1 = PhaseV::BuildingClient { user, password, device_name };
    let p2 = PhaseV::LoadingSession { user, password, device_name };
    let p3 = PhaseV::LoggingInFresh;
    let p4 = PhaseV::SavingSession { record };
    let p5 = PhaseV::Ready { record };
    assert(step_v(p0, events[0]) == (p1, Option::Some(
        ActionV::BuildClient { server_name: user.domain },
    )));
    assert(step_v(p1, e1[0]) == (p2, Option::Some(ActionV::ReadSessionFile)));
    assert(step_v(p2, e2[0]) == (p3, Option::Some(
        ActionV::FreshLogin { localpart: user.localpart, password, device_name },
    )));
    assert(step_v(p3, e3[0]) == (p4, Option::Some(
        ActionV::SaveSessionFile { contents: encode_spec(record) },
    )));
    assert(step_v(p4, e4[0]) == (p5, Option::None::<ActionV>));
    assert(run_state(p0, events) == run_state(p1, e1));
    assert(run_state(p1, e1) == run_state(p2, e2));
    assert(run_state(p2, e2) == run_state(p3, e3));
    assert(run_state(p3, e3) == run_state(p4, e4));
    assert(run_state(p4, e4) == run_state(p5, e5));
    assert(run_state(p5, e5) == p5);
    let act0 = ActionV::BuildClient { server_name: user.domain };
    let act1 = ActionV::ReadSessionFile;
    let act2 = ActionV::FreshLogin { localpart: user.localpart, password, device_name };
    let act3 = ActionV::SaveSessionFile { contents: encode_spec(record) };
    assert(run_actions(p0, events) =~= seq![act0] + run_actions(p1, e1));
    assert(run_actions(p1, e1) =~= seq![act1] + run_actions(p2, e2));
    assert(run_actions(p2, e2) =~= seq![act2] + run_actions(p3, e3));
    assert(run_actions(p3, e3) =~= seq![act3] + run_actions(p4, e4));
    assert(run_actions(p4, e4) =~= Seq::<ActionV>::empty() + run_actions(p5, e5));
    assert(run_actions(p5, e5) =~= Seq::<ActionV>::empty());
    assert(run_actions(p0, events) =~= seq![act0, act1, act2, act3]);
}

/// A resume: when the driver finds a decodable session file, a successful
/// run logs in from the stored record — an action that carries no password —
/// and saves the re-established session; it never performs an interactive
/// login.
pub proof fn lemma_resume_run(
    user: UserIdView,
    password: Seq<char>,
    device_name: Seq<char>,
    contents: Seq<char>,
    stored: SessionRecordView,
    record: SessionRecordView,
)
    requires
        parse_spec(contents) == Option::Some(stored),
    ensures
        ({
            let p0 = PhaseV::CreatingDir { user, password, device_name };
            let events = seq![
                EventV::DirCreated,
                EventV::ClientBuilt,
                EventV::SessionFileFound { contents },
                EventV::LoginSucceeded { record },
                EventV::SessionSaved,
            ];
            &&& run_state(p0, events) == (PhaseV::Ready { record })
            &&& run_actions(p0, events) =~= seq![
                ActionV::BuildClient { server_name: user.domain },
                ActionV::ReadSessionFile,
                ActionV::ResumeLogin { record: stored },
                ActionV::SaveSessionFile { contents: encode_spec(record) },
            ]
            &&& fresh_login_count(run_actions(p0, events)) == 0
        }),
{
    let p0 = PhaseV::CreatingDir { user, password, device_name };
    let events = seq![
        EventV::DirCreated,
        EventV::ClientBuilt,
        EventV::SessionFileFound { contents },
        EventV::LoginSucceeded { record },
        EventV::SessionSaved,
    ];
    let e1 = events.skip(1);
    let e2 = events.skip(2);
    let e3 = events.skip(3);
    let e4 = events.skip(4);
    let e5 = events.skip(5);
    assert(e1 =~= seq![
        EventV::ClientBuilt,
        EventV::SessionFileFound { contents },
        EventV::LoginSucceeded { record },
        EventV::SessionSaved,
    ]);
    assert(e2 =~= seq![
        EventV::SessionFileFound { contents },
        EventV::LoginSucceeded { record },
        EventV::SessionSaved,
    ]);
    assert(e3 =~= seq![EventV::LoginSucceeded { record }, EventV::SessionSaved]);
    assert(e4 =~= seq![EventV::SessionSaved]);
    assert(e5 =~= Seq::<EventV>::empty());
    assert(e1.skip(1) =~= e2);
    assert(e2.skip(1) =~= e3);
    assert(e3.skip(1) =~= e4);
    assert(e4.skip(1) =~= e5);
    let p1 = PhaseV::BuildingClient { user, password, device_name };
    let p2 = PhaseV::LoadingSession { user, password, device_name };
    let p3 = PhaseV::LoggingInResume;
    let p4 = PhaseV::SavingSession { record };
    let p5 = PhaseV::Ready { record };
    assert(step_v(p0, events[0]) == (p1, Option::Some(
        ActionV::BuildClient { server_name: user.domain },
    )));
    assert(step_v(p1, e1[0]) == (p2, Option::Some(ActionV::ReadSessionFile)));
    assert(step_v(p2, e2[0]) == (p3, Option::Some(ActionV::ResumeLogin { record: stored })));
    assert(step_v(p3, e3[0]) == (p4, Option::Some(
        ActionV::SaveSessionFile { contents: encode_spec(record) },
    )));
    assert(step_v(p4, e4[0]) == (p5, Option::None::<ActionV>));
    assert(run_state(p0, events) == run_state(p1, e1));
    assert(run_state(p1, e1) == run_state(p2, e2));
    assert(run_state(p2, e2) == run_state(p3, e3));
    assert(run_state(p3, e3) == run_state(p4, e4));
    assert(run_state(p4, e4) == run_state(p5, e5));
    assert(run_state(p5, e5) == p5);
    let act0 = ActionV::BuildClient { server_name: user.domain };
    let act1 = ActionV::ReadSessionFile;
    let act2 = ActionV::ResumeLogin { record: stored };
    let act3 = ActionV::SaveSessionFile { contents: encode_spec(record) };
    assert(run_actions(p0, events) =~= seq![act0] + run_actions(p1, e1));
    assert(run_actions(p1, e1) =~= seq![act1] + run_actions(p2, e2));
    assert(run_actions(p2, e2) =~= seq![act2] + run_actions(p3, e3));
    assert(run_actions(p3, e3) =~= seq![act3] + run_actions(p4, e4));
    assert(run_actions(p4, e4) =~= Seq::<ActionV>::empty() + run_actions(p5, e5));
    assert(run_actions(p5, e5) =~= Seq::<ActionV>::empty());
    let acts = seq![act0, act1, act2, act3];
    assert(run_actions(p0, events) =~= acts);
    assert(forall|i: int| 0 <= i < events.len() ==> !(events[i] is SessionFileAbsent));
    lemma_no_fresh_login_without_absence(p0, events);
}

} // verus!
