use vstd::prelude::*;
use vstd::string::*;
use crate::errors::Error;

verus! {

/// The cached sync continuation token: an opaque cursor marking everything
/// up to which the server's events have been delivered.
///
/// It is replaced wholesale after a successful catch-up round and read once
/// when the background loop starts; the caller must not run the two
/// concurrently.
pub struct SyncTokenState {
    pub token: Option<String>,
}

impl SyncTokenState {
    /// Before any catch-up call there is no continuation point.
    pub fn new() -> (s: Self)
        ensures
            s.token is None,
    {
        SyncTokenState { token: Option::None }
    }

    /// Record the continuation token returned by a completed sync round,
    /// replacing any earlier one wholesale.
    pub fn record_token(&mut self, next_batch: String)
        ensures
            final(self).token == Option::Some(next_batch),
    {
        self.token = Option::Some(next_batch);
    }

    /// Digest the outcome of one synchronous catch-up round: the returned
    /// continuation token, or its absence when the round failed.
    ///
    /// A token is recorded wholesale; a failure is surfaced as `SyncError`
    /// and leaves the cached token untouched, so the caller may retry the
    /// round independently — it has no persisted side effect.
    pub fn apply_catch_up(&mut self, outcome: Option<String>) -> (r: Result<(), Error>)
        ensures
            match outcome {
                Option::Some(next_batch) => r is Ok && final(self).token == Option::Some(
                    next_batch,
                ),
                Option::None => r is Err && r->Err_0 == Error::SyncError && final(self).token
                    == old(self).token,
            },
    {
        match outcome {
            Option::Some(next_batch) => {
                self.record_token(next_batch);
                Result::Ok(())
            },
            Option::None => Result::Err(Error::SyncError),
        }
    }

    /// The token the background loop is seeded with: the last recorded one,
    /// or none at all, in which case the full historical backlog is
    /// delivered.
    pub fn background_start_token(&self) -> (t: Option<String>)
        ensures
            t is Some <==> self.token is Some,
            t is Some ==> t->0@ == self.token->0@,
    {
        match &self.token {
            Option::Some(tok) => Option::Some(tok.clone()),
            Option::None => Option::None,
        }
    }
}

} // verus!
