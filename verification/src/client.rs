//! The settings of a client, and the rules by which it retries a request.
//!
//! Sending a request and waiting between attempts are left to the caller.
//! What is decided here is what follows each attempt: the call is done, it
//! has failed for good, or the request is sent once more after a pause.

use crate::sorted::{ascending, contains_item, insert_sorted};
use vstd::prelude::*;

verus! {

/// Why a client could not be built.
#[derive(Debug, Clone, Copy, PartialEq, Eq, Structural)]
pub enum Error {
    /// The transport could not be set up.
    ClientConfig,
    /// The request for a session answered with this error status.
    Status(u16),
    /// The request for a session could not be made.
    Request,
    /// No cookie of the answer carries a session id.
    SetCookieMissing,
    /// A cookie of the answer is not text.
    HeadersUtf8,
    /// The session id of the answer has the wrong length.
    SetCookieLen,
    /// No credential was given.
    ApiKey,
}

/// Number of retries of a client that was given none.
pub const DEFAULT_MAX_RETRIES: usize = 3;

/// Pause between attempts, in milliseconds, of a client that was given none.
pub const DEFAULT_RETRY_TIMEOUT_MS: u64 = 1000;

/// The status with which the service answers a request that carries no
/// session.
pub const UNAUTHORIZED: u16 = 401;

/// Settings from which a client is built.
pub struct ClientOptions {
    retry_timeout: Option<u64>,
    max_retries: Option<usize>,
    api_keys: Vec<String>,
    dont_retry: Vec<u16>,
}

/// What the settings hold.
pub struct ClientOptionsView {
    /// Pause between attempts in milliseconds, if one was set.
    pub retry_timeout: Option<u64>,
    /// Largest number of retries of one call, if one was set.
    pub max_retries: Option<usize>,
    /// The credentials, in the order in which they were given.
    pub api_keys: Seq<Seq<char>>,
    /// The statuses that are not retried, as they were given.
    pub dont_retry: Seq<u16>,
}

impl View for ClientOptions {
    type V = ClientOptionsView;

    closed spec fn view(&self) -> ClientOptionsView {
        ClientOptionsView {
            retry_timeout: self.retry_timeout,
            max_retries: self.max_retries,
            api_keys: self.api_keys.deep_view(),
            dont_retry: self.dont_retry@,
        }
    }
}

impl ClientOptions {
    /// Settings with nothing set.
    pub fn new() -> (options: Self)
        ensures
            options@ == (ClientOptionsView {
                retry_timeout: None,
                max_retries: None,
                api_keys: Seq::empty(),
                dont_retry: Seq::empty(),
            }),
    {
        let options = ClientOptions {
            retry_timeout: None,
            max_retries: None,
            api_keys: Vec::new(),
            dont_retry: Vec::new(),
        };
        assert(options.api_keys.deep_view() =~= Seq::empty());
        options
    }

    /// Sets the largest number of retries of one call.
    pub fn retries(&mut self, retries: usize) -> (options: &mut Self)
        ensures
            options@ == (ClientOptionsView { max_retries: Some(retries), ..old(self)@ }),
            *final(self) == *final(options),
    {
        self.max_retries = Some(retries);
        self
    }

    /// Sets the pause between attempts, in milliseconds.
    pub fn retry_timeout_ms(&mut self, ms: u64) -> (options: &mut Self)
        ensures
            options@ == (ClientOptionsView { retry_timeout: Some(ms), ..old(self)@ }),
            *final(self) == *final(options),
    {
        self.retry_timeout = Some(ms);
        self
    }

    /// Adds a status that is not retried.
    pub fn dont_retry(&mut self, code: u16) -> (options: &mut Self)
        ensures
            options@ == (ClientOptionsView {
                dont_retry: old(self)@.dont_retry.push(code),
                ..old(self)@
            }),
            *final(self) == *final(options),
    {
        self.dont_retry.push(code);
        self
    }

    /// Adds statuses that are not retried.
    pub fn dont_retries(&mut self, codes: Vec<u16>) -> (options: &mut Self)
        ensures
            options@ == (ClientOptionsView {
                dont_retry: old(self)@.dont_retry + codes@,
                ..old(self)@
            }),
            *final(self) == *final(options),
    {
        let mut codes = codes;
        self.dont_retry.append(&mut codes);
        self
    }

    /// Adds the status of a request without session to those that are not
    /// retried.
    pub fn dont_retry_unauthorized(&mut self) -> (options: &mut Self)
        ensures
            options@ == (ClientOptionsView {
                dont_retry: old(self)@.dont_retry.push(UNAUTHORIZED),
                ..old(self)@
            }),
            *final(self) == *final(options),
    {
        self.dont_retry.push(UNAUTHORIZED);
        self
    }

    /// Adds a credential.
    pub fn api_key(&mut self, key: String) -> (options: &mut Self)
        ensures
            options@ == (ClientOptionsView {
                api_keys: old(self)@.api_keys.push(key@),
                ..old(self)@
            }),
            *final(self) == *final(options),
    {
        let ghost before = self.api_keys.deep_view();
        self.api_keys.push(key);
        assert(self.api_keys.deep_view() =~= before.push(key@));
        self
    }

    /// Adds credentials.
    pub fn api_keys(&mut self, keys: Vec<String>) -> (options: &mut Self)
        ensures
            options@ == (ClientOptionsView {
                api_keys: old(self)@.api_keys + keys.deep_view(),
                ..old(self)@
            }),
            *final(self) == *final(options),
    {
        let ghost before = self.api_keys.deep_view();
        let ghost added = keys.deep_view();
        let mut keys = keys;
        self.api_keys.append(&mut keys);
        assert(self.api_keys.deep_view() =~= before + added);
        self
    }

    /// The client that these settings describe, with the session id that
    /// the service handed out. Without a credential there is no client.
    pub fn build(&self, session_id: String) -> (client: Result<Client, Error>)
        ensures
            self@.api_keys.len() == 0 ==> client == Err::<Client, Error>(Error::ApiKey),
            self@.api_keys.len() > 0 ==> client is Ok && client.unwrap()@ == (ClientView {
                retry_timeout: match self@.retry_timeout {
                    Some(ms) => ms,
                    None => DEFAULT_RETRY_TIMEOUT_MS,
                },
                max_retries: match self@.max_retries {
                    Some(retries) => retries,
                    None => DEFAULT_MAX_RETRIES,
                },
                dont_retry: Set::new(|code: u16| self@.dont_retry.contains(code)),
                session_id: session_id@,
                api_keys: self@.api_keys,
                retries: 0,
            }),
    {
        if self.api_keys.len() == 0 {
            return Err(Error::ApiKey);
        }
        let mut dont_retry: Vec<u16> = Vec::new();
        let mut i: usize = 0;
        while i < self.dont_retry.len()
            invariant
                i <= self.dont_retry.len(),
                ascending(dont_retry@),
                forall|code: u16|
                    dont_retry@.contains(code) <==> self.dont_retry@.subrange(0, i as int).contains(
                        code,
                    ),
            decreases self.dont_retry.len() - i,
        {
            let ghost seen = self.dont_retry@.subrange(0, i as int);
            let ghost grown = self.dont_retry@.subrange(0, i + 1);
            let code = self.dont_retry[i];
            insert_sorted(&mut dont_retry, code);
            proof {
                assert(grown == seen.push(code));
                assert forall|c: u16| dont_retry@.contains(c) <==> grown.contains(c) by {
                    if grown.contains(c) {
                        let k = choose|k: int| 0 <= k < grown.len() && grown[k] == c;
                        if k < seen.len() {
                            assert(seen[k] == c);
                        }
                    }
                    if seen.contains(c) {
                        let k = choose|k: int| 0 <= k < seen.len() && seen[k] == c;
                        assert(grown[k] == c);
                    }
                    assert(grown[seen.len() as int] == code);
                }
            }
            i = i + 1;
        }
        proof {
            assert(self.dont_retry@.subrange(0, i as int) == self.dont_retry@);
        }
        let retry_timeout = match self.retry_timeout {
            Some(ms) => ms,
            None => DEFAULT_RETRY_TIMEOUT_MS,
        };
        let max_retries = match self.max_retries {
            Some(retries) => retries,
            None => DEFAULT_MAX_RETRIES,
        };
        let api_keys = self.api_keys.clone();
        assert(api_keys.deep_view() =~= self.api_keys.deep_view());
        let client = Client {
            retry_timeout,
            max_retries,
            dont_retry,
            session_id,
            api_keys,
            retries: 0,
        };
        assert(client@.dont_retry =~= Set::new(|code: u16| self@.dont_retry.contains(code)));
        Ok(client)
    }
}

impl Default for ClientOptions {
    fn default() -> (options: Self)
        ensures
            options@ == (ClientOptionsView {
                retry_timeout: None,
                max_retries: None,
                api_keys: Seq::empty(),
                dont_retry: Seq::empty(),
            }),
    {
        ClientOptions::new()
    }
}

/// Why one attempt of a request failed.
#[derive(Debug, Clone, Copy, PartialEq, Eq, Structural)]
pub enum RequestError {
    /// The request did not get an answer.
    Transport,
    /// The answer carries this error status.
    Status(u16),
    /// The answer does not have the expected shape.
    Decode,
}

/// What follows an attempt.
#[derive(Debug, Clone, Copy, PartialEq, Eq, Structural)]
pub enum RetryStep {
    /// The attempt succeeded; the call is done.
    Done,
    /// The call has failed with this error, the one of the last attempt.
    Failed(RequestError),
    /// The request is sent once more after a pause of this many
    /// milliseconds.
    Retry { delay_ms: u64 },
}

/// The error of an outcome, if it is a failure.
pub open spec fn failure_of<T>(outcome: Result<T, RequestError>) -> Option<RequestError> {
    match outcome {
        Ok(_) => None,
        Err(error) => Some(error),
    }
}

/// Whether the attempt that `attempt` makes after `retried` retries can have
/// an outcome after which the client retries.
pub open spec fn may_retry_after<T, A: Fn(usize) -> Result<T, RequestError>>(
    client: ClientView,
    attempt: A,
    retried: usize,
) -> bool {
    exists|outcome: Result<T, RequestError>|
        #[trigger] call_ensures(attempt, (retried,), outcome) && client.step(
            retried as nat,
            failure_of(outcome),
        ) is Retry
}

/// What holds of a call that `before` carried out with `attempt`, that
/// ended with the outcome `done.0` after `done.1` retries and left the
/// client as `after`: the retries stayed within the bound, the outcome is
/// that of the last attempt and is not one to retry after, each earlier
/// attempt had an outcome to retry after, and each retry was counted.
pub open spec fn carried_out<T, A: Fn(usize) -> Result<T, RequestError>>(
    before: ClientView,
    attempt: A,
    done: (Result<T, RequestError>, usize),
    after: ClientView,
) -> bool {
    &&& done.1 <= before.max_retries
    &&& call_ensures(attempt, (done.1,), done.0)
    &&& !(before.step(done.1 as nat, failure_of(done.0)) is Retry)
    &&& forall|k: usize| k < done.1 ==> #[trigger] may_retry_after(before, attempt, k)
    &&& after == before.counted_by(done.1 as nat)
}

/// A client: its settings, its session and the count of its retries.
pub struct Client {
    retry_timeout: u64,
    max_retries: usize,
    dont_retry: Vec<u16>,
    session_id: String,
    api_keys: Vec<String>,
    retries: usize,
}

/// What a client holds.
pub struct ClientView {
    /// Pause between attempts, in milliseconds.
    pub retry_timeout: u64,
    /// Largest number of retries of one call.
    pub max_retries: usize,
    /// The statuses that are not retried.
    pub dont_retry: Set<u16>,
    /// The session id that the service handed out.
    pub session_id: Seq<char>,
    /// The credentials; there is at least one, and the first is the one
    /// in use.
    pub api_keys: Seq<Seq<char>>,
    /// Retries counted since the client was built or the count was reset.
    pub retries: usize,
}

impl ClientView {
    /// Whether an attempt that failed with `error` may be repeated: an
    /// answer of the wrong shape never, an error status unless it is one of
    /// those not to retry, a failure without answer always.
    pub open spec fn retryable(self, error: RequestError) -> bool {
        match error {
            RequestError::Transport => true,
            RequestError::Status(code) => !self.dont_retry.contains(code),
            RequestError::Decode => false,
        }
    }

    /// What follows the attempt that was made after `retried` retries and
    /// that failed with `failure`, or succeeded where there is none.
    pub open spec fn step(self, retried: nat, failure: Option<RequestError>) -> RetryStep {
        match failure {
            None => RetryStep::Done,
            Some(error) => if self.retryable(error) && retried < self.max_retries {
                RetryStep::Retry { delay_ms: self.retry_timeout }
            } else {
                RetryStep::Failed(error)
            },
        }
    }

    /// The same client with `retries` more retries counted.
    pub open spec fn counted_by(self, retries: nat) -> ClientView
        decreases retries,
    {
        if retries == 0 {
            self
        } else {
            self.counted_by((retries - 1) as nat).counted()
        }
    }

    /// The same client with one more retry counted. The count wraps around
    /// at the largest number it can hold.
    pub open spec fn counted(self) -> ClientView {
        ClientView {
            retries: if self.retries == usize::MAX {
                0
            } else {
                (self.retries + 1) as usize
            },
            ..self
        }
    }

    /// Counting retries changes the count and nothing else, so the rules
    /// of the client stay what they were; as long as the count does not
    /// wrap around, it grows by the number of retries counted.
    pub proof fn lemma_counting_keeps_rules(self, retries: nat)
        ensures
            self.counted_by(retries) == (ClientView {
                retries: self.counted_by(retries).retries,
                ..self
            }),
            self.retries + retries <= usize::MAX ==> self.counted_by(retries).retries
                == self.retries + retries,
        decreases retries,
    {
        if retries > 0 {
            self.lemma_counting_keeps_rules((retries - 1) as nat);
        }
    }
}

impl View for Client {
    type V = ClientView;

    closed spec fn view(&self) -> ClientView {
        ClientView {
            retry_timeout: self.retry_timeout,
            max_retries: self.max_retries,
            dont_retry: Set::new(|code: u16| self.dont_retry@.contains(code)),
            session_id: self.session_id@,
            api_keys: self.api_keys.deep_view(),
            retries: self.retries,
        }
    }
}

impl Client {
    #[verifier::type_invariant]
    spec fn well_formed(self) -> bool {
        self.api_keys.len() > 0 && ascending(self.dont_retry@)
    }

    /// Decides what follows the attempt that was made after `retried`
    /// retries.
    pub fn decide(&self, retried: usize, failure: Option<RequestError>) -> (step: RetryStep)
        ensures
            step == self@.step(retried as nat, failure),
    {
        match failure {
            None => RetryStep::Done,
            Some(error) => {
                let retryable = match error {
                    RequestError::Transport => true,
                    RequestError::Status(code) => !contains_item(&self.dont_retry, code),
                    RequestError::Decode => false,
                };
                if retryable && retried < self.max_retries {
                    RetryStep::Retry { delay_ms: self.retry_timeout }
                } else {
                    RetryStep::Failed(error)
                }
            },
        }
    }

    /// Decides what follows an attempt, and counts the retry where one
    /// follows.
    pub fn next_step(&mut self, retried: usize, failure: Option<RequestError>) -> (step: RetryStep)
        ensures
            step == old(self)@.step(retried as nat, failure),
            final(self)@ == (if step is Retry {
                old(self)@.counted()
            } else {
                old(self)@
            }),
    {
        proof {
            use_type_invariant(&*self);
        }
        let step = self.decide(retried, failure);
        match step {
            RetryStep::Retry { .. } => {
                self.retries = self.retries.wrapping_add(1);
            },
            _ => {},
        }
        step
    }

    /// Carries out one call: makes attempts until one succeeds or fails for
    /// good, pausing before each retry and counting it. `attempt` is handed
    /// the number of retries made so far; `wait` is handed the pause in
    /// milliseconds. Answers with the outcome of the last attempt and the
    /// number of retries.
    pub fn run<T, A, W>(&mut self, attempt: A, wait: W) -> (done: (Result<T, RequestError>, usize))
        where A: Fn(usize) -> Result<T, RequestError>, W: Fn(u64)
        requires
            forall|retried: usize| call_requires(attempt, (retried,)),
            forall|ms: u64| call_requires(wait, (ms,)),
        ensures
            carried_out(old(self)@, attempt, done, final(self)@),
    {
        let mut retried: usize = 0;
        loop
            invariant
                forall|retried: usize| call_requires(attempt, (retried,)),
                forall|ms: u64| call_requires(wait, (ms,)),
                retried <= old(self)@.max_retries,
                self@ == old(self)@.counted_by(retried as nat),
                forall|k: usize| k < retried ==> #[trigger] may_retry_after(old(self)@, attempt, k),
            decreases old(self)@.max_retries - retried,
        {
            proof {
                old(self)@.lemma_counting_keeps_rules(retried as nat);
            }
            let outcome = attempt(retried);
            let failure = match &outcome {
                Ok(_) => None,
                Err(error) => Some(*error),
            };
            match self.next_step(retried, failure) {
                RetryStep::Retry { delay_ms } => {
                    proof {
                        assert(call_ensures(attempt, (retried,), outcome));
                        assert(may_retry_after(old(self)@, attempt, retried));
                    }
                    wait(delay_ms);
                    retried = retried + 1;
                },
                _ => {
                    return (outcome, retried);
                },
            }
        }
    }

    /// The credential in use: the first one.
    pub fn api_key(&self) -> (key: &str)
        ensures
            self@.api_keys.len() > 0,
            key@ == self@.api_keys[0],
    {
        proof {
            use_type_invariant(self);
        }
        self.api_keys[0].as_str()
    }

    /// The session id.
    pub fn session_id(&self) -> (id: &str)
        ensures
            id@ == self@.session_id,
    {
        self.session_id.as_str()
    }

    /// The retries counted so far.
    pub fn retries(&self) -> (count: usize)
        ensures
            count == self@.retries,
    {
        self.retries
    }

    /// Sets the count of retries back to zero.
    pub fn reset_retries(&mut self)
        ensures
            final(self)@ == (ClientView { retries: 0, ..old(self)@ }),
    {
        proof {
            use_type_invariant(&*self);
        }
        self.retries = 0;
    }

    /// Settings with nothing set, to build a client from.
    pub fn options() -> (options: ClientOptions)
        ensures
            options@ == (ClientOptionsView {
                retry_timeout: None,
                max_retries: None,
                api_keys: Seq::empty(),
                dont_retry: Seq::empty(),
            }),
    {
        ClientOptions::new()
    }
}

/// An attempt that keeps failing with an error that may be retried is
/// repeated until the bound on retries is reached, and not once more.
pub proof fn lemma_retried_up_to_bound(client: ClientView, error: RequestError, retried: nat)
    requires
        client.retryable(error),
    ensures
        retried < client.max_retries ==> client.step(retried, Some(error)) == (RetryStep::Retry {
            delay_ms: client.retry_timeout,
        }),
        retried >= client.max_retries ==> client.step(retried, Some(error)) == RetryStep::Failed(
            error,
        ),
{
}

/// A status that is not to be retried ends the call at once, whatever the
/// bound on retries and however many retries were made; so does an answer
/// of the wrong shape.
pub proof fn lemma_never_retried(client: ClientView, code: u16, retried: nat)
    requires
        client.dont_retry.contains(code),
    ensures
        client.step(retried, Some(RequestError::Status(code))) == RetryStep::Failed(
            RequestError::Status(code),
        ),
        client.step(retried, Some(RequestError::Decode)) == RetryStep::Failed(
            RequestError::Decode,
        ),
{
}

/// A call whose every attempt fails with the same error that may be
/// retried makes exactly as many retries as the bound allows, one attempt
/// more than that, ends with that error, and counts each retry.
pub proof fn lemma_run_always_failing<T, A: Fn(usize) -> Result<T, RequestError>>(
    before: ClientView,
    attempt: A,
    error: RequestError,
    done: (Result<T, RequestError>, usize),
    after: ClientView,
)
    requires
        carried_out(before, attempt, done, after),
        before.retryable(error),
        forall|retried: usize, outcome: Result<T, RequestError>|
            call_ensures(attempt, (retried,), outcome) ==> outcome == Err::<T, RequestError>(error),
    ensures
        done.1 == before.max_retries,
        done.0 == Err::<T, RequestError>(error),
        before.retries + before.max_retries <= usize::MAX ==> after.retries == before.retries
            + before.max_retries,
{
    before.lemma_counting_keeps_rules(done.1 as nat);
}

/// A call whose first attempt fails with a status that is not to be
/// retried, or with an answer of the wrong shape, ends after that one
/// attempt and counts no retry.
pub proof fn lemma_run_not_retried<T, A: Fn(usize) -> Result<T, RequestError>>(
    before: ClientView,
    attempt: A,
    error: RequestError,
    done: (Result<T, RequestError>, usize),
    after: ClientView,
)
    requires
        carried_out(before, attempt, done, after),
        !before.retryable(error),
        forall|outcome: Result<T, RequestError>|
            call_ensures(attempt, (0usize,), outcome) ==> outcome == Err::<T, RequestError>(error),
    ensures
        done.1 == 0,
        done.0 == Err::<T, RequestError>(error),
        after == before,
{
    if done.1 > 0 {
        assert(may_retry_after(before, attempt, 0usize));
    }
}

/// No call makes more retries than the bound, and a call that ends in
/// failure after fewer retries ended on an error that may not be retried.
pub proof fn lemma_run_bounded<T, A: Fn(usize) -> Result<T, RequestError>>(
    before: ClientView,
    attempt: A,
    done: (Result<T, RequestError>, usize),
    after: ClientView,
)
    requires
        carried_out(before, attempt, done, after),
    ensures
        done.1 <= before.max_retries,
        done.0 matches Err(error) ==> (done.1 == before.max_retries || !before.retryable(error)),
        after.retry_timeout == before.retry_timeout,
        after.max_retries == before.max_retries,
        after.dont_retry == before.dont_retry,
        after.api_keys == before.api_keys,
        after.session_id == before.session_id,
{
    before.lemma_counting_keeps_rules(done.1 as nat);
}

} // verus!
