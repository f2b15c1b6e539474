//! Sessions: the credential that a store connection runs on, when it runs
//! out, and when to renew it.
//!
//! Time is a count of seconds on a clock that the caller reads; the module
//! never looks at a clock itself.

use vstd::prelude::*;
use vstd::string::*;

verus! {

/// The seconds that a credential still has at `now`.
pub open spec fn remaining(expiry: u64, now: u64) -> u64 {
    if now < expiry {
        (expiry - now) as u64
    } else {
        0
    }
}

/// The rest between two attempts to renew a credential that has run out.
pub const RETRY_REST: u64 = 1;

/// How long the renewal task rests before it renews: half of what the
/// credential still has. Once the credential has run out there is nothing
/// left to take a part of, and the task rests `RETRY_REST` seconds between
/// its attempts.
pub open spec fn renewal_delay(expiry: u64, now: u64) -> u64 {
    if now < expiry {
        remaining(expiry, now) / 2
    } else {
        RETRY_REST
    }
}

/// One authenticated connection to one store.
pub struct StoreSession {
    address: String,
    credential: String,
    expiry: u64,
}

/// A session as contracts see it.
pub struct StoreSessionView {
    pub address: Seq<char>,
    pub credential: Seq<char>,
    pub expiry: u64,
}

impl View for StoreSession {
    type V = StoreSessionView;

    closed spec fn view(&self) -> StoreSessionView {
        StoreSessionView {
            address: self.address@,
            credential: self.credential@,
            expiry: self.expiry,
        }
    }
}

/// What a call on the store needs from the session.
#[derive(Clone, Debug, PartialEq, Eq)]
pub struct Access {
    pub address: String,
    pub credential: String,
}

/// Why a session gives no access.
#[derive(Clone, Copy, Debug, PartialEq, Eq, Structural)]
pub enum SessionError {
    /// The credential has run out.
    Expired,
}

/// What a successful renewal brings.
#[derive(Clone, Debug, PartialEq, Eq)]
pub struct Renewal {
    pub credential: String,
    pub expiry: u64,
}

/// What the renewal task does next.
#[derive(Clone, Debug, PartialEq, Eq)]
pub enum RenewalStep {
    /// Rest for so many seconds.
    Sleep { seconds: u64 },
    /// Ask the store to renew this credential.
    Renew { credential: String },
}

/// A renewal step as contracts see it.
pub enum RenewalStepView {
    Sleep { seconds: u64 },
    Renew { credential: Seq<char> },
}

impl View for RenewalStep {
    type V = RenewalStepView;

    open spec fn view(&self) -> RenewalStepView {
        match self {
            RenewalStep::Sleep { seconds } => RenewalStepView::Sleep { seconds: *seconds },
            RenewalStep::Renew { credential } => RenewalStepView::Renew {
                credential: credential@,
            },
        }
    }
}

/// The renewal task of one store. It rests, renews, and rests again, for as
/// long as the process lives; whether a renewal worked does not change that.
#[derive(Clone, Copy, Debug, PartialEq, Eq, Structural)]
pub enum RenewalTask {
    /// About to rest.
    Resting,
    /// Rested; the renewal is due.
    Due,
}

impl StoreSession {
    /// A session on the store at `address`, whose credential runs out at
    /// `expiry`.
    pub fn open(address: &str, credential: &str, expiry: u64) -> (session: StoreSession)
        ensures
            session@ == (StoreSessionView { address: address@, credential: credential@, expiry }),
    {
        StoreSession {
            address: String::from_str(address),
            credential: String::from_str(credential),
            expiry,
        }
    }

    /// The seconds that the credential still has at `now`.
    pub fn remaining(&self, now: u64) -> (r: u64)
        ensures
            r == remaining(self@.expiry, now),
    {
        if now < self.expiry {
            self.expiry - now
        } else {
            0
        }
    }

    /// Whether the credential has run out at `now`.
    pub fn is_expired(&self, now: u64) -> (r: bool)
        ensures
            r == (now >= self@.expiry),
    {
        now >= self.expiry
    }

    /// How long to rest at `now` before the next renewal.
    pub fn renewal_delay(&self, now: u64) -> (r: u64)
        ensures
            r == renewal_delay(self@.expiry, now),
    {
        if now < self.expiry {
            self.remaining(now) / 2
        } else {
            RETRY_REST
        }
    }

    /// What a call on the store needs, for as long as the credential lasts.
    /// Once it has run out, every call is refused as unauthenticated.
    pub fn acquire(&self, now: u64) -> (r: Result<Access, SessionError>)
        ensures
            r is Ok <==> now < self@.expiry,
            r matches Ok(access) ==> access.address@ == self@.address && access.credential@
                == self@.credential,
            r matches Err(error) ==> error == SessionError::Expired,
    {
        if now < self.expiry {
            Ok(Access { address: self.address.clone(), credential: self.credential.clone() })
        } else {
            Err(SessionError::Expired)
        }
    }

    /// Takes in the outcome of a renewal. A renewal that worked replaces the
    /// credential and its expiry together; one that failed leaves the session
    /// as it was.
    pub fn absorb(&mut self, outcome: Option<Renewal>) -> (renewed: bool)
        ensures
            renewed == outcome is Some,
            final(self)@ == match outcome {
                Some(renewal) => StoreSessionView {
                    credential: renewal.credential@,
                    expiry: renewal.expiry,
                    ..old(self)@
                },
                None => old(self)@,
            },
    {
        match outcome {
            Some(renewal) => {
                let Renewal { credential, expiry } = renewal;
                self.credential = credential;
                self.expiry = expiry;
                true
            },
            None => false,
        }
    }
}

impl RenewalTask {
    /// A task that is about to rest.
    pub fn new() -> (task: RenewalTask)
        ensures
            task == RenewalTask::Resting,
    {
        RenewalTask::Resting
    }

    /// What to do next at `now`. A task that is about to rest says for how
    /// long, and the renewal is then due; a task whose renewal is due says
    /// which credential to renew, and then rests again.
    pub fn step(&mut self, session: &StoreSession, now: u64) -> (r: RenewalStep)
        ensures
            *old(self) == RenewalTask::Resting ==> *final(self) == RenewalTask::Due && r@ == (
            RenewalStepView::Sleep { seconds: renewal_delay(session@.expiry, now) }),
            *old(self) == RenewalTask::Due ==> *final(self) == RenewalTask::Resting && r@ == (
            RenewalStepView::Renew { credential: session@.credential }),
    {
        match *self {
            RenewalTask::Resting => {
                *self = RenewalTask::Due;
                RenewalStep::Sleep { seconds: session.renewal_delay(now) }
            },
            RenewalTask::Due => {
                *self = RenewalTask::Resting;
                RenewalStep::Renew { credential: session.credential.clone() }
            },
        }
    }
}

/// The rest before a renewal never outlasts the credential: a task that
/// rests at `now`, while the credential lasts, is due before the expiry. The
/// rest is a true part of what remains wherever two seconds or more remain;
/// with one second left the task renews at once.
pub proof fn renewal_comes_before_expiry(expiry: u64, now: u64)
    requires
        now < expiry,
    ensures
        now + renewal_delay(expiry, now) < expiry,
        remaining(expiry, now) >= 2 ==> 0 < renewal_delay(expiry, now) < remaining(expiry, now),
{
}

/// A task whose credential has run out does not renew without rest.
pub proof fn expired_credential_is_retried_with_rest(expiry: u64, now: u64)
    requires
        now >= expiry,
    ensures
        renewal_delay(expiry, now) == RETRY_REST,
        renewal_delay(expiry, now) > 0,
{
}

} // verus!
