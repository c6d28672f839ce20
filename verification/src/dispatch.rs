//! Operations and dispatch: a single-use value describing one protocol
//! step, run against an injected engine, optionally relayed across an
//! asynchronous worker boundary.
//!
//! An operation is wrapped into a zero-information-loss envelope to cross
//! the worker boundary; unwrapping returns a value behaviorally identical
//! to the original, so the run contract is the same whether the operation
//! is invoked synchronously or via the worker. A worker's mailbox is a
//! bounded queue served in submission order; a full mailbox reports the
//! distinct queue-full kind instead of blocking or silently dropping.

use vstd::prelude::*;

use crate::error::WebError;
use crate::request::OAuthRequest;
use crate::response::OAuthResponse;

verus! {

/// The engine's capability contract, as this layer consumes it: one entry
/// per protocol step, each taking a normalized request and answering with
/// a normalized response or an error. Implementors supply the protocol
/// decisions; this layer only carries data to them and back.
pub trait Endpoint {
    /// What running an authorization step against the engine in this
    /// state returns.
    spec fn authorize_outcome(&self, req: OAuthRequest) -> Result<OAuthResponse, WebError>;

    /// What running a refresh step against the engine in this state
    /// returns.
    spec fn refresh_outcome(&self, req: OAuthRequest) -> Result<OAuthResponse, WebError>;

    /// What running a resource-protection check against the engine in
    /// this state returns.
    spec fn resource_outcome(&self, req: OAuthRequest) -> Result<OAuthResponse, WebError>;

    /// What running a token step against the engine in this state
    /// returns.
    spec fn token_outcome(&self, req: OAuthRequest) -> Result<OAuthResponse, WebError>;

    /// Runs an authorization-code step.
    fn authorize(&mut self, req: OAuthRequest) -> (r: Result<OAuthResponse, WebError>)
        ensures
            r == old(self).authorize_outcome(req),
    ;

    /// Runs a token-refresh step.
    fn refresh(&mut self, req: OAuthRequest) -> (r: Result<OAuthResponse, WebError>)
        ensures
            r == old(self).refresh_outcome(req),
    ;

    /// Runs a resource-protection check.
    fn resource(&mut self, req: OAuthRequest) -> (r: Result<OAuthResponse, WebError>)
        ensures
            r == old(self).resource_outcome(req),
    ;

    /// Runs an access-token step.
    fn token(&mut self, req: OAuthRequest) -> (r: Result<OAuthResponse, WebError>)
        ensures
            r == old(self).token_outcome(req),
    ;
}

/// One protocol step, bound to its request. Created holding its
/// parameters, then run exactly once against an engine, which consumes
/// it.
#[derive(Clone, Debug)]
pub enum Operation {
    /// An authorization-code step.
    Authorize(OAuthRequest),
    /// A token-refresh step.
    Refresh(OAuthRequest),
    /// A resource-protection check.
    Resource(OAuthRequest),
    /// An access-token step.
    Token(OAuthRequest),
}

/// What running an operation against an engine in a given state returns:
/// each step is handed to the engine entry that owns it.
pub open spec fn operation_outcome<E: Endpoint>(op: Operation, e: E) -> Result<
    OAuthResponse,
    WebError,
> {
    match op {
        Operation::Authorize(req) => e.authorize_outcome(req),
        Operation::Refresh(req) => e.refresh_outcome(req),
        Operation::Resource(req) => e.resource_outcome(req),
        Operation::Token(req) => e.token_outcome(req),
    }
}

impl Operation {
    /// Runs this operation against the engine, consuming it. The reply is
    /// whatever the engine entry owning this step decides.
    pub fn run<E: Endpoint>(self, endpoint: &mut E) -> (r: Result<OAuthResponse, WebError>)
        ensures
            r == operation_outcome(self, *old(endpoint)),
    {
        match self {
            Operation::Authorize(req) => endpoint.authorize(req),
            Operation::Refresh(req) => endpoint.refresh(req),
            Operation::Resource(req) => endpoint.resource(req),
            Operation::Token(req) => endpoint.token(req),
        }
    }
}

/// The dispatch envelope: wraps a value for the trip to a worker without
/// losing any information.
pub struct OxideMessage<T>(T);

/// The envelope a value is wrapped into: it holds the value and nothing
/// else. This is what [`OxideOperation::wrap`] returns.
pub closed spec fn envelope_of<T>(t: T) -> OxideMessage<T> {
    OxideMessage(t)
}

impl<T> View for OxideMessage<T> {
    type V = T;

    closed spec fn view(&self) -> T {
        self.0
    }
}

impl<T> OxideMessage<T> {
    /// Returns the wrapped value, exactly as it went in.
    pub fn into_inner(self) -> (r: T)
        ensures
            r == self@,
    {
        self.0
    }
}

/// Marks a value that can be sent to a worker for execution: wrapping it
/// in a dispatch envelope loses nothing. Both wrapping and running consume
/// the value, so a consumed operation cannot be wrapped or run again:
/// single use is enforced at the type level, not reported as an error.
pub trait OxideOperation: Sized {
    /// Puts the value into a dispatch envelope.
    fn wrap(self) -> (m: OxideMessage<Self>)
        ensures
            m == envelope_of(self),
            m@ == self,
    {
        OxideMessage(self)
    }
}

impl OxideOperation for Operation {}

/// The dispatch envelope is lossless: for every operation, wrapping it
/// (see [`OxideOperation::wrap`], which returns its envelope) and
/// unwrapping it (see [`OxideMessage::into_inner`], which returns the
/// envelope's view) yields the operation itself, so the unwrapped value is
/// indistinguishable in behavior from the original — against any engine in
/// any state, running it returns what running the original would have.
pub proof fn lemma_envelope_lossless<E: Endpoint>(op: Operation, e: E)
    ensures
        envelope_of(op)@ == op,
        operation_outcome(envelope_of(op)@, e) == operation_outcome(op, e),
{
}

/// The bounded queue of a single-consumer worker: messages accepted in
/// submission order, served from the front, never more than the bound.
pub struct Mailbox<T> {
    queue: Vec<T>,
    capacity: usize,
}

impl<T> Mailbox<T> {
    /// The messages waiting in the mailbox, in submission order.
    pub closed spec fn pending(&self) -> Seq<T> {
        self.queue@
    }

    /// The bound the mailbox was made with.
    pub closed spec fn bound(&self) -> nat {
        self.capacity as nat
    }

    /// An empty mailbox accepting up to `capacity` messages.
    pub fn new(capacity: usize) -> (m: Self)
        ensures
            m.pending() == Seq::<T>::empty(),
            m.bound() == capacity,
    {
        Mailbox { queue: Vec::new(), capacity }
    }

    /// How many messages are waiting.
    pub fn len(&self) -> (n: usize)
        ensures
            n == self.pending().len(),
    {
        self.queue.len()
    }

    /// Submits a message. A mailbox at its bound refuses it with the
    /// distinct queue-full kind and keeps its queue as it was; otherwise
    /// the message joins the back of the queue.
    pub fn send(&mut self, msg: T) -> (r: Result<(), WebError>)
        ensures
            old(self).pending().len() < old(self).bound() ==> (r is Ok && final(self).pending()
                == old(self).pending().push(msg)),
            old(self).pending().len() >= old(self).bound() ==> (r matches Err(e) && e
                == WebError::Mailbox && final(self).pending() == old(self).pending()),
            final(self).bound() == old(self).bound(),
    {
        if self.queue.len() < self.capacity {
            self.queue.push(msg);
            Ok(())
        } else {
            Err(WebError::Mailbox)
        }
    }

    /// Takes the message that has waited longest: the front of the queue,
    /// in submission order.
    pub fn take(&mut self) -> (r: Option<T>)
        ensures
            old(self).pending().len() == 0 ==> (r is None
                && final(self).pending() == old(self).pending()),
            old(self).pending().len() > 0 ==> (r == Some(old(self).pending()[0])
                && final(self).pending() == old(self).pending().drop_first()),
            final(self).bound() == old(self).bound(),
    {
        if self.queue.len() == 0 {
            None
        } else {
            let msg = self.queue.remove(0);
            proof {
                assert(final(self).pending() =~= old(self).pending().drop_first());
            }
            Some(msg)
        }
    }
}

/// What a mailbox that started with these pending messages holds after a
/// number of takes with nothing sent in between: each take removes the
/// front.
pub open spec fn after_takes<T>(pending: Seq<T>, n: int) -> Seq<T>
    decreases n,
{
    if n <= 0 {
        pending
    } else {
        after_takes(pending, n - 1).drop_first()
    }
}

/// Replies come in submission order: after any number of takes the queue
/// is the untaken tail of the submissions, so the next take answers the
/// earliest submission still waiting. In particular, of two messages sent
/// to the same mailbox the one sent first is taken first.
pub proof fn lemma_replies_in_submission_order<T>(pending: Seq<T>, n: int)
    requires
        0 <= n <= pending.len(),
    ensures
        after_takes(pending, n) == pending.skip(n),
        n < pending.len() ==> after_takes(pending, n)[0] == pending[n],
    decreases n,
{
    if n <= 0 {
        assert(after_takes(pending, 0) =~= pending.skip(0));
    } else {
        lemma_replies_in_submission_order(pending, n - 1);
        assert(after_takes(pending, n) =~= pending.skip(n));
    }
}

} // verus!
