//! The subscription dispatcher's decision logic: a bounded worker pool of
//! permits and the step function of the receive loop.  The loop itself —
//! pulling the next broker message, awaiting a free permit, spawning the
//! dispatch unit — is asynchronous work done by the caller, which feeds every
//! event through [`receive_step`] and obeys the action handed back.

use vstd::prelude::*;

verus! {

/// The worker-pool capacity every subscription starts with.
pub const DEFAULT_POOL_CAPACITY: usize = 75;

/// A bounded pool of dispatch permits for one subscription.  One permit is
/// held for the duration of one handler dispatch; the number of permits out
/// never exceeds the capacity.
pub struct WorkerPool {
    /// The fixed bound on concurrently held permits.
    pub capacity: usize,
    /// How many permits are out.
    pub in_flight: usize,
    /// Whether the pool was closed by shutdown.
    pub closed: bool,
}

impl WorkerPool {
    /// The pool's invariant: never more permits out than the capacity.
    pub open spec fn wf(&self) -> bool {
        self.in_flight <= self.capacity
    }

    /// A fresh pool: no permit is out.
    pub fn new(capacity: usize) -> (r: WorkerPool)
        ensures
            r.wf(),
            r.capacity == capacity,
            r.in_flight == 0,
            !r.closed,
    {
        WorkerPool { capacity, in_flight: 0, closed: false }
    }

    /// Hands one permit out when the pool is open and has room; reports a
    /// closed pool or an exhausted one without changing anything.
    pub fn try_acquire(&mut self) -> (r: AcquireOutcome)
        requires
            old(self).wf(),
        ensures
            final(self).wf(),
            final(self).capacity == old(self).capacity,
            final(self).closed == old(self).closed,
            old(self).closed ==> r is Closed && final(self).in_flight == old(self).in_flight,
            !old(self).closed && old(self).in_flight < old(self).capacity ==> r is Granted
                && final(self).in_flight == old(self).in_flight + 1,
            !old(self).closed && old(self).in_flight == old(self).capacity ==> r is Exhausted
                && final(self).in_flight == old(self).in_flight,
    {
        if self.closed {
            AcquireOutcome::Closed
        } else if self.in_flight < self.capacity {
            self.in_flight = self.in_flight + 1;
            AcquireOutcome::Granted
        } else {
            AcquireOutcome::Exhausted
        }
    }

    /// Returns one permit; called when a dispatch unit's handler call has
    /// returned, whether it succeeded or failed.
    pub fn release(&mut self)
        requires
            old(self).wf(),
            old(self).in_flight > 0,
        ensures
            final(self).wf(),
            final(self).capacity == old(self).capacity,
            final(self).closed == old(self).closed,
            final(self).in_flight == old(self).in_flight - 1,
    {
        self.in_flight = self.in_flight - 1;
    }

    /// Closes the pool; the receive loop exits instead of waiting on it.
    pub fn close(&mut self)
        requires
            old(self).wf(),
        ensures
            final(self).wf(),
            final(self).capacity == old(self).capacity,
            final(self).in_flight == old(self).in_flight,
            final(self).closed,
    {
        self.closed = true;
    }
}

/// What one attempt to take a permit yielded.
pub enum AcquireOutcome {
    /// A permit was taken.
    Granted,
    /// No permit is free; the caller must wait for one and try again.
    Exhausted,
    /// The pool was closed.
    Closed,
}

/// One delivered message, as handed to a tenant handler: its subject, the
/// reply destination if the sender wants one, and the body.
pub struct SubMessage {
    /// The subject the message arrived on.
    pub subject: String,
    /// Where a reply should go, if anywhere.
    pub reply_to: Option<String>,
    /// The payload.
    pub body: Vec<u8>,
}

/// What the receive loop sees at its blocking point.
pub enum LoopEvent {
    /// The broker-side subscription ended: no further message will come.
    Ended,
    /// The broker delivered a message.
    Delivered(SubMessage),
}

/// What the receive loop must do next.
pub enum LoopAction {
    /// Leave the loop and release the broker-side subscription.
    ExitLoop,
    /// Hand the message to an independently scheduled dispatch unit, under
    /// the permit just taken, and pull the next message without waiting for
    /// the unit to finish.
    Dispatch(SubMessage),
    /// Every permit is out: wait until one frees, then feed the message in
    /// again.  No message is dropped.
    Backpressure(SubMessage),
}

/// One step of a subscription's receive loop: an ended stream or a closed
/// pool exits the loop; a delivered message is dispatched under a permit
/// when one is free and held back under backpressure when none is.
pub fn receive_step(pool: &mut WorkerPool, event: LoopEvent) -> (r: LoopAction)
    requires
        old(pool).wf(),
    ensures
        final(pool).wf(),
        final(pool).capacity == old(pool).capacity,
        final(pool).closed == old(pool).closed,
        event is Ended ==> r is ExitLoop && final(pool).in_flight == old(pool).in_flight,
        event matches LoopEvent::Delivered(m) ==> {
            &&& old(pool).closed ==> r is ExitLoop && final(pool).in_flight == old(
                pool,
            ).in_flight
            &&& !old(pool).closed && old(pool).in_flight < old(pool).capacity ==> (r matches
            LoopAction::Dispatch(d) && d == m && final(pool).in_flight == old(pool).in_flight + 1)
            &&& !old(pool).closed && old(pool).in_flight == old(pool).capacity ==> (r matches
            LoopAction::Backpressure(d) && d == m && final(pool).in_flight == old(
                pool,
            ).in_flight)
        },
{
    match event {
        LoopEvent::Ended => LoopAction::ExitLoop,
        LoopEvent::Delivered(m) => match pool.try_acquire() {
            AcquireOutcome::Closed => LoopAction::ExitLoop,
            AcquireOutcome::Granted => LoopAction::Dispatch(m),
            AcquireOutcome::Exhausted => LoopAction::Backpressure(m),
        },
    }
}

/// The subject a service-style request's waiter is keyed by: the message's
/// reply destination, or `default` when the request named none.
pub fn service_reply_subject(reply_to: &Option<String>) -> (r: String)
    ensures
        r@ == (match reply_to {
            Some(s) => s@,
            None => "default"@,
        }),
{
    match reply_to {
        Some(s) => s.clone(),
        None => "default".to_owned(),
    }
}

/// The worker pool never exceeds its capacity: with the pool's invariant —
/// which [`WorkerPool::new`] establishes and every operation preserves — at
/// most `capacity` handler dispatches hold a permit at any instant.
pub proof fn lemma_pool_bounded(p: WorkerPool)
    requires
        p.wf(),
    ensures
        p.in_flight <= p.capacity,
{
}

} // verus!
