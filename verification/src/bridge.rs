//! The lifecycle controller: the start/stop state machine of one watch.
//!
//! The controller decides; the callers act. `start_requested` answering `Ok`
//! is the one permission to spawn the run-loop thread; `stop_requested`
//! answering `Ok` is the one permission to abort the delivery channel,
//! signal the loop to stop and join the thread. An answer of
//! `Err(LifecycleMisuse)` permits nothing and changes nothing, so no native
//! call is ever made out of lifecycle order.

use vstd::prelude::*;

use crate::deliver::{deliver_batch, DeliveryRecord, EventSink};
use crate::event::RawNotification;
use crate::translate::{id_fits, translate_batch, translate_one};

verus! {

/// The lifecycle states of one watch, in the order they are passed through.
#[derive(Debug, Clone, Copy, PartialEq, Eq, Structural)]
pub enum Phase {
    /// No thread exists yet; `start_requested` has not been accepted.
    Created,
    /// The run-loop thread is being spun up; its loop identity is not
    /// published yet.
    Starting,
    /// The loop identity was published: the watch is live.
    Running,
    /// A stop was accepted: the channel is aborted and the loop is being
    /// told to stop.
    Stopping,
    /// The thread was joined, or setup failed before the watch went live.
    Stopped,
}

/// The errors the lifecycle surfaces to the caller.
#[derive(Debug, Clone, PartialEq, Eq)]
pub enum BridgeError {
    /// The requested path is empty: rejected locally, before any native call
    /// and before any thread is spawned.
    InvalidPath,
    /// The native facility refused to create the subscription; carries the
    /// facility's diagnostic text, copied into an owned string.
    NativeCreateFailed(String),
    /// A call out of lifecycle order: a second stop, a stop before the watch
    /// is live, a start on a used-up handle. Nothing is changed.
    LifecycleMisuse,
    /// The run-loop thread reported a failure when it was joined.
    ThreadJoinFailure(String),
}

/// What a watch is asked to observe: one path, and the event-id cursor to
/// watch from (`flags::SINCE_NOW` for "from now on"). Immutable once the
/// watch starts.
#[derive(Debug, Clone)]
pub struct WatchRequest {
    pub path: String,
    pub since: i64,
}

/// A start is accepted exactly when the handle is fresh and the path is
/// non-empty.
pub open spec fn start_accepted(p: Phase, path: Seq<char>) -> bool {
    p == Phase::Created && path.len() > 0
}

/// The state after a start request: an accepted start begins the thread
/// spin-up, a rejected one changes nothing.
pub open spec fn phase_after_start(p: Phase, path: Seq<char>) -> Phase {
    if start_accepted(p, path) {
        Phase::Starting
    } else {
        p
    }
}

/// The state after the run-loop thread publishes its loop identity.
pub open spec fn phase_after_loop_published(p: Phase) -> Phase {
    if p == Phase::Starting {
        Phase::Running
    } else {
        p
    }
}

/// The state after the run-loop thread reports a setup failure instead of a
/// loop identity: the watch never went live and is finished.
pub open spec fn phase_after_setup_failed(p: Phase) -> Phase {
    if p == Phase::Starting {
        Phase::Stopped
    } else {
        p
    }
}

/// A stop is accepted exactly when the watch is live.
pub open spec fn stop_accepted(p: Phase) -> bool {
    p == Phase::Running
}

/// The state after a stop request: an accepted stop begins the teardown, a
/// rejected one changes nothing.
pub open spec fn phase_after_stop(p: Phase) -> Phase {
    if stop_accepted(p) {
        Phase::Stopping
    } else {
        p
    }
}

/// The state after the run-loop thread is joined.
pub open spec fn phase_after_join(p: Phase) -> Phase {
    if p == Phase::Stopping {
        Phase::Stopped
    } else {
        p
    }
}

/// Batches are pumped to the consumer only while the watch is live: once a
/// stop is accepted the delivery channel is aborted, and a send fails fast
/// instead of reaching the handler.
pub open spec fn pump_accepted(p: Phase) -> bool {
    p == Phase::Running
}

/// The lifecycle of one watch. There is at most one live watch behind one
/// `Bridge`: a used-up bridge accepts no further start.
pub struct Bridge {
    phase: Phase,
}

impl View for Bridge {
    type V = Phase;

    closed spec fn view(&self) -> Phase {
        self.phase
    }
}

impl Bridge {
    /// A fresh lifecycle: nothing started yet.
    pub fn new() -> (b: Bridge)
        ensures
            b@ == Phase::Created,
    {
        Bridge { phase: Phase::Created }
    }

    /// The current lifecycle state.
    pub fn phase(&self) -> (p: Phase)
        ensures
            p == self@,
    {
        self.phase
    }

    /// Decides a start request. `Ok` is the permission — and the
    /// obligation — to spawn the run-loop thread now; on any `Err` no
    /// thread may be spawned and the lifecycle is unchanged. An empty path
    /// is rejected locally as `InvalidPath`; a handle that is not fresh
    /// rejects the start as `LifecycleMisuse`.
    pub fn start_requested(&mut self, request: &WatchRequest) -> (r: Result<(), BridgeError>)
        ensures
            final(self)@ == phase_after_start(old(self)@, request.path@),
            r is Ok <==> start_accepted(old(self)@, request.path@),
            r is Ok ==> final(self)@ == Phase::Starting,
            old(self)@ != Phase::Created ==> r == Err::<(), BridgeError>(
                BridgeError::LifecycleMisuse,
            ) && final(self)@ == old(self)@,
            old(self)@ == Phase::Created && request.path@.len() == 0 ==> r == Err::<
                (),
                BridgeError,
            >(BridgeError::InvalidPath) && final(self)@ == old(self)@,
    {
        match self.phase {
            Phase::Created => {
                if request.path.as_str().unicode_len() == 0 {
                    Err(BridgeError::InvalidPath)
                } else {
                    self.phase = Phase::Starting;
                    Ok(())
                }
            },
            _ => Err(BridgeError::LifecycleMisuse),
        }
    }

    /// Records the one-shot rendezvous: the run-loop thread has published
    /// its loop identity, so the loop is confirmed running and the watch is
    /// live.
    pub fn loop_published(&mut self)
        requires
            old(self)@ == Phase::Starting,
        ensures
            final(self)@ == phase_after_loop_published(old(self)@),
            final(self)@ == Phase::Running,
    {
        self.phase = Phase::Running;
    }

    /// Records a setup failure reported by the run-loop thread in place of a
    /// loop identity: the watch never went live, the lifecycle is finished,
    /// and the failure is surfaced with the facility's diagnostic text.
    pub fn setup_failed(&mut self, diagnostic: String) -> (e: BridgeError)
        requires
            old(self)@ == Phase::Starting,
        ensures
            final(self)@ == phase_after_setup_failed(old(self)@),
            final(self)@ == Phase::Stopped,
            e matches BridgeError::NativeCreateFailed(m) && m@ == diagnostic@,
    {
        self.phase = Phase::Stopped;
        BridgeError::NativeCreateFailed(diagnostic)
    }

    /// Decides a stop request. `Ok` is the permission — and the
    /// obligation — to abort the delivery channel, signal the loop to stop
    /// and join the thread; on `Err(LifecycleMisuse)` no teardown may run
    /// and the lifecycle is unchanged, so a second stop tears nothing down
    /// twice.
    pub fn stop_requested(&mut self) -> (r: Result<(), BridgeError>)
        ensures
            final(self)@ == phase_after_stop(old(self)@),
            r is Ok <==> stop_accepted(old(self)@),
            r is Ok ==> final(self)@ == Phase::Stopping,
            !stop_accepted(old(self)@) ==> r == Err::<(), BridgeError>(
                BridgeError::LifecycleMisuse,
            ) && final(self)@ == old(self)@,
    {
        match self.phase {
            Phase::Running => {
                self.phase = Phase::Stopping;
                Ok(())
            },
            _ => Err(BridgeError::LifecycleMisuse),
        }
    }

    /// Records the join of the run-loop thread and finishes the lifecycle.
    /// A failure the thread returned is surfaced as `ThreadJoinFailure`; the
    /// lifecycle is finished either way.
    pub fn thread_joined(&mut self, outcome: Result<(), String>) -> (r: Result<(), BridgeError>)
        requires
            old(self)@ == Phase::Stopping,
        ensures
            final(self)@ == phase_after_join(old(self)@),
            final(self)@ == Phase::Stopped,
            outcome is Ok ==> r is Ok,
            outcome matches Err(m) ==> (r matches Err(BridgeError::ThreadJoinFailure(mm))
                && mm@ == m@),
    {
        self.phase = Phase::Stopped;
        match outcome {
            Ok(()) => Ok(()),
            Err(m) => Err(BridgeError::ThreadJoinFailure(m)),
        }
    }

    /// Pumps one raw batch to the consumer: decodes it in arrival order and
    /// hands each event to the sink, recording every attempt. Only a live
    /// watch pumps; in any other state the send fails fast with
    /// `LifecycleMisuse` and the sink is not touched, so the handler
    /// receives no event once a stop has been accepted.
    pub fn pump_batch<S: EventSink>(
        &self,
        sink: &mut S,
        raw: &Vec<RawNotification>,
    ) -> (r: Result<Vec<DeliveryRecord>, BridgeError>)
        requires
            forall|i: int| 0 <= i < raw@.len() ==> id_fits(#[trigger] raw@[i]@),
        ensures
            r is Ok <==> pump_accepted(self@),
            pump_accepted(self@) ==> (r matches Ok(report) && report@.len() == raw@.len()
                && forall|i: int| 0 <= i < raw@.len() ==> (#[trigger] report@[i]).event_id
                == translate_one(raw@[i]@).event_id),
            !pump_accepted(self@) ==> r == Err::<Vec<DeliveryRecord>, BridgeError>(
                BridgeError::LifecycleMisuse,
            ) && *final(sink) == *old(sink),
    {
        match self.phase {
            Phase::Running => {
                let events = translate_batch(raw);
                let report = deliver_batch(sink, &events);
                Ok(report)
            },
            _ => Err(BridgeError::LifecycleMisuse),
        }
    }
}

/// An accepted start, the loop's publication and an immediate stop drive the
/// lifecycle forward at every step: the stop is accepted, and joining the
/// thread finishes the lifecycle. No step of the start-then-stop pair is
/// ever rejected.
pub proof fn lemma_start_then_stop_completes(path: Seq<char>)
    requires
        path.len() > 0,
    ensures
        ({
            let started = phase_after_start(Phase::Created, path);
            let running = phase_after_loop_published(started);
            &&& started == Phase::Starting
            &&& running == Phase::Running
            &&& stop_accepted(running)
            &&& phase_after_join(phase_after_stop(running)) == Phase::Stopped
        }),
{
}

/// Teardown runs at most once: once a stop has been accepted, a second stop
/// is rejected both while the first is under way and after the thread is
/// joined.
pub proof fn lemma_second_stop_rejected(p: Phase)
    requires
        stop_accepted(p),
    ensures
        !stop_accepted(phase_after_stop(p)),
        !stop_accepted(phase_after_join(phase_after_stop(p))),
{
}

/// The handler receives nothing once a stop has been accepted: no state
/// reached from the stop onward pumps a batch.
pub proof fn lemma_no_delivery_after_stop(p: Phase)
    requires
        stop_accepted(p),
    ensures
        !pump_accepted(phase_after_stop(p)),
        !pump_accepted(phase_after_join(phase_after_stop(p))),
{
}

} // verus!
