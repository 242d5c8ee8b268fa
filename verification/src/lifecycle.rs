//! Lifecycle of one native event stream, as an explicit one-directional
//! state machine.  The handle decides every transition and hands the
//! embedder the native teardown calls to perform, in order; the native
//! calls themselves happen outside this crate.

use vstd::prelude::*;

use crate::WatchError;

verus! {

/// Lifecycle states of a stream handle.  Transitions only move forward:
/// `Created -> Started -> Stopped -> Invalidated -> Released`, and no
/// state is re-enterable.
#[derive(Clone, Copy, Debug, PartialEq, Eq, Structural)]
pub enum LifecycleState {
    Created,
    Started,
    Stopped,
    Invalidated,
    Released,
}

/// One native teardown call, to be performed by the embedder.
#[derive(Clone, Copy, Debug, PartialEq, Eq, Structural)]
pub enum TeardownStep {
    Stop,
    Invalidate,
    Release,
}

/// States in which the native stream is already torn down: any further
/// method call is a contract violation by the holder.
pub open spec fn is_terminal(s: LifecycleState) -> bool {
    s == LifecycleState::Invalidated || s == LifecycleState::Released
}

/// Transition for `start`: only a freshly created stream can start, and
/// a failed queue binding leaves it created, so the caller may retry.
pub open spec fn spec_start(s: LifecycleState, bind_ok: bool) -> (LifecycleState, Result<
    (),
    WatchError,
>) {
    if is_terminal(s) {
        (s, Err(WatchError::UseAfterShutdown))
    } else if s != LifecycleState::Created {
        (s, Err(WatchError::StreamStartError))
    } else if bind_ok {
        (LifecycleState::Started, Ok(()))
    } else {
        (s, Err(WatchError::StreamStartError))
    }
}

/// Transition for `stop`: halts a started stream; on a stream that is
/// not delivering (created or already stopped) it is a no-op.
pub open spec fn spec_stop(s: LifecycleState) -> (LifecycleState, Result<(), WatchError>) {
    if is_terminal(s) {
        (s, Err(WatchError::UseAfterShutdown))
    } else if s == LifecycleState::Started {
        (LifecycleState::Stopped, Ok(()))
    } else {
        (s, Ok(()))
    }
}

/// Transition for `shutdown`: from any state it ends `Released`, and the
/// steps it emits are exactly the native calls still owed, in the fixed
/// order stop, invalidate, release, each at most once.  A second
/// shutdown owes nothing.
pub open spec fn spec_shutdown(s: LifecycleState) -> (LifecycleState, Seq<TeardownStep>) {
    if s == LifecycleState::Released {
        (s, Seq::empty())
    } else if s == LifecycleState::Invalidated {
        (LifecycleState::Released, seq![TeardownStep::Release])
    } else if s == LifecycleState::Started {
        (
            LifecycleState::Released,
            seq![TeardownStep::Stop, TeardownStep::Invalidate, TeardownStep::Release],
        )
    } else {
        (LifecycleState::Released, seq![TeardownStep::Invalidate, TeardownStep::Release])
    }
}

/// Exclusive owner of one native stream reference.  The only constructor
/// is `create`, so a handle cannot exist before its stream does, and the
/// state field is private, so it moves only through the methods.
pub struct EventStreamHandle {
    state: LifecycleState,
}

impl EventStreamHandle {
    /// The lifecycle state the handle is in.
    pub closed spec fn state_model(&self) -> LifecycleState {
        self.state
    }

    /// Build the handle for a native stream the embedder just allocated.
    /// `native_created` reports whether the native allocation succeeded;
    /// on failure nothing is owned and no handle exists.
    pub fn create(native_created: bool) -> (r: Result<EventStreamHandle, WatchError>)
        ensures
            r is Ok <==> native_created,
            r matches Ok(h) ==> h.state_model() == LifecycleState::Created,
            r matches Err(e) ==> e == WatchError::StreamCreateError,
    {
        if native_created {
            Ok(EventStreamHandle { state: LifecycleState::Created })
        } else {
            Err(WatchError::StreamCreateError)
        }
    }

    /// The current state, for the embedder.
    pub fn state(&self) -> (s: LifecycleState)
        ensures
            s == self.state_model(),
    {
        self.state
    }

    /// Record the outcome of binding the stream to its worker queue and
    /// beginning delivery.  `bind_ok` reports whether the native binding
    /// succeeded.
    pub fn start(&mut self, bind_ok: bool) -> (r: Result<(), WatchError>)
        ensures
            (final(self).state_model(), r) == spec_start(old(self).state_model(), bind_ok),
    {
        if self.state == LifecycleState::Invalidated || self.state == LifecycleState::Released {
            Err(WatchError::UseAfterShutdown)
        } else if self.state != LifecycleState::Created {
            Err(WatchError::StreamStartError)
        } else if bind_ok {
            self.state = LifecycleState::Started;
            Ok(())
        } else {
            Err(WatchError::StreamStartError)
        }
    }

    /// Halt delivery.  A no-op unless the stream is started; after
    /// shutdown it reports the contract violation instead.
    pub fn stop(&mut self) -> (r: Result<(), WatchError>)
        ensures
            (final(self).state_model(), r) == spec_stop(old(self).state_model()),
    {
        if self.state == LifecycleState::Invalidated || self.state == LifecycleState::Released {
            Err(WatchError::UseAfterShutdown)
        } else if self.state == LifecycleState::Started {
            self.state = LifecycleState::Stopped;
            Ok(())
        } else {
            Ok(())
        }
    }

    /// Tear the stream down.  Reachable from every state; the returned
    /// steps are the native calls the embedder still owes, in order.
    /// After this call the handle is released for good, and a second
    /// shutdown owes no step.
    pub fn shutdown(&mut self) -> (steps: Vec<TeardownStep>)
        ensures
            (final(self).state_model(), steps@) == spec_shutdown(old(self).state_model()),
    {
        let mut steps: Vec<TeardownStep> = Vec::new();
        if self.state == LifecycleState::Released {
            proof {
                assert(steps@ =~= spec_shutdown(self.state).1);
            }
            return steps;
        }
        if self.state == LifecycleState::Started {
            steps.push(TeardownStep::Stop);
        }
        if self.state != LifecycleState::Invalidated {
            steps.push(TeardownStep::Invalidate);
        }
        steps.push(TeardownStep::Release);
        proof {
            assert(steps@ =~= spec_shutdown(old(self).state_model()).1);
        }
        self.state = LifecycleState::Released;
        steps
    }
}

/// Stopping twice is a no-op: the second stop changes nothing and still
/// succeeds.
pub proof fn lemma_stop_idempotent(s: LifecycleState)
    requires
        !is_terminal(s),
    ensures
        spec_stop(spec_stop(s).0).0 == spec_stop(s).0,
        spec_stop(spec_stop(s).0).1 is Ok,
{
}

/// Shutdown is idempotent and terminal: one shutdown releases the
/// stream from any state, and a second performs no native call.
pub proof fn lemma_shutdown_idempotent(s: LifecycleState)
    ensures
        spec_shutdown(s).0 == LifecycleState::Released,
        spec_shutdown(spec_shutdown(s).0).0 == LifecycleState::Released,
        spec_shutdown(spec_shutdown(s).0).1 == Seq::<TeardownStep>::empty(),
{
}

/// After shutdown every other method reports `UseAfterShutdown` and
/// leaves the state alone.
pub proof fn lemma_no_use_after_shutdown(s: LifecycleState, bind_ok: bool)
    requires
        is_terminal(s),
    ensures
        spec_start(s, bind_ok) == (s, Err::<(), WatchError>(WatchError::UseAfterShutdown)),
        spec_stop(s) == (s, Err::<(), WatchError>(WatchError::UseAfterShutdown)),
{
}

/// The teardown calls a full lifecycle performs: shutdown emits stop
/// only for a delivering stream, and invalidate before release exactly
/// once each, whatever the starting state.
pub proof fn lemma_teardown_order(s: LifecycleState)
    requires
        !is_terminal(s),
    ensures
        s == LifecycleState::Started ==> spec_shutdown(s).1 == seq![
            TeardownStep::Stop,
            TeardownStep::Invalidate,
            TeardownStep::Release,
        ],
        s != LifecycleState::Started ==> spec_shutdown(s).1 == seq![
            TeardownStep::Invalidate,
            TeardownStep::Release,
        ],
{
}

} // verus!
