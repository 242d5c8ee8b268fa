//! The watcher facade: owns one native stream's lifecycle handle, the
//! bounded hand-off queue and the out-of-band notification buffer, and
//! marshals callback batches from the worker side to the consumer side.
//! Also holds the platform limits and fixed bit constants of the native
//! event-stream facility.

use vstd::prelude::*;

use crate::bridge;
use crate::codec;
use crate::lifecycle::EventStreamHandle;
use crate::lifecycle::LifecycleState;
use crate::lifecycle::TeardownStep;
use crate::lifecycle;
use crate::queue::EventQueue;
use crate::Event;
use crate::Notification;
use crate::WatchError;
use crate::WatcherOptions;

verus! {

/// The native exclusion-path API accepts at most this many paths; a
/// longer list makes the call fail, so construction rejects it up front.
pub const MAX_EXCLUSIONS: usize = 8;

/// Purely descriptive flag bits (file, directory, symlink and hardlink
/// markers).  They describe what kind of node an event touched and never
/// take part in classification.
pub const IGNORED_FLAGS: u32 = 0x00100000 | 0x00200000 | 0x00040000 | 0x00020000 | 0x00010000;

/// Capacity of the consumer hand-off queue: pushes past it drop the
/// oldest unconsumed events rather than block the worker thread.
pub const DEFAULT_QUEUE_CAPACITY: usize = 1024;

/// The watcher: one native stream's lifecycle, its decoded event queue,
/// its structural notifications, and the resumption token.
pub struct FSEvent {
    pub handle: EventStreamHandle,
    pub queue: EventQueue,
    pub notes: Vec<Notification>,
    pub last_seen_id: Option<u64>,
}

impl FSEvent {
    /// Every root path can be handed to the native layer: no embedded
    /// NUL.
    pub open spec fn roots_ok(roots: Seq<Seq<u8>>) -> bool {
        codec::all_no_nul(roots)
    }

    /// Check the watch roots, before any native resource is allocated.
    pub fn validate_roots(roots: &Vec<Vec<u8>>) -> (r: bool)
        ensures
            r == Self::roots_ok(roots@.map_values(|p: Vec<u8>| p@)),
    {
        codec::check_no_nul_list(roots)
    }

    /// Build the watcher.  The roots are validated first and rejected
    /// with `ConfigError` before the native allocation outcome matters;
    /// `native_created` reports whether the embedder's native stream
    /// allocation, made with these roots and options, succeeded.
    pub fn create(roots: &Vec<Vec<u8>>, options: &WatcherOptions, native_created: bool) -> (r:
        Result<FSEvent, WatchError>)
        ensures
            r is Ok <==> (Self::roots_ok(roots@.map_values(|p: Vec<u8>| p@)) && native_created),
            !Self::roots_ok(roots@.map_values(|p: Vec<u8>| p@)) ==> r == Err::<FSEvent, WatchError>(
                WatchError::ConfigError,
            ),
            Self::roots_ok(roots@.map_values(|p: Vec<u8>| p@)) && !native_created ==> r == Err::<
                FSEvent,
                WatchError,
            >(WatchError::StreamCreateError),
            r matches Ok(w) ==> {
                &&& w.handle.state_model() == LifecycleState::Created
                &&& w.queue.contents() == Seq::<Event>::empty()
                &&& w.queue.capacity_model() == DEFAULT_QUEUE_CAPACITY as int
                &&& !w.queue.overflow_pending()
                &&& w.notes@ == Seq::<Notification>::empty()
                &&& w.last_seen_id == options.since_event_id
            },
    {
        if !Self::validate_roots(roots) {
            return Err(WatchError::ConfigError);
        }
        let handle = match EventStreamHandle::create(native_created) {
            Ok(h) => h,
            Err(e) => {
                return Err(e);
            },
        };
        Ok(
            FSEvent {
                handle,
                queue: EventQueue::new(DEFAULT_QUEUE_CAPACITY),
                notes: Vec::new(),
                last_seen_id: options.since_event_id,
            },
        )
    }

    /// Record the outcome of binding the stream to its worker queue;
    /// delivery begins on success.  Everything buffered stays.
    pub fn start(&mut self, bind_ok: bool) -> (r: Result<(), WatchError>)
        ensures
            (final(self).handle.state_model(), r) == lifecycle::spec_start(
                old(self).handle.state_model(),
                bind_ok,
            ),
            final(self).queue == old(self).queue,
            final(self).notes == old(self).notes,
            final(self).last_seen_id == old(self).last_seen_id,
    {
        self.handle.start(bind_ok)
    }

    /// Halt delivery; a no-op unless the stream is delivering.
    pub fn stop(&mut self) -> (r: Result<(), WatchError>)
        ensures
            (final(self).handle.state_model(), r) == lifecycle::spec_stop(
                old(self).handle.state_model(),
            ),
            final(self).queue == old(self).queue,
            final(self).notes == old(self).notes,
            final(self).last_seen_id == old(self).last_seen_id,
    {
        self.handle.stop()
    }

    /// Tear the stream down; the returned steps are the native calls
    /// the embedder still owes, in order.  Idempotent.
    pub fn shutdown(&mut self) -> (steps: Vec<TeardownStep>)
        ensures
            (final(self).handle.state_model(), steps@) == lifecycle::spec_shutdown(
                old(self).handle.state_model(),
            ),
            final(self).queue == old(self).queue,
            final(self).notes == old(self).notes,
            final(self).last_seen_id == old(self).last_seen_id,
    {
        self.handle.shutdown()
    }

    /// Feed one decoded batch into the consumer-facing buffers: the
    /// events enter the bounded queue in order, the notifications are
    /// appended, and the resumption token advances to the batch's last
    /// event id.
    pub fn enqueue_batch(&mut self, batch: bridge::DecodedBatch)
        ensures
            final(self).handle == old(self).handle,
            final(self).queue.capacity_model() == old(self).queue.capacity_model(),
            final(self).queue.contents() == crate::queue::push_all(
                old(self).queue.contents(),
                old(self).queue.capacity_model(),
                batch.events@,
            ),
            final(self).queue.overflow_pending() == (old(self).queue.overflow_pending()
                || old(self).queue.contents().len() + batch.events@.len()
                > old(self).queue.capacity_model()),
            final(self).notes@ == old(self).notes@ + batch.notes@,
            final(self).last_seen_id == (if batch.last_event_id is Some {
                batch.last_event_id
            } else {
                old(self).last_seen_id
            }),
    {
        self.queue.push_batch(batch.events);
        let mut batch_notes_vec = batch.notes;
        self.notes.append(&mut batch_notes_vec);
        if let Some(id) = batch.last_event_id {
            self.last_seen_id = Some(id);
        }
    }

    /// Decode one native callback batch and feed it through.  On a
    /// malformed path nothing changes and the fatal decode error is
    /// reported; otherwise the events of the batch enter the queue in
    /// record order, bounded by the capacity, and the notifications and
    /// resumption token follow.
    pub fn on_callback(&mut self, paths: &Vec<Vec<u8>>, flag_words: &Vec<u32>, ids: &Vec<u64>) -> (r:
        Result<(), WatchError>)
        requires
            paths@.len() == flag_words@.len(),
            ids@.len() == flag_words@.len(),
        ensures
            r is Ok <==> (forall|i: int|
                0 <= i < paths@.len() ==> codec::well_formed_native(#[trigger] paths@[i]@)),
            r matches Err(e) ==> e == WatchError::PathDecodeError && *final(self) == *old(self),
            r is Ok ==> {
                &&& final(self).handle == old(self).handle
                &&& final(self).queue.capacity_model() == old(self).queue.capacity_model()
                &&& final(self).notes@ == old(self).notes@ + bridge::batch_notes(flag_words@)
                &&& final(self).last_seen_id == (if ids@.len() > 0 {
                    Some(ids@[ids@.len() - 1])
                } else {
                    old(self).last_seen_id
                })
                &&& exists|es: Seq<Event>|
                    {
                        &&& #[trigger] es.len() == paths@.len()
                        &&& bridge::batch_shape(
                            es,
                            paths@.map_values(|h: Vec<u8>| h@),
                            flag_words@,
                        )
                        &&& final(self).queue.contents() == crate::queue::push_all(
                            old(self).queue.contents(),
                            old(self).queue.capacity_model(),
                            es,
                        )
                        &&& final(self).queue.overflow_pending() == (old(self)
                            .queue
                            .overflow_pending() || old(self).queue.contents().len() + es.len()
                            > old(self).queue.capacity_model())
                    }
            },
    {
        let batch = match bridge::decode_batch(paths, flag_words, ids) {
            Ok(b) => b,
            Err(e) => {
                return Err(e);
            },
        };
        let ghost es = batch.events@;
        proof {
            assert(bridge::batch_shape(es, paths@.map_values(|h: Vec<u8>| h@), flag_words@));
            assert(es.len() == paths@.len());
        }
        self.enqueue_batch(batch);
        Ok(())
    }

    /// The oldest buffered event, if any; the consumer's polling side.
    pub fn next_event(&mut self) -> (r: Option<Event>)
        ensures
            final(self).handle == old(self).handle,
            final(self).notes == old(self).notes,
            final(self).last_seen_id == old(self).last_seen_id,
            final(self).queue.capacity_model() == old(self).queue.capacity_model(),
            final(self).queue.overflow_pending() == old(self).queue.overflow_pending(),
            old(self).queue.contents().len() == 0 ==> r is None && final(self).queue.contents()
                == old(self).queue.contents(),
            old(self).queue.contents().len() > 0 ==> {
                &&& r == Some(old(self).queue.contents()[0])
                &&& final(self).queue.contents() == old(self).queue.contents().skip(1)
            },
    {
        self.queue.pop()
    }

    /// The next structural notification.  A pending overflow is
    /// delivered first, exactly once; then buffered notifications in
    /// arrival order.
    pub fn next_notification(&mut self) -> (r: Option<Notification>)
        ensures
            final(self).handle == old(self).handle,
            final(self).last_seen_id == old(self).last_seen_id,
            final(self).queue.capacity_model() == old(self).queue.capacity_model(),
            final(self).queue.contents() == old(self).queue.contents(),
            !final(self).queue.overflow_pending(),
            old(self).queue.overflow_pending() ==> r == Some(Notification::EventsDropped)
                && final(self).notes == old(self).notes,
            !old(self).queue.overflow_pending() && old(self).notes@.len() > 0 ==> {
                &&& r == Some(old(self).notes@[0])
                &&& final(self).notes@ == old(self).notes@.skip(1)
            },
            !old(self).queue.overflow_pending() && old(self).notes@.len() == 0 ==> r is None
                && final(self).notes == old(self).notes,
    {
        match self.queue.take_overflow() {
            Some(note) => Some(note),
            None => {
                if self.notes.len() > 0 {
                    let note = self.notes.remove(0);
                    proof {
                        assert(self.notes@ =~= old(self).notes@.skip(1));
                    }
                    Some(note)
                } else {
                    None
                }
            },
        }
    }

    /// The resumption token: the last event id seen, or the configured
    /// starting id while nothing arrived yet.
    pub fn last_event_id(&self) -> (r: Option<u64>)
        ensures
            r == self.last_seen_id,
    {
        self.last_seen_id
    }
}

} // verus!
