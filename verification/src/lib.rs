//! Core of a filesystem change-notification watcher built on a native,
//! OS-provided event stream.  The library decodes native event records
//! (path bytes, 32-bit flag words, 64-bit event ids) into normalized
//! events, classifies flag words into event kinds, manages the stream
//! lifecycle as an explicit state machine, and buffers decoded events in a
//! bounded queue for the consumer.  All raw pointer and FFI handling stays
//! outside this crate; the library works on plain values only.

use vstd::prelude::*;

pub mod bridge;
pub mod codec;
pub mod flags;
pub mod fsevent;
pub mod lifecycle;
pub mod queue;

verus! {

/// The normalized kind of a single filesystem change event.
#[derive(Clone, Copy, Debug, PartialEq, Eq, Structural)]
pub enum EventKind {
    Created,
    Deleted,
    Updated,
    Renamed,
}

/// Out-of-band structural signals delivered beside the event sequence.
/// They are informational, not errors: the consumer reacts with policy
/// (typically a rescan), and they are never folded into an `Event`.
#[derive(Clone, Copy, Debug, PartialEq, Eq, Structural)]
pub enum Notification {
    MustRescan,
    EventsDropped,
    HistoryReplayDone,
    RootChanged,
    VolumeMounted,
    VolumeUnmounted,
}

/// Error taxonomy of the watcher.
///
/// `ConfigError` is rejected before any native resource is touched;
/// `StreamCreateError` and `StreamStartError` report a failed native
/// allocation or queue binding; `PathDecodeError` is fatal (the native
/// layer handed back bytes that are not a well-formed path string);
/// `UseAfterShutdown` reports a call on a handle whose stream was
/// already torn down.
#[derive(Clone, Copy, Debug, PartialEq, Eq, Structural)]
pub enum WatchError {
    ConfigError,
    StreamCreateError,
    StreamStartError,
    PathDecodeError,
    UseAfterShutdown,
}

/// A normalized change event: the affected paths (UTF-8 bytes, without
/// any terminator) and the kind derived from the native flag word.
/// Immutable once constructed.
#[derive(Debug)]
pub struct Event {
    pub paths: Vec<Vec<u8>>,
    pub kind: EventKind,
}

impl Event {
    /// Mathematical view of the path list: a sequence of byte sequences.
    pub open spec fn paths_model(&self) -> Seq<Seq<u8>> {
        self.paths@.map_values(|p: Vec<u8>| p@)
    }
}

/// The paths excluded from a watch.  The native exclusion API rejects
/// more than eight paths and can never take a path holding a NUL byte,
/// so construction enforces both and every list in existence satisfies
/// them.
pub struct ExclusionList {
    paths: Vec<Vec<u8>>,
}

impl ExclusionList {
    #[verifier::type_invariant]
    spec fn inv(self) -> bool {
        &&& self.paths@.len() <= fsevent::MAX_EXCLUSIONS
        &&& codec::all_no_nul(self.paths@.map_values(|p: Vec<u8>| p@))
    }

    /// The excluded paths, in the order given at construction.
    pub closed spec fn paths_model(&self) -> Seq<Seq<u8>> {
        self.paths@.map_values(|p: Vec<u8>| p@)
    }

    /// Build an exclusion list.  Fails with `ConfigError`, before any
    /// native resource is touched, when more than the platform limit of
    /// eight paths are given or a path holds an embedded NUL; succeeds
    /// on any other list.
    pub fn new(paths: Vec<Vec<u8>>) -> (r: Result<ExclusionList, WatchError>)
        ensures
            r is Ok <==> (paths@.len() <= fsevent::MAX_EXCLUSIONS && codec::all_no_nul(
                paths@.map_values(|p: Vec<u8>| p@),
            )),
            r matches Ok(x) ==> x.paths_model() == paths@.map_values(|p: Vec<u8>| p@),
            r matches Err(e) ==> e == WatchError::ConfigError,
    {
        if paths.len() > fsevent::MAX_EXCLUSIONS {
            Err(WatchError::ConfigError)
        } else if !codec::check_no_nul_list(&paths) {
            Err(WatchError::ConfigError)
        } else {
            Ok(ExclusionList { paths })
        }
    }

    /// Number of excluded paths; never above the platform limit.
    pub fn count(&self) -> (n: usize)
        ensures
            n as int == self.paths_model().len(),
            n <= fsevent::MAX_EXCLUSIONS,
    {
        proof {
            use_type_invariant(self);
        }
        self.paths.len()
    }

    /// The excluded path at an index, for the embedder to hand to the
    /// native exclusion call; it never holds a NUL byte.
    pub fn path_at(&self, i: usize) -> (p: &Vec<u8>)
        requires
            i < self.paths_model().len(),
        ensures
            p@ == self.paths_model()[i as int],
            codec::no_nul(p@),
    {
        proof {
            use_type_invariant(self);
        }
        &self.paths[i]
    }
}

/// Immutable per-watch configuration: the excluded paths, the event id
/// to resume from (`None` means "now": no historical replay), the
/// coalescing latency, and the native creation-flags word.
pub struct WatcherOptions {
    pub exclusions: ExclusionList,
    pub since_event_id: Option<u64>,
    pub latency_millis: u64,
    pub watch_flags: u32,
}

} // verus!
