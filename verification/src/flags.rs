//! Interpretation of the native 32-bit event flag word: decoding it into
//! the ordered set of named flags whose bit is set, classifying it into
//! one `EventKind` by a fixed precedence, and extracting the structural
//! out-of-band notifications it carries.

use vstd::prelude::*;

use crate::EventKind;
use crate::Notification;

verus! {

/// Named semantic flags mirroring the native bitmask.  The declaration
/// order is the canonical order: ascending bit value.
#[derive(Clone, Copy, Debug, PartialEq, Eq, Structural)]
pub enum EventFlag {
    MustScanSubDirs,
    UserDropped,
    KernelDropped,
    EventIdsWrapped,
    HistoryDone,
    RootChanged,
    Mount,
    Unmount,
    ItemCreated,
    ItemRemoved,
    ItemInodeMetaMod,
    ItemRenamed,
    ItemModified,
    ItemFinderInfoMod,
    ItemChangeOwner,
    ItemXattrMod,
    ItemIsFile,
    ItemIsDir,
    ItemIsSymlink,
    OwnEvent,
    ItemIsHardlink,
    ItemIsLastHardlink,
    ItemCloned,
}

/// Number of named flags.
pub const FLAG_COUNT: usize = 23;

/// The bit each named flag occupies in the native flag word.
pub open spec fn flag_mask(f: EventFlag) -> u32 {
    match f {
        EventFlag::MustScanSubDirs => 0x00000001,
        EventFlag::UserDropped => 0x00000002,
        EventFlag::KernelDropped => 0x00000004,
        EventFlag::EventIdsWrapped => 0x00000008,
        EventFlag::HistoryDone => 0x00000010,
        EventFlag::RootChanged => 0x00000020,
        EventFlag::Mount => 0x00000040,
        EventFlag::Unmount => 0x00000080,
        EventFlag::ItemCreated => 0x00000100,
        EventFlag::ItemRemoved => 0x00000200,
        EventFlag::ItemInodeMetaMod => 0x00000400,
        EventFlag::ItemRenamed => 0x00000800,
        EventFlag::ItemModified => 0x00001000,
        EventFlag::ItemFinderInfoMod => 0x00002000,
        EventFlag::ItemChangeOwner => 0x00004000,
        EventFlag::ItemXattrMod => 0x00008000,
        EventFlag::ItemIsFile => 0x00010000,
        EventFlag::ItemIsDir => 0x00020000,
        EventFlag::ItemIsSymlink => 0x00040000,
        EventFlag::OwnEvent => 0x00080000,
        EventFlag::ItemIsHardlink => 0x00100000,
        EventFlag::ItemIsLastHardlink => 0x00200000,
        EventFlag::ItemCloned => 0x00400000,
    }
}

/// Position of each flag in the canonical order.
pub open spec fn flag_index(f: EventFlag) -> int {
    match f {
        EventFlag::MustScanSubDirs => 0,
        EventFlag::UserDropped => 1,
        EventFlag::KernelDropped => 2,
        EventFlag::EventIdsWrapped => 3,
        EventFlag::HistoryDone => 4,
        EventFlag::RootChanged => 5,
        EventFlag::Mount => 6,
        EventFlag::Unmount => 7,
        EventFlag::ItemCreated => 8,
        EventFlag::ItemRemoved => 9,
        EventFlag::ItemInodeMetaMod => 10,
        EventFlag::ItemRenamed => 11,
        EventFlag::ItemModified => 12,
        EventFlag::ItemFinderInfoMod => 13,
        EventFlag::ItemChangeOwner => 14,
        EventFlag::ItemXattrMod => 15,
        EventFlag::ItemIsFile => 16,
        EventFlag::ItemIsDir => 17,
        EventFlag::ItemIsSymlink => 18,
        EventFlag::OwnEvent => 19,
        EventFlag::ItemIsHardlink => 20,
        EventFlag::ItemIsLastHardlink => 21,
        EventFlag::ItemCloned => 22,
    }
}

/// The flag standing at a canonical position.
pub open spec fn flag_at(i: int) -> EventFlag {
    if i == 0 {
        EventFlag::MustScanSubDirs
    } else if i == 1 {
        EventFlag::UserDropped
    } else if i == 2 {
        EventFlag::KernelDropped
    } else if i == 3 {
        EventFlag::EventIdsWrapped
    } else if i == 4 {
        EventFlag::HistoryDone
    } else if i == 5 {
        EventFlag::RootChanged
    } else if i == 6 {
        EventFlag::Mount
    } else if i == 7 {
        EventFlag::Unmount
    } else if i == 8 {
        EventFlag::ItemCreated
    } else if i == 9 {
        EventFlag::ItemRemoved
    } else if i == 10 {
        EventFlag::ItemInodeMetaMod
    } else if i == 11 {
        EventFlag::ItemRenamed
    } else if i == 12 {
        EventFlag::ItemModified
    } else if i == 13 {
        EventFlag::ItemFinderInfoMod
    } else if i == 14 {
        EventFlag::ItemChangeOwner
    } else if i == 15 {
        EventFlag::ItemXattrMod
    } else if i == 16 {
        EventFlag::ItemIsFile
    } else if i == 17 {
        EventFlag::ItemIsDir
    } else if i == 18 {
        EventFlag::ItemIsSymlink
    } else if i == 19 {
        EventFlag::OwnEvent
    } else if i == 20 {
        EventFlag::ItemIsHardlink
    } else if i == 21 {
        EventFlag::ItemIsLastHardlink
    } else {
        EventFlag::ItemCloned
    }
}

/// The canonical position is a bijection between flags and `0..FLAG_COUNT`.
pub proof fn lemma_flag_tables()
    ensures
        forall|f: EventFlag| flag_at(#[trigger] flag_index(f)) == f,
        forall|f: EventFlag| 0 <= #[trigger] flag_index(f) < FLAG_COUNT,
        forall|i: int| 0 <= i < FLAG_COUNT ==> #[trigger] flag_index(flag_at(i)) == i,
{
}

/// The canonical order is the ascending bit order: a flag earlier in
/// the canonical order has the smaller bit.
pub proof fn lemma_canonical_order_is_bit_order(f: EventFlag, g: EventFlag)
    requires
        flag_index(f) < flag_index(g),
    ensures
        flag_mask(f) < flag_mask(g),
{
}

/// The ordered subset of named flags set in `w`, read from canonical
/// position `i` upward.
pub open spec fn decode_from(w: u32, i: int) -> Seq<EventFlag>
    decreases FLAG_COUNT - i,
{
    if i < 0 || i >= FLAG_COUNT {
        Seq::empty()
    } else if w & flag_mask(flag_at(i)) != 0 {
        seq![flag_at(i)] + decode_from(w, i + 1)
    } else {
        decode_from(w, i + 1)
    }
}

/// The decoded flag set of a flag word: exactly the named flags whose bit
/// is set, in canonical order.
pub open spec fn spec_decode(w: u32) -> Seq<EventFlag> {
    decode_from(w, 0)
}

/// The bit of a flag, as executable code.
pub fn mask_of(f: EventFlag) -> (m: u32)
    ensures
        m == flag_mask(f),
{
    match f {
        EventFlag::MustScanSubDirs => 0x00000001,
        EventFlag::UserDropped => 0x00000002,
        EventFlag::KernelDropped => 0x00000004,
        EventFlag::EventIdsWrapped => 0x00000008,
        EventFlag::HistoryDone => 0x00000010,
        EventFlag::RootChanged => 0x00000020,
        EventFlag::Mount => 0x00000040,
        EventFlag::Unmount => 0x00000080,
        EventFlag::ItemCreated => 0x00000100,
        EventFlag::ItemRemoved => 0x00000200,
        EventFlag::ItemInodeMetaMod => 0x00000400,
        EventFlag::ItemRenamed => 0x00000800,
        EventFlag::ItemModified => 0x00001000,
        EventFlag::ItemFinderInfoMod => 0x00002000,
        EventFlag::ItemChangeOwner => 0x00004000,
        EventFlag::ItemXattrMod => 0x00008000,
        EventFlag::ItemIsFile => 0x00010000,
        EventFlag::ItemIsDir => 0x00020000,
        EventFlag::ItemIsSymlink => 0x00040000,
        EventFlag::OwnEvent => 0x00080000,
        EventFlag::ItemIsHardlink => 0x00100000,
        EventFlag::ItemIsLastHardlink => 0x00200000,
        EventFlag::ItemCloned => 0x00400000,
    }
}

/// The flag at a canonical position, as executable code.
fn flag_at_exec(i: usize) -> (f: EventFlag)
    requires
        i < FLAG_COUNT,
    ensures
        f == flag_at(i as int),
{
    if i == 0 {
        EventFlag::MustScanSubDirs
    } else if i == 1 {
        EventFlag::UserDropped
    } else if i == 2 {
        EventFlag::KernelDropped
    } else if i == 3 {
        EventFlag::EventIdsWrapped
    } else if i == 4 {
        EventFlag::HistoryDone
    } else if i == 5 {
        EventFlag::RootChanged
    } else if i == 6 {
        EventFlag::Mount
    } else if i == 7 {
        EventFlag::Unmount
    } else if i == 8 {
        EventFlag::ItemCreated
    } else if i == 9 {
        EventFlag::ItemRemoved
    } else if i == 10 {
        EventFlag::ItemInodeMetaMod
    } else if i == 11 {
        EventFlag::ItemRenamed
    } else if i == 12 {
        EventFlag::ItemModified
    } else if i == 13 {
        EventFlag::ItemFinderInfoMod
    } else if i == 14 {
        EventFlag::ItemChangeOwner
    } else if i == 15 {
        EventFlag::ItemXattrMod
    } else if i == 16 {
        EventFlag::ItemIsFile
    } else if i == 17 {
        EventFlag::ItemIsDir
    } else if i == 18 {
        EventFlag::ItemIsSymlink
    } else if i == 19 {
        EventFlag::OwnEvent
    } else if i == 20 {
        EventFlag::ItemIsHardlink
    } else if i == 21 {
        EventFlag::ItemIsLastHardlink
    } else {
        EventFlag::ItemCloned
    }
}

/// Decode a flag word into the ordered set of named flags whose bit is
/// set.  The result is exactly those flags, in canonical bit order, and
/// is a pure function of `w`; unknown bits are silently ignored.
pub fn decode(w: u32) -> (r: Vec<EventFlag>)
    ensures
        r@ == spec_decode(w),
        forall|f: EventFlag| #[trigger] r@.contains(f) <==> w & flag_mask(f) != 0,
        forall|j: int, k: int|
            0 <= j < k < r@.len() ==> flag_index(r@[j]) < flag_index(r@[k]),
{
    let mut r: Vec<EventFlag> = Vec::new();
    let mut i: usize = 0;
    proof {
        lemma_flag_tables();
    }
    while i < FLAG_COUNT
        invariant
            i <= FLAG_COUNT,
            spec_decode(w) == r@ + decode_from(w, i as int),
            forall|f: EventFlag| #[trigger]
                r@.contains(f) <==> (w & flag_mask(f) != 0 && flag_index(f) < i),
            forall|j: int| 0 <= j < r@.len() ==> flag_index(r@[j]) < i,
            forall|j: int, k: int|
                0 <= j < k < r@.len() ==> flag_index(r@[j]) < flag_index(r@[k]),
        decreases FLAG_COUNT - i,
    {
        let f = flag_at_exec(i);
        proof {
            lemma_flag_tables();
        }
        let ghost old_r = r@;
        if w & mask_of(f) != 0 {
            r.push(f);
            proof {
                assert(r@ =~= old_r.push(f));
                assert(old_r + decode_from(w, i as int) =~= r@ + decode_from(w, i as int + 1));
                assert forall|g: EventFlag| #[trigger]
                    r@.contains(g) <==> (w & flag_mask(g) != 0 && flag_index(g) < i + 1) by {
                    assert(flag_at(flag_index(g)) == g);
                    if r@.contains(g) {
                        let j = choose|j: int| 0 <= j < r@.len() && r@[j] == g;
                        if j < old_r.len() {
                            assert(old_r[j] == g);
                            assert(old_r.contains(g));
                        } else {
                            assert(g == f);
                        }
                    }
                    if w & flag_mask(g) != 0 && flag_index(g) < i + 1 {
                        if flag_index(g) < i {
                            assert(old_r.contains(g));
                            let j = choose|j: int| 0 <= j < old_r.len() && old_r[j] == g;
                            assert(r@[j] == g);
                            assert(r@.contains(g));
                        } else {
                            assert(g == flag_at(i as int));
                            assert(r@[old_r.len() as int] == f);
                            assert(r@.contains(g));
                        }
                    }
                }
                assert forall|j: int, k: int| 0 <= j < k < r@.len() implies flag_index(r@[j])
                    < flag_index(r@[k]) by {
                    if k == old_r.len() {
                        assert(r@[j] == old_r[j]);
                        assert(r@[k] == f);
                    } else {
                        assert(r@[j] == old_r[j]);
                        assert(r@[k] == old_r[k]);
                    }
                }
            }
        } else {
            proof {
                assert forall|g: EventFlag| #[trigger]
                    r@.contains(g) <==> (w & flag_mask(g) != 0 && flag_index(g) < i + 1) by {
                    assert(flag_at(flag_index(g)) == g);
                }
            }
        }
        i = i + 1;
    }
    proof {
        assert(decode_from(w, FLAG_COUNT as int) =~= Seq::<EventFlag>::empty());
        assert(r@ + decode_from(w, FLAG_COUNT as int) =~= r@);
    }
    r
}

/// Extension trait for reading a raw flag word as its named flag set.
pub trait EventFlagExt {
    /// The flag word the value denotes.
    spec fn flag_word(&self) -> u32;

    /// The ordered set of named flags whose bit is set: exactly those
    /// flags, in canonical bit order.
    fn as_event_flags(&self) -> (r: Vec<EventFlag>)
        ensures
            r@ == spec_decode(self.flag_word()),
            forall|f: EventFlag| #[trigger]
                r@.contains(f) <==> self.flag_word() & flag_mask(f) != 0,
            forall|j: int, k: int|
                0 <= j < k < r@.len() ==> flag_index(r@[j]) < flag_index(r@[k]),
    ;
}

impl EventFlagExt for u32 {
    open spec fn flag_word(&self) -> u32 {
        *self
    }

    fn as_event_flags(&self) -> (r: Vec<EventFlag>) {
        decode(*self)
    }
}

/// Bit of `ItemRenamed`.
pub const RENAMED_MASK: u32 = 0x00000800;

/// Bit of `ItemRemoved`.
pub const REMOVED_MASK: u32 = 0x00000200;

/// Bit of `ItemCreated`.
pub const CREATED_MASK: u32 = 0x00000100;

/// Bits of the content- and metadata-modifying flags: `ItemModified`,
/// `ItemInodeMetaMod`, `ItemFinderInfoMod`, `ItemChangeOwner`,
/// `ItemXattrMod`.
pub const MODIFIED_MASK: u32 = 0x00001000 | 0x00000400 | 0x00002000 | 0x00004000 | 0x00008000;

/// Precedence classification of a flag word, first match wins:
/// renamed, else removed, else created, else any modifying flag, else
/// the default.  A record with none of the classifying bits still
/// represents a change, so the default is `Updated`, never nothing.
pub open spec fn spec_classify(w: u32) -> EventKind {
    if w & RENAMED_MASK != 0 {
        EventKind::Renamed
    } else if w & REMOVED_MASK != 0 {
        EventKind::Deleted
    } else if w & CREATED_MASK != 0 {
        EventKind::Created
    } else if w & MODIFIED_MASK != 0 {
        EventKind::Updated
    } else {
        EventKind::Updated
    }
}

/// Classify a flag word into the one kind its flag set denotes.
pub fn classify(w: u32) -> (k: EventKind)
    ensures
        k == spec_classify(w),
{
    if w & RENAMED_MASK != 0 {
        EventKind::Renamed
    } else if w & REMOVED_MASK != 0 {
        EventKind::Deleted
    } else if w & CREATED_MASK != 0 {
        EventKind::Created
    } else if w & MODIFIED_MASK != 0 {
        EventKind::Updated
    } else {
        EventKind::Updated
    }
}

/// Classification is total and follows the precedence table exactly:
/// every flag word, zero included, maps to exactly one kind.
pub proof fn lemma_classification_total(w: u32)
    ensures
        spec_classify(w) == EventKind::Renamed || spec_classify(w) == EventKind::Deleted
            || spec_classify(w) == EventKind::Created || spec_classify(w) == EventKind::Updated,
        w & RENAMED_MASK != 0 ==> spec_classify(w) == EventKind::Renamed,
        w & RENAMED_MASK == 0 && w & REMOVED_MASK != 0 ==> spec_classify(w)
            == EventKind::Deleted,
        w & RENAMED_MASK == 0 && w & REMOVED_MASK == 0 && w & CREATED_MASK != 0 ==> spec_classify(
            w,
        ) == EventKind::Created,
        w & RENAMED_MASK == 0 && w & REMOVED_MASK == 0 && w & CREATED_MASK == 0 ==> spec_classify(
            w,
        ) == EventKind::Updated,
{
}

/// Purely descriptive bits (file, directory, symlink, hardlink kinds)
/// never change what kind a flag word classifies to.
pub proof fn lemma_descriptive_bits_ignored(w: u32)
    ensures
        spec_classify(w | crate::fsevent::IGNORED_FLAGS) == spec_classify(w),
{
    assert((w | crate::fsevent::IGNORED_FLAGS) & RENAMED_MASK == w & RENAMED_MASK) by (bit_vector);
    assert((w | crate::fsevent::IGNORED_FLAGS) & REMOVED_MASK == w & REMOVED_MASK) by (bit_vector);
    assert((w | crate::fsevent::IGNORED_FLAGS) & CREATED_MASK == w & CREATED_MASK) by (bit_vector);
    assert((w | crate::fsevent::IGNORED_FLAGS) & MODIFIED_MASK == w & MODIFIED_MASK) by (
        bit_vector
    );
}

/// The structural signals a flag word carries, in a fixed canonical
/// order.  Dropped-event bits from either source surface as one
/// `EventsDropped` variant.
pub open spec fn spec_notifications(w: u32) -> Seq<Notification> {
    (if w & 0x00000001u32 != 0 {
        seq![Notification::MustRescan]
    } else {
        Seq::empty()
    }) + (if w & 0x00000006u32 != 0 {
        seq![Notification::EventsDropped]
    } else {
        Seq::empty()
    }) + (if w & 0x00000010u32 != 0 {
        seq![Notification::HistoryReplayDone]
    } else {
        Seq::empty()
    }) + (if w & 0x00000020u32 != 0 {
        seq![Notification::RootChanged]
    } else {
        Seq::empty()
    }) + (if w & 0x00000040u32 != 0 {
        seq![Notification::VolumeMounted]
    } else {
        Seq::empty()
    }) + (if w & 0x00000080u32 != 0 {
        seq![Notification::VolumeUnmounted]
    } else {
        Seq::empty()
    })
}

/// Extract the structural out-of-band notifications of a flag word.
pub fn notifications_of(w: u32) -> (r: Vec<Notification>)
    ensures
        r@ == spec_notifications(w),
{
    let mut r: Vec<Notification> = Vec::new();
    if w & 0x00000001u32 != 0 {
        r.push(Notification::MustRescan);
    }
    if w & 0x00000006u32 != 0 {
        r.push(Notification::EventsDropped);
    }
    if w & 0x00000010u32 != 0 {
        r.push(Notification::HistoryReplayDone);
    }
    if w & 0x00000020u32 != 0 {
        r.push(Notification::RootChanged);
    }
    if w & 0x00000040u32 != 0 {
        r.push(Notification::VolumeMounted);
    }
    if w & 0x00000080u32 != 0 {
        r.push(Notification::VolumeUnmounted);
    }
    proof {
        assert(r@ =~= spec_notifications(w));
    }
    r
}

} // verus!
