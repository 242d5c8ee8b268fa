use fsevent_watcher::flags::{classify, decode, mask_of, notifications_of, EventFlag, EventFlagExt};
use fsevent_watcher::fsevent::IGNORED_FLAGS;
use fsevent_watcher::{EventKind, Notification};

#[test]
fn decode_picks_exactly_the_set_bits_in_order() {
    let r = decode(0x00000102);
    assert_eq!(r, vec![EventFlag::UserDropped, EventFlag::ItemCreated]);
}

#[test]
fn decode_zero_gives_empty_set() {
    assert!(decode(0).is_empty());
}

#[test]
fn decode_ignores_unknown_bits() {
    assert_eq!(decode(0xFF800000), vec![]);
    assert_eq!(decode(0xFF800000 | 0x00000800), vec![EventFlag::ItemRenamed]);
}

#[test]
fn decode_all_known_bits_in_canonical_order() {
    let r = decode(0x007FFFFF);
    assert_eq!(r.len(), 23);
    for pair in r.windows(2) {
        assert!(mask_of(pair[0]) < mask_of(pair[1]));
    }
    assert_eq!(r[0], EventFlag::MustScanSubDirs);
    assert_eq!(r[22], EventFlag::ItemCloned);
}

#[test]
fn decode_is_deterministic() {
    assert_eq!(decode(0x00013371), decode(0x00013371));
}

#[test]
fn classify_prefers_renamed() {
    assert_eq!(classify(0x800 | 0x200 | 0x100 | 0x1000), EventKind::Renamed);
}

#[test]
fn classify_removed_beats_created() {
    assert_eq!(classify(0x200 | 0x100), EventKind::Deleted);
}

#[test]
fn classify_created_beats_modified() {
    assert_eq!(classify(0x100 | 0x1000), EventKind::Created);
}

#[test]
fn classify_modified_family_updates() {
    assert_eq!(classify(0x1000), EventKind::Updated);
    assert_eq!(classify(0x400), EventKind::Updated);
    assert_eq!(classify(0x2000), EventKind::Updated);
    assert_eq!(classify(0x4000), EventKind::Updated);
    assert_eq!(classify(0x8000), EventKind::Updated);
}

#[test]
fn classify_zero_and_descriptive_default_to_updated() {
    assert_eq!(classify(0), EventKind::Updated);
    assert_eq!(classify(0x10000 | 0x20000), EventKind::Updated);
}

#[test]
fn classify_ignores_descriptive_bits() {
    assert_eq!(classify(0x100 | 0x10000), EventKind::Created);
    assert_eq!(classify(0x200 | 0x40000), EventKind::Deleted);
}

#[test]
fn notifications_in_fixed_order() {
    assert_eq!(
        notifications_of(0x1 | 0x2 | 0x10),
        vec![
            Notification::MustRescan,
            Notification::EventsDropped,
            Notification::HistoryReplayDone
        ]
    );
}

#[test]
fn notifications_merge_drop_sources() {
    assert_eq!(notifications_of(0x2 | 0x4), vec![Notification::EventsDropped]);
    assert_eq!(notifications_of(0x4), vec![Notification::EventsDropped]);
}

#[test]
fn notifications_mount_unmount_root() {
    assert_eq!(
        notifications_of(0x20 | 0x40 | 0x80),
        vec![
            Notification::RootChanged,
            Notification::VolumeMounted,
            Notification::VolumeUnmounted
        ]
    );
}

#[test]
fn notifications_none_for_item_bits() {
    assert!(notifications_of(0x100 | 0x800).is_empty());
}

#[test]
fn flag_word_extension_matches_decode() {
    let w: u32 = 0x100 | 0x2;
    assert_eq!(w.as_event_flags(), decode(w));
}

#[test]
fn id_wrap_flag_is_exposed_in_the_set() {
    assert_eq!(decode(0x8), vec![EventFlag::EventIdsWrapped]);
    assert!(notifications_of(0x8).is_empty());
}

#[test]
fn classify_unchanged_by_all_descriptive_bits() {
    for w in [0u32, 0x100, 0x200, 0x800, 0x1000, 0x100 | 0x1000] {
        assert_eq!(classify(w | IGNORED_FLAGS), classify(w));
    }
}
