use fsevent_watcher::codec::encode_path;
use fsevent_watcher::fsevent::{FSEvent, DEFAULT_QUEUE_CAPACITY, MAX_EXCLUSIONS};
use fsevent_watcher::queue::EventQueue;
use fsevent_watcher::{
    Event, EventKind, ExclusionList, Notification, WatchError, WatcherOptions,
};

fn options() -> WatcherOptions {
    WatcherOptions {
        exclusions: ExclusionList::new(Vec::new()).unwrap(),
        since_event_id: None,
        latency_millis: 0,
        watch_flags: 0,
    }
}

fn ev(p: &[u8]) -> Event {
    Event { paths: vec![p.to_vec()], kind: EventKind::Updated }
}

#[test]
fn exclusion_list_limit() {
    let mut nine: Vec<Vec<u8>> = Vec::new();
    for i in 0..9u8 {
        nine.push(vec![b'/', b'a' + i]);
    }
    let eight: Vec<Vec<u8>> = nine[..8].to_vec();
    assert!(matches!(ExclusionList::new(nine), Err(WatchError::ConfigError)));
    let ok = ExclusionList::new(eight).unwrap();
    assert_eq!(ok.count(), MAX_EXCLUSIONS);
    assert_eq!(ok.path_at(0), &vec![b'/', b'a']);
}

#[test]
fn exclusion_list_rejects_nul_path() {
    let bad = vec![vec![b'/', 0x00, b'x']];
    assert!(matches!(ExclusionList::new(bad), Err(WatchError::ConfigError)));
}

#[test]
fn create_rejects_bad_roots_before_native_outcome() {
    let roots = vec![vec![b'/', 0x00, b'x']];
    assert!(matches!(FSEvent::create(&roots, &options(), true), Err(WatchError::ConfigError)));
    assert!(matches!(FSEvent::create(&roots, &options(), false), Err(WatchError::ConfigError)));
}

#[test]
fn create_reports_native_failure() {
    let roots = vec![b"/tmp/x".to_vec()];
    assert!(matches!(
        FSEvent::create(&roots, &options(), false),
        Err(WatchError::StreamCreateError)
    ));
}

#[test]
fn batch_preserves_record_order() {
    let roots = vec![b"/tmp/x".to_vec()];
    let mut w = FSEvent::create(&roots, &options(), true).unwrap();
    w.start(true).unwrap();
    let paths = vec![
        encode_path(&b"/tmp/x/a".to_vec()).unwrap(),
        encode_path(&b"/tmp/x/b".to_vec()).unwrap(),
        encode_path(&b"/tmp/x/c".to_vec()).unwrap(),
    ];
    let words = vec![0x100u32, 0x1000, 0x200];
    let ids = vec![10u64, 11, 12];
    w.on_callback(&paths, &words, &ids).unwrap();
    let e1 = w.next_event().unwrap();
    assert_eq!(e1.paths, vec![b"/tmp/x/a".to_vec()]);
    assert_eq!(e1.kind, EventKind::Created);
    let e2 = w.next_event().unwrap();
    assert_eq!(e2.paths, vec![b"/tmp/x/b".to_vec()]);
    assert_eq!(e2.kind, EventKind::Updated);
    let e3 = w.next_event().unwrap();
    assert_eq!(e3.paths, vec![b"/tmp/x/c".to_vec()]);
    assert_eq!(e3.kind, EventKind::Deleted);
    assert!(w.next_event().is_none());
    assert_eq!(w.last_event_id(), Some(12));
}

#[test]
fn overflow_drops_oldest_and_signals_once() {
    let mut q = EventQueue::new(2);
    q.push(ev(b"/one"));
    q.push(ev(b"/two"));
    q.push(ev(b"/three"));
    assert_eq!(q.len(), 2);
    assert_eq!(q.take_overflow(), Some(Notification::EventsDropped));
    assert_eq!(q.take_overflow(), None);
    assert_eq!(q.pop().unwrap().paths, vec![b"/two".to_vec()]);
    assert_eq!(q.pop().unwrap().paths, vec![b"/three".to_vec()]);
    assert!(q.pop().is_none());
}

#[test]
fn watcher_overflow_emits_dropped_notification() {
    let mut w = FSEvent::create(&vec![b"/tmp/x".to_vec()], &options(), true).unwrap();
    w.start(true).unwrap();
    let total = DEFAULT_QUEUE_CAPACITY + 3;
    let mut paths = Vec::new();
    let mut words = Vec::new();
    let mut ids = Vec::new();
    for i in 0..total {
        paths.push(encode_path(&format!("/tmp/x/{}", i).into_bytes()).unwrap());
        words.push(0x100u32);
        ids.push(i as u64);
    }
    w.on_callback(&paths, &words, &ids).unwrap();
    assert_eq!(w.next_notification(), Some(Notification::EventsDropped));
    assert!(w.next_notification().is_none());
    // the three oldest records were dropped; record 3 comes out first
    let first = w.next_event().unwrap();
    assert_eq!(first.paths, vec![format!("/tmp/x/{}", 3).into_bytes()]);
}

#[test]
fn synthetic_scenario_create_write_rename_delete() {
    let roots = vec![b"/tmp/x".to_vec()];
    let mut w = FSEvent::create(&roots, &options(), true).unwrap();
    w.start(true).unwrap();
    let f = b"/tmp/x/f.txt".to_vec();
    let g = b"/tmp/x/g.txt".to_vec();
    let records: Vec<(Vec<u8>, u32)> = vec![
        (f.clone(), 0x100 | 0x10000),
        (f.clone(), 0x1000 | 0x10000),
        (g.clone(), 0x800 | 0x10000),
        (g.clone(), 0x200 | 0x10000),
    ];
    let mut id = 100u64;
    for (p, word) in records {
        let paths = vec![encode_path(&p).unwrap()];
        w.on_callback(&paths, &vec![word], &vec![id]).unwrap();
        id += 1;
    }
    let mut seen: Vec<(Vec<Vec<u8>>, EventKind)> = Vec::new();
    for _ in 0..4 {
        let e = w.next_event().unwrap();
        seen.push((e.paths, e.kind));
    }
    assert_eq!(
        seen,
        vec![
            (vec![f.clone()], EventKind::Created),
            (vec![f.clone()], EventKind::Updated),
            (vec![g.clone()], EventKind::Renamed),
            (vec![g.clone()], EventKind::Deleted),
        ]
    );
    assert!(w.next_event().is_none());
    assert_eq!(w.last_event_id(), Some(103));
    let steps = w.shutdown();
    assert_eq!(steps.len(), 3);
}

#[test]
fn malformed_callback_path_is_fatal() {
    let mut w = FSEvent::create(&vec![b"/tmp/x".to_vec()], &options(), true).unwrap();
    w.start(true).unwrap();
    let r = w.on_callback(&vec![b"no-terminator".to_vec()], &vec![0x100u32], &vec![1u64]);
    assert_eq!(r, Err(WatchError::PathDecodeError));
    assert!(w.next_event().is_none());
    assert!(w.next_notification().is_none());
}

#[test]
fn structural_flags_surface_out_of_band() {
    let mut w = FSEvent::create(&vec![b"/tmp/x".to_vec()], &options(), true).unwrap();
    w.start(true).unwrap();
    let paths = vec![encode_path(&b"/tmp/x".to_vec()).unwrap()];
    w.on_callback(&paths, &vec![0x10u32 | 0x100], &vec![7u64]).unwrap();
    assert_eq!(w.next_notification(), Some(Notification::HistoryReplayDone));
    assert!(w.next_notification().is_none());
    assert_eq!(w.next_event().unwrap().kind, EventKind::Created);
}

#[test]
fn since_event_id_seeds_resumption_token() {
    let mut opts = options();
    opts.since_event_id = Some(42);
    let w = FSEvent::create(&vec![b"/tmp/x".to_vec()], &opts, true).unwrap();
    assert_eq!(w.last_event_id(), Some(42));
}
