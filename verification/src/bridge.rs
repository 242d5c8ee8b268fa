//! Callback bridge: turns the three parallel arrays a native callback
//! delivers (path strings, flag words, event ids) into normalized
//! events, one per record, preserving delivery order, together with the
//! structural notifications the batch carries.

use vstd::prelude::*;

use crate::codec;
use crate::flags;
use crate::Event;
use crate::Notification;
use crate::WatchError;

verus! {

/// Everything one native callback batch decodes to: one event per
/// record, in delivery order; the structural notifications of all
/// records, in the same order; and the last event id of the batch, the
/// consumer's resumption token.
pub struct DecodedBatch {
    pub events: Vec<Event>,
    pub notes: Vec<Notification>,
    pub last_event_id: Option<u64>,
}

/// The structural notifications of a batch of flag words, record by
/// record, in delivery order.
pub open spec fn batch_notes(ws: Seq<u32>) -> Seq<Notification>
    decreases ws.len(),
{
    if ws.len() == 0 {
        Seq::empty()
    } else {
        batch_notes(ws.drop_last()) + flags::spec_notifications(ws.last())
    }
}

/// The decoded events mirror the native records: record `i` gives event
/// `i`, holding exactly the decoded path of record `i` and the kind its
/// flag word classifies to.  Consecutive records for one path stay
/// separate events.
pub open spec fn batch_shape(es: Seq<Event>, ps: Seq<Seq<u8>>, ws: Seq<u32>) -> bool {
    &&& es.len() == ps.len()
    &&& forall|i: int|
        0 <= i < es.len() ==> (#[trigger] es[i]).kind == flags::spec_classify(ws[i])
    &&& forall|i: int|
        0 <= i < es.len() ==> (#[trigger] es[i]).paths_model() == seq![
            codec::spec_decode_native(ps[i]),
        ]
}

/// Decode one callback batch.  Record order is preserved: event `i`
/// comes from record `i`.  One malformed native path fails the whole
/// batch with the fatal `PathDecodeError` and nothing is emitted.
pub fn decode_batch(paths: &Vec<Vec<u8>>, flag_words: &Vec<u32>, ids: &Vec<u64>) -> (r: Result<
    DecodedBatch,
    WatchError,
>)
    requires
        paths@.len() == flag_words@.len(),
        ids@.len() == flag_words@.len(),
    ensures
        r is Ok <==> (forall|i: int|
            0 <= i < paths@.len() ==> codec::well_formed_native(#[trigger] paths@[i]@)),
        r matches Ok(b) ==> {
            &&& batch_shape(b.events@, paths@.map_values(|h: Vec<u8>| h@), flag_words@)
            &&& b.notes@ == batch_notes(flag_words@)
            &&& b.last_event_id == (if ids@.len() > 0 {
                Some(ids@[ids@.len() - 1])
            } else {
                None::<u64>
            })
        },
        r matches Err(e) ==> e == WatchError::PathDecodeError,
{
    let ghost ps = paths@.map_values(|h: Vec<u8>| h@);
    let n = paths.len();
    let mut events: Vec<Event> = Vec::new();
    let mut notes: Vec<Notification> = Vec::new();
    let mut i: usize = 0;
    proof {
        assert(flag_words@.take(0) =~= Seq::<u32>::empty());
    }
    while i < n
        invariant
            i <= n,
            n == paths@.len(),
            n == flag_words@.len(),
            ps == paths@.map_values(|h: Vec<u8>| h@),
            events@.len() == i,
            forall|j: int| 0 <= j < i ==> codec::well_formed_native(#[trigger] paths@[j]@),
            forall|j: int|
                0 <= j < i ==> (#[trigger] events@[j]).kind == flags::spec_classify(
                    flag_words@[j],
                ),
            forall|j: int|
                0 <= j < i ==> (#[trigger] events@[j]).paths_model() == seq![
                    codec::spec_decode_native(ps[j]),
                ],
            notes@ == batch_notes(flag_words@.take(i as int)),
        decreases n - i,
    {
        let p = match codec::decode_path(&paths[i]) {
            Ok(p) => p,
            Err(e) => {
                return Err(e);
            },
        };
        let kind = flags::classify(flag_words[i]);
        let mut event_paths: Vec<Vec<u8>> = Vec::new();
        event_paths.push(p);
        let ev = Event { paths: event_paths, kind };
        proof {
            assert(ev.paths_model() =~= seq![codec::spec_decode_native(ps[i as int])]);
        }
        events.push(ev);
        let mut more = flags::notifications_of(flag_words[i]);
        notes.append(&mut more);
        proof {
            assert(flag_words@.take(i as int + 1).drop_last() =~= flag_words@.take(i as int));
            assert(flag_words@.take(i as int + 1).last() == flag_words@[i as int]);
        }
        i = i + 1;
    }
    proof {
        assert(flag_words@.take(n as int) =~= flag_words@);
    }
    let last_event_id = if ids.len() > 0 {
        Some(ids[ids.len() - 1])
    } else {
        None
    };
    Ok(DecodedBatch { events, notes, last_event_id })
}

} // verus!
