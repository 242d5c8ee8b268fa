//! Path codec: converts between the library's owned path strings (UTF-8
//! bytes without a terminator) and the native representation handed
//! across the stream boundary (NUL-terminated UTF-8 bytes).  Decoding
//! validates the framing and the text; a failure is fatal for the watch,
//! not a per-event condition.

use vstd::prelude::*;

use crate::WatchError;

verus! {

/// A UTF-8 continuation byte.
pub open spec fn is_cont(b: u8) -> bool {
    0x80 <= b && b <= 0xBF
}

/// Well-formed UTF-8: every byte sequence decomposes into scalar
/// encodings of one to four bytes, with the restricted second-byte
/// ranges that exclude overlong forms, surrogates and values beyond
/// the last code point.
pub open spec fn is_utf8(s: Seq<u8>) -> bool
    decreases s.len(),
{
    if s.len() == 0 {
        true
    } else {
        let b0 = s[0];
        if b0 < 0x80 {
            is_utf8(s.skip(1))
        } else if 0xC2 <= b0 && b0 <= 0xDF {
            &&& s.len() >= 2
            &&& is_cont(s[1])
            &&& is_utf8(s.skip(2))
        } else if b0 == 0xE0 {
            &&& s.len() >= 3
            &&& 0xA0 <= s[1] && s[1] <= 0xBF
            &&& is_cont(s[2])
            &&& is_utf8(s.skip(3))
        } else if b0 == 0xED {
            &&& s.len() >= 3
            &&& 0x80 <= s[1] && s[1] <= 0x9F
            &&& is_cont(s[2])
            &&& is_utf8(s.skip(3))
        } else if 0xE1 <= b0 && b0 <= 0xEF {
            &&& s.len() >= 3
            &&& is_cont(s[1])
            &&& is_cont(s[2])
            &&& is_utf8(s.skip(3))
        } else if b0 == 0xF0 {
            &&& s.len() >= 4
            &&& 0x90 <= s[1] && s[1] <= 0xBF
            &&& is_cont(s[2])
            &&& is_cont(s[3])
            &&& is_utf8(s.skip(4))
        } else if 0xF1 <= b0 && b0 <= 0xF3 {
            &&& s.len() >= 4
            &&& is_cont(s[1])
            &&& is_cont(s[2])
            &&& is_cont(s[3])
            &&& is_utf8(s.skip(4))
        } else if b0 == 0xF4 {
            &&& s.len() >= 4
            &&& 0x80 <= s[1] && s[1] <= 0x8F
            &&& is_cont(s[2])
            &&& is_cont(s[3])
            &&& is_utf8(s.skip(4))
        } else {
            false
        }
    }
}

/// No byte of the sequence is NUL.
pub open spec fn no_nul(p: Seq<u8>) -> bool {
    forall|i: int| 0 <= i < p.len() ==> p[i] != 0
}

/// Every path of the list can be handed to the native layer: no
/// embedded NUL.
pub open spec fn all_no_nul(ps: Seq<Seq<u8>>) -> bool {
    forall|i: int| 0 <= i < ps.len() ==> no_nul(#[trigger] ps[i])
}

/// A well-formed library path: UTF-8 text with no embedded NUL.
pub open spec fn valid_path(p: Seq<u8>) -> bool {
    no_nul(p) && is_utf8(p)
}

/// Check one path for an embedded NUL byte.
pub fn has_no_nul(p: &Vec<u8>) -> (r: bool)
    ensures
        r == no_nul(p@),
{
    let n = p.len();
    let mut i: usize = 0;
    while i < n
        invariant
            i <= n,
            n == p@.len(),
            forall|j: int| 0 <= j < i ==> p@[j] != 0,
        decreases n - i,
    {
        if p[i] == 0 {
            return false;
        }
        i = i + 1;
    }
    true
}

/// Check a whole path list for embedded NUL bytes.
pub fn check_no_nul_list(paths: &Vec<Vec<u8>>) -> (r: bool)
    ensures
        r == all_no_nul(paths@.map_values(|p: Vec<u8>| p@)),
{
    let ghost ps = paths@.map_values(|p: Vec<u8>| p@);
    let n = paths.len();
    let mut i: usize = 0;
    while i < n
        invariant
            i <= n,
            n == paths@.len(),
            ps == paths@.map_values(|p: Vec<u8>| p@),
            forall|j: int| 0 <= j < i ==> no_nul(#[trigger] ps[j]),
        decreases n - i,
    {
        if !has_no_nul(&paths[i]) {
            proof {
                assert(!no_nul(ps[i as int]));
            }
            return false;
        }
        i = i + 1;
    }
    true
}

/// The native form of a path: its bytes followed by one NUL terminator.
pub open spec fn spec_encode(p: Seq<u8>) -> Seq<u8> {
    p.push(0)
}

/// A well-formed native string: non-empty, NUL-terminated, and UTF-8
/// text with no embedded NUL before the terminator.
pub open spec fn well_formed_native(b: Seq<u8>) -> bool {
    &&& b.len() >= 1
    &&& b[b.len() - 1] == 0
    &&& no_nul(b.take(b.len() - 1))
    &&& is_utf8(b.take(b.len() - 1))
}

/// The path a well-formed native string denotes: everything before the
/// terminator.
pub open spec fn spec_decode_native(b: Seq<u8>) -> Seq<u8> {
    b.take(b.len() - 1)
}

proof fn lemma_skip_skip(s: Seq<u8>, i: int, k: int)
    requires
        0 <= i,
        0 <= k,
        i + k <= s.len(),
    ensures
        s.skip(i).skip(k) == s.skip(i + k),
{
    assert(s.skip(i).skip(k) =~= s.skip(i + k));
}

/// Check that a byte sequence is well-formed UTF-8.
pub fn validate_utf8(v: &Vec<u8>) -> (r: bool)
    ensures
        r == is_utf8(v@),
{
    let n = v.len();
    let mut i: usize = 0;
    proof {
        assert(v@.skip(0) =~= v@);
    }
    while i < n
        invariant
            i <= n,
            n == v@.len(),
            is_utf8(v@) == is_utf8(v@.skip(i as int)),
        decreases n - i,
    {
        let ghost suf = v@.skip(i as int);
        proof {
            assert(suf.len() == n - i);
            assert(suf[0] == v@[i as int]);
        }
        let b0 = v[i];
        if b0 < 0x80 {
            proof {
                lemma_skip_skip(v@, i as int, 1);
            }
            i = i + 1;
        } else if b0 < 0xC2 {
            return false;
        } else if b0 <= 0xDF {
            if n - i < 2 {
                return false;
            }
            let b1 = v[i + 1];
            proof {
                assert(suf[1] == v@[i as int + 1]);
            }
            if !(0x80 <= b1 && b1 <= 0xBF) {
                return false;
            }
            proof {
                lemma_skip_skip(v@, i as int, 2);
            }
            i = i + 2;
        } else if b0 <= 0xEF {
            if n - i < 3 {
                return false;
            }
            let b1 = v[i + 1];
            let b2 = v[i + 2];
            proof {
                assert(suf[1] == v@[i as int + 1]);
                assert(suf[2] == v@[i as int + 2]);
            }
            let b1_ok = if b0 == 0xE0 {
                0xA0 <= b1 && b1 <= 0xBF
            } else if b0 == 0xED {
                0x80 <= b1 && b1 <= 0x9F
            } else {
                0x80 <= b1 && b1 <= 0xBF
            };
            if !b1_ok {
                return false;
            }
            if !(0x80 <= b2 && b2 <= 0xBF) {
                return false;
            }
            proof {
                lemma_skip_skip(v@, i as int, 3);
            }
            i = i + 3;
        } else if b0 <= 0xF4 {
            if n - i < 4 {
                return false;
            }
            let b1 = v[i + 1];
            let b2 = v[i + 2];
            let b3 = v[i + 3];
            proof {
                assert(suf[1] == v@[i as int + 1]);
                assert(suf[2] == v@[i as int + 2]);
                assert(suf[3] == v@[i as int + 3]);
            }
            let b1_ok = if b0 == 0xF0 {
                0x90 <= b1 && b1 <= 0xBF
            } else if b0 == 0xF4 {
                0x80 <= b1 && b1 <= 0x8F
            } else {
                0x80 <= b1 && b1 <= 0xBF
            };
            if !b1_ok {
                return false;
            }
            if !(0x80 <= b2 && b2 <= 0xBF) {
                return false;
            }
            if !(0x80 <= b3 && b3 <= 0xBF) {
                return false;
            }
            proof {
                lemma_skip_skip(v@, i as int, 4);
            }
            i = i + 4;
        } else {
            return false;
        }
    }
    proof {
        assert(v@.skip(n as int) =~= Seq::<u8>::empty());
    }
    true
}

/// Encode a library path into its native form.  Rejected before any
/// native resource is touched when the path holds an embedded NUL.
pub fn encode_path(p: &Vec<u8>) -> (r: Result<Vec<u8>, WatchError>)
    ensures
        r is Ok <==> no_nul(p@),
        r matches Ok(b) ==> b@ == spec_encode(p@),
        r matches Err(e) ==> e == WatchError::ConfigError,
{
    let n = p.len();
    let mut out: Vec<u8> = Vec::new();
    let mut i: usize = 0;
    while i < n
        invariant
            i <= n,
            n == p@.len(),
            out@ == p@.take(i as int),
            no_nul(p@.take(i as int)),
        decreases n - i,
    {
        let b = p[i];
        if b == 0 {
            proof {
                assert(!no_nul(p@));
            }
            return Err(WatchError::ConfigError);
        }
        out.push(b);
        proof {
            assert(out@ =~= p@.take(i as int + 1));
        }
        i = i + 1;
    }
    proof {
        assert(p@.take(n as int) =~= p@);
    }
    out.push(0);
    Ok(out)
}

/// Decode one native string into an owned library path, validating the
/// framing and the text.  A failure is the fatal `PathDecodeError`.
pub fn decode_path(b: &Vec<u8>) -> (r: Result<Vec<u8>, WatchError>)
    ensures
        r is Ok <==> well_formed_native(b@),
        r matches Ok(p) ==> p@ == spec_decode_native(b@),
        r matches Err(e) ==> e == WatchError::PathDecodeError,
{
    let n = b.len();
    if n == 0 {
        return Err(WatchError::PathDecodeError);
    }
    if b[n - 1] != 0 {
        return Err(WatchError::PathDecodeError);
    }
    let mut out: Vec<u8> = Vec::new();
    let mut i: usize = 0;
    while i < n - 1
        invariant
            i <= n - 1,
            n == b@.len(),
            n >= 1,
            out@ == b@.take(i as int),
            no_nul(b@.take(i as int)),
        decreases n - i,
    {
        let x = b[i];
        if x == 0 {
            proof {
                assert(b@.take(n as int - 1)[i as int] == 0);
                assert(!no_nul(b@.take(n as int - 1)));
            }
            return Err(WatchError::PathDecodeError);
        }
        out.push(x);
        proof {
            assert(out@ =~= b@.take(i as int + 1));
        }
        i = i + 1;
    }
    if !validate_utf8(&out) {
        return Err(WatchError::PathDecodeError);
    }
    Ok(out)
}

/// Round trip: encoding a valid path and decoding the result yields the
/// original path, for every UTF-8 path with no embedded NUL.
pub proof fn lemma_path_round_trip(p: Seq<u8>)
    requires
        valid_path(p),
    ensures
        well_formed_native(spec_encode(p)),
        spec_decode_native(spec_encode(p)) == p,
{
    assert(spec_encode(p).take(spec_encode(p).len() - 1) =~= p);
}

/// First-occurrence deduplication: each path keeps the position of its
/// first appearance, later repetitions are removed.
pub open spec fn dedup_first(s: Seq<Seq<u8>>) -> Seq<Seq<u8>>
    decreases s.len(),
{
    if s.len() == 0 {
        Seq::empty()
    } else {
        let d = dedup_first(s.drop_last());
        if d.contains(s.last()) {
            d
        } else {
            d.push(s.last())
        }
    }
}

/// Deduplication keeps exactly the members and leaves no duplicates.
pub proof fn lemma_dedup_first_props(s: Seq<Seq<u8>>)
    ensures
        forall|x: Seq<u8>| #[trigger] dedup_first(s).contains(x) <==> s.contains(x),
        forall|j: int, k: int|
            0 <= j < k < dedup_first(s).len() ==> dedup_first(s)[j] != dedup_first(s)[k],
    decreases s.len(),
{
    if s.len() == 0 {
    } else {
        let pre = s.drop_last();
        let d = dedup_first(pre);
        lemma_dedup_first_props(pre);
        assert forall|x: Seq<u8>| #[trigger] s.contains(x) implies (pre.contains(x) || x
            == s.last()) by {
            let j = choose|j: int| 0 <= j < s.len() && s[j] == x;
            if j < s.len() - 1 {
                assert(pre[j] == x);
                assert(pre.contains(x));
            }
        }
        assert forall|x: Seq<u8>| pre.contains(x) || x == s.last() implies #[trigger] s.contains(
            x,
        ) by {
            if pre.contains(x) {
                let j = choose|j: int| 0 <= j < pre.len() && pre[j] == x;
                assert(s[j] == x);
            } else {
                assert(s[s.len() - 1] == x);
            }
        }
        if d.contains(s.last()) {
        } else {
            let d2 = d.push(s.last());
            assert forall|x: Seq<u8>| #[trigger] d2.contains(x) implies (d.contains(x) || x
                == s.last()) by {
                let j = choose|j: int| 0 <= j < d2.len() && d2[j] == x;
                if j < d.len() {
                    assert(d[j] == x);
                }
            }
            assert forall|x: Seq<u8>| d.contains(x) implies #[trigger] d2.contains(x) by {
                let j = choose|j: int| 0 <= j < d.len() && d[j] == x;
                assert(d2[j] == x);
            }
            assert(d2.contains(s.last())) by {
                assert(d2[d2.len() - 1] == s.last());
            }
            assert forall|j: int, k: int| 0 <= j < k < d2.len() implies d2[j] != d2[k] by {
                if k == d2.len() - 1 {
                    assert(d2[j] == d[j]);
                    assert(d.contains(d[j])) by {
                        assert(d[j] == d[j]);
                    }
                    assert(d2[k] == s.last());
                } else {
                    assert(d2[j] == d[j]);
                    assert(d2[k] == d[k]);
                }
            }
        }
    }
}

/// Byte-for-byte equality of two paths.
pub fn bytes_eq(a: &Vec<u8>, b: &Vec<u8>) -> (r: bool)
    ensures
        r <==> a@ == b@,
{
    let n = a.len();
    if n != b.len() {
        proof {
            assert(a@ != b@);
        }
        return false;
    }
    let mut i: usize = 0;
    while i < n
        invariant
            i <= n,
            n == a@.len(),
            n == b@.len(),
            forall|j: int| 0 <= j < i ==> a@[j] == b@[j],
        decreases n - i,
    {
        if a[i] != b[i] {
            return false;
        }
        i = i + 1;
    }
    proof {
        assert(a@ =~= b@);
    }
    true
}

/// Decode an array of native strings into an owned list of paths of the
/// same length: element `i` is the decode of handle `i`, in array
/// order.  One malformed native string fails the whole batch with the
/// fatal `PathDecodeError`.
pub fn decode_path_list(handles: &Vec<Vec<u8>>) -> (r: Result<Vec<Vec<u8>>, WatchError>)
    ensures
        r is Ok <==> (forall|i: int|
            0 <= i < handles@.len() ==> well_formed_native(#[trigger] handles@[i]@)),
        r matches Ok(ps) ==> {
            &&& ps@.len() == handles@.len()
            &&& forall|i: int|
                0 <= i < handles@.len() ==> (#[trigger] ps@[i]@) == spec_decode_native(
                    handles@[i]@,
                )
        },
        r matches Err(e) ==> e == WatchError::PathDecodeError,
{
    let n = handles.len();
    let mut out: Vec<Vec<u8>> = Vec::new();
    let mut i: usize = 0;
    while i < n
        invariant
            i <= n,
            n == handles@.len(),
            out@.len() == i,
            forall|j: int| 0 <= j < i ==> well_formed_native(#[trigger] handles@[j]@),
            forall|j: int|
                0 <= j < i ==> (#[trigger] out@[j]@) == spec_decode_native(handles@[j]@),
        decreases n - i,
    {
        let p = match decode_path(&handles[i]) {
            Ok(p) => p,
            Err(e) => {
                return Err(e);
            },
        };
        out.push(p);
        i = i + 1;
    }
    Ok(out)
}

/// An owned copy of a path's bytes.
fn clone_bytes(p: &Vec<u8>) -> (r: Vec<u8>)
    ensures
        r@ == p@,
{
    let n = p.len();
    let mut out: Vec<u8> = Vec::new();
    let mut i: usize = 0;
    while i < n
        invariant
            i <= n,
            n == p@.len(),
            out@ == p@.take(i as int),
        decreases n - i,
    {
        out.push(p[i]);
        proof {
            assert(out@ =~= p@.take(i as int + 1));
        }
        i = i + 1;
    }
    proof {
        assert(p@.take(n as int) =~= p@);
    }
    out
}

/// First-occurrence deduplication of an owned path list, for
/// configuration plumbing (a set of watch roots or exclusions): each
/// path keeps the position of its first appearance, later repetitions
/// are removed.
pub fn dedup_paths(paths: &Vec<Vec<u8>>) -> (r: Vec<Vec<u8>>)
    ensures
        r@.map_values(|p: Vec<u8>| p@) == dedup_first(paths@.map_values(|p: Vec<u8>| p@)),
{
    let ghost ms = paths@.map_values(|p: Vec<u8>| p@);
    let n = paths.len();
    let mut out: Vec<Vec<u8>> = Vec::new();
    let mut i: usize = 0;
    proof {
        assert(ms.take(0) =~= Seq::<Seq<u8>>::empty());
    }
    while i < n
        invariant
            i <= n,
            n == paths@.len(),
            ms == paths@.map_values(|p: Vec<u8>| p@),
            out@.map_values(|p: Vec<u8>| p@) == dedup_first(ms.take(i as int)),
        decreases n - i,
    {
        let p = clone_bytes(&paths[i]);
        let ghost pre = ms.take(i as int);
        let ghost cur = dedup_first(pre);
        proof {
            assert(ms.take(i as int + 1).drop_last() =~= pre);
            assert(ms.take(i as int + 1).last() == ms[i as int]);
            assert(ms[i as int] == p@);
        }
        let mut seen = false;
        let mut j: usize = 0;
        let m = out.len();
        while j < m
            invariant
                j <= m,
                m == out@.len(),
                out@.map_values(|p: Vec<u8>| p@) == cur,
                seen <==> exists|k: int| 0 <= k < j && #[trigger] out@[k]@ == p@,
                p@ == ms[i as int],
                i < n,
                n == paths@.len(),
            decreases m - j,
        {
            if !seen && bytes_eq(&out[j], &p) {
                seen = true;
                proof {
                    assert(out@[j as int]@ == p@);
                }
            }
            j = j + 1;
        }
        proof {
            assert forall|k: int| 0 <= k < out@.len() implies cur[k] == #[trigger] out@[k]@ by {
                assert(out@.map_values(|p: Vec<u8>| p@)[k] == out@[k]@);
            }
            if seen {
                let k = choose|k: int| 0 <= k < out@.len() && #[trigger] out@[k]@ == p@;
                assert(cur[k] == p@);
                assert(cur.contains(p@));
            } else {
                if cur.contains(p@) {
                    let k = choose|k: int| 0 <= k < cur.len() && cur[k] == p@;
                    assert(out@[k]@ == p@);
                    assert(false);
                }
            }
        }
        if !seen {
            out.push(p);
            proof {
                assert(out@.map_values(|q: Vec<u8>| q@) =~= cur.push(ms[i as int]));
            }
        }
        proof {
            assert(out@.map_values(|q: Vec<u8>| q@) == dedup_first(ms.take(i as int + 1)));
        }
        i = i + 1;
    }
    proof {
        assert(ms.take(n as int) =~= ms);
    }
    out
}

} // verus!
