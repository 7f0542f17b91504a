//! Where the flexbuffer reader looks in a buffer when it finds the string at
//! `root[tag][key]`, and a check that every one of those reads stays inside
//! the buffer. The reader takes addresses, lengths and offsets from the
//! buffer itself; on bytes whose numbers point past the end it would index
//! out of bounds, so the envelope checks them before it looks anything up.
use vstd::prelude::*;

verus! {

/// The flexbuffer type tag of a map.
pub const MAP_TYPE: u8 = 9;

/// The flexbuffer type tag of a string.
pub const STRING_TYPE: u8 = 5;

/// A byte width that a flexbuffer slot can have.
pub open spec fn is_width(w: int) -> bool {
    w == 1 || w == 2 || w == 4 || w == 8
}

/// The byte width that a packed type byte gives in its two low bits.
pub open spec fn width_of(t: u8) -> int {
    let c = t % 4;
    if c == 0 {
        1
    } else if c == 1 {
        2
    } else if c == 2 {
        4
    } else {
        8
    }
}

/// The little-endian unsigned integer of `w` bytes at `a`.
pub open spec fn le_uint(b: Seq<u8>, a: int, w: int) -> int {
    if w == 1 {
        b[a] as int
    } else if w == 2 {
        b[a] + 0x100 * b[a + 1]
    } else if w == 4 {
        b[a] + 0x100 * b[a + 1] + 0x1_0000 * b[a + 2] + 0x100_0000 * b[a + 3]
    } else {
        b[a] + 0x100 * b[a + 1] + 0x1_0000 * b[a + 2] + 0x100_0000 * b[a + 3] + 0x1_0000_0000
            * b[a + 4] + 0x100_0000_0000 * b[a + 5] + 0x1_0000_0000_0000 * b[a + 6]
            + 0x100_0000_0000_0000 * b[a + 7]
    }
}

/// The address of the keys vector of the map at `a` with slot width `w`.
pub open spec fn map_keys(b: Seq<u8>, a: int, w: int) -> int {
    a - 3 * w - le_uint(b, a - 3 * w, w)
}

/// The slot width of the keys vector of the map at `a`.
pub open spec fn map_key_width(b: Seq<u8>, a: int, w: int) -> int {
    le_uint(b, a - 2 * w, w)
}

/// The number of entries of the map at `a`.
pub open spec fn map_len(b: Seq<u8>, a: int, w: int) -> int {
    le_uint(b, a - w, w)
}

/// The map at `a` has a readable header, and its key slots, value slots and
/// type bytes all lie inside the buffer.
pub open spec fn map_slots_ok(b: Seq<u8>, a: int, w: int) -> bool {
    &&& 3 * w < a < b.len()
    &&& is_width(map_key_width(b, a, w))
    &&& le_uint(b, a - 3 * w, w) <= a - 3 * w
    &&& map_keys(b, a, w) + map_len(b, a, w) * map_key_width(b, a, w) <= b.len()
    &&& a + map_len(b, a, w) * w + map_len(b, a, w) <= b.len()
}

/// Entry `i` of the map at `a` (slot width `w`, `n` entries), where it is a
/// string, points inside the buffer and has a length that can be added to
/// its address.
pub open spec fn string_slot_ok(b: Seq<u8>, a: int, w: int, n: int, i: int) -> bool {
    let t = b[a + n * w + i];
    t / 4 == STRING_TYPE ==> {
        let slot = a + i * w;
        let off = le_uint(b, slot, w);
        off <= slot && {
            let s = slot - off;
            let sw = width_of(t);
            s + (if s >= sw {
                le_uint(b, s - sw, sw)
            } else {
                0
            }) <= usize::MAX
        }
    }
}

/// The root of the buffer is a map, stored by an offset that points inside
/// the buffer.
pub open spec fn root_ok(b: Seq<u8>) -> bool {
    let n = b.len();
    &&& n >= 3
    &&& is_width(b[n - 1] as int)
    &&& n - 2 - b[n - 1] >= 0
    &&& b[n - 2] / 4 == MAP_TYPE
    &&& le_uint(b, n - 2 - b[n - 1], b[n - 1] as int) <= n - 2 - b[n - 1]
}

/// The address of the root map.
pub open spec fn root_at(b: Seq<u8>) -> int {
    let a0 = b.len() - 2 - b[b.len() - 1];
    a0 - le_uint(b, a0, b[b.len() - 1] as int)
}

/// The slot width of the root map.
pub open spec fn root_width(b: Seq<u8>) -> int {
    width_of(b[b.len() - 2])
}

/// The root map has one entry, whose value is a map of entries that all lie
/// inside the buffer: every read made in looking up `root[tag][key]` as a
/// string is in bounds.
pub open spec fn lookup_safe(b: Seq<u8>) -> bool {
    root_ok(b) && {
        let a = root_at(b);
        let w = root_width(b);
        &&& map_slots_ok(b, a, w)
        &&& map_len(b, a, w) == 1
        &&& b[a + w] / 4 == MAP_TYPE
        &&& le_uint(b, a, w) <= a
        &&& {
            let na = a - le_uint(b, a, w);
            let w2 = width_of(b[a + w]);
            let n2 = map_len(b, na, w2);
            map_slots_ok(b, na, w2) && forall|i: int|
                0 <= i < n2 ==> #[trigger] string_slot_ok(b, na, w2, n2, i)
        }
    }
}

fn width_exec(t: u8) -> (r: usize)
    ensures
        r as int == width_of(t),
        is_width(r as int),
{
    let c = t % 4;
    if c == 0 {
        1
    } else if c == 1 {
        2
    } else if c == 2 {
        4
    } else {
        8
    }
}

fn read_le(b: &[u8], a: usize, w: usize) -> (r: u64)
    requires
        is_width(w as int),
        a + w <= b@.len(),
    ensures
        r as int == le_uint(b@, a as int, w as int),
{
    if w == 1 {
        b[a] as u64
    } else if w == 2 {
        b[a] as u64 + 0x100 * (b[a + 1] as u64)
    } else if w == 4 {
        b[a] as u64 + 0x100 * (b[a + 1] as u64) + 0x1_0000 * (b[a + 2] as u64) + 0x100_0000 * (
        b[a + 3] as u64)
    } else {
        b[a] as u64 + 0x100 * (b[a + 1] as u64) + 0x1_0000 * (b[a + 2] as u64) + 0x100_0000 * (
        b[a + 3] as u64) + 0x1_0000_0000 * (b[a + 4] as u64) + 0x100_0000_0000 * (b[a + 5] as u64)
            + 0x1_0000_0000_0000 * (b[a + 6] as u64) + 0x100_0000_0000_0000 * (b[a + 7] as u64)
    }
}

fn times_width(n: u128, w: u128) -> (r: u128)
    requires
        n <= u64::MAX,
        is_width(w as int),
    ensures
        r == n * w,
        n <= r <= 8 * n,
{
    if w == 1 {
        n
    } else if w == 2 {
        n * 2
    } else if w == 4 {
        n * 4
    } else {
        n * 8
    }
}

/// The number of entries of the map at `a`, where `map_slots_ok` holds.
fn map_slots(b: &[u8], a: usize, w: usize) -> (r: Option<usize>)
    requires
        is_width(w as int),
    ensures
        r is Some <==> map_slots_ok(b@, a as int, w as int),
        r matches Some(n) ==> n as int == map_len(b@, a as int, w as int),
{
    let len = b.len();
    if a >= len || a <= 3 * w {
        return None;
    }
    let kw = read_le(b, a - 2 * w, w);
    if !(kw == 1 || kw == 2 || kw == 4 || kw == 8) {
        return None;
    }
    let koff = read_le(b, a - 3 * w, w);
    if koff > (a - 3 * w) as u64 {
        return None;
    }
    let ka = a - 3 * w - koff as usize;
    let n = read_le(b, a - w, w);
    let keys_end = ka as u128 + times_width(n as u128, kw as u128);
    if keys_end > len as u128 {
        return None;
    }
    let values_end = a as u128 + times_width(n as u128, w as u128) + n as u128;
    if values_end > len as u128 {
        return None;
    }
    Some(n as usize)
}

/// Whether every read that the flexbuffer reader makes in looking up
/// `root[tag][key]` as a string stays inside `b`, for any `tag` and `key`.
pub fn reads_in_bounds(b: &[u8]) -> (r: bool)
    ensures
        r == lookup_safe(b@),
{
    let len = b.len();
    if len < 3 {
        return false;
    }
    let rw = b[len - 1] as usize;
    if !(rw == 1 || rw == 2 || rw == 4 || rw == 8) || len - 2 < rw {
        return false;
    }
    let t = b[len - 2];
    if t / 4 != MAP_TYPE {
        return false;
    }
    let a0 = len - 2 - rw;
    let off = read_le(b, a0, rw);
    if off > a0 as u64 {
        return false;
    }
    let a = a0 - off as usize;
    let w = width_exec(t);
    assert(a as int == root_at(b@) && w as int == root_width(b@));
    let n = match map_slots(b, a, w) {
        Some(n) => n,
        None => {
            return false;
        },
    };
    if n != 1 {
        return false;
    }
    let tb = b[a + w];
    if tb / 4 != MAP_TYPE {
        return false;
    }
    let off2 = read_le(b, a, w);
    if off2 > a as u64 {
        return false;
    }
    let na = a - off2 as usize;
    let w2 = width_exec(tb);
    let n2 = match map_slots(b, na, w2) {
        Some(n2) => n2,
        None => {
            return false;
        },
    };
    let ghost bs = b@;
    assert(lookup_safe(bs) == (forall|j: int|
        0 <= j < n2 ==> #[trigger] string_slot_ok(bs, na as int, w2 as int, n2 as int, j)));
    let mut i: usize = 0;
    while i < n2
        invariant
            0 <= i <= n2,
            bs == b@,
            is_width(w2 as int),
            map_slots_ok(bs, na as int, w2 as int),
            n2 as int == map_len(bs, na as int, w2 as int),
            lookup_safe(bs) == (forall|j: int|
                0 <= j < n2 ==> #[trigger] string_slot_ok(bs, na as int, w2 as int, n2 as int, j)),
            forall|j: int| 0 <= j < i ==> #[trigger] string_slot_ok(bs, na as int, w2 as int, n2 as int, j),
        decreases n2 - i,
    {
        let iw = times_width(i as u128, w2 as u128);
        let nw = times_width(n2 as u128, w2 as u128);
        assert((i as int + 1) * (w2 as int) <= (n2 as int) * (w2 as int)) by (nonlinear_arith)
            requires
                i < n2,
                w2 >= 1,
        ;
        assert((i as int + 1) * (w2 as int) == i as int * w2 as int + w2 as int) by (nonlinear_arith);
        assert(na as int + nw as int + n2 as int <= bs.len());
        let tv = b[(na as u128 + nw + i as u128) as usize];
        if tv / 4 == STRING_TYPE {
            let slot = (na as u128 + iw) as usize;
            let off3 = read_le(b, slot, w2);
            if off3 > slot as u64 {
                assert(!string_slot_ok(bs, na as int, w2 as int, n2 as int, i as int));
                return false;
            }
            let s = slot - off3 as usize;
            let sw = width_exec(tv);
            let slen = if s >= sw {
                read_le(b, s - sw, sw)
            } else {
                0
            };
            if slen as u128 > (usize::MAX - s) as u128 {
                assert(!string_slot_ok(bs, na as int, w2 as int, n2 as int, i as int));
                return false;
            }
        }
        assert(string_slot_ok(bs, na as int, w2 as int, n2 as int, i as int));
        i = i + 1;
    }
    true
}

} // verus!
