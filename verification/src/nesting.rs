use vstd::prelude::*;

verus! {

// How deep the binary decoding of the protocol's recursive structures nests, read off
// the bytes before they are decoded. A diagnostic info holds an inner diagnostic info,
// and a variant a variant, a data value (which holds a variant) or a diagnostic info;
// decoding calls itself once per level, so the bytes bound how deep it goes.

/// The most levels of nested diagnostic infos that decoding is given.
pub const MAX_DIAGNOSTIC_NESTING: usize = 1024;

/// The most bytes of a value's encoding that can make a variant hold a variant or a
/// data value.
pub const MAX_VALUE_LINKS: usize = 128;

/// The 32-bit signed little-endian integer at `p`.
pub open spec fn i32_at(b: Seq<u8>, p: int) -> i32 {
    (b[p] as u32 | ((b[p + 1] as u32) << 8) | ((b[p + 2] as u32) << 16) | ((b[p + 3] as u32) << 24)) as i32
}

/// Where the string whose encoding starts at `p` ends: its 32-bit length (-1 for
/// null), then that many bytes. `None` where the bytes run out or the length is
/// negative but not -1.
pub open spec fn string_end(b: Seq<u8>, p: int) -> Option<int> {
    if p < 0 || p + 4 > b.len() {
        None
    } else {
        let l = i32_at(b, p);
        if l == -1 {
            Some(p + 4)
        } else if l < -1 || p + 4 + l > b.len() {
            None
        } else {
            Some(p + 4 + l)
        }
    }
}

/// The bytes of a diagnostic info from its mask to its additional info: the mask,
/// then four bytes for each of the symbolic id, the namespace, the localized text and
/// the locale that the mask names.
pub open spec fn diagnostic_head_len(m: u8) -> int {
    1 + (if m & 0x01 != 0 { 4int } else { 0 }) + (if m & 0x02 != 0 { 4int } else { 0 })
        + (if m & 0x04 != 0 { 4int } else { 0 }) + (if m & 0x08 != 0 { 4int } else { 0 })
}

/// Decoding a diagnostic info from `p` on: how many levels of diagnostic infos it
/// enters, and where the outermost one ends (`None` where the bytes run out or a
/// length is invalid first). The fields are read in order: the mask, the four 32-bit
/// fields it names, the additional info (a string), the inner status code (four
/// bytes) and the inner diagnostic info.
pub open spec fn diagnostic_walk(b: Seq<u8>, p: int) -> (nat, Option<int>)
    decreases b.len() - p,
{
    if p < 0 || p >= b.len() {
        (1, None)
    } else {
        let m = b[p];
        let q = p + diagnostic_head_len(m);
        let r = if m & 0x10 != 0 {
            string_end(b, q)
        } else if q <= b.len() {
            Some(q)
        } else {
            None
        };
        match r {
            None => (1, None),
            Some(r1) => {
                let s = r1 + (if m & 0x20 != 0 { 4int } else { 0 });
                if s > b.len() {
                    (1, None)
                } else if m & 0x40 != 0 {
                    if s <= p {
                        (1, None)
                    } else {
                        let inner = diagnostic_walk(b, s);
                        (inner.0 + 1, inner.1)
                    }
                } else {
                    (1, Some(s))
                }
            },
        }
    }
}

/// The head of a diagnostic info reaches past its mask.
proof fn lemma_head_positive(m: u8)
    ensures
        diagnostic_head_len(m) >= 1,
{
}

/// A walk that ends does so past where it started.
proof fn lemma_walk_end_after(b: Seq<u8>, p: int)
    ensures
        diagnostic_walk(b, p).1 matches Some(e) ==> e > p,
    decreases b.len() - p,
{
    if 0 <= p < b.len() {
        let m = b[p];
        lemma_head_positive(m);
        let q = p + diagnostic_head_len(m);
        let r = if m & 0x10 != 0 { string_end(b, q) } else if q <= b.len() { Some(q) } else { None };
        if r is Some {
            let s = r->0 + (if m & 0x20 != 0 { 4int } else { 0 });
            if s <= b.len() && m & 0x40 != 0 && s > p {
                lemma_walk_end_after(b, s);
            }
        }
    }
}

/// A walk that ends at `e` reads only the bytes before `e`: on bytes that agree with
/// them there, it walks the same.
pub proof fn lemma_walk_reads_before_end(b1: Seq<u8>, b2: Seq<u8>, p: int)
    requires
        diagnostic_walk(b1, p).1 matches Some(e) && e <= b2.len() && forall|i: int| 0 <= i < e ==> b1[i] == b2[i],
    ensures
        diagnostic_walk(b2, p) == diagnostic_walk(b1, p),
    decreases b1.len() - p,
{
    let e = diagnostic_walk(b1, p).1->0;
    lemma_walk_end_after(b1, p);
    let m = b1[p];
    lemma_head_positive(m);
    assert(b1[p] == b2[p]);
    let q = p + diagnostic_head_len(m);
    let r = if m & 0x10 != 0 { string_end(b1, q) } else if q <= b1.len() { Some(q) } else { None };
    let r1 = r->0;
    let s = r1 + (if m & 0x20 != 0 { 4int } else { 0 });
    if m & 0x40 != 0 {
        lemma_walk_end_after(b1, s);
        assert(e > s);
    } else {
        assert(e == s);
    }
    if m & 0x10 != 0 {
        assert(r1 >= q + 4);
        assert(b1[q] == b2[q] && b1[q + 1] == b2[q + 1] && b1[q + 2] == b2[q + 2] && b1[q + 3] == b2[q + 3]);
        assert(i32_at(b1, q) == i32_at(b2, q));
        assert(string_end(b2, q) == string_end(b1, q));
    }
    if m & 0x40 != 0 {
        lemma_walk_reads_before_end(b1, b2, s);
    }
}

/// The 32-bit signed little-endian integer at `p`, computed.
pub(crate) fn read_i32_at(b: &[u8], p: usize) -> (r: i32)
    requires
        p + 4 <= b@.len(),
    ensures
        r == i32_at(b@, p as int),
{
    ((b[p] as u32) | ((b[p + 1] as u32) << 8) | ((b[p + 2] as u32) << 16) | ((b[p + 3] as u32) << 24)) as i32
}

/// Computes [`string_end`].
fn string_end_at(b: &[u8], p: usize) -> (r: Option<usize>)
    ensures
        match r {
            Some(e) => string_end(b@, p as int) == Some(e as int),
            None => string_end(b@, p as int) is None,
        },
{
    if p > b.len() || b.len() - p < 4 {
        return None;
    }
    let l = read_i32_at(b, p);
    if l == -1 {
        Some(p + 4)
    } else if l < -1 {
        None
    } else if l as usize > b.len() - p - 4 {
        None
    } else {
        Some(p + 4 + l as usize)
    }
}

/// Whether decoding a diagnostic info from `start` on enters at most `cap` levels.
pub fn diagnostic_nesting_within(b: &[u8], start: usize, cap: usize) -> (r: bool)
    ensures
        r == (diagnostic_walk(b@, start as int).0 <= cap),
{
    if start >= b.len() {
        return cap >= 1;
    }
    let mut pos: usize = start;
    let mut depth: usize = 0;
    loop
        invariant
            depth <= cap,
            pos < b@.len(),
            diagnostic_walk(b@, start as int).0 == depth + diagnostic_walk(b@, pos as int).0,
        decreases b@.len() - pos,
    {
        if depth == cap {
            return false;
        }
        depth += 1;
        let m = b[pos];
        let mut head: usize = 1;
        if m & 0x01 != 0 {
            head += 4;
        }
        if m & 0x02 != 0 {
            head += 4;
        }
        if m & 0x04 != 0 {
            head += 4;
        }
        if m & 0x08 != 0 {
            head += 4;
        }
        assert(head == diagnostic_head_len(m));
        if b.len() - pos < head {
            return true;
        }
        let q = pos + head;
        let r1 = if m & 0x10 != 0 {
            match string_end_at(b, q) {
                Some(e) => e,
                None => {
                    return true;
                },
            }
        } else {
            q
        };
        let tail: usize = if m & 0x20 != 0 { 4 } else { 0 };
        if b.len() - r1 < tail {
            return true;
        }
        let s = r1 + tail;
        if m & 0x40 == 0 {
            return true;
        }
        if s >= b.len() {
            assert(diagnostic_walk(b@, s as int) == (1nat, None::<int>));
            return depth < cap;
        }
        pos = s;
    }
}

/// Whether a byte of a variant's encoding can make it hold a variant or a data value:
/// its type bits (all but the two array bits) name one of them.
pub open spec fn value_link_byte(x: u8) -> bool {
    x & 0x3f == 0x17 || x & 0x3f == 0x18
}

/// How many bytes of `b` can make a variant hold a variant or a data value.
pub open spec fn value_link_count(b: Seq<u8>) -> nat
    decreases b.len(),
{
    if b.len() == 0 {
        0
    } else {
        value_link_count(b.drop_last()) + if value_link_byte(b.last()) { 1nat } else { 0 }
    }
}

/// Whether decoding a value from `b` nests within bounds: few bytes can make a variant
/// hold a variant or a data value, and a diagnostic info decoded from any position
/// nests within bounds. Decoding a variant from `b` then enters at most
/// `MAX_VALUE_LINKS + 1` levels of variants, and each diagnostic info in it at most
/// `MAX_DIAGNOSTIC_NESTING` levels.
pub open spec fn value_nesting_bounded(b: Seq<u8>) -> bool {
    &&& value_link_count(b) <= MAX_VALUE_LINKS
    &&& forall|p: int| 0 <= p < b.len() ==> #[trigger] diagnostic_walk(b, p).0 <= MAX_DIAGNOSTIC_NESTING
}

/// Computes [`value_nesting_bounded`].
pub fn value_nesting_check(b: &[u8]) -> (r: bool)
    ensures
        r == value_nesting_bounded(b@),
{
    let mut links: usize = 0;
    let mut i: usize = 0;
    assert(b@.take(0) =~= Seq::<u8>::empty());
    while i < b.len()
        invariant
            0 <= i <= b@.len(),
            links == value_link_count(b@.take(i as int)),
            links <= i,
        decreases b@.len() - i,
    {
        assert(b@.take(i + 1).drop_last() =~= b@.take(i as int));
        let x = b[i];
        if x & 0x3f == 0x17 || x & 0x3f == 0x18 {
            links += 1;
        }
        i += 1;
    }
    assert(b@.take(b@.len() as int) =~= b@);
    if links > MAX_VALUE_LINKS {
        return false;
    }
    let mut p: usize = 0;
    while p < b.len()
        invariant
            0 <= p <= b@.len(),
            forall|q: int| 0 <= q < p ==> #[trigger] diagnostic_walk(b@, q).0 <= MAX_DIAGNOSTIC_NESTING,
        decreases b@.len() - p,
    {
        if !diagnostic_nesting_within(b, p, MAX_DIAGNOSTIC_NESTING) {
            return false;
        }
        p += 1;
    }
    true
}

} // verus!
