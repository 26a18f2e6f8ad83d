//! Which directory entry slots of a directory are in use, and how a run of free slots is found,
//! claimed and given back.
use vstd::prelude::*;
use bitvec_rs::BitVec;

verus! {

#[verifier::external_type_specification]
#[verifier::external_body]
pub struct ExBitVec(BitVec);

/// The bits a `BitVec` holds, in order.
pub uninterp spec fn bitvec_bits(v: BitVec) -> Seq<bool>;

/// `BitVec::len`: the number of bits held.
#[verifier::external_body]
fn bitvec_len(v: &BitVec) -> (r: usize)
    ensures
        r == bitvec_bits(*v).len(),
{
    v.len()
}

/// `BitVec`'s indexing: the bit at `i`. Indexing panics past the end.
#[verifier::external_body]
fn bitvec_index(v: &BitVec, i: usize) -> (r: bool)
    requires
        i < bitvec_bits(*v).len(),
    ensures
        r == bitvec_bits(*v)[i as int],
{
    v[i]
}

/// `BitVec::set`: replaces the bit at `i`. It panics past the end.
#[verifier::external_body]
fn bitvec_set(v: &mut BitVec, i: usize, value: bool)
    requires
        i < bitvec_bits(*old(v)).len(),
    ensures
        bitvec_bits(*final(v)) == bitvec_bits(*old(v)).update(i as int, value),
{
    v.set(i, value)
}

/// `BitVec::resize`: cuts the bits to `new_len`, or appends copies of `value` up to it.
#[verifier::external_body]
fn bitvec_resize(v: &mut BitVec, new_len: usize, value: bool)
    ensures
        new_len <= bitvec_bits(*old(v)).len() ==> bitvec_bits(*final(v)) == bitvec_bits(*old(v)).subrange(0, new_len as int),
        new_len > bitvec_bits(*old(v)).len() ==> bitvec_bits(*final(v)) == bitvec_bits(*old(v))
            + Seq::new((new_len - bitvec_bits(*old(v)).len()) as nat, |_i: int| value),
{
    v.resize(new_len, value)
}

/// `BitVec::push`: appends a bit.
#[verifier::external_body]
pub(crate) fn bitvec_push(v: &mut BitVec, value: bool)
    requires
        bitvec_bits(*old(v)).len() < usize::MAX,
    ensures
        bitvec_bits(*final(v)) == bitvec_bits(*old(v)).push(value),
{
    v.push(value)
}

/// `n` slots from `i` are free and lie within the table.
pub open spec fn run_fits(bits: Seq<bool>, i: int, n: int) -> bool {
    &&& 0 <= i
    &&& i + n <= bits.len()
    &&& forall|j: int| i <= j < i + n ==> !#[trigger] bits[j]
}

/// Searches the slot table for the first run of `n` free slots.
///
/// Gives `(left, right)`: the slots from `left` to `right` are free. Either they are the first
/// run of `n` free slots, or no such run exists and they are the free slots at the end of the
/// table (`right` is its length).
pub fn find_dirent_slots(occupy: &BitVec, n: usize) -> (r: (usize, usize))
    ensures
        r.0 <= r.1 <= bitvec_bits(*occupy).len(),
        r.1 - r.0 <= n,
        forall|j: int| r.0 <= j < r.1 ==> !#[trigger] bitvec_bits(*occupy)[j],
        r.1 - r.0 == n || r.1 == bitvec_bits(*occupy).len(),
        n > 0 ==> forall|i: int| 0 <= i < r.0 ==> !run_fits(bitvec_bits(*occupy), i, n as int),
{
    let ghost bits = bitvec_bits(*occupy);
    let len = bitvec_len(occupy);
    let mut left: usize = 0;
    let mut right: usize = 0;
    while right < len
        invariant_except_break
            n > 0 ==> forall|i: int| 0 <= i < right ==> !run_fits(bits, i, n as int),
        invariant
            len == bits.len(),
            bits == bitvec_bits(*occupy),
            left <= right <= len,
            right - left <= n,
            forall|j: int| left <= j < right ==> !#[trigger] bits[j],
            n > 0 ==> forall|i: int| 0 <= i < left ==> !run_fits(bits, i, n as int),
        ensures
            left <= right <= len,
            right - left <= n,
            forall|j: int| left <= j < right ==> !#[trigger] bits[j],
            n > 0 ==> forall|i: int| 0 <= i < left ==> !run_fits(bits, i, n as int),
            right - left == n || right == len,
        decreases len - right,
    {
        let ghost r0 = right;
        left = right;
        while left < len && bitvec_index(occupy, left)
            invariant
                len == bits.len(),
                bits == bitvec_bits(*occupy),
                r0 <= left <= len,
                right == left,
                n > 0 ==> forall|i: int| 0 <= i < left ==> !run_fits(bits, i, n as int),
            decreases len - left,
        {
            assert(bits[left as int]);
            assert(n > 0 ==> !run_fits(bits, left as int, n as int));
            left += 1;
            right = left;
        }
        right = left;
        while right < len && right - left < n && !bitvec_index(occupy, right)
            invariant
                len == bits.len(),
                bits == bitvec_bits(*occupy),
                r0 <= left <= right <= len,
                right - left <= n,
                forall|j: int| left <= j < right ==> !#[trigger] bits[j],
                n > 0 ==> forall|i: int| 0 <= i < left ==> !run_fits(bits, i, n as int),
            decreases len - right,
        {
            right += 1;
        }
        if right - left == n {
            break;
        }
        if right == len {
            break;
        }
        assert(bits[right as int]);
        if n > 0 {
            assert forall|i: int| 0 <= i < right implies !run_fits(bits, i, n as int) by {
                if left <= i && run_fits(bits, i, n as int) {
                    assert(right < i + n);
                    assert(!bits[right as int]);
                }
            }
        }
        assert(right > r0);
    }
    (left, right)
}

/// Marks the `n` slots from `left` as used.
fn mark_slots(occupy: &mut BitVec, left: usize, n: usize, value: bool)
    requires
        left + n <= bitvec_bits(*old(occupy)).len(),
    ensures
        bitvec_bits(*final(occupy)).len() == bitvec_bits(*old(occupy)).len(),
        forall|j: int| 0 <= j < bitvec_bits(*old(occupy)).len() ==> #[trigger] bitvec_bits(*final(occupy))[j]
            == if left <= j < left + n { value } else { bitvec_bits(*old(occupy))[j] },
{
    let ghost start = bitvec_bits(*occupy);
    let total = bitvec_len(occupy);
    let mut i: usize = 0;
    while i < n
        invariant
            i <= n,
            total == start.len(),
            left + n <= start.len(),
            bitvec_bits(*occupy).len() == start.len(),
            forall|j: int| 0 <= j < start.len() ==> #[trigger] bitvec_bits(*occupy)[j]
                == if left <= j < left + i { value } else { start[j] },
        decreases n - i,
    {
        bitvec_set(occupy, left + i, value);
        i += 1;
    }
}

/// Claims a run of `n` slots for a new directory entry: the first run of `n` free slots, or
/// else the free slots at the end of the table, with the table grown to hold all `n`. Gives
/// the first slot and whether the claimed run reaches the end of the table (then the table now
/// ends with it; otherwise its length is kept).
pub fn reserve_dirent_slots(occupy: &mut BitVec, n: usize) -> (r: (usize, bool))
    requires
        bitvec_bits(*old(occupy)).len() + n <= usize::MAX,
    ensures
        ({
            let old_bits = bitvec_bits(*old(occupy));
            let new_bits = bitvec_bits(*final(occupy));
            let (left, at_end) = r;
            &&& left + n <= new_bits.len()
            &&& forall|j: int| left <= j < left + n ==> #[trigger] new_bits[j]
            &&& forall|j: int| 0 <= j < left ==> #[trigger] new_bits[j] == old_bits[j]
            &&& at_end == (left + n >= old_bits.len())
            &&& at_end ==> new_bits.len() == left + n
            &&& !at_end ==> new_bits.len() == old_bits.len()
                && forall|j: int| left + n <= j < old_bits.len() ==> #[trigger] new_bits[j] == old_bits[j]
            &&& !at_end ==> run_fits(old_bits, left as int, n as int)
            &&& at_end ==> forall|j: int| left <= j < old_bits.len() ==> !#[trigger] old_bits[j]
            &&& n > 0 ==> forall|i: int| 0 <= i < left ==> !run_fits(old_bits, i, n as int)
        }),
{
    let ghost old_bits = bitvec_bits(*occupy);
    let (left, right) = find_dirent_slots(occupy, n);
    let len = bitvec_len(occupy);
    let at_end = right == len;
    if at_end {
        bitvec_resize(occupy, left + n, false);
        assert(left + n >= len);
    }
    mark_slots(occupy, left, n, true);
    (left, at_end)
}

/// Gives back the `len` slots from `pos`: when they end the table, the table is cut before
/// them; otherwise they are marked free. Gives whether the table was cut.
pub fn release_dirent_slots(occupy: &mut BitVec, pos: usize, len: usize) -> (r: bool)
    requires
        pos + len <= bitvec_bits(*old(occupy)).len(),
    ensures
        r == (pos + len == bitvec_bits(*old(occupy)).len()),
        r ==> bitvec_bits(*final(occupy)) == bitvec_bits(*old(occupy)).subrange(0, pos as int),
        !r ==> bitvec_bits(*final(occupy)).len() == bitvec_bits(*old(occupy)).len()
            && forall|j: int| 0 <= j < bitvec_bits(*old(occupy)).len() ==> #[trigger] bitvec_bits(*final(occupy))[j]
                == if pos <= j < pos + len { false } else { bitvec_bits(*old(occupy))[j] },
{
    let total = bitvec_len(occupy);
    if pos + len == total {
        bitvec_resize(occupy, pos, false);
        true
    } else {
        mark_slots(occupy, pos, len, false);
        false
    }
}

} // verus!
