//! How a stream of bytes falls into parts.
use vstd::prelude::*;

use crate::multipart::{ceil_div, part_size, MAX_PARTS, MIN_PART_SIZE};

verus! {

/// The whole parts of `size` bytes that can be cut off the front of `bytes`.
pub open spec fn cuts(bytes: Seq<u8>, size: nat) -> Seq<Seq<u8>>
    decreases bytes.len(),
{
    if size == 0 || bytes.len() < size {
        Seq::empty()
    } else {
        seq![bytes.take(size as int)] + cuts(bytes.skip(size as int), size)
    }
}

/// What is left of `bytes` once the whole parts are cut off.
pub open spec fn rest(bytes: Seq<u8>, size: nat) -> Seq<u8>
    decreases bytes.len(),
{
    if size == 0 || bytes.len() < size {
        bytes
    } else {
        rest(bytes.skip(size as int), size)
    }
}

/// `bytes` in parts of `size` bytes, with what is left over as the last one.
pub open spec fn pieces(bytes: Seq<u8>, size: nat) -> Seq<Seq<u8>> {
    if rest(bytes, size).len() == 0 {
        cuts(bytes, size)
    } else {
        cuts(bytes, size).push(rest(bytes, size))
    }
}

/// The whole parts and the rest are the bytes; the rest is less than a part.
pub proof fn lemma_cuts(bytes: Seq<u8>, size: nat)
    requires
        size > 0,
    ensures
        cuts(bytes, size).flatten() + rest(bytes, size) == bytes,
        rest(bytes, size).len() < size,
        forall|i: int|
            0 <= i < cuts(bytes, size).len() ==> (#[trigger] cuts(bytes, size)[i]).len() == size,
        bytes.len() == cuts(bytes, size).len() * size + rest(bytes, size).len(),
    decreases bytes.len(),
{
    if bytes.len() < size {
        assert(cuts(bytes, size).flatten() + bytes =~= bytes);
    } else {
        let head = bytes.take(size as int);
        let tail = bytes.skip(size as int);
        lemma_cuts(tail, size);
        let c = cuts(bytes, size);
        assert(c.drop_first() =~= cuts(tail, size));
        assert(c.first() == head);
        assert(c.flatten() == head + cuts(tail, size).flatten());
        assert(c.flatten() + rest(bytes, size) =~= head + (cuts(tail, size).flatten() + rest(
            tail,
            size,
        )));
        assert(head + tail =~= bytes);
        assert(c.len() == cuts(tail, size).len() + 1);
        assert(c.len() * size == cuts(tail, size).len() * size + size) by (nonlinear_arith)
            requires
                c.len() == cuts(tail, size).len() + 1,
        ;
        assert forall|i: int| 0 <= i < c.len() implies (#[trigger] c[i]).len() == size by {
            if i > 0 {
                assert(c[i] == cuts(tail, size)[i - 1]);
            }
        }
    }
}

/// Bytes that come later are cut as if they followed the rest of those before.
pub proof fn lemma_cuts_append(bytes: Seq<u8>, more: Seq<u8>, size: nat)
    requires
        size > 0,
    ensures
        cuts(bytes + more, size) == cuts(bytes, size) + cuts(rest(bytes, size) + more, size),
        rest(bytes + more, size) == rest(rest(bytes, size) + more, size),
    decreases bytes.len(),
{
    if bytes.len() < size {
        assert(cuts(bytes, size) + cuts(bytes + more, size) =~= cuts(bytes + more, size));
    } else {
        let all = bytes + more;
        let tail = bytes.skip(size as int);
        lemma_cuts_append(tail, more, size);
        assert(all.skip(size as int) =~= tail + more);
        assert(all.take(size as int) =~= bytes.take(size as int));
        assert(cuts(all, size) =~= cuts(bytes, size) + cuts(rest(bytes, size) + more, size));
    }
}

/// The parts of a file, one after the other, are the file. All but the last
/// have the part size; the last has at least one byte and no more than the part
/// size; and there are as many as the file's size over the part size, rounded
/// up.
pub proof fn law_parts_make_up_the_bytes(bytes: Seq<u8>, size: nat)
    requires
        size > 0,
    ensures
        pieces(bytes, size).flatten() == bytes,
        pieces(bytes, size).len() == ceil_div(bytes.len(), size),
        forall|i: int|
            0 <= i < pieces(bytes, size).len() - 1 ==> (#[trigger] pieces(bytes, size)[i]).len()
                == size,
        pieces(bytes, size).len() > 0 ==> 0 < pieces(bytes, size).last().len() <= size,
{
    lemma_cuts(bytes, size);
    let c = cuts(bytes, size);
    let r = rest(bytes, size);
    if r.len() == 0 {
        assert(c.flatten() + r =~= c.flatten());
    } else {
        broadcast use Seq::lemma_flatten_push;

        assert(c.push(r).flatten() == c.flatten() + r);
    }
    let n = bytes.len() as int;
    let k = c.len() as int;
    let d = size as int;
    let m = r.len() as int;
    assert(((n + d - 1) / d) == (if m == 0 { k } else { k + 1 })) by (nonlinear_arith)
        requires
            d > 0,
            n == k * d + m,
            0 <= m < d,
            k >= 0,
    ;
}

/// A file uploaded with the part size chosen for it has no more parts than S3
/// takes, and every part but the last has at least the minimum size.
pub proof fn law_part_size_keeps_the_limits(file_size: nat)
    ensures
        part_size(file_size) >= MIN_PART_SIZE,
        ceil_div(file_size, part_size(file_size)) <= MAX_PARTS,
{
    lemma_ceil_div(file_size, MAX_PARTS as nat);
    let p = part_size(file_size);
    let fair = ceil_div(file_size, MAX_PARTS as nat);
    assert(file_size <= p * MAX_PARTS) by (nonlinear_arith)
        requires
            file_size <= fair * MAX_PARTS,
            fair <= p,
    ;
    lemma_ceil_div_at_most(file_size, p, MAX_PARTS as nat);
}

/// No smaller part size, down to the minimum, would stay within the part limit.
pub proof fn law_part_size_is_the_smallest(file_size: nat, smaller: nat)
    requires
        MIN_PART_SIZE <= smaller < part_size(file_size),
    ensures
        ceil_div(file_size, smaller) > MAX_PARTS,
{
    let m = MAX_PARTS as nat;
    lemma_ceil_div(file_size, smaller);
    if ceil_div(file_size, smaller) <= m {
        let parts = ceil_div(file_size, smaller);
        assert(file_size <= smaller * m) by (nonlinear_arith)
            requires
                file_size <= parts * smaller,
                parts <= m,
        ;
        lemma_ceil_div_at_most(file_size, m, smaller);
    }
}

/// `d` that many times is enough for `n`.
proof fn lemma_ceil_div(n: nat, d: nat)
    requires
        d > 0,
    ensures
        n <= ceil_div(n, d) * d,
{
    let q = (n + d - 1) / d as int;
    assert(q >= 0 && n <= q * d) by (nonlinear_arith)
        requires
            d > 0,
            n >= 0,
            q == (n + d - 1) / d as int,
    ;
}

/// If `q` times `d` is enough for `n`, then so many are needed at most.
proof fn lemma_ceil_div_at_most(n: nat, d: nat, q: nat)
    requires
        d > 0,
        n <= d * q,
    ensures
        ceil_div(n, d) <= q,
{
    let c = (n + d - 1) / d as int;
    assert(0 <= c <= q) by (nonlinear_arith)
        requires
            d > 0,
            n >= 0,
            n <= d * q,
            c == (n + d - 1) / d as int,
    ;
}

} // verus!
