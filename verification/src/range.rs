//! Splitting a length into contiguous byte ranges, one per part.

use vstd::prelude::*;
use vstd::string::StringExecFns;
use crate::text::{decimal, decimal_text};

verus! {

/// The smaller of two naturals.
pub open spec fn least(a: nat, b: nat) -> nat {
    if a <= b {
        a
    } else {
        b
    }
}

/// The offset at which part `index` begins when `length` bytes are split
/// into `parts` parts: the first `length % parts` parts hold one byte more
/// than the others.
pub open spec fn boundary(length: nat, parts: nat, index: nat) -> nat
    recommends
        parts > 0,
{
    index * (length / parts) + least(index, length % parts)
}

/// The half-open byte range of part `index`, if there is such a part.
pub open spec fn part_range(length: nat, parts: nat, index: nat) -> Option<(nat, nat)> {
    if parts == 0 || index >= parts {
        None
    } else {
        Some((boundary(length, parts, index), boundary(length, parts, index + 1)))
    }
}

/// The value of a `Range` header asking for the bytes `[offset, offset_to)`.
pub open spec fn range_header(offset: nat, offset_to: nat) -> Seq<char>
    recommends
        offset_to >= 1,
{
    "bytes="@ + decimal(offset) + "-"@ + decimal((offset_to - 1) as nat)
}

/// Boundaries never decrease with the index, and the last one is the length.
pub proof fn lemma_boundary_bounds(length: nat, parts: nat, index: nat)
    requires
        parts > 0,
        index <= parts,
    ensures
        boundary(length, parts, 0) == 0,
        boundary(length, parts, parts) == length,
        boundary(length, parts, index) <= length,
        index < parts ==> boundary(length, parts, index) <= boundary(length, parts, index + 1),
        index < parts ==> boundary(length, parts, index + 1) - boundary(length, parts, index) == (
        length / parts) + (if index < length % parts {
            1nat
        } else {
            0nat
        }),
{
    let base = length / parts;
    let rem = length % parts;
    assert(length == parts * base + rem && rem < parts) by (nonlinear_arith)
        requires
            parts > 0,
            base == length / parts,
            rem == length % parts,
    ;
    assert(index * base <= parts * base) by (nonlinear_arith)
        requires
            index <= parts,
    ;
    assert((index + 1) * base == index * base + base) by (nonlinear_arith);
    assert(0 * base == 0) by (nonlinear_arith);
}

/// Whether `byte` lies in part `index`.
pub open spec fn in_part(length: nat, parts: nat, index: nat, byte: nat) -> bool {
    boundary(length, parts, index) <= byte < boundary(length, parts, index + 1)
}

/// Whether some part holds `byte`.
pub open spec fn covered(length: nat, parts: nat, byte: nat) -> bool {
    exists|index: nat| index < parts && #[trigger] in_part(length, parts, index, byte)
}

/// Boundaries are ordered as their indices are.
pub proof fn lemma_boundary_monotone(length: nat, parts: nat, low: nat, high: nat)
    requires
        parts > 0,
        low <= high <= parts,
    ensures
        boundary(length, parts, low) <= boundary(length, parts, high),
    decreases high - low,
{
    if low < high {
        lemma_boundary_monotone(length, parts, low, (high - 1) as nat);
        lemma_boundary_bounds(length, parts, (high - 1) as nat);
    }
}

/// Finds the part that holds `byte`, searching downwards from `below`.
proof fn lemma_find_part(length: nat, parts: nat, byte: nat, below: nat) -> (index: nat)
    requires
        parts > 0,
        below <= parts,
        byte < boundary(length, parts, below),
    ensures
        index < below,
        in_part(length, parts, index, byte),
    decreases below,
{
    lemma_boundary_bounds(length, parts, 0);
    let previous = (below - 1) as nat;
    if boundary(length, parts, previous) <= byte {
        previous
    } else {
        lemma_find_part(length, parts, byte, previous)
    }
}

/// The parts of a length partition it: every part lies within
/// `[0, length)`, every byte below `length` lies in some part, and no byte
/// lies in two parts.
pub proof fn lemma_range_partition(length: nat, parts: nat)
    requires
        parts >= 1,
    ensures
        forall|index: nat, byte: nat|
            index < parts && #[trigger] in_part(length, parts, index, byte) ==> byte < length,
        forall|byte: nat| byte < length ==> #[trigger] covered(length, parts, byte),
        forall|first: nat, second: nat, byte: nat|
            first < parts && second < parts && #[trigger] in_part(length, parts, first, byte)
                && #[trigger] in_part(length, parts, second, byte) ==> first == second,
{
    assert forall|index: nat, byte: nat|
        index < parts && #[trigger] in_part(length, parts, index, byte) implies byte < length by {
        lemma_boundary_bounds(length, parts, index + 1);
    }
    assert forall|byte: nat| byte < length implies #[trigger] covered(length, parts, byte) by {
        lemma_boundary_bounds(length, parts, parts);
        let index = lemma_find_part(length, parts, byte, parts);
        assert(index < parts && in_part(length, parts, index, byte));
    }
    assert forall|first: nat, second: nat, byte: nat|
        first < parts && second < parts && #[trigger] in_part(length, parts, first, byte)
            && #[trigger] in_part(length, parts, second, byte) implies first == second by {
        if first < second {
            lemma_boundary_monotone(length, parts, first + 1, second);
        } else if second < first {
            lemma_boundary_monotone(length, parts, second + 1, first);
        }
    }
}

/// The byte range `[offset, offset_to)` of part `index` out of `parts`, or
/// `None` when there is no such part.
pub fn calc(length: u64, parts: u64, index: u64) -> (range: Option<(u64, u64)>)
    ensures
        match range {
            Some((offset, offset_to)) => part_range(length as nat, parts as nat, index as nat)
                == Some((offset as nat, offset_to as nat)),
            None => part_range(length as nat, parts as nat, index as nat).is_none(),
        },
        range.is_none() <==> (parts == 0 || index >= parts),
{
    if parts == 0 || index >= parts {
        return None;
    }
    let base: u64 = length / parts;
    let rem: u64 = length % parts;
    proof {
        lemma_boundary_bounds(length as nat, parts as nat, index as nat);
        lemma_boundary_bounds(length as nat, parts as nat, (index + 1) as nat);
        assert(index * base <= boundary(length as nat, parts as nat, index as nat));
        assert((index + 1) * base <= boundary(length as nat, parts as nat, (index + 1) as nat));
    }
    let next: u64 = index + 1;
    let offset: u64 = index * base + (if index < rem {
        index
    } else {
        rem
    });
    let offset_to: u64 = next * base + (if next < rem {
        next
    } else {
        rem
    });
    Some((offset, offset_to))
}

/// The `Range` header value for the bytes `[offset, offset_to)`, whose last
/// byte is written inclusively.
pub fn to_string(offset: u64, offset_to: u64) -> (header: String)
    requires
        offset_to >= 1,
    ensures
        header@ == range_header(offset as nat, offset_to as nat),
{
    let mut header = String::from_str("bytes=");
    let first = decimal_text(offset);
    header.append(first.as_str());
    header.append("-");
    let last = decimal_text(offset_to - 1);
    header.append(last.as_str());
    header
}

} // verus!
