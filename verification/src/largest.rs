//! The largest item of a slice, found by one pass from left to right.

use std::cmp::Ordering;
use vstd::prelude::*;
use vstd::std_specs::cmp::PartialOrdSpec;
use crate::console::Console;

verus! {

/// The comparisons of `T` that run at execution time agree with the order
/// that contracts speak of.
pub open spec fn comparable<T: PartialOrd>() -> bool {
    T::obeys_partial_cmp_spec()
}

/// `a` is strictly greater than `b`.
pub open spec fn exceeds<T: PartialOrd>(a: T, b: T) -> bool {
    a.partial_cmp_spec(&b) == Some(Ordering::Greater)
}

/// Strictly-greater on `T` is a strict partial order: nothing exceeds itself,
/// and what exceeds a thing exceeds all that the thing exceeds.
pub open spec fn strict_order<T: PartialOrd>() -> bool {
    &&& forall|a: T| !#[trigger] exceeds(a, a)
    &&& forall|a: T, b: T, c: T| #[trigger]
        exceeds(a, b) && #[trigger] exceeds(b, c) ==> exceeds(a, c)
}

/// Strictly-greater on `T` is a strict weak order: a strict partial order in
/// which being unordered is transitive too, as it is for the integers.
pub open spec fn strict_weak_order<T: PartialOrd>() -> bool {
    &&& strict_order::<T>()
    &&& forall|a: T, b: T, c: T|
        !#[trigger] exceeds(a, b) && !#[trigger] exceeds(b, c) ==> !exceeds(a, c)
}

/// The unsigned integers are in strict weak order.
pub proof fn lemma_unsigned_integers_in_order()
    ensures
        strict_weak_order::<u8>(),
        strict_weak_order::<u16>(),
        strict_weak_order::<u32>(),
        strict_weak_order::<u64>(),
        strict_weak_order::<u128>(),
        strict_weak_order::<usize>(),
{
}

/// The signed integers are in strict weak order.
pub proof fn lemma_signed_integers_in_order()
    ensures
        strict_weak_order::<i8>(),
        strict_weak_order::<i16>(),
        strict_weak_order::<i32>(),
        strict_weak_order::<i64>(),
        strict_weak_order::<i128>(),
        strict_weak_order::<isize>(),
{
}

/// The position that a pass over `s` from left to right ends on, when it
/// starts on the first item and moves to a later item only where that item
/// exceeds the one it is on.
pub open spec fn peak<T: PartialOrd>(s: Seq<T>) -> int
    decreases s.len(),
{
    if s.len() <= 1 {
        0
    } else {
        let k = peak(s.drop_last());
        if exceeds(s.last(), s[k]) {
            s.len() - 1
        } else {
            k
        }
    }
}

/// The pass ends on a position of the sequence.
pub proof fn lemma_peak_in_range<T: PartialOrd>(s: Seq<T>)
    requires
        s.len() > 0,
    ensures
        0 <= peak(s) < s.len(),
    decreases s.len(),
{
    if s.len() > 1 {
        lemma_peak_in_range(s.drop_last());
    }
}

/// In a strict partial order the pass ends on a maximum: no item of the
/// sequence exceeds the one it ends on.
pub proof fn lemma_nothing_exceeds_peak<T: PartialOrd>(s: Seq<T>)
    requires
        s.len() > 0,
        strict_order::<T>(),
    ensures
        forall|i: int| 0 <= i < s.len() ==> !exceeds(#[trigger] s[i], s[peak(s)]),
    decreases s.len(),
{
    if s.len() > 1 {
        let front = s.drop_last();
        let k = peak(front);
        lemma_peak_in_range(front);
        lemma_nothing_exceeds_peak(front);
        assert forall|i: int| 0 <= i < s.len() implies !exceeds(#[trigger] s[i], s[peak(s)]) by {
            if i < s.len() - 1 {
                assert(!exceeds(front[i], front[k]));
                if exceeds(s.last(), s[k]) && exceeds(s[i], s.last()) {
                    assert(exceeds(s[i], s[k]));
                }
            }
        }
    }
}

/// In a strict weak order the pass ends on the first of the maxima: the item
/// it ends on exceeds every item before it.
pub proof fn lemma_peak_exceeds_earlier<T: PartialOrd>(s: Seq<T>)
    requires
        s.len() > 0,
        strict_weak_order::<T>(),
    ensures
        forall|i: int| 0 <= i < peak(s) ==> exceeds(s[peak(s)], #[trigger] s[i]),
    decreases s.len(),
{
    if s.len() > 1 {
        let front = s.drop_last();
        let k = peak(front);
        lemma_peak_in_range(front);
        lemma_nothing_exceeds_peak(front);
        lemma_peak_exceeds_earlier(front);
        assert forall|i: int| 0 <= i < peak(s) implies exceeds(s[peak(s)], #[trigger] s[i]) by {
            if exceeds(s.last(), s[k]) {
                assert(!exceeds(front[i], front[k]));
                if !exceeds(s.last(), s[i]) {
                    assert(!exceeds(s.last(), s[k]));
                }
            } else {
                assert(exceeds(front[k], front[i]));
            }
        }
    }
}

/// Returns the largest item of `list`: the pass starts on the first item and
/// replaces the item it holds only by one that is strictly greater.
///
/// The result is always an item of the list. Where the comparisons of `T`
/// agree with its order, it is the item at [`peak`]. In a strict partial
/// order, that is an item that no item of the list exceeds; in a strict weak
/// order, it is the first such item, which exceeds every item before it.
pub fn largest<T: Copy + PartialOrd>(list: &[T]) -> (found: T)
    requires
        list.len() > 0,
    ensures
        list@.contains(found),
        comparable::<T>() ==> 0 <= peak(list@) < list.len() && found == list@[peak(list@)],
        comparable::<T>() && strict_order::<T>() ==> forall|i: int|
            0 <= i < list.len() ==> !exceeds(#[trigger] list@[i], found),
        comparable::<T>() && strict_weak_order::<T>() ==> forall|i: int|
            0 <= i < peak(list@) ==> exceeds(found, #[trigger] list@[i]),
{
    let mut largest = list[0];
    let ghost mut at: int = 0;
    let ghost mut done: int = 0;
    let mut i: usize = 0;
    while i < list.len()
        invariant
            done == i,
            i <= list.len(),
            0 <= at < list.len(),
            largest == list@[at],
            comparable::<T>() && i > 0 ==> at == peak(list@.take(done)),
            i == 0 ==> at == 0,
        decreases list.len() - i,
    {
        let item = list[i];
        let ghost before = list@.take(done);
        let ghost after = list@.take(done + 1);
        proof {
            assert(after.drop_last() =~= before);
            if i > 0 && comparable::<T>() {
                lemma_peak_in_range(before);
            }
        }
        if item > largest {
            largest = item;
            proof {
                at = done;
            }
        }
        i += 1;
        proof {
            done = done + 1;
        }
    }
    proof {
        assert(list@.take(done) =~= list@);
        if comparable::<T>() && strict_order::<T>() {
            lemma_nothing_exceeds_peak(list@);
        }
        if comparable::<T>() && strict_weak_order::<T>() {
            lemma_peak_exceeds_earlier(list@);
        }
    }
    largest
}

/// Reports the largest of the numbers from one to ten.
pub fn test_largest(out: &mut Console)
    ensures
        final(out)@ == old(out)@.push("# largest value: 10"@),
{
    let num_array: [u8; 10] = [1, 2, 3, 4, 5, 6, 7, 8, 9, 10];
    let largest = largest(&num_array);
    proof {
        lemma_unsigned_integers_in_order();
        assert(!exceeds(num_array@[9], largest));
    }
    out.print_labelled("# largest value: ", &largest);
    proof {
        reveal_strlit("# largest value: ");
        reveal_strlit("# largest value: 10");
        reveal_with_fuel(crate::text::unsigned_text, 2);
        assert("# largest value: "@ + crate::text::unsigned_text(10) =~= "# largest value: 10"@);
    }
}

} // verus!
