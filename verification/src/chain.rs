//! A singly linked list whose nodes borrow their successors.

use vstd::prelude::*;
use crate::console::Console;
use crate::text::unsigned_text;

verus! {

/// One node of a chain. A node borrows the node that follows it, so a chain
/// is built from its last node backwards.
pub struct SNode<'a> {
    pub val: u32,
    pub next: Option<&'a SNode<'a>>,
}

/// The line that reports the visit of a node that holds `val`.
pub open spec fn visit_line(val: u32) -> Seq<char> {
    "--> "@ + unsigned_text(val as nat)
}

impl<'a> SNode<'a> {
    /// The values of the chain that starts at this node, in the order of the
    /// links, up to and including the first node without a successor.
    pub open spec fn values(&self) -> Seq<u32>
        decreases self,
    {
        match self.next {
            None => seq![self.val],
            Some(node) => seq![self.val] + node.values(),
        }
    }

    /// One line for each value of the chain, in the order of the links.
    pub open spec fn lines(&self) -> Seq<Seq<char>> {
        Seq::new(self.values().len(), |i: int| visit_line(self.values()[i]))
    }

    /// Walks the chain from this node, reports each node as it is reached,
    /// and stops at the first node without a successor.
    pub fn show(&self, out: &mut Console)
        ensures
            final(out)@ == old(out)@ + self.lines(),
    {
        let mut curr = self;
        let ghost mut seen: Seq<u32> = Seq::empty();
        loop
            invariant_except_break
                seen + curr.values() == self.values(),
                out@ == old(out)@ + Seq::new(seen.len(), |i: int| visit_line(seen[i])),
            ensures
                out@ == old(out)@ + self.lines(),
            decreases curr,
        {
            out.print_labelled("--> ", &curr.val);
            proof {
                let longer = seen.push(curr.val);
                assert(out@ =~= old(out)@ + Seq::new(
                    longer.len(),
                    |i: int| visit_line(longer[i]),
                ));
                seen = longer;
            }
            match curr.next {
                None => break ,
                Some(node) => curr = node,
            }
        }
    }
}

/// Links three nodes with the values zero, one and two, in that order, and
/// walks the chain from the first.
pub fn test_node_list(out: &mut Console)
    ensures
        final(out)@ == old(out)@.push("--> 0"@).push("--> 1"@).push("--> 2"@),
{
    let mut sn0 = SNode { val: 0, next: None };
    let mut sn1 = SNode { val: 1, next: None };
    let sn2 = SNode { val: 2, next: None };
    sn1.next = Some(&sn2);
    sn0.next = Some(&sn1);

    sn0.show(out);
    proof {
        reveal_strlit("--> ");
        reveal_strlit("--> 0");
        reveal_strlit("--> 1");
        reveal_strlit("--> 2");
        reveal_with_fuel(SNode::values, 3);
        assert(visit_line(0) =~= "--> 0"@);
        assert(visit_line(1) =~= "--> 1"@);
        assert(visit_line(2) =~= "--> 2"@);
    }
}

} // verus!
