use vstd::prelude::*;

verus! {

/// An ordered sequence with at least one element, as a head plus an
/// optional, exclusively owned tail.
#[derive(Debug, PartialEq)]
pub struct NonEmptyList<T> {
    pub head: T,
    pub tail: Option<Box<NonEmptyList<T>>>,
}

impl<T> NonEmptyList<T> {
    /// The elements in traversal order: the head first, then the tail's
    /// elements.
    pub open spec fn elems(self) -> Seq<T>
        decreases self,
    {
        match self.tail {
            None => seq![self.head],
            Some(t) => seq![self.head] + t.elems(),
        }
    }
}

/// Every list holds at least one element, and its head is the first.
pub proof fn lemma_nonempty_elems<T>(l: NonEmptyList<T>)
    ensures
        l.elems().len() >= 1,
        l.elems()[0] == l.head,
{
}

/// Turn a vector into the nested head/tail shape, preserving the element
/// order; an empty vector has no such shape. The vector itself is left
/// reversed, as working space.
pub fn to_non_empty_list<T: Copy>(v: &mut Vec<T>) -> (r: Option<NonEmptyList<T>>)
    ensures
        final(v)@ == old(v)@.reverse(),
        old(v)@.len() == 0 ==> r is None,
        old(v)@.len() > 0 ==> (r matches Some(l) && l.elems() == old(v)@ && l.head == old(v)@[0]),
{
    if v.is_empty() {
        proof {
            assert(v@ =~= v@.reverse());
        }
        None
    } else {
        let ghost orig = v@;
        let len = v.len();
        let mut rev: Vec<T> = Vec::new();
        let mut k = len;
        while k > 0
            invariant
                k <= len,
                len == orig.len(),
                v@ == orig,
                rev@.len() == len - k,
                forall|m: int| 0 <= m < len - k ==> #[trigger] rev@[m] == orig[len - 1 - m],
            decreases k,
        {
            k = k - 1;
            rev.push(v[k]);
        }
        proof {
            assert(rev@ =~= orig.reverse());
        }
        *v = rev;
        let mut tail = NonEmptyList { head: v[0], tail: None };
        proof {
            assert(tail.elems() =~= v@.subrange(0, 1).reverse());
        }
        for i in 1..len
            invariant
                len == v@.len(),
                v@ == orig.reverse(),
                tail.elems() == v@.subrange(0, i as int).reverse(),
        {
            tail = NonEmptyList { head: v[i], tail: Some(Box::new(tail)) };
            proof {
                let prefix = v@.subrange(0, i as int);
                let grown = v@.subrange(0, i + 1);
                assert(grown.reverse() =~= seq![v@[i as int]] + prefix.reverse());
            }
        }
        proof {
            assert(v@.subrange(0, len as int) =~= v@);
            assert(orig.reverse().reverse() =~= orig);
            assert(tail.elems()[0] == tail.head);
            assert(orig[0] == orig.reverse()[len - 1]);
        }
        Some(tail)
    }
}

} // verus!
