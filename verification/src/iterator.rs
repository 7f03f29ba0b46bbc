//! Iteration: a trait for values that hand out items, shoes, and a filter on
//! shoes.

use vstd::prelude::*;

verus! {

/// Something that hands out items one after another.
pub trait IIterator {
    /// What is handed out.
    type Item;

    /// Whether `next` may be called on this value.
    spec fn has_next_step(&self) -> bool;

    /// The next item; `None` when there is no more.
    fn next(&mut self) -> (r: Option<Self::Item>)
        requires
            old(self).has_next_step(),
    ;
}

/// A shoe.
#[derive(PartialEq, Debug)]
pub struct Shoe {
    pub size: u32,
    pub style: String,
}

/// The test that picks the shoes of size `shoe_size`.
pub open spec fn fits(shoe_size: u32) -> spec_fn(Shoe) -> bool {
    |s: Shoe| s.size == shoe_size
}

/// The shoes of size `shoe_size` among `shoes`, in their order.
pub fn shoes_fit_size(shoes: Vec<Shoe>, shoe_size: u32) -> (r: Vec<Shoe>)
    ensures
        r@ == shoes@.filter(fits(shoe_size)),
{
    let ghost all = shoes@;
    let mut rest = shoes;
    let mut picked: Vec<Shoe> = Vec::new();
    // Shoes are taken from the end, so `picked` is filled back to front.
    while rest.len() > 0
        invariant
            rest@.len() <= all.len(),
            rest@ == all.take(rest@.len() as int),
            picked@.reverse() == all.skip(rest@.len() as int).filter(fits(shoe_size)),
        decreases rest@.len(),
    {
        let ghost n = rest@.len() as int;
        let s = rest.pop().unwrap();
        let ghost tail = all.skip(n);
        proof {
            assert(s == all[n - 1]);
            assert(all.skip(n - 1) =~= seq![s] + tail);
            Seq::filter_distributes_over_add(seq![s], tail, fits(shoe_size));
            assert(seq![s] =~= Seq::<Shoe>::empty().push(s));
            Seq::<Shoe>::empty().lemma_filter_push(s, fits(shoe_size));
            assert(Seq::<Shoe>::empty().filter(fits(shoe_size)) =~= Seq::<Shoe>::empty());
            assert(rest@ =~= all.take(n - 1));
        }
        if s.size == shoe_size {
            let ghost before = picked@;
            picked.push(s);
            assert(picked@.reverse() =~= seq![s] + before.reverse());
        } else {
            assert(Seq::<Shoe>::empty() + tail.filter(fits(shoe_size)) =~= tail.filter(
                fits(shoe_size),
            ));
        }
    }
    assert(all.skip(0) =~= all);
    let mut out: Vec<Shoe> = Vec::new();
    while picked.len() > 0
        invariant
            out@ + picked@.reverse() == all.filter(fits(shoe_size)),
        decreases picked@.len(),
    {
        let ghost before = picked@;
        let s = picked.pop().unwrap();
        out.push(s);
        assert(before.reverse() =~= seq![s] + picked@.reverse());
        assert(out@ + picked@.reverse() =~= out@.drop_last() + before.reverse());
    }
    assert(out@ + picked@.reverse() =~= out@);
    out
}

impl IIterator for Shoe {
    type Item = u32;

    /// The size can still be raised by one.
    open spec fn has_next_step(&self) -> bool {
        self.size < u32::MAX
    }

    /// Raises the size by one and hands it out while it is below 6; `None`
    /// from then on.
    fn next(&mut self) -> (r: Option<u32>)
        ensures
            final(self).size == old(self).size + 1,
            final(self).style == old(self).style,
            r == (if final(self).size < 6 {
                Some(final(self).size)
            } else {
                None
            }),
    {
        self.size += 1;
        if self.size < 6 {
            Some(self.size)
        } else {
            None
        }
    }
}

} // verus!
