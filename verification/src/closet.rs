//! Picking shoes out of a closet by size.

use vstd::prelude::*;

verus! {

/// One shoe: a size and a style.
pub struct Shoe {
    pub size: u32,
    pub style: String,
}

/// The shoes of the given size, kept in their original order.
pub open spec fn in_my_size(shoes: Seq<Shoe>, shoe_size: u32) -> Seq<Shoe> {
    shoes.filter(|s: Shoe| s.size == shoe_size)
}

/// Keeps exactly the shoes that fit, in the order they came.
pub fn shoes_in_my_size(shoes: Vec<Shoe>, shoe_size: u32) -> (r: Vec<Shoe>)
    ensures
        r@ == in_my_size(shoes@, shoe_size),
{
    let ghost all = shoes@;
    let mut rest = shoes;
    let mut out: Vec<Shoe> = Vec::new();
    let ghost mut i: int = 0;
    while rest.len() > 0
        invariant
            0 <= i,
            i + rest@.len() == all.len(),
            rest@ == all.skip(i),
            out@ == in_my_size(all.take(i), shoe_size),
        decreases rest@.len(),
    {
        let s = rest.remove(0);
        proof {
            assert(s == all[i]);
            assert(rest@ =~= all.skip(i + 1));
            let t = all.take(i + 1);
            assert(t.drop_last() =~= all.take(i));
            assert(t.last() == all[i]);
        }
        if s.size == shoe_size {
            out.push(s);
        }
        proof {
            reveal(Seq::filter);
            assert(out@ == in_my_size(all.take(i + 1), shoe_size));
            i = i + 1;
        }
    }
    proof {
        assert(all.take(all.len() as int) =~= all);
    }
    out
}

} // verus!
