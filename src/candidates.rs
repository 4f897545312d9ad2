use vstd::prelude::*;

verus! {

/// The listings one after another, each in its own order.
pub open spec fn joined(listings: Seq<Vec<String>>) -> Seq<String>
    decreases listings.len(),
{
    if listings.len() == 0 {
        Seq::empty()
    } else {
        joined(listings.drop_last()) + listings.last()@
    }
}

/// The names that can be picked, fixed once loaded. Duplicates are kept.
pub struct CandidateStore {
    entries: Vec<String>,
}

impl View for CandidateStore {
    type V = Seq<String>;

    closed spec fn view(&self) -> Seq<String> {
        self.entries@
    }
}

impl CandidateStore {
    /// A store of the names of each directory listing, directory by directory, in
    /// listing order within each.
    pub fn load(listings: &Vec<Vec<String>>) -> (r: CandidateStore)
        ensures
            r@ == joined(listings@),
    {
        let mut entries: Vec<String> = Vec::new();
        let mut d: usize = 0;
        while d < listings.len()
            invariant
                d <= listings@.len(),
                entries@ == joined(listings@.subrange(0, d as int)),
            decreases listings@.len() - d,
        {
            let listing = &listings[d];
            let ghost start = entries@;
            let mut i: usize = 0;
            while i < listing.len()
                invariant
                    i <= listing@.len(),
                    entries@ == start + listing@.subrange(0, i as int),
                decreases listing@.len() - i,
            {
                entries.push(listing[i].clone());
                assert(start + listing@.subrange(0, i + 1) =~= (start + listing@.subrange(
                    0,
                    i as int,
                )).push(listing@[i as int]));
                i = i + 1;
            }
            assert(listing@.subrange(0, i as int) =~= listing@);
            assert(listings@.subrange(0, d + 1).drop_last() =~= listings@.subrange(0, d as int));
            d = d + 1;
        }
        assert(listings@.subrange(0, d as int) =~= listings@);
        CandidateStore { entries }
    }

    /// The names, in store order.
    pub fn entries(&self) -> (r: &Vec<String>)
        ensures
            r@ == self@,
    {
        &self.entries
    }

    /// The number of names.
    pub fn len(&self) -> (r: usize)
        ensures
            r == self@.len(),
    {
        self.entries.len()
    }
}

} // verus!
