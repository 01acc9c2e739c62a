use vstd::prelude::*;

verus! {

/// An element of the degree-two extension of the base field, held as its two
/// base-field coordinates `c0 + c1 * X`.
#[derive(Clone, Copy, Debug, PartialEq, Eq, Structural)]
pub struct ExtElem {
    pub c0: u64,
    pub c1: u64,
}

impl ExtElem {
    /// The base-field coordinates, lowest degree first.
    pub open spec fn coords(self) -> Seq<u64> {
        seq![self.c0, self.c1]
    }
}

/// The base-field coordinates of every element of `s`, element after element.
pub open spec fn flatten(s: Seq<ExtElem>) -> Seq<u64>
    decreases s.len(),
{
    if s.len() == 0 {
        seq![]
    } else {
        flatten(s.drop_last()) + s.last().coords()
    }
}

/// Each element contributes exactly its two coordinates.
pub proof fn lemma_flatten_len(s: Seq<ExtElem>)
    ensures
        flatten(s).len() == 2 * s.len(),
    decreases s.len(),
{
    if s.len() > 0 {
        lemma_flatten_len(s.drop_last());
    }
}

/// Flattening a concatenation flattens each part in turn.
pub proof fn lemma_flatten_append(a: Seq<ExtElem>, b: Seq<ExtElem>)
    ensures
        flatten(a + b) == flatten(a) + flatten(b),
    decreases b.len(),
{
    if b.len() == 0 {
        assert(a + b =~= a);
        assert(flatten(b) =~= seq![]);
        assert(flatten(a) + flatten(b) =~= flatten(a));
    } else {
        assert((a + b).drop_last() =~= a + b.drop_last());
        lemma_flatten_append(a, b.drop_last());
        assert(flatten(a + b) =~= flatten(a) + flatten(b));
    }
}

/// Appends the coordinates of every element of `values` to `out`, in order.
pub fn push_coords(values: &Vec<ExtElem>, out: &mut Vec<u64>)
    ensures
        final(out)@ == old(out)@ + flatten(values@),
{
    let ghost start = out@;
    let mut i: usize = 0;
    while i < values.len()
        invariant
            i <= values.len(),
            out@ == start + flatten(values@.take(i as int)),
        decreases values.len() - i,
    {
        let e = values[i];
        out.push(e.c0);
        out.push(e.c1);
        proof {
            assert(values@.take(i as int + 1).drop_last() =~= values@.take(i as int));
        }
        i = i + 1;
        assert(out@ =~= start + flatten(values@.take(i as int)));
    }
    assert(values@.take(i as int) =~= values@);
}

/// Appends every element of `values` to `out`, in order.
pub fn push_all(values: &Vec<ExtElem>, out: &mut Vec<ExtElem>)
    ensures
        final(out)@ == old(out)@ + values@,
{
    let ghost start = out@;
    let mut i: usize = 0;
    while i < values.len()
        invariant
            i <= values.len(),
            out@ == start + values@.take(i as int),
        decreases values.len() - i,
    {
        out.push(values[i]);
        i = i + 1;
        assert(out@ =~= start + values@.take(i as int));
    }
    assert(values@.take(i as int) =~= values@);
}

} // verus!
