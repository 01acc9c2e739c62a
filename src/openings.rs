use vstd::prelude::*;

use crate::field::{flatten, lemma_flatten_append, push_all, push_coords, ExtElem};

verus! {

/// `values` holds, position for position, what `eval` gives for each
/// polynomial of `polys` at the point `z`.
pub open spec fn evaluated_at<P, V: Fn(&P, &ExtElem) -> ExtElem>(
    eval: V,
    polys: Seq<P>,
    z: ExtElem,
    values: Seq<ExtElem>,
) -> bool {
    &&& values.len() == polys.len()
    &&& forall|i: int| 0 <= i < polys.len() ==> eval.ensures((&polys[i], &z), #[trigger] values[i])
}

/// `f` gives at most one result for each pair of arguments.
pub open spec fn functional2<A, B, R, F: Fn(&A, &B) -> R>(f: F) -> bool {
    forall|a: A, b: B, r1: R, r2: R|
        #[trigger] f.ensures((&a, &b), r1) && #[trigger] f.ensures((&a, &b), r2) ==> r1 == r2
}

/// Purported values of each committed polynomial at the challenge point.
pub struct StarkOpeningSet {
    /// Every trace polynomial at the challenge point.
    pub local_values: Vec<ExtElem>,
    /// Every trace polynomial at the challenge point shifted by one row.
    pub next_values: Vec<ExtElem>,
    /// Slot kept for a permutation argument; no polynomial fills it yet.
    pub permutation_zs: Vec<ExtElem>,
    /// Every quotient polynomial at the challenge point.
    pub quotient_polys: Vec<ExtElem>,
}

/// Values opened at one point.
pub struct FriOpeningBatch {
    pub values: Vec<ExtElem>,
}

/// The opened values, grouped by the point at which they are opened.
pub struct FriOpenings {
    pub batches: Vec<FriOpeningBatch>,
}

/// Evaluates each polynomial of `polys` at `z`, keeping the polynomials' order.
fn eval_batch<P, V: Fn(&P, &ExtElem) -> ExtElem>(eval: &V, polys: &Vec<P>, z: &ExtElem) -> (r: Vec<ExtElem>)
    requires
        forall|p: P, x: ExtElem| eval.requires((&p, &x)),
    ensures
        evaluated_at(*eval, polys@, *z, r@),
{
    let mut out: Vec<ExtElem> = Vec::new();
    let mut i: usize = 0;
    while i < polys.len()
        invariant
            i <= polys.len(),
            forall|p: P, x: ExtElem| eval.requires((&p, &x)),
            out@.len() == i,
            forall|j: int| 0 <= j < i ==> eval.ensures((&polys@[j], z), #[trigger] out@[j]),
        decreases polys.len() - i,
    {
        let v = eval(&polys[i], z);
        out.push(v);
        i = i + 1;
    }
    out
}

impl StarkOpeningSet {
    /// The trace openings at the two points come in equal numbers.
    pub open spec fn wf(&self) -> bool {
        self.local_values@.len() == self.next_values@.len()
    }

    /// The base-field elements that the transcript absorbs for this set:
    /// the local values, then the next values, then the permutation values,
    /// then the quotient values, each element split into its coordinates.
    pub open spec fn transcript_elements(&self) -> Seq<u64> {
        flatten(self.local_values@) + flatten(self.next_values@) + flatten(self.permutation_zs@)
            + flatten(self.quotient_polys@)
    }

    /// The values opened at the challenge point, in the order the opening
    /// argument indexes them: local, quotient, permutation.
    pub open spec fn zeta_batch(&self) -> Seq<ExtElem> {
        self.local_values@ + self.quotient_polys@ + self.permutation_zs@
    }

    /// `self` is what building from these inputs yields: trace and quotient
    /// at `zeta`, the trace again at the product of `zeta` and `g`, and an
    /// empty permutation slot.
    pub open spec fn built_from<P, M: Fn(&ExtElem, &ExtElem) -> ExtElem, V: Fn(&P, &ExtElem) -> ExtElem>(
        &self,
        zeta: ExtElem,
        g: ExtElem,
        trace_polys: Seq<P>,
        quotient_polys: Seq<P>,
        mul_ext: M,
        eval: V,
    ) -> bool {
        &&& evaluated_at(eval, trace_polys, zeta, self.local_values@)
        &&& exists|zg: ExtElem|
            #[trigger] mul_ext.ensures((&zeta, &g), zg) && evaluated_at(eval, trace_polys, zg, self.next_values@)
        &&& self.permutation_zs@.len() == 0
        &&& evaluated_at(eval, quotient_polys, zeta, self.quotient_polys@)
    }

    /// Opens the trace batch at `zeta` and at `zeta * g` (the next row of the
    /// trace domain, `g` being its generator) and the quotient batch at
    /// `zeta`. `mul_ext` multiplies two extension elements and `eval` evaluates
    /// one committed polynomial at a point.
    pub fn new<P, M: Fn(&ExtElem, &ExtElem) -> ExtElem, V: Fn(&P, &ExtElem) -> ExtElem>(
        zeta: ExtElem,
        g: ExtElem,
        trace_polys: &Vec<P>,
        quotient_polys: &Vec<P>,
        mul_ext: M,
        eval: V,
    ) -> (r: Self)
        requires
            forall|a: ExtElem, b: ExtElem| mul_ext.requires((&a, &b)),
            forall|p: P, x: ExtElem| eval.requires((&p, &x)),
        ensures
            r.wf(),
            r.built_from(zeta, g, trace_polys@, quotient_polys@, mul_ext, eval),
    {
        let zeta_next = mul_ext(&zeta, &g);
        let local_values = eval_batch(&eval, trace_polys, &zeta);
        let next_values = eval_batch(&eval, trace_polys, &zeta_next);
        let quotient_values = eval_batch(&eval, quotient_polys, &zeta);
        let r = StarkOpeningSet {
            local_values,
            next_values,
            permutation_zs: Vec::new(),
            quotient_polys: quotient_values,
        };
        assert(mul_ext.ensures((&zeta, &g), zeta_next));
        r
    }

    /// Appends to `transcript` the base-field elements the Fiat-Shamir
    /// challenger absorbs for this set, in the order the verifier replays.
    pub fn observe(&self, transcript: &mut Vec<u64>)
        ensures
            final(transcript)@ == old(transcript)@ + self.transcript_elements(),
    {
        push_coords(&self.local_values, transcript);
        push_coords(&self.next_values, transcript);
        push_coords(&self.permutation_zs, transcript);
        push_coords(&self.quotient_polys, transcript);
        assert(transcript@ =~= old(transcript)@ + self.transcript_elements());
    }

    /// Groups the openings by point: first everything opened at the challenge
    /// point, then the next values, opened at the shifted point.
    pub fn to_fri_openings(&self) -> (r: FriOpenings)
        ensures
            r.batches@.len() == 2,
            r.batches@[0].values@ == self.zeta_batch(),
            r.batches@[1].values@ == self.next_values@,
    {
        let mut zeta_values: Vec<ExtElem> = Vec::new();
        push_all(&self.local_values, &mut zeta_values);
        push_all(&self.quotient_polys, &mut zeta_values);
        push_all(&self.permutation_zs, &mut zeta_values);
        let mut next_values: Vec<ExtElem> = Vec::new();
        push_all(&self.next_values, &mut next_values);
        assert(zeta_values@ =~= self.zeta_batch());
        assert(next_values@ =~= self.next_values@);
        let zeta_batch = FriOpeningBatch { values: zeta_values };
        let zeta_next_batch = FriOpeningBatch { values: next_values };
        let mut batches: Vec<FriOpeningBatch> = Vec::new();
        batches.push(zeta_batch);
        batches.push(zeta_next_batch);
        FriOpenings { batches }
    }
}

/// Building twice from the same inputs gives the same openings, as long as
/// multiplication and evaluation are functions of their arguments.
pub proof fn lemma_build_deterministic<P, M: Fn(&ExtElem, &ExtElem) -> ExtElem, V: Fn(&P, &ExtElem) -> ExtElem>(
    a: StarkOpeningSet,
    b: StarkOpeningSet,
    zeta: ExtElem,
    g: ExtElem,
    trace_polys: Seq<P>,
    quotient_polys: Seq<P>,
    mul_ext: M,
    eval: V,
)
    requires
        functional2(mul_ext),
        functional2(eval),
        a.built_from(zeta, g, trace_polys, quotient_polys, mul_ext, eval),
        b.built_from(zeta, g, trace_polys, quotient_polys, mul_ext, eval),
    ensures
        a.local_values@ == b.local_values@,
        a.next_values@ == b.next_values@,
        a.permutation_zs@ == b.permutation_zs@,
        a.quotient_polys@ == b.quotient_polys@,
{
    let za = choose|zg: ExtElem|
        #[trigger] mul_ext.ensures((&zeta, &g), zg) && evaluated_at(eval, trace_polys, zg, a.next_values@);
    let zb = choose|zg: ExtElem|
        #[trigger] mul_ext.ensures((&zeta, &g), zg) && evaluated_at(eval, trace_polys, zg, b.next_values@);
    assert(za == zb);
    assert forall|i: int| 0 <= i < trace_polys.len() implies a.local_values@[i] == b.local_values@[i] by {
        assert(eval.ensures((&trace_polys[i], &zeta), a.local_values@[i]));
        assert(eval.ensures((&trace_polys[i], &zeta), b.local_values@[i]));
    }
    assert forall|i: int| 0 <= i < trace_polys.len() implies a.next_values@[i] == b.next_values@[i] by {
        assert(eval.ensures((&trace_polys[i], &za), a.next_values@[i]));
        assert(eval.ensures((&trace_polys[i], &za), b.next_values@[i]));
    }
    assert forall|i: int| 0 <= i < quotient_polys.len() implies a.quotient_polys@[i] == b.quotient_polys@[i] by {
        assert(eval.ensures((&quotient_polys[i], &zeta), a.quotient_polys@[i]));
        assert(eval.ensures((&quotient_polys[i], &zeta), b.quotient_polys@[i]));
    }
    assert(a.local_values@ =~= b.local_values@);
    assert(a.next_values@ =~= b.next_values@);
    assert(a.permutation_zs@ =~= b.permutation_zs@);
    assert(a.quotient_polys@ =~= b.quotient_polys@);
}

/// The transcript receives the local, next, permutation and quotient values
/// in that order, coordinate by coordinate; so two sets holding equal values
/// leave equal transcripts behind when observed on equal transcripts.
pub proof fn lemma_observe_order(a: StarkOpeningSet, b: StarkOpeningSet, before: Seq<u64>)
    requires
        a.local_values@ == b.local_values@,
        a.next_values@ == b.next_values@,
        a.permutation_zs@ == b.permutation_zs@,
        a.quotient_polys@ == b.quotient_polys@,
    ensures
        a.transcript_elements() == flatten(
            a.local_values@ + a.next_values@ + a.permutation_zs@ + a.quotient_polys@,
        ),
        before + a.transcript_elements() == before + b.transcript_elements(),
{
    lemma_flatten_append(a.local_values@, a.next_values@);
    lemma_flatten_append(a.local_values@ + a.next_values@, a.permutation_zs@);
    lemma_flatten_append(a.local_values@ + a.next_values@ + a.permutation_zs@, a.quotient_polys@);
}

/// The batch at the challenge point is the local values followed by the
/// quotient values and then the permutation values, nothing more.
pub proof fn lemma_zeta_batch_layout(s: StarkOpeningSet)
    ensures
        s.zeta_batch().len() == s.local_values@.len() + s.quotient_polys@.len()
            + s.permutation_zs@.len(),
        s.zeta_batch().subrange(0, s.local_values@.len() as int) == s.local_values@,
        s.zeta_batch().subrange(
            s.local_values@.len() as int,
            (s.local_values@.len() + s.quotient_polys@.len()) as int,
        ) == s.quotient_polys@,
        s.zeta_batch().subrange(
            (s.local_values@.len() + s.quotient_polys@.len()) as int,
            s.zeta_batch().len() as int,
        ) == s.permutation_zs@,
{
    let l = s.local_values@.len() as int;
    let q = s.quotient_polys@.len() as int;
    assert(s.zeta_batch().subrange(0, l) =~= s.local_values@);
    assert(s.zeta_batch().subrange(l, l + q) =~= s.quotient_polys@);
    assert(s.zeta_batch().subrange(l + q, s.zeta_batch().len() as int) =~= s.permutation_zs@);
}

} // verus!
