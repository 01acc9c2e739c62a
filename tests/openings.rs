use starky_openings::{
    CompressedStarkProof, ExtElem, StarkOpeningSet, StarkProof, StarkProofWithPublicInputs,
};

const TOY_ORDER: u64 = 101;

fn base(x: u64) -> ExtElem {
    ExtElem { c0: x, c1: 0 }
}

fn toy_mul(a: &ExtElem, b: &ExtElem) -> ExtElem {
    base(a.c0 * b.c0 % TOY_ORDER)
}

fn toy_eval(coeffs: &Vec<u64>, z: &ExtElem) -> ExtElem {
    let mut acc: u64 = 0;
    for c in coeffs.iter().rev() {
        acc = (acc * z.c0 + c) % TOY_ORDER;
    }
    base(acc)
}

fn ext(c0: u64, c1: u64) -> ExtElem {
    ExtElem { c0, c1 }
}

fn sample_set() -> StarkOpeningSet {
    StarkOpeningSet {
        local_values: vec![ext(1, 2), ext(3, 4)],
        next_values: vec![ext(5, 6), ext(7, 8)],
        permutation_zs: vec![ext(9, 10)],
        quotient_polys: vec![ext(11, 12)],
    }
}

#[test]
fn scenario_two_trace_polys_one_quotient_poly() {
    // p0 = 1 + 2x, p1 = x^2, q0 = 5 + x over the integers modulo 101.
    let trace = vec![vec![1, 2], vec![0, 0, 1]];
    let quotient = vec![vec![5, 1]];
    let s = StarkOpeningSet::new(base(3), base(2), &trace, &quotient, toy_mul, toy_eval);
    assert_eq!(s.local_values, vec![base(7), base(9)]);
    assert_eq!(s.next_values, vec![base(13), base(36)]);
    assert_eq!(s.quotient_polys, vec![base(8)]);
    assert!(s.permutation_zs.is_empty());
    let o = s.to_fri_openings();
    assert_eq!(o.batches.len(), 2);
    assert_eq!(o.batches[0].values, vec![base(7), base(9), base(8)]);
    assert_eq!(o.batches[1].values, vec![base(13), base(36)]);
}

#[test]
fn shift_is_applied_to_trace_batch_only() {
    let trace = vec![vec![0, 1]];
    let quotient = vec![vec![0, 1]];
    let s = StarkOpeningSet::new(base(10), base(20), &trace, &quotient, toy_mul, toy_eval);
    assert_eq!(s.local_values, vec![base(10)]);
    assert_eq!(s.next_values, vec![base(200 % 101)]);
    assert_eq!(s.quotient_polys, vec![base(10)]);
}

#[test]
fn evaluation_keeps_polynomial_order() {
    let trace = vec![vec![4], vec![3], vec![2], vec![1]];
    let quotient: Vec<Vec<u64>> = vec![vec![9], vec![8]];
    let s = StarkOpeningSet::new(base(5), base(2), &trace, &quotient, toy_mul, toy_eval);
    assert_eq!(s.local_values, vec![base(4), base(3), base(2), base(1)]);
    assert_eq!(s.next_values, vec![base(4), base(3), base(2), base(1)]);
    assert_eq!(s.quotient_polys, vec![base(9), base(8)]);
}

#[test]
fn empty_batches_give_empty_openings() {
    let trace: Vec<Vec<u64>> = Vec::new();
    let quotient: Vec<Vec<u64>> = Vec::new();
    let s = StarkOpeningSet::new(base(3), base(2), &trace, &quotient, toy_mul, toy_eval);
    assert!(s.local_values.is_empty());
    assert!(s.next_values.is_empty());
    assert!(s.quotient_polys.is_empty());
    let mut t = vec![42];
    s.observe(&mut t);
    assert_eq!(t, vec![42]);
    let o = s.to_fri_openings();
    assert_eq!(o.batches.len(), 2);
    assert!(o.batches[0].values.is_empty());
    assert!(o.batches[1].values.is_empty());
}

#[test]
fn building_twice_gives_identical_openings() {
    let trace = vec![vec![1, 2, 3], vec![7]];
    let quotient = vec![vec![0, 0, 5]];
    let a = StarkOpeningSet::new(base(4), base(9), &trace, &quotient, toy_mul, toy_eval);
    let b = StarkOpeningSet::new(base(4), base(9), &trace, &quotient, toy_mul, toy_eval);
    assert_eq!(a.local_values, b.local_values);
    assert_eq!(a.next_values, b.next_values);
    assert_eq!(a.permutation_zs, b.permutation_zs);
    assert_eq!(a.quotient_polys, b.quotient_polys);
}

#[test]
fn observe_appends_local_next_permutation_quotient() {
    let s = sample_set();
    let mut t = vec![100];
    s.observe(&mut t);
    assert_eq!(t, vec![100, 1, 2, 3, 4, 5, 6, 7, 8, 9, 10, 11, 12]);
}

#[test]
fn observing_equal_sets_gives_equal_transcripts() {
    let a = sample_set();
    let b = sample_set();
    let mut ta = vec![7, 7];
    let mut tb = vec![7, 7];
    a.observe(&mut ta);
    b.observe(&mut tb);
    assert_eq!(ta, tb);
    assert_eq!(ta.len(), 2 + 2 * 6);
}

#[test]
fn zeta_batch_is_local_then_quotient_then_permutation() {
    let s = sample_set();
    let o = s.to_fri_openings();
    assert_eq!(o.batches.len(), 2);
    assert_eq!(
        o.batches[0].values,
        vec![ext(1, 2), ext(3, 4), ext(11, 12), ext(9, 10)]
    );
    assert_eq!(o.batches[0].values.len(), 2 + 1 + 1);
    assert_eq!(&o.batches[0].values[0..2], &s.local_values[..]);
    assert_eq!(&o.batches[0].values[2..3], &s.quotient_polys[..]);
    assert_eq!(o.batches[1].values, s.next_values);
}

#[test]
fn compress_drops_quotient_cap_and_swaps_opening_proof() {
    let p = StarkProof {
        trace_cap: vec![1u64, 2],
        quotient_polys_cap: vec![3u64, 4],
        openings: sample_set(),
        opening_proof: String::from("full"),
    };
    let c: CompressedStarkProof<Vec<u64>, u32> = p.compress(17);
    assert_eq!(c.trace_cap, vec![1, 2]);
    assert_eq!(c.opening_proof, 17);
    assert_eq!(c.openings.quotient_polys, vec![ext(11, 12)]);
    let back = c.decompress(vec![3u64, 4], String::from("full"));
    assert_eq!(back.trace_cap, vec![1, 2]);
    assert_eq!(back.quotient_polys_cap, vec![3, 4]);
    assert_eq!(back.opening_proof, "full");
    assert_eq!(back.openings.local_values, sample_set().local_values);
    assert_eq!(back.openings.next_values, sample_set().next_values);
    assert_eq!(back.openings.permutation_zs, sample_set().permutation_zs);
    assert_eq!(back.openings.quotient_polys, sample_set().quotient_polys);
}

#[test]
fn compress_round_trip_keeps_public_inputs() {
    let p = StarkProofWithPublicInputs {
        proof: StarkProof {
            trace_cap: 5u8,
            quotient_polys_cap: 6u8,
            openings: sample_set(),
            opening_proof: 1000u64,
        },
        public_inputs: vec![1, 1, 2, 3, 5],
    };
    let c = p.compress(-1i64);
    assert_eq!(c.public_inputs, vec![1, 1, 2, 3, 5]);
    assert_eq!(c.proof.opening_proof, -1);
    assert_eq!(c.proof.trace_cap, 5);
    let back = c.decompress(6u8, 1000u64);
    assert_eq!(back.public_inputs, vec![1, 1, 2, 3, 5]);
    assert_eq!(back.proof.trace_cap, 5);
    assert_eq!(back.proof.quotient_polys_cap, 6);
    assert_eq!(back.proof.opening_proof, 1000);
    assert_eq!(back.proof.openings.next_values, sample_set().next_values);
}
