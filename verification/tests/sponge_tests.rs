use poseidon_sponge::field::Fr;
use poseidon_sponge::params::Params;
use poseidon_sponge::permutation::Poseidon;
use poseidon_sponge::sponge::PoseidonSponge;

// A small parameter set: every constant 1, every matrix entry 1.
fn ones_params(full: usize, partial: usize) -> Params {
    let consts = vec!["0x01"; (full + partial) * 5];
    let mds = vec![vec!["0x01"; 5]; 5];
    Params::new(full, partial, &consts, &mds).unwrap()
}

fn zero_state() -> Vec<Fr> {
    (0..5).map(|_| Fr::from_u64(0)).collect()
}

// One manual absorb-and-permute step: zero-pad the chunk, add it into the
// state, run the permutation.
fn absorb_permute(full: usize, partial: usize, state: &Vec<Fr>, chunk: &[Fr]) -> Vec<Fr> {
    let padded = PoseidonSponge::load_state(chunk);
    let input = Params::apply_round_constants(state, &padded);
    Poseidon::new(ones_params(full, partial), input).permute()
}

#[test]
fn empty_squeeze_is_a_fixed_constant() {
    // absorbing the implicit zero into the zero state permutes the zero
    // state once: with two all-ones rounds that is 38880 (see the
    // permutation tests)
    let mut a = PoseidonSponge::new(ones_params(2, 0));
    let ha = a.squeeze();
    let mut b = PoseidonSponge::new(ones_params(2, 0));
    let hb = b.squeeze();
    assert!(ha.equals(&hb));
    assert!(ha.equals(&Fr::from_u64(38880)));
}

#[test]
fn seven_elements_chain_as_two_chunks() {
    let elems: Vec<Fr> = (1..=7).map(Fr::from_u64).collect();
    let mut sp = PoseidonSponge::new(ones_params(8, 57));
    sp.update(&elems);
    let h = sp.squeeze();

    // manually: absorb the zero-padded first five, permute, absorb the
    // zero-padded remaining two into that output, permute again
    let s1 = absorb_permute(8, 57, &zero_state(), &elems[0..5]);
    let s2 = absorb_permute(8, 57, &s1, &elems[5..7]);
    assert!(h.equals(&s2[0]));
}

#[test]
fn updates_accumulate_in_call_order() {
    let a: Vec<Fr> = vec![Fr::from_u64(11)];
    let b: Vec<Fr> = vec![Fr::from_u64(22)];
    let both: Vec<Fr> = vec![Fr::from_u64(11), Fr::from_u64(22)];

    let mut split = PoseidonSponge::new(ones_params(2, 1));
    split.update(&a);
    split.update(&b);
    let hs = split.squeeze();

    let mut joined = PoseidonSponge::new(ones_params(2, 1));
    joined.update(&both);
    let hj = joined.squeeze();
    assert!(hs.equals(&hj));
}

#[test]
fn state_persists_across_squeezes() {
    let m1: Vec<Fr> = vec![Fr::from_u64(7)];
    let m2: Vec<Fr> = vec![Fr::from_u64(9)];

    let mut sp = PoseidonSponge::new(ones_params(2, 0));
    sp.update(&m1);
    let h1 = sp.squeeze();
    sp.update(&m2);
    let h2 = sp.squeeze();

    // manually: the second squeeze continues from the first state
    let s1 = absorb_permute(2, 0, &zero_state(), &m1);
    assert!(h1.equals(&s1[0]));
    let s2 = absorb_permute(2, 0, &s1, &m2);
    assert!(h2.equals(&s2[0]));
}

#[test]
fn distinct_messages_hash_apart_and_reruns_agree() {
    // full_rounds 8 and partial_rounds 57, two distinct single elements
    let m1: Vec<Fr> = vec![Fr::from_u64(1)];
    let m2: Vec<Fr> = vec![Fr::from_u64(2)];

    let mut sp1 = PoseidonSponge::new(ones_params(8, 57));
    sp1.update(&m1);
    let h1 = sp1.squeeze();

    let mut sp2 = PoseidonSponge::new(ones_params(8, 57));
    sp2.update(&m2);
    let h2 = sp2.squeeze();
    assert!(!h1.equals(&h2));

    let mut sp3 = PoseidonSponge::new(ones_params(8, 57));
    sp3.update(&m1);
    let h1_again = sp3.squeeze();
    assert!(h1.equals(&h1_again));
}

#[test]
fn challenge_recomputes_from_the_same_triple() {
    // signer and verifier both hash (nonce-commitment x, public-key x,
    // message) on fresh sponges; the challenges agree, and changing any
    // one input changes the challenge
    let triple: Vec<Fr> = vec![Fr::from_u64(3), Fr::from_u64(4), Fr::from_u64(5)];

    let mut signer = PoseidonSponge::new(ones_params(8, 57));
    signer.update(&triple);
    let e = signer.squeeze();

    let mut verifier = PoseidonSponge::new(ones_params(8, 57));
    verifier.update(&triple);
    let e_v = verifier.squeeze();
    assert!(e.equals(&e_v));

    for k in 0..3 {
        let mut changed = triple.clone();
        changed[k] = Fr::from_u64(100 + k as u64);
        let mut other = PoseidonSponge::new(ones_params(8, 57));
        other.update(&changed);
        let e_o = other.squeeze();
        assert!(!e.equals(&e_o));
    }
}
