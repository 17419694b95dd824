//! The permutation: a pure map from one 5-element state to another, driven
//! by a validated parameter set, in the Hades round arrangement.
//!
//! The rounds split into three phases: half the full rounds, then the
//! partial rounds, then the other half of the full rounds. Every round adds
//! one 5-constant window of the table, substitutes through the S-box (every
//! entry in a full round, the first entry alone in a partial round), and
//! mixes the state through the matrix.
use crate::field::{add_of, fr_add, fr_mul, fr_of_u64, mul_of, Fr};
use crate::params::Params;
use vstd::prelude::*;

verus! {

/// The S-box: the fifth power of a field element, built from products.
pub open spec fn sbox_spec(x: Fr) -> Fr {
    mul_of(mul_of(mul_of(x, x), mul_of(x, x)), x)
}

/// One round's constants added onto the state, element-wise.
pub open spec fn add_rc_spec(state: Seq<Fr>, rc: Seq<Fr>) -> Seq<Fr> {
    Seq::new(state.len(), |i: int| add_of(state[i], rc[i]))
}

/// The S-box applied to every entry: a full round's substitution layer.
pub open spec fn sbox_full_spec(state: Seq<Fr>) -> Seq<Fr> {
    Seq::new(state.len(), |i: int| sbox_spec(state[i]))
}

/// The S-box applied to the first entry alone: a partial round's
/// substitution layer.
pub open spec fn sbox_partial_spec(state: Seq<Fr>) -> Seq<Fr> {
    state.update(0, sbox_spec(state[0]))
}

/// The inner product of the first `n` entries of a matrix row with the
/// state, accumulated left to right from zero.
pub open spec fn dot_spec(row: Seq<Fr>, state: Seq<Fr>, n: nat) -> Fr
    decreases n,
{
    if n == 0 {
        fr_of_u64(0)
    } else {
        add_of(dot_spec(row, state, (n - 1) as nat), mul_of(state[n - 1], row[n - 1]))
    }
}

/// The linear mixing layer: the matrix-vector product of the mixing matrix
/// with the state.
pub open spec fn mix_spec(p: Params, state: Seq<Fr>) -> Seq<Fr> {
    Seq::new(5, |i: int| dot_spec(p.mds@[i]@, state, 5))
}

/// The 5 constants one round consumes: the table is read as contiguous
/// windows of 5, in round order.
pub open spec fn round_constants_window(p: Params, round: int) -> Seq<Fr> {
    p.round_constants@.subrange(5 * round, 5 * round + 5)
}

/// Whether a round is full: the first and last `full_rounds / 2` rounds
/// are, the `partial_rounds` in between are not.
pub open spec fn is_full_round(p: Params, round: int) -> bool {
    round < p.full_rounds / 2 || round >= p.full_rounds / 2 + p.partial_rounds
}

/// One round: add the round's constants, substitute, mix.
pub open spec fn round_spec(p: Params, state: Seq<Fr>, round: int) -> Seq<Fr> {
    let with_rc = add_rc_spec(state, round_constants_window(p, round));
    let substituted = if is_full_round(p, round) {
        sbox_full_spec(with_rc)
    } else {
        sbox_partial_spec(with_rc)
    };
    mix_spec(p, substituted)
}

/// The first `n` rounds, chained: each round's input is the previous
/// round's output.
pub open spec fn rounds_spec(p: Params, state: Seq<Fr>, n: nat) -> Seq<Fr>
    decreases n,
{
    if n == 0 {
        state
    } else {
        round_spec(p, rounds_spec(p, state, (n - 1) as nat), n - 1)
    }
}

/// The whole permutation: every round of the parameter set, in order.
pub open spec fn permute_spec(p: Params, state: Seq<Fr>) -> Seq<Fr> {
    rounds_spec(p, state, (p.full_rounds + p.partial_rounds) as nat)
}

/// The S-box over one field element: its fifth power.
pub fn sbox_f(x: Fr) -> (r: Fr)
    ensures
        r == sbox_spec(x),
{
    let x2 = fr_mul(x, x);
    let x4 = fr_mul(x2, x2);
    fr_mul(x4, x)
}

impl Params {
    /// Reads the 5-constant window one round consumes from the table.
    pub fn load_round_constants(&self, round: usize) -> (r: Vec<Fr>)
        requires
            self.wf(),
            round < self.full_rounds + self.partial_rounds,
        ensures
            r@ == round_constants_window(*self, round as int),
    {
        let table_len = self.round_constants.len();
        proof {
            assert(5 * (round + 1) <= table_len);
        }
        let base = round * 5;
        let mut r: Vec<Fr> = Vec::new();
        let mut k: usize = 0;
        while k < 5
            invariant
                k <= 5,
                base == 5 * round,
                table_len == self.round_constants@.len(),
                base + 5 <= table_len,
                r@.len() == k,
                forall|j: int| 0 <= j < k ==> r@[j] == self.round_constants@[base + j],
            decreases 5 - k,
        {
            r.push(self.round_constants[base + k]);
            k += 1;
        }
        assert(r@ =~= round_constants_window(*self, round as int));
        r
    }

    /// Adds one round's 5 constants onto the 5 state entries.
    pub fn apply_round_constants(state: &Vec<Fr>, round_consts: &Vec<Fr>) -> (r: Vec<Fr>)
        requires
            state@.len() == 5,
            round_consts@.len() == 5,
        ensures
            r@ == add_rc_spec(state@, round_consts@),
    {
        let mut r: Vec<Fr> = Vec::new();
        let mut i: usize = 0;
        while i < 5
            invariant
                i <= 5,
                state@.len() == 5,
                round_consts@.len() == 5,
                r@.len() == i,
                forall|k: int| 0 <= k < i ==> r@[k] == add_of(state@[k], round_consts@[k]),
            decreases 5 - i,
        {
            r.push(fr_add(state[i], round_consts[i]));
            i += 1;
        }
        assert(r@ =~= add_rc_spec(state@, round_consts@));
        r
    }

    /// The mixing layer: multiplies the state by the 5-by-5 mixing matrix,
    /// row by row.
    pub fn apply_mds(&self, state: &Vec<Fr>) -> (r: Vec<Fr>)
        requires
            self.wf(),
            state@.len() == 5,
        ensures
            r@ == mix_spec(*self, state@),
    {
        let mut out: Vec<Fr> = Vec::new();
        let mut i: usize = 0;
        while i < 5
            invariant
                i <= 5,
                self.wf(),
                state@.len() == 5,
                out@.len() == i,
                forall|k: int| 0 <= k < i ==> out@[k] == dot_spec(self.mds@[k]@, state@, 5),
            decreases 5 - i,
        {
            let row = &self.mds[i];
            let mut acc = Fr::from_u64(0);
            let mut j: usize = 0;
            while j < 5
                invariant
                    j <= 5,
                    0 <= i < 5,
                    self.wf(),
                    state@.len() == 5,
                    row == &self.mds@[i as int],
                    acc == dot_spec(self.mds@[i as int]@, state@, j as nat),
                decreases 5 - j,
            {
                acc = fr_add(acc, fr_mul(state[j], row[j]));
                j += 1;
            }
            out.push(acc);
            i += 1;
        }
        assert(out@ =~= mix_spec(*self, state@));
        out
    }
}

/// A full round's substitution layer: the S-box on every entry.
fn sbox_layer_full(state: &Vec<Fr>) -> (r: Vec<Fr>)
    requires
        state@.len() == 5,
    ensures
        r@ == sbox_full_spec(state@),
{
    let mut r: Vec<Fr> = Vec::new();
    let mut i: usize = 0;
    while i < 5
        invariant
            i <= 5,
            state@.len() == 5,
            r@.len() == i,
            forall|k: int| 0 <= k < i ==> r@[k] == sbox_spec(state@[k]),
        decreases 5 - i,
    {
        r.push(sbox_f(state[i]));
        i += 1;
    }
    assert(r@ =~= sbox_full_spec(state@));
    r
}

/// A partial round's substitution layer: the S-box on the first entry, the
/// other four pass through unchanged.
fn sbox_layer_partial(state: &Vec<Fr>) -> (r: Vec<Fr>)
    requires
        state@.len() == 5,
    ensures
        r@ == sbox_partial_spec(state@),
{
    let mut r: Vec<Fr> = Vec::new();
    r.push(sbox_f(state[0]));
    let mut i: usize = 1;
    while i < 5
        invariant
            1 <= i <= 5,
            state@.len() == 5,
            r@.len() == i,
            r@[0] == sbox_spec(state@[0]),
            forall|k: int| 1 <= k < i ==> r@[k] == state@[k],
        decreases 5 - i,
    {
        r.push(state[i]);
        i += 1;
    }
    assert(r@ =~= sbox_partial_spec(state@));
    r
}

/// Runs every round of the parameter set over a 5-element input state:
/// `full_rounds / 2` full rounds, `partial_rounds` partial rounds, then the
/// remaining `full_rounds / 2` full rounds, consuming the constant table as
/// three contiguous windows in that order.
pub fn permute_state(params: &Params, inputs: &Vec<Fr>) -> (r: Vec<Fr>)
    requires
        params.wf(),
        inputs@.len() == 5,
    ensures
        r@ == permute_spec(*params, inputs@),
        r@.len() == 5,
{
    let table_len = params.round_constants.len();
    proof {
        assert(params.full_rounds + params.partial_rounds <= table_len);
    }
    let total = params.full_rounds + params.partial_rounds;
    let half = params.full_rounds / 2;
    let mut state: Vec<Fr> = Vec::new();
    let mut i: usize = 0;
    while i < 5
        invariant
            i <= 5,
            inputs@.len() == 5,
            state@.len() == i,
            forall|k: int| 0 <= k < i ==> state@[k] == inputs@[k],
        decreases 5 - i,
    {
        state.push(inputs[i]);
        i += 1;
    }
    assert(state@ =~= inputs@);
    let mut round: usize = 0;
    while round < total
        invariant
            round <= total,
            params.wf(),
            inputs@.len() == 5,
            total == params.full_rounds + params.partial_rounds,
            half == params.full_rounds / 2,
            state@.len() == 5,
            state@ == rounds_spec(*params, inputs@, round as nat),
        decreases total - round,
    {
        let rc = params.load_round_constants(round);
        let with_rc = Params::apply_round_constants(&state, &rc);
        let substituted = if round < half || round >= half + params.partial_rounds {
            sbox_layer_full(&with_rc)
        } else {
            sbox_layer_partial(&with_rc)
        };
        let next = params.apply_mds(&substituted);
        proof {
            assert(rounds_spec(*params, inputs@, (round + 1) as nat) == round_spec(
                *params,
                rounds_spec(*params, inputs@, round as nat),
                round as int,
            ));
            assert(next@ == round_spec(*params, state@, round as int));
        }
        state = next;
        round += 1;
    }
    state
}

/// One permutation call: a validated parameter set and one 5-element input
/// state.
pub struct Poseidon {
    /// The parameter set every round reads.
    pub params: Params,
    /// The 5-element input state.
    pub inputs: Vec<Fr>,
}

impl Poseidon {
    /// Well-formedness: a validated parameter set and a 5-element input.
    pub open spec fn wf(&self) -> bool {
        &&& self.params.wf()
        &&& self.inputs@.len() == 5
    }

    /// Bundles a validated parameter set with one 5-element input state.
    pub fn new(params: Params, inputs: Vec<Fr>) -> (r: Poseidon)
        requires
            params.wf(),
            inputs@.len() == 5,
        ensures
            r.params == params,
            r.inputs == inputs,
            r.wf(),
    {
        Poseidon { params, inputs }
    }

    /// The permutation over this input state.
    pub fn permute(&self) -> (r: Vec<Fr>)
        requires
            self.wf(),
        ensures
            r@ == permute_spec(self.params, self.inputs@),
            r@.len() == 5,
    {
        permute_state(&self.params, &self.inputs)
    }
}

/// Law: the permutation is deterministic. One parameter set and one input
/// state admit exactly one output, so repeated calls on equal inputs agree.
pub proof fn lemma_permute_deterministic(p1: Params, p2: Params, s1: Seq<Fr>, s2: Seq<Fr>)
    requires
        p1 == p2,
        s1 == s2,
    ensures
        permute_spec(p1, s1) == permute_spec(p2, s2),
{
}

} // verus!
