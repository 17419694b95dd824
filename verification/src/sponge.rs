//! The sponge: the stateful absorb/squeeze wrapper around the permutation
//! that exposes the hashing API.
//!
//! A sponge owns a pending buffer and a persistent 5-element state. `update`
//! only appends to the buffer. `squeeze` drains the whole buffer in chunks
//! of at most 5 elements — absorb a zero-padded chunk into the state,
//! permute, continue — clears the buffer, and hands out the first state
//! entry. The state is never reset, so later calls chain from it.
use crate::field::{add_of, fr_add, fr_of_u64, Fr};
use crate::params::Params;
use crate::permutation::{permute_spec, permute_state};
use vstd::prelude::*;
use vstd::slice::slice_index_get;

verus! {

/// The all-zero 5-element state a fresh sponge starts from.
pub open spec fn zero_state() -> Seq<Fr> {
    Seq::new(5, |i: int| fr_of_u64(0))
}

/// A chunk of at most 5 buffered elements, zero-padded on the right to the
/// state width.
pub open spec fn pad_chunk_spec(chunk: Seq<Fr>) -> Seq<Fr> {
    Seq::new(
        5,
        |i: int|
            if i < chunk.len() {
                chunk[i]
            } else {
                fr_of_u64(0)
            },
    )
}

/// One absorb step: the zero-padded chunk added element-wise into the state.
pub open spec fn absorb_spec(state: Seq<Fr>, chunk: Seq<Fr>) -> Seq<Fr> {
    Seq::new(5, |i: int| add_of(pad_chunk_spec(chunk)[i], state[i]))
}

/// The state after draining a buffer: take chunks of at most 5 elements in
/// buffer order, absorb each into the state the previous chunk produced,
/// and permute.
pub open spec fn squeeze_rounds_spec(p: Params, state: Seq<Fr>, pending: Seq<Fr>) -> Seq<Fr>
    decreases pending.len(),
{
    if pending.len() == 0 {
        state
    } else {
        let c = if pending.len() < 5 {
            pending.len() as int
        } else {
            5
        };
        squeeze_rounds_spec(
            p,
            permute_spec(p, absorb_spec(state, pending.take(c))),
            pending.skip(c),
        )
    }
}

/// What a squeeze drains: the buffer itself, or one implicit zero element
/// when nothing was buffered since the last squeeze.
pub open spec fn effective_pending(pending: Seq<Fr>) -> Seq<Fr> {
    if pending.len() == 0 {
        seq![fr_of_u64(0)]
    } else {
        pending
    }
}

/// The sponge: a validated parameter set, the pending buffer, and the
/// persistent internal state.
pub struct PoseidonSponge {
    /// The parameter set every permutation call reads.
    pub params: Params,
    /// The pending buffer; grows on `update`, drained by `squeeze`.
    pub inputs: Vec<Fr>,
    /// The persistent 5-element internal state.
    pub state: Vec<Fr>,
}

impl PoseidonSponge {
    /// Well-formedness: a validated parameter set and a 5-element state.
    pub open spec fn wf(&self) -> bool {
        &&& self.params.wf()
        &&& self.state@.len() == 5
    }

    /// A fresh sponge: empty buffer, all-zero state.
    pub fn new(params: Params) -> (r: PoseidonSponge)
        requires
            params.wf(),
        ensures
            r.wf(),
            r.params == params,
            r.inputs@ == Seq::<Fr>::empty(),
            r.state@ == zero_state(),
    {
        let mut state: Vec<Fr> = Vec::new();
        let mut i: usize = 0;
        while i < 5
            invariant
                i <= 5,
                state@.len() == i,
                forall|k: int| 0 <= k < i ==> state@[k] == fr_of_u64(0),
            decreases 5 - i,
        {
            state.push(Fr::from_u64(0));
            i += 1;
        }
        assert(state@ =~= zero_state());
        PoseidonSponge { params, inputs: Vec::new(), state }
    }

    /// Appends the given elements to the pending buffer, in order; no
    /// computation happens, and the internal state is untouched.
    pub fn update(&mut self, inputs: &[Fr])
        requires
            old(self).wf(),
        ensures
            final(self).wf(),
            final(self).params == old(self).params,
            final(self).state == old(self).state,
            final(self).inputs@ == old(self).inputs@ + inputs@,
    {
        let n = inputs.len();
        let mut j: usize = 0;
        while j < n
            invariant
                j <= n,
                n == inputs@.len(),
                self.params == old(self).params,
                self.state == old(self).state,
                self.inputs@ == old(self).inputs@ + inputs@.take(j as int),
            decreases n - j,
        {
            self.inputs.push(*slice_index_get(inputs, j));
            proof {
                assert(old(self).inputs@ + inputs@.take(j + 1) =~= (old(self).inputs@
                    + inputs@.take(j as int)).push(inputs@[j as int]));
            }
            j += 1;
        }
        proof {
            assert(inputs@.take(n as int) =~= inputs@);
        }
    }

    /// Zero-pads a chunk of at most 5 buffered elements to the state width.
    pub fn load_state(chunk: &[Fr]) -> (r: Vec<Fr>)
        requires
            chunk@.len() <= 5,
        ensures
            r@ == pad_chunk_spec(chunk@),
    {
        let n = chunk.len();
        let mut r: Vec<Fr> = Vec::new();
        let mut i: usize = 0;
        while i < n
            invariant
                i <= n,
                n == chunk@.len() <= 5,
                r@.len() == i,
                forall|k: int| 0 <= k < i ==> r@[k] == chunk@[k],
            decreases n - i,
        {
            r.push(*slice_index_get(chunk, i));
            i += 1;
        }
        while r.len() < 5
            invariant
                n == chunk@.len() <= 5,
                n <= r@.len() <= 5,
                forall|k: int| 0 <= k < n ==> r@[k] == chunk@[k],
                forall|k: int| n <= k < r@.len() ==> r@[k] == fr_of_u64(0),
            decreases 5 - r@.len(),
        {
            r.push(Fr::from_u64(0));
        }
        assert(r@ =~= pad_chunk_spec(chunk@));
        r
    }

    /// Drains the whole pending buffer — one implicit zero element if it is
    /// empty — chunk by chunk through absorb and permute, clears the buffer,
    /// and returns the first entry of the resulting state. The state
    /// persists, so a later `update` and `squeeze` chain from it.
    pub fn squeeze(&mut self) -> (r: Fr)
        requires
            old(self).wf(),
        ensures
            final(self).wf(),
            final(self).params == old(self).params,
            final(self).inputs@ == Seq::<Fr>::empty(),
            final(self).state@ == squeeze_rounds_spec(
                old(self).params,
                old(self).state@,
                effective_pending(old(self).inputs@),
            ),
            r == final(self).state@[0],
    {
        if self.inputs.len() == 0 {
            self.inputs.push(Fr::from_u64(0));
            proof {
                assert(self.inputs@ =~= effective_pending(old(self).inputs@));
            }
        }
        let ghost pending = self.inputs@;
        let ghost target = squeeze_rounds_spec(self.params, self.state@, pending);
        let len = self.inputs.len();
        proof {
            assert(pending.skip(0) =~= pending);
        }
        let mut pos: usize = 0;
        while pos < len
            invariant
                pos <= len,
                len == pending.len(),
                self.params == old(self).params,
                self.params.wf(),
                self.inputs@ == pending,
                self.state@.len() == 5,
                squeeze_rounds_spec(self.params, self.state@, pending.skip(pos as int)) == target,
            decreases len - pos,
        {
            let end = if len - pos >= 5 {
                pos + 5
            } else {
                len
            };
            let mut chunk: Vec<Fr> = Vec::new();
            let mut t: usize = pos;
            while t < end
                invariant
                    pos <= t <= end,
                    end <= len,
                    len == pending.len(),
                    self.inputs@ == pending,
                    chunk@.len() == t - pos,
                    forall|k: int| 0 <= k < t - pos ==> chunk@[k] == pending[pos + k],
                decreases end - t,
            {
                chunk.push(self.inputs[t]);
                t += 1;
            }
            assert(chunk@ =~= pending.subrange(pos as int, end as int));
            let loaded = Self::load_state(chunk.as_slice());
            let mut input: Vec<Fr> = Vec::new();
            let mut q: usize = 0;
            while q < 5
                invariant
                    q <= 5,
                    loaded@ == pad_chunk_spec(chunk@),
                    self.state@.len() == 5,
                    input@.len() == q,
                    forall|k: int| 0 <= k < q ==> input@[k] == add_of(loaded@[k], self.state@[k]),
                decreases 5 - q,
            {
                input.push(fr_add(loaded[q], self.state[q]));
                q += 1;
            }
            assert(input@ =~= absorb_spec(self.state@, chunk@));
            let next = permute_state(&self.params, &input);
            proof {
                let rest = pending.skip(pos as int);
                let c = if rest.len() < 5 {
                    rest.len() as int
                } else {
                    5
                };
                assert(c == end - pos);
                assert(rest.take(c) =~= pending.subrange(pos as int, end as int));
                assert(rest.skip(c) =~= pending.skip(end as int));
            }
            self.state = next;
            pos = end;
        }
        proof {
            assert(pending.skip(len as int) =~= Seq::<Fr>::empty());
        }
        self.inputs = Vec::new();
        let out = self.state[0];
        out
    }
}

/// Law: a sponge squeezed with nothing buffered reaches one fixed state,
/// determined by the parameter set and the prior state alone: the implicit
/// zero element absorbed, then one permutation. On a fresh sponge the prior
/// state is the all-zero state, so every fresh sponge squeezes out the same
/// constant.
pub proof fn lemma_empty_squeeze(p: Params, state: Seq<Fr>)
    ensures
        squeeze_rounds_spec(p, state, effective_pending(Seq::<Fr>::empty())) == permute_spec(
            p,
            absorb_spec(state, seq![fr_of_u64(0)]),
        ),
{
    let pending = effective_pending(Seq::<Fr>::empty());
    let z = seq![fr_of_u64(0)];
    assert(pending == z);
    assert(pending.len() == 1);
    assert(pending.take(1) =~= z);
    assert(pending.skip(1) =~= Seq::<Fr>::empty());
    let s1 = permute_spec(p, absorb_spec(state, z));
    assert(squeeze_rounds_spec(p, state, pending) == squeeze_rounds_spec(p, s1, pending.skip(1)));
    assert(squeeze_rounds_spec(p, s1, Seq::<Fr>::empty()) == s1);
}

/// Law: draining a buffer of more than 5 and at most 10 elements is
/// sequential chaining, not independent per-chunk hashing: absorb the
/// zero-padded first 5 elements, permute, absorb the zero-padded remainder
/// into that output, and permute again.
pub proof fn lemma_squeeze_two_chunks(p: Params, state: Seq<Fr>, pending: Seq<Fr>)
    requires
        5 < pending.len() <= 10,
    ensures
        squeeze_rounds_spec(p, state, pending) == permute_spec(
            p,
            absorb_spec(permute_spec(p, absorb_spec(state, pending.take(5))), pending.skip(5)),
        ),
{
    let s1 = permute_spec(p, absorb_spec(state, pending.take(5)));
    let rest = pending.skip(5);
    assert(squeeze_rounds_spec(p, state, pending) == squeeze_rounds_spec(p, s1, rest));
    let c = if rest.len() < 5 {
        rest.len() as int
    } else {
        5
    };
    assert(c == rest.len());
    assert(rest.take(c) =~= rest);
    assert(rest.skip(c) =~= Seq::<Fr>::empty());
    assert(squeeze_rounds_spec(p, s1, rest) == squeeze_rounds_spec(
        p,
        permute_spec(p, absorb_spec(s1, rest.take(c))),
        rest.skip(c),
    ));
    assert(squeeze_rounds_spec(p, permute_spec(p, absorb_spec(s1, rest)), Seq::<Fr>::empty())
        == permute_spec(p, absorb_spec(s1, rest)));
}

/// Law: squeezing is deterministic — the same parameter set, the same prior
/// state, and the same buffered elements drain to the same state, so a
/// verifier that feeds the same sequence into a fresh sponge recomputes the
/// signer's challenge exactly.
pub proof fn lemma_squeeze_deterministic(
    p1: Params,
    p2: Params,
    s1: Seq<Fr>,
    s2: Seq<Fr>,
    in1: Seq<Fr>,
    in2: Seq<Fr>,
)
    requires
        p1 == p2,
        s1 == s2,
        in1 == in2,
    ensures
        squeeze_rounds_spec(p1, s1, effective_pending(in1)) == squeeze_rounds_spec(
            p2,
            s2,
            effective_pending(in2),
        ),
{
}

} // verus!
