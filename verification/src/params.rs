//! The parameter set the permutation is driven by: the round counts, the
//! decoded round-constant table, and the 5-by-5 mixing matrix.
//!
//! A parameter set is built once from raw hex literals, validated, and then
//! shared read-only: the number of full rounds must be even so it halves
//! around the partial-round block, the matrix must be exactly 5 rows of 5
//! entries, and the constant table must hold 5 constants for every round.
use crate::codec::{field_of_hex, hex_to_field, valid_hex_literal};
use crate::field::Fr;
use crate::ConfigError;
use vstd::prelude::*;

verus! {

/// A validated parameter set: round counts, round-constant table, mixing
/// matrix. Immutable once constructed.
pub struct Params {
    /// How many full rounds the permutation runs; even, half before and half
    /// after the partial-round block.
    pub full_rounds: usize,
    /// How many partial rounds the permutation runs.
    pub partial_rounds: usize,
    /// The decoded round-constant table, 5 constants per round.
    pub round_constants: Vec<Fr>,
    /// The decoded mixing matrix, 5 rows of 5 entries, row-major.
    pub mds: Vec<Vec<Fr>>,
}

impl Params {
    /// Well-formedness: what `new` establishes and every operation relies on.
    pub open spec fn wf(&self) -> bool {
        &&& self.full_rounds % 2 == 0
        &&& self.round_constants@.len() == 5 * (self.full_rounds + self.partial_rounds)
        &&& self.mds@.len() == 5
        &&& forall|i: int| 0 <= i < 5 ==> self.mds@[i]@.len() == 5
    }

    /// The total number of round constants the table must hold.
    pub fn round_constants_count(&self) -> (r: usize)
        requires
            self.wf(),
        ensures
            r == 5 * (self.full_rounds + self.partial_rounds),
    {
        let len = self.round_constants.len();
        proof {
            assert(self.full_rounds + self.partial_rounds <= len);
        }
        (self.full_rounds + self.partial_rounds) * 5
    }

    /// Builds and validates a parameter set from raw hex literals.
    ///
    /// The checks run in this order: the full-round count must be even, the
    /// raw matrix must be 5 rows of 5 entries, the raw constant table must
    /// hold 5 literals per round, and every literal must decode.
    pub fn new(
        full_rounds: usize,
        partial_rounds: usize,
        constants_raw: &Vec<&str>,
        mds_raw: &Vec<Vec<&str>>,
    ) -> (r: Result<Params, ConfigError>)
        ensures
            r is Ok <==> config_ok(full_rounds, partial_rounds, constants_raw@, mds_raw@),
            (r matches Ok(p) ==> ({
                &&& p.wf()
                &&& p.full_rounds == full_rounds
                &&& p.partial_rounds == partial_rounds
                &&& p.round_constants@.len() == constants_raw@.len()
                &&& forall|i: int|
                    0 <= i < constants_raw@.len() ==> p.round_constants@[i] == field_of_hex(
                        constants_raw@[i]@,
                    )
                &&& forall|i: int, j: int|
                    0 <= i < 5 && 0 <= j < 5 ==> p.mds@[i]@[j] == field_of_hex(mds_raw@[i]@[j]@)
            })),
            (r matches Err(e) && e == ConfigError::OddFullRounds) <==> full_rounds % 2 != 0,
            (r matches Err(e) && e == ConfigError::MatrixShape) <==> (full_rounds % 2 == 0
                && !mds_shape_ok(mds_raw@)),
            (r matches Err(e) && e == ConfigError::TableLength) <==> (full_rounds % 2 == 0
                && mds_shape_ok(mds_raw@) && constants_raw@.len() != 5 * (full_rounds
                + partial_rounds)),
            (r matches Err(e) && e == ConfigError::InvalidHex) <==> (full_rounds % 2 == 0
                && mds_shape_ok(mds_raw@) && constants_raw@.len() == 5 * (full_rounds
                + partial_rounds) && !all_literals_valid(constants_raw@, mds_raw@)),
    {
        if full_rounds % 2 != 0 {
            return Err(ConfigError::OddFullRounds);
        }
        if mds_raw.len() != 5 {
            return Err(ConfigError::MatrixShape);
        }
        let mut i: usize = 0;
        while i < 5
            invariant
                i <= 5,
                full_rounds % 2 == 0,
                mds_raw@.len() == 5,
                forall|k: int| 0 <= k < i ==> mds_raw@[k]@.len() == 5,
            decreases 5 - i,
        {
            if mds_raw[i].len() != 5 {
                return Err(ConfigError::MatrixShape);
            }
            i += 1;
        }
        assert(mds_shape_ok(mds_raw@));
        let len = constants_raw.len();
        if partial_rounds > usize::MAX - full_rounds {
            proof {
                assert(len < full_rounds + partial_rounds <= 5 * (full_rounds + partial_rounds));
            }
            return Err(ConfigError::TableLength);
        }
        let total = full_rounds + partial_rounds;
        if len % 5 != 0 || len / 5 != total {
            proof {
                assert(len == 5 * (len / 5) + (len % 5)) by (nonlinear_arith);
            }
            return Err(ConfigError::TableLength);
        }
        proof {
            assert(len == 5 * (len / 5) + (len % 5)) by (nonlinear_arith);
            assert(len == 5 * (full_rounds + partial_rounds));
        }
        let mut round_constants: Vec<Fr> = Vec::new();
        let mut i: usize = 0;
        while i < len
            invariant
                i <= len,
                full_rounds % 2 == 0,
                mds_shape_ok(mds_raw@),
                len == constants_raw@.len(),
                len == 5 * (full_rounds + partial_rounds),
                round_constants@.len() == i,
                forall|k: int| 0 <= k < i ==> valid_hex_literal(constants_raw@[k]@),
                forall|k: int|
                    0 <= k < i ==> round_constants@[k] == field_of_hex(constants_raw@[k]@),
            decreases len - i,
        {
            let f = match hex_to_field(constants_raw[i]) {
                Ok(f) => f,
                Err(_) => {
                    return Err(ConfigError::InvalidHex);
                },
            };
            round_constants.push(f);
            i += 1;
        }
        let mut mds: Vec<Vec<Fr>> = Vec::new();
        let mut i: usize = 0;
        while i < 5
            invariant
                i <= 5,
                full_rounds % 2 == 0,
                mds_shape_ok(mds_raw@),
                constants_raw@.len() == 5 * (full_rounds + partial_rounds),
                round_constants@.len() == constants_raw@.len(),
                forall|k: int| 0 <= k < constants_raw@.len() ==> valid_hex_literal(constants_raw@[k]@),
                forall|k: int|
                    0 <= k < constants_raw@.len() ==> round_constants@[k] == field_of_hex(
                        constants_raw@[k]@,
                    ),
                mds@.len() == i,
                forall|k: int| 0 <= k < i ==> mds@[k]@.len() == 5,
                forall|k: int, j: int|
                    0 <= k < i && 0 <= j < 5 ==> valid_hex_literal(mds_raw@[k]@[j]@),
                forall|k: int, j: int|
                    0 <= k < i && 0 <= j < 5 ==> mds@[k]@[j] == field_of_hex(mds_raw@[k]@[j]@),
            decreases 5 - i,
        {
            let mut row: Vec<Fr> = Vec::new();
            let mut j: usize = 0;
            while j < 5
                invariant
                    0 <= i < 5,
                    j <= 5,
                    full_rounds % 2 == 0,
                    mds_shape_ok(mds_raw@),
                    constants_raw@.len() == 5 * (full_rounds + partial_rounds),
                    forall|k: int|
                        0 <= k < constants_raw@.len() ==> valid_hex_literal(constants_raw@[k]@),
                    row@.len() == j,
                    forall|k: int| 0 <= k < j ==> valid_hex_literal(mds_raw@[i as int]@[k]@),
                    forall|k: int|
                        0 <= k < j ==> row@[k] == field_of_hex(mds_raw@[i as int]@[k]@),
                decreases 5 - j,
            {
                let f = match hex_to_field(mds_raw[i][j]) {
                    Ok(f) => f,
                    Err(_) => {
                        return Err(ConfigError::InvalidHex);
                    },
                };
                row.push(f);
                j += 1;
            }
            mds.push(row);
            i += 1;
        }
        Ok(Params { full_rounds, partial_rounds, round_constants, mds })
    }
}

/// The raw mixing matrix has exactly 5 rows of 5 entries.
pub open spec fn mds_shape_ok(rows: Seq<Vec<&str>>) -> bool {
    &&& rows.len() == 5
    &&& forall|i: int| 0 <= i < 5 ==> rows[i]@.len() == 5
}

/// Every raw literal, constant table and matrix alike, is well formed.
pub open spec fn all_literals_valid(constants_raw: Seq<&str>, mds_raw: Seq<Vec<&str>>) -> bool {
    &&& forall|i: int| 0 <= i < constants_raw.len() ==> valid_hex_literal(constants_raw[i]@)
    &&& forall|i: int, j: int| 0 <= i < 5 && 0 <= j < 5 ==> valid_hex_literal(mds_raw[i]@[j]@)
}

/// The whole configuration is acceptable: even full-round count, 5-by-5
/// matrix, 5 constants per round, every literal well formed.
pub open spec fn config_ok(
    full_rounds: usize,
    partial_rounds: usize,
    constants_raw: Seq<&str>,
    mds_raw: Seq<Vec<&str>>,
) -> bool {
    &&& full_rounds % 2 == 0
    &&& mds_shape_ok(mds_raw)
    &&& constants_raw.len() == 5 * (full_rounds + partial_rounds)
    &&& all_literals_valid(constants_raw, mds_raw)
}

} // verus!
