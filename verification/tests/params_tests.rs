use poseidon_sponge::params::Params;
use poseidon_sponge::ConfigError;

fn ones_matrix() -> Vec<Vec<&'static str>> {
    vec![vec!["0x01"; 5]; 5]
}

fn ones_constants(rounds: usize) -> Vec<&'static str> {
    vec!["0x01"; rounds * 5]
}

#[test]
fn valid_params_accepted() {
    let consts = ones_constants(2);
    let mds = ones_matrix();
    let p = Params::new(2, 0, &consts, &mds).unwrap();
    assert_eq!(p.full_rounds, 2);
    assert_eq!(p.partial_rounds, 0);
    assert_eq!(p.round_constants.len(), 10);
    assert_eq!(p.mds.len(), 5);
    for row in &p.mds {
        assert_eq!(row.len(), 5);
    }
    assert_eq!(p.round_constants_count(), 10);
}

#[test]
fn table_length_mismatch_is_rejected() {
    // 9 constants where (2 + 0) * 5 = 10 are required
    let consts = vec!["0x01"; 9];
    let mds = ones_matrix();
    let r = Params::new(2, 0, &consts, &mds);
    assert!(matches!(r, Err(ConfigError::TableLength)));
}

#[test]
fn table_length_surplus_is_rejected() {
    let consts = vec!["0x01"; 11];
    let mds = ones_matrix();
    let r = Params::new(2, 0, &consts, &mds);
    assert!(matches!(r, Err(ConfigError::TableLength)));
}

#[test]
fn matrix_with_four_rows_is_rejected() {
    let consts = ones_constants(2);
    let mds = vec![vec!["0x01"; 5]; 4];
    let r = Params::new(2, 0, &consts, &mds);
    assert!(matches!(r, Err(ConfigError::MatrixShape)));
}

#[test]
fn matrix_with_long_row_is_rejected() {
    let consts = ones_constants(2);
    let mut mds = ones_matrix();
    mds[3] = vec!["0x01"; 6];
    let r = Params::new(2, 0, &consts, &mds);
    assert!(matches!(r, Err(ConfigError::MatrixShape)));
}

#[test]
fn odd_full_rounds_is_rejected() {
    let consts = ones_constants(3);
    let mds = ones_matrix();
    let r = Params::new(3, 0, &consts, &mds);
    assert!(matches!(r, Err(ConfigError::OddFullRounds)));
}

#[test]
fn bad_constant_literal_is_rejected() {
    let mut consts = ones_constants(2);
    consts[7] = "0xzz";
    let mds = ones_matrix();
    let r = Params::new(2, 0, &consts, &mds);
    assert!(matches!(r, Err(ConfigError::InvalidHex)));
}

#[test]
fn bad_matrix_literal_is_rejected() {
    let consts = ones_constants(2);
    let mut mds = ones_matrix();
    mds[2][4] = "0";
    let r = Params::new(2, 0, &consts, &mds);
    assert!(matches!(r, Err(ConfigError::InvalidHex)));
}

#[test]
fn shape_is_checked_before_literals() {
    // both failures present: the 4-row matrix is reported, not the bad hex
    let mut consts = ones_constants(2);
    consts[0] = "0xzz";
    let mds = vec![vec!["0x01"; 5]; 4];
    let r = Params::new(2, 0, &consts, &mds);
    assert!(matches!(r, Err(ConfigError::MatrixShape)));
}
