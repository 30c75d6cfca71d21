use forge_runner::fuzzer::{FuzzerError, RandomFuzzer};

#[test]
fn identical_seeds_replay_identical_argument_traces() {
    let types = vec![
        String::from("u8"),
        String::from("u32"),
        String::from("u128"),
    ];
    let mut a = RandomFuzzer::create(42, 10, &types).unwrap();
    let mut b = RandomFuzzer::create(42, 10, &types).unwrap();
    for _ in 0..10 {
        assert_eq!(a.next_args(), b.next_args());
    }
}

#[test]
fn different_seeds_diverge() {
    let types = vec![String::from("u64")];
    let mut a = RandomFuzzer::create(1, 4, &types).unwrap();
    let mut b = RandomFuzzer::create(2, 4, &types).unwrap();
    assert_ne!(a.next_args(), b.next_args());
}

#[test]
fn sampled_values_respect_their_type_domain() {
    let types = vec![
        String::from("u8"),
        String::from("u16"),
        String::from("u32"),
        String::from("u64"),
    ];
    let mut fuzzer = RandomFuzzer::create(7, 50, &types).unwrap();
    for _ in 0..50 {
        let args = fuzzer.next_args();
        assert_eq!(args.len(), 4);
        assert!(args[0] < 1u128 << 8);
        assert!(args[1] < 1u128 << 16);
        assert!(args[2] < 1u128 << 32);
        assert!(args[3] < 1u128 << 64);
    }
}

#[test]
fn unsupported_type_name_is_rejected() {
    let types = vec![String::from("u32"), String::from("felt252")];
    let err = RandomFuzzer::create(5, 3, &types).unwrap_err();
    match err {
        FuzzerError::UnsupportedType(name) => assert_eq!(name, "felt252"),
    }
}

#[test]
fn argument_tuples_are_not_all_equal() {
    let types = vec![String::from("u64")];
    let mut fuzzer = RandomFuzzer::create(99, 3, &types).unwrap();
    let first = fuzzer.next_args();
    let second = fuzzer.next_args();
    assert_ne!(first, second);
}
