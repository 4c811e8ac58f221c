use genesis_gen::precompile::{
    execute_precompile, idx_to_h160, HandlerOutput, Precompile, PrecompileError, Registry,
};
use genesis_gen::primitives::Address;
use ethereum_types::{H160, U256};
use evm::executor::stack::{PrecompileFailure, PrecompileSet};
use evm::{Context, ExitError, ExitSucceed};

fn unhex(text: &str) -> Vec<u8> {
    hex::decode(text).unwrap()
}

fn ok(output: Vec<u8>, cost: u64) -> Result<HandlerOutput, PrecompileError> {
    Ok(HandlerOutput { output, cost })
}

const ALL: [Precompile; 14] = [
    Precompile::EcRecover,
    Precompile::Sha256,
    Precompile::Ripemd160,
    Precompile::Identity,
    Precompile::Modexp,
    Precompile::EcRecoverPublicKey,
    Precompile::Sha3Fips256,
    Precompile::Blake2F,
    Precompile::Bn128Pairing,
    Precompile::Bn128Add,
    Precompile::Bn128Mul,
    Precompile::Curve25519Add,
    Precompile::Curve25519ScalarMul,
    Precompile::Ed25519Verify,
];

const INDICES: [u64; 14] = [1, 2, 3, 4, 5, 6, 7, 1024, 1025, 1026, 1027, 1028, 1029, 1030];

const GX: &str = "79be667ef9dcbbac55a06295ce870b07029bfcdb2dce28d959f2815b16f81798";
const GY: &str = "483ada7726a3c4655da4fbfc0e1108a8fd17b448a68554199c47d08ffb10d4b8";

/// A signature of the private key 1 on the hash 1, made with the nonce 1: r is
/// the x coordinate of the generator, s is r + 1, and the recovery id is 0.
fn signature_of_key_one() -> Vec<u8> {
    let mut input = vec![0u8; 128];
    input[31] = 1;
    input[63] = 27;
    input[64..96].copy_from_slice(&unhex(GX));
    input[96..128].copy_from_slice(&unhex(GX));
    input[127] += 1;
    input
}

#[test]
fn idx_to_h160_puts_the_index_in_the_low_bits() {
    assert_eq!(idx_to_h160(0), Address { hi: 0, lo: 0 });
    assert_eq!(idx_to_h160(4), Address { hi: 0, lo: 4 });
    assert_eq!(idx_to_h160(1030), Address { hi: 0, lo: 1030 });
    assert_eq!(idx_to_h160(u64::MAX), Address { hi: 0, lo: u64::MAX as u128 });
}

#[test]
fn standard_registry_resolves_each_reserved_address() {
    let registry = Registry::standard();
    for i in 0..14 {
        assert_eq!(registry.resolve(&idx_to_h160(INDICES[i])), Some(ALL[i]));
    }
}

#[test]
fn standard_registry_resolves_nothing_else() {
    let registry = Registry::standard();
    for i in [0u64, 8, 9, 255, 1023, 1031, 0x1000, 0x7001, u64::MAX] {
        assert_eq!(registry.resolve(&idx_to_h160(i)), None);
    }
    assert_eq!(registry.resolve(&Address { hi: 1, lo: 4 }), None);
    assert_eq!(registry.resolve(&Address { hi: 0, lo: (1u128 << 64) + 4 }), None);
}

#[test]
fn empty_registry_resolves_nothing() {
    let registry = Registry::empty();
    for i in INDICES {
        assert_eq!(registry.resolve(&idx_to_h160(i)), None);
    }
}

#[test]
fn register_keeps_the_first_entry_of_an_address() {
    let mut registry = Registry::empty();
    assert!(registry.register(idx_to_h160(9), Precompile::Identity));
    assert!(!registry.register(idx_to_h160(9), Precompile::Sha256));
    assert!(registry.register(idx_to_h160(10), Precompile::Sha256));
    assert_eq!(registry.resolve(&idx_to_h160(9)), Some(Precompile::Identity));
    assert_eq!(registry.resolve(&idx_to_h160(10)), Some(Precompile::Sha256));
    assert_eq!(registry.resolve(&idx_to_h160(4)), None);
}

#[test]
fn sha256_of_known_preimages() {
    assert_eq!(
        execute_precompile(Precompile::Sha256, b"", None),
        ok(unhex("e3b0c44298fc1c149afbf4c8996fb92427ae41e4649b934ca495991b7852b855"), 60)
    );
    assert_eq!(
        execute_precompile(Precompile::Sha256, b"abc", Some(72)),
        ok(unhex("ba7816bf8f01cfea414140de5dae2223b00361a396177a9cb410ff61f20015ad"), 72)
    );
}

#[test]
fn ripemd160_of_known_preimages() {
    assert_eq!(
        execute_precompile(Precompile::Ripemd160, b"", None),
        ok(unhex("0000000000000000000000009c1185a5c5e9fc54612808977ee8f548b2258d31"), 600)
    );
    assert_eq!(
        execute_precompile(Precompile::Ripemd160, b"abc", None),
        ok(unhex("0000000000000000000000008eb208f7e05d987a9b044a8e98c6b087f15a0bfc"), 720)
    );
}

#[test]
fn sha3_fips256_of_known_preimages() {
    assert_eq!(
        execute_precompile(Precompile::Sha3Fips256, b"", None),
        ok(unhex("a7ffc6f8bf1ed76651c14756a061d662f580ff4de43b49fa82d80a4b80f8434a"), 60)
    );
    assert_eq!(
        execute_precompile(Precompile::Sha3Fips256, b"abc", None),
        ok(unhex("3a985da74fe225b2045c172d6bd390bd855f086e3e9d525b46bfe24511431532"), 72)
    );
}

#[test]
fn identity_returns_its_input() {
    assert_eq!(execute_precompile(Precompile::Identity, b"", None), ok(vec![], 15));
    let input: Vec<u8> = (0..=255u8).collect();
    assert_eq!(
        execute_precompile(Precompile::Identity, &input, Some(39)),
        ok(input.clone(), 15 + 3 * 8)
    );
}

#[test]
fn linear_cost_counts_started_words() {
    for (len, words) in [(0usize, 0u64), (1, 1), (32, 1), (33, 2), (64, 2), (65, 3)] {
        let input = vec![7u8; len];
        let got = execute_precompile(Precompile::Identity, &input, None).unwrap();
        assert_eq!(got.cost, 15 + 3 * words);
        let got = execute_precompile(Precompile::Sha256, &input, None).unwrap();
        assert_eq!(got.cost, 60 + 12 * words);
        let got = execute_precompile(Precompile::Ripemd160, &input, None).unwrap();
        assert_eq!(got.cost, 600 + 120 * words);
    }
}

#[test]
fn ecrecover_recovers_the_address_of_key_one() {
    assert_eq!(
        execute_precompile(Precompile::EcRecover, &signature_of_key_one(), None),
        ok(unhex("0000000000000000000000007e5f4552091a69125d5dfcb7b8c2659029395bdf"), 3000)
    );
}

#[test]
fn ecrecover_returns_nothing_for_a_bad_recovery_id() {
    let mut input = signature_of_key_one();
    input[63] = 99;
    assert_eq!(execute_precompile(Precompile::EcRecover, &input, None), ok(vec![], 3000));
}

#[test]
fn ecrecover_public_key_recovers_the_generator() {
    let mut key = unhex(GX);
    key.extend(unhex(GY));
    assert_eq!(
        execute_precompile(Precompile::EcRecoverPublicKey, &signature_of_key_one(), None),
        ok(key, 3000)
    );
}

#[test]
fn ecrecover_public_key_fails_where_nothing_is_recovered() {
    let mut input = signature_of_key_one();
    input[63] = 99;
    assert_eq!(
        execute_precompile(Precompile::EcRecoverPublicKey, &input, None),
        Err(PrecompileError::InvalidInput)
    );
}

fn modexp_input(base: &[u8], exponent: &[u8], modulus: &[u8]) -> Vec<u8> {
    let mut input = vec![0u8; 96];
    input[31] = base.len() as u8;
    input[63] = exponent.len() as u8;
    input[95] = modulus.len() as u8;
    input.extend_from_slice(base);
    input.extend_from_slice(exponent);
    input.extend_from_slice(modulus);
    input
}

#[test]
fn modexp_of_small_numbers() {
    assert_eq!(
        execute_precompile(Precompile::Modexp, &modexp_input(&[3], &[5], &[7]), None),
        ok(vec![5], 200)
    );
    assert_eq!(
        execute_precompile(Precompile::Modexp, &modexp_input(&[2], &[10], &[3, 233]), None),
        ok(vec![0, 23], 200)
    );
}

#[test]
fn modexp_refuses_a_short_input() {
    assert_eq!(
        execute_precompile(Precompile::Modexp, &[0u8; 95], None),
        Err(PrecompileError::InvalidInput)
    );
}

fn blake2f_abc(rounds: u32, last: u8) -> Vec<u8> {
    let mut input = rounds.to_be_bytes().to_vec();
    input.extend(unhex(
        "48c9bdf267e6096a3ba7ca8485ae67bb2bf894fe72f36e3cf1361d5f3af54fa5\
         d182e6ad7f520e511f6c3e2b8c68059b6bbd41fbabd9831f79217e1319cde05b",
    ));
    let mut message = vec![0u8; 128];
    message[..3].copy_from_slice(b"abc");
    input.extend(message);
    input.extend(3u64.to_le_bytes());
    input.extend(0u64.to_le_bytes());
    input.push(last);
    input
}

#[test]
fn blake2f_compresses_abc() {
    assert_eq!(
        execute_precompile(Precompile::Blake2F, &blake2f_abc(12, 1), Some(12)),
        ok(
            unhex(
                "ba80a53f981c4d0d6a2797b69f12f6e94c212f14685ac4b74b12bb6fdbffa2d1\
                 7d87c5392aab792dc252d5de4533cc9518d38aa8dbf1925ab92386edd4009923"
            ),
            12
        )
    );
}

#[test]
fn blake2f_refuses_a_wrong_length_and_a_wrong_flag() {
    let mut input = blake2f_abc(12, 1);
    input.push(0);
    assert_eq!(
        execute_precompile(Precompile::Blake2F, &input, None),
        Err(PrecompileError::InvalidInput)
    );
    assert_eq!(
        execute_precompile(Precompile::Blake2F, &[], Some(0)),
        Err(PrecompileError::InvalidInput)
    );
    assert_eq!(
        execute_precompile(Precompile::Blake2F, &blake2f_abc(12, 2), None),
        Err(PrecompileError::InvalidInput)
    );
}

fn bn128_generator() -> Vec<u8> {
    let mut point = vec![0u8; 64];
    point[31] = 1;
    point[63] = 2;
    point
}

fn bn128_generator_doubled() -> Vec<u8> {
    unhex(
        "030644e72e131a029b85045b68181585d97816a916871ca8d3c208c16d87cfd3\
         15ed738c0e0a7c92e7845f96b2ae9c0a68a6a449e3538fc7ff3ebf7a5a18a2c4",
    )
}

#[test]
fn bn128_add_doubles_the_generator() {
    let mut input = bn128_generator();
    input.extend(bn128_generator());
    assert_eq!(
        execute_precompile(Precompile::Bn128Add, &input, None),
        ok(bn128_generator_doubled(), 150)
    );
    assert_eq!(
        execute_precompile(Precompile::Bn128Add, &[0u8; 128], Some(150)),
        ok(vec![0u8; 64], 150)
    );
}

#[test]
fn bn128_add_refuses_a_point_off_the_curve() {
    let mut input = bn128_generator();
    input[63] = 3;
    input.extend(bn128_generator());
    assert_eq!(
        execute_precompile(Precompile::Bn128Add, &input, None),
        Err(PrecompileError::InvalidInput)
    );
    assert_eq!(
        execute_precompile(Precompile::Bn128Add, &[0u8; 127], None),
        Err(PrecompileError::InvalidInput)
    );
}

#[test]
fn bn128_mul_doubles_the_generator() {
    let mut input = bn128_generator();
    let mut scalar = vec![0u8; 32];
    scalar[31] = 2;
    input.extend(scalar);
    assert_eq!(
        execute_precompile(Precompile::Bn128Mul, &input, None),
        ok(bn128_generator_doubled(), 6000)
    );
}

#[test]
fn bn128_pairing_of_nothing_is_one() {
    let mut one = vec![0u8; 32];
    one[31] = 1;
    assert_eq!(execute_precompile(Precompile::Bn128Pairing, &[], None), ok(one, 45000));
}

#[test]
fn bn128_pairing_with_the_point_at_infinity_is_one() {
    let mut one = vec![0u8; 32];
    one[31] = 1;
    assert_eq!(
        execute_precompile(Precompile::Bn128Pairing, &[0u8; 192], Some(79000)),
        ok(one, 79000)
    );
}

const RISTRETTO_BASE: &str = "e2f2ae0a6abc4e71a884a961c500515f58e30b6aa582dd8db6a65945e08d2d76";

#[test]
fn curve25519_add_of_nothing_is_the_identity() {
    assert_eq!(execute_precompile(Precompile::Curve25519Add, &[], None), ok(vec![0u8; 32], 60));
}

#[test]
fn curve25519_add_of_one_point_is_that_point() {
    assert_eq!(
        execute_precompile(Precompile::Curve25519Add, &unhex(RISTRETTO_BASE), None),
        ok(unhex(RISTRETTO_BASE), 72)
    );
}

#[test]
fn curve25519_add_refuses_bad_lengths() {
    assert_eq!(
        execute_precompile(Precompile::Curve25519Add, &[0u8; 31], None),
        Err(PrecompileError::InvalidInput)
    );
    assert_eq!(
        execute_precompile(Precompile::Curve25519Add, &[0u8; 352], None),
        Err(PrecompileError::InvalidInput)
    );
}

#[test]
fn curve25519_scalar_mul_by_one_is_the_point() {
    let mut input = vec![0u8; 32];
    input[0] = 1;
    input.extend(unhex(RISTRETTO_BASE));
    assert_eq!(
        execute_precompile(Precompile::Curve25519ScalarMul, &input, None),
        ok(unhex(RISTRETTO_BASE), 84)
    );
}

#[test]
fn curve25519_scalar_mul_refuses_bad_lengths() {
    assert_eq!(
        execute_precompile(Precompile::Curve25519ScalarMul, &[0u8; 63], None),
        Err(PrecompileError::InvalidInput)
    );
    assert_eq!(
        execute_precompile(Precompile::Curve25519ScalarMul, &[0u8; 65], None),
        Err(PrecompileError::InvalidInput)
    );
}

fn ed25519_input() -> Vec<u8> {
    let mut input = unhex("aeebad4a796fcc2e15dc4c6061b45ed9b373f26adfc798ca7d2d8cc58182718e");
    input.extend(unhex("d75a980182b10ab7d54bfed3c964073a0ee172f3daa62325af021a68f707511a"));
    input.extend(unhex(
        "04559eb8579eeaf878b23fb5658f002ae7960a90368c0250c67f73a8ad34cbc3\
         c95bb3b09a721512625791409cdb404b55d8831bfe81ea6ef8dbad3031f20c0f",
    ));
    input
}

#[test]
fn ed25519_verify_accepts_a_good_signature() {
    assert_eq!(
        execute_precompile(Precompile::Ed25519Verify, &ed25519_input(), None),
        ok(vec![0, 0, 0, 0], 15 + 3 * 4)
    );
}

#[test]
fn ed25519_verify_marks_a_bad_signature() {
    let mut input = ed25519_input();
    input[0] ^= 1;
    assert_eq!(
        execute_precompile(Precompile::Ed25519Verify, &input, None),
        ok(vec![0, 0, 0, 1], 27)
    );
}

#[test]
fn ed25519_verify_refuses_a_short_input() {
    assert_eq!(
        execute_precompile(Precompile::Ed25519Verify, &[0u8; 127], None),
        Err(PrecompileError::InvalidInput)
    );
}

#[test]
fn gas_below_the_cost_is_out_of_gas() {
    let cases: [(Precompile, Vec<u8>, u64); 11] = [
        (Precompile::EcRecover, signature_of_key_one(), 3000),
        (Precompile::Sha256, b"abc".to_vec(), 72),
        (Precompile::Ripemd160, b"abc".to_vec(), 720),
        (Precompile::Identity, b"abc".to_vec(), 18),
        (Precompile::EcRecoverPublicKey, signature_of_key_one(), 3000),
        (Precompile::Sha3Fips256, b"abc".to_vec(), 72),
        (Precompile::Blake2F, blake2f_abc(12, 1), 12),
        (Precompile::Bn128Pairing, vec![0u8; 192], 79000),
        (Precompile::Bn128Add, vec![0u8; 128], 150),
        (Precompile::Bn128Mul, vec![0u8; 96], 6000),
        (Precompile::Ed25519Verify, ed25519_input(), 27),
    ];
    for (kind, input, cost) in cases {
        let paid = execute_precompile(kind, &input, Some(cost)).unwrap();
        assert_eq!(paid.cost, cost);
        assert_eq!(
            execute_precompile(kind, &input, Some(cost - 1)),
            Err(PrecompileError::OutOfGas)
        );
        assert_eq!(execute_precompile(kind, &input, Some(0)), Err(PrecompileError::OutOfGas));
    }
}

#[test]
fn modexp_below_its_floor_is_out_of_gas() {
    let input = modexp_input(&[3], &[5], &[7]);
    assert_eq!(
        execute_precompile(Precompile::Modexp, &input, Some(199)),
        Err(PrecompileError::OutOfGas)
    );
    assert_eq!(execute_precompile(Precompile::Modexp, &input, Some(200)), ok(vec![5], 200));
}

#[test]
fn out_of_gas_comes_before_a_refused_input_where_the_price_is_linear() {
    assert_eq!(
        execute_precompile(Precompile::Curve25519ScalarMul, &[0u8; 63], Some(83)),
        Err(PrecompileError::OutOfGas)
    );
    assert_eq!(
        execute_precompile(Precompile::Curve25519ScalarMul, &[0u8; 63], Some(84)),
        Err(PrecompileError::InvalidInput)
    );
}

#[test]
fn precompiles_are_deterministic() {
    let inputs: [Vec<u8>; 4] = [vec![], b"abc".to_vec(), vec![0u8; 128], signature_of_key_one()];
    for kind in ALL {
        for input in &inputs {
            for gas in [None, Some(0), Some(100_000)] {
                assert_eq!(
                    execute_precompile(kind, input, gas),
                    execute_precompile(kind, input, gas)
                );
            }
        }
    }
}

#[test]
fn no_success_costs_more_than_the_limit() {
    let inputs: [Vec<u8>; 5] =
        [vec![], b"abc".to_vec(), vec![0u8; 128], vec![0u8; 192], signature_of_key_one()];
    for kind in ALL {
        for input in &inputs {
            for limit in [0u64, 14, 15, 59, 60, 149, 150, 200, 3000, 6000, 45000, 79000] {
                if let Ok(out) = execute_precompile(kind, input, Some(limit)) {
                    assert!(out.cost <= limit);
                }
            }
        }
    }
}

#[test]
fn dispatch_runs_what_the_registry_holds() {
    let registry = Registry::standard();
    assert_eq!(
        registry.dispatch(&idx_to_h160(2), b"abc", Some(72)),
        Some(ok(unhex("ba7816bf8f01cfea414140de5dae2223b00361a396177a9cb410ff61f20015ad"), 72))
    );
    assert_eq!(
        registry.dispatch(&idx_to_h160(2), b"abc", Some(71)),
        Some(Err(PrecompileError::OutOfGas))
    );
    assert_eq!(registry.dispatch(&idx_to_h160(4), b"abc", None), Some(ok(b"abc".to_vec(), 18)));
    assert_eq!(registry.dispatch(&idx_to_h160(8), b"abc", None), None);
    assert_eq!(Registry::empty().dispatch(&idx_to_h160(2), b"abc", None), None);
}

fn context() -> Context {
    Context { address: H160::zero(), caller: H160::zero(), apparent_value: U256::zero() }
}

#[test]
fn the_interpreter_is_answered_at_reserved_addresses_only() {
    let registry = Registry::standard();
    for i in INDICES {
        assert!(registry.is_precompile(H160::from_low_u64_be(i)));
    }
    for i in [0u64, 8, 1023, 1031, 0x1000] {
        assert!(!registry.is_precompile(H160::from_low_u64_be(i)));
        assert!(registry.execute(H160::from_low_u64_be(i), b"abc", None, &context(), false).is_none());
    }
    let mut high = [0u8; 20];
    high[0] = 1;
    high[19] = 4;
    assert!(!registry.is_precompile(H160(high)));
    assert!(!Registry::empty().is_precompile(H160::from_low_u64_be(4)));
    assert!(Registry::empty()
        .execute(H160::from_low_u64_be(4), b"abc", None, &context(), false)
        .is_none());
}

#[test]
fn the_interpreter_gets_the_result_of_the_precompile() {
    let registry = Registry::standard();
    let got = registry
        .execute(H160::from_low_u64_be(4), b"abc", Some(18), &context(), true)
        .unwrap()
        .unwrap();
    assert_eq!(got.exit_status, ExitSucceed::Returned);
    assert_eq!(got.output, b"abc".to_vec());
    assert_eq!(got.cost, 18);
    assert!(got.logs.is_empty());
    assert_eq!(
        registry.execute(H160::from_low_u64_be(4), b"abc", Some(17), &context(), false),
        Some(Err(PrecompileFailure::Error { exit_status: ExitError::OutOfGas }))
    );
    assert!(matches!(
        registry.execute(H160::from_low_u64_be(1029), b"abc", None, &context(), false),
        Some(Err(PrecompileFailure::Error { exit_status: ExitError::Other(_) }))
    ));
}
