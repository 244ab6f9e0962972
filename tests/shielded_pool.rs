use makora::error::PrivacyError;
use makora::nullifier::NullifierRegistry;
use makora::pool::{init_pool, shield, ShieldedPool};
use makora::transfer::{Holder, Transfer};
use makora::withdraw::unshield;
use makora::zk::{assemble_inputs, Proof, ProofBuffer, ProofVerifier, PublicInputs};

const AUTHORITY: [u8; 32] = [7u8; 32];
const DEPOSITOR: [u8; 32] = [1u8; 32];
const RECIPIENT: [u8; 32] = [2u8; 32];

fn sample_proof() -> Proof {
    Proof { a: [3u8; 64], b: [4u8; 128], c: [5u8; 64] }
}

fn inputs() -> PublicInputs {
    let mut inputs = [[0u8; 32]; 7];
    for (i, input) in inputs.iter_mut().enumerate() {
        *input = [i as u8 + 100; 32];
    }
    inputs
}

/// A buffer in which an external verifier recorded a verified proof for `root` and `nullifier`.
fn attested(root: [u8; 32], nullifier: [u8; 32]) -> ProofBuffer {
    let mut data = vec![0u8; 137];
    data[40] = 1;
    data[73..105].copy_from_slice(&nullifier);
    data[105..137].copy_from_slice(&root);
    ProofBuffer { data }
}

fn pool_with(total: u64) -> ShieldedPool {
    let mut pool = init_pool(AUTHORITY, 10);
    if total > 0 {
        shield(&mut pool, DEPOSITOR, total, [9u8; 32], [11u8; 32], 11).unwrap();
    }
    pool
}

#[test]
fn init_pool_starts_empty_and_active() {
    let pool = init_pool(AUTHORITY, 42);
    assert_eq!(pool.authority, AUTHORITY);
    assert_eq!(pool.accumulator_root, [0u8; 32]);
    assert_eq!(pool.next_index, 0);
    assert_eq!(pool.total_shielded, 0);
    assert!(pool.is_active);
    assert_eq!(pool.created_at, 42);
    assert_eq!(pool.last_tx_at, 42);
}

#[test]
fn shield_adds_amount_and_one_leaf() {
    let mut pool = init_pool(AUTHORITY, 1);
    let receipt = shield(&mut pool, DEPOSITOR, 250, [9u8; 32], [12u8; 32], 5).unwrap();
    assert_eq!(pool.total_shielded, 250);
    assert_eq!(pool.next_index, 1);
    assert_eq!(pool.accumulator_root, [12u8; 32]);
    assert_eq!(pool.last_tx_at, 5);
    assert_eq!(receipt.leaf_index, 0);
    assert_eq!(receipt.commitment, [9u8; 32]);
    assert_eq!(
        receipt.transfer,
        Transfer { from: Holder::Wallet(DEPOSITOR), to: Holder::Pool(AUTHORITY), amount: 250 }
    );
    let second = shield(&mut pool, DEPOSITOR, 50, [8u8; 32], [13u8; 32], 6).unwrap();
    assert_eq!(second.leaf_index, 1);
    assert_eq!(pool.total_shielded, 300);
    assert_eq!(pool.next_index, 2);
}

#[test]
fn shield_overflow_fails_without_wrapping() {
    let mut pool = pool_with(u64::MAX - 10);
    let before = pool;
    assert_eq!(shield(&mut pool, DEPOSITOR, 11, [9u8; 32], [1u8; 32], 7), Err(PrivacyError::Overflow));
    assert_eq!(pool, before);
    assert!(shield(&mut pool, DEPOSITOR, 10, [9u8; 32], [1u8; 32], 7).is_ok());
    assert_eq!(pool.total_shielded, u64::MAX);
}

#[test]
fn shield_leaf_counter_overflow_fails() {
    let mut pool = init_pool(AUTHORITY, 0);
    pool.next_index = u64::MAX;
    let before = pool;
    assert_eq!(shield(&mut pool, DEPOSITOR, 1, [9u8; 32], [1u8; 32], 7), Err(PrivacyError::Overflow));
    assert_eq!(pool, before);
}

#[test]
fn shield_rejects_zero_and_inactive() {
    let mut pool = init_pool(AUTHORITY, 0);
    assert_eq!(shield(&mut pool, DEPOSITOR, 0, [9u8; 32], [1u8; 32], 7), Err(PrivacyError::InvalidAmount));
    pool.is_active = false;
    assert_eq!(shield(&mut pool, DEPOSITOR, 5, [9u8; 32], [1u8; 32], 7), Err(PrivacyError::PoolNotActive));
    assert_eq!(pool.total_shielded, 0);
}

#[test]
fn withdrawal_then_replay_of_nullifier() {
    let mut pool = pool_with(1000);
    let mut nullifiers = NullifierRegistry::new();
    let n1 = [21u8; 32];
    let root = [31u8; 32];
    let verifier = attested(root, n1);
    let r = unshield(&mut pool, &mut nullifiers, &verifier, RECIPIENT, 300, n1, root, &sample_proof(), &inputs(), 20);
    assert_eq!(r, Ok(Transfer { from: Holder::Pool(AUTHORITY), to: Holder::Wallet(RECIPIENT), amount: 300 }));
    assert_eq!(pool.total_shielded, 700);
    assert_eq!(pool.accumulator_root, root);
    assert_eq!(pool.last_tx_at, 20);
    assert!(nullifiers.contains(&AUTHORITY, &n1));
    assert_eq!(nullifiers.len(), 1);

    let before = pool;
    let replay = unshield(&mut pool, &mut nullifiers, &verifier, RECIPIENT, 300, n1, root, &sample_proof(), &inputs(), 21);
    assert_eq!(replay, Err(PrivacyError::NullifierAlreadyUsed));
    assert_eq!(pool, before);
    assert_eq!(pool.total_shielded, 700);
    assert_eq!(nullifiers.len(), 1);
}

#[test]
fn nullifier_is_scoped_to_its_pool() {
    let mut pool = pool_with(100);
    let mut other = init_pool([8u8; 32], 0);
    shield(&mut other, DEPOSITOR, 100, [9u8; 32], [1u8; 32], 1).unwrap();
    let mut nullifiers = NullifierRegistry::new();
    let n = [22u8; 32];
    let root = [32u8; 32];
    let verifier = attested(root, n);
    assert!(unshield(&mut pool, &mut nullifiers, &verifier, RECIPIENT, 10, n, root, &sample_proof(), &inputs(), 1).is_ok());
    assert!(unshield(&mut other, &mut nullifiers, &verifier, RECIPIENT, 10, n, root, &sample_proof(), &inputs(), 2).is_ok());
    assert!(nullifiers.contains(&[8u8; 32], &n));
    assert_eq!(nullifiers.len(), 2);
}

#[test]
fn rejected_proof_fails_before_any_change() {
    let mut pool = pool_with(500);
    let mut nullifiers = NullifierRegistry::new();
    let n = [23u8; 32];
    let root = [33u8; 32];
    let before = pool;

    let mut unverified = attested(root, n);
    unverified.data[40] = 0;
    let wrong_nullifier = attested(root, [99u8; 32]);
    let wrong_root = attested([98u8; 32], n);
    let mut short = attested(root, n);
    short.data.truncate(136);

    for verifier in [unverified, wrong_nullifier, wrong_root, short] {
        let r = unshield(&mut pool, &mut nullifiers, &verifier, RECIPIENT, 100, n, root, &sample_proof(), &inputs(), 3);
        assert_eq!(r, Err(PrivacyError::InvalidProof));
        assert_eq!(pool, before);
        assert_eq!(nullifiers.len(), 0);
    }
}

#[test]
fn rejected_proof_fails_even_with_spent_nullifier() {
    let mut pool = pool_with(500);
    let mut nullifiers = NullifierRegistry::new();
    let n = [24u8; 32];
    let root = [34u8; 32];
    unshield(&mut pool, &mut nullifiers, &attested(root, n), RECIPIENT, 100, n, root, &sample_proof(), &inputs(), 3).unwrap();
    let r = unshield(&mut pool, &mut nullifiers, &attested(root, [1u8; 32]), RECIPIENT, 100, n, root, &sample_proof(), &inputs(), 4);
    assert_eq!(r, Err(PrivacyError::InvalidProof));
}

#[test]
fn overdraw_fails_even_with_valid_proof() {
    let mut pool = pool_with(299);
    let mut nullifiers = NullifierRegistry::new();
    let n = [25u8; 32];
    let root = [35u8; 32];
    let before = pool;
    let r = unshield(&mut pool, &mut nullifiers, &attested(root, n), RECIPIENT, 300, n, root, &sample_proof(), &inputs(), 3);
    assert_eq!(r, Err(PrivacyError::InsufficientPoolBalance));
    assert_eq!(pool, before);
    assert!(!nullifiers.contains(&AUTHORITY, &n));
}

#[test]
fn unshield_rejects_zero_amount_and_inactive_pool() {
    let mut pool = pool_with(100);
    let mut nullifiers = NullifierRegistry::new();
    let n = [26u8; 32];
    let root = [36u8; 32];
    let verifier = attested(root, n);
    let r = unshield(&mut pool, &mut nullifiers, &verifier, RECIPIENT, 0, n, root, &sample_proof(), &inputs(), 3);
    assert_eq!(r, Err(PrivacyError::InvalidAmount));
    pool.is_active = false;
    let r = unshield(&mut pool, &mut nullifiers, &verifier, RECIPIENT, 10, n, root, &sample_proof(), &inputs(), 3);
    assert_eq!(r, Err(PrivacyError::PoolNotActive));
    assert_eq!(pool.total_shielded, 100);
    assert_eq!(nullifiers.len(), 0);
}

#[test]
fn withdrawal_inputs_carry_root_and_nullifier() {
    let given = inputs();
    let assembled = assemble_inputs(&given, &[41u8; 32], &[42u8; 32]);
    assert_eq!(assembled[0], [41u8; 32]);
    assert_eq!(assembled[1], [42u8; 32]);
    assert_eq!(assembled[2..], given[2..]);
}

#[test]
fn proof_buffer_checks_flag_nullifier_and_root() {
    let assembled = assemble_inputs(&inputs(), &[51u8; 32], &[52u8; 32]);
    assert!(attested([51u8; 32], [52u8; 32]).verify(&sample_proof(), &assembled));
    assert!(!attested([52u8; 32], [51u8; 32]).verify(&sample_proof(), &assembled));
    let mut flag_two = attested([51u8; 32], [52u8; 32]);
    flag_two.data[40] = 2;
    assert!(!flag_two.verify(&sample_proof(), &assembled));
    let mut longer = attested([51u8; 32], [52u8; 32]);
    longer.data.extend_from_slice(&[0u8; 64]);
    assert!(longer.verify(&sample_proof(), &assembled));
    assert!(!ProofBuffer { data: Vec::new() }.verify(&sample_proof(), &assembled));
}
