use makora::confidential::{
    confidential_swap, execute_swap_callback, init_order_book, is_valid_token_pair, submit_confidential_swap,
    ConfidentialError, OrderStatus,
};

const OWNER: [u8; 32] = [1u8; 32];

#[test]
fn supported_pairs_are_valid() {
    assert!(is_valid_token_pair("SOL", "USDC"));
    assert!(is_valid_token_pair("JitoSOL", "mSOL"));
    assert!(is_valid_token_pair("WBTC", "WETH"));
    assert!(is_valid_token_pair("BONK", "RAY"));
    assert!(is_valid_token_pair("JLP", "SOL"));
}

#[test]
fn unsupported_or_identical_pairs_are_invalid() {
    assert!(!is_valid_token_pair("SOL", "SOL"));
    assert!(!is_valid_token_pair("SOL", "DOGE"));
    assert!(!is_valid_token_pair("msol", "SOL"));
    assert!(!is_valid_token_pair("", "USDC"));
    assert!(!is_valid_token_pair("SOLX", "USDC"));
    assert!(!is_valid_token_pair("USDC", "SO"));
}

#[test]
fn swap_computation_off_cluster_is_empty() {
    assert!(confidential_swap(vec![1u8; 64]).is_empty());
}

#[test]
fn order_sizes_are_bounded() {
    let mut book = init_order_book(OWNER);
    assert_eq!(
        submit_confidential_swap(&mut book, OWNER, vec![0u8; 513], [2u8; 32], [3u8; 12], [4u8; 32], 5).unwrap_err(),
        ConfidentialError::OrderTooLarge
    );
    assert_eq!(
        submit_confidential_swap(&mut book, OWNER, vec![0u8; 31], [2u8; 32], [3u8; 12], [4u8; 32], 5).unwrap_err(),
        ConfidentialError::OrderTooSmall
    );
    assert_eq!(book.order_count, 0);
    assert!(submit_confidential_swap(&mut book, OWNER, vec![0u8; 32], [2u8; 32], [3u8; 12], [4u8; 32], 5).is_ok());
    assert!(submit_confidential_swap(&mut book, OWNER, vec![0u8; 512], [2u8; 32], [3u8; 12], [5u8; 32], 5).is_ok());
    assert_eq!(book.order_count, 2);
}

#[test]
fn pending_order_settles_once() {
    let mut book = init_order_book(OWNER);
    let mut order =
        submit_confidential_swap(&mut book, OWNER, vec![7u8; 40], [2u8; 32], [3u8; 12], [4u8; 32], 5).unwrap();
    assert_eq!(order.status, OrderStatus::Pending);
    assert_eq!(order.submitted_at, 5);
    assert_eq!(order.encrypted_order, vec![7u8; 40]);
    assert_eq!(execute_swap_callback(&mut book, &mut order, 9), Ok(()));
    assert_eq!(order.status, OrderStatus::Settled);
    assert_eq!(order.settled_at, 9);
    assert_eq!(book.settled_count, 1);
    assert_eq!(execute_swap_callback(&mut book, &mut order, 10), Err(ConfidentialError::OrderNotPending));
    assert_eq!(order.settled_at, 9);
    assert_eq!(book.settled_count, 1);
}
