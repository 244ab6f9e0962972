//! Confidential swap orders: an order book of encrypted orders that an
//! MPC cluster decrypts, validates and settles.
use vstd::prelude::*;
use vstd::string::StringSliceAdditionalSpecFns;
use crate::bytes::Address;

verus! {

/// Largest accepted encrypted order, in bytes.
pub const MAX_ORDER_LEN: usize = 512;

/// Smallest accepted encrypted order, in bytes.
pub const MIN_ORDER_LEN: usize = 32;

/// Why an order-book operation was refused.
#[derive(Clone, Copy, Debug, PartialEq, Eq, Structural)]
pub enum ConfidentialError {
    OrderTooLarge,
    OrderTooSmall,
    OrderNotPending,
    UnauthorizedCluster,
}

#[derive(Clone, Copy, Debug, PartialEq, Eq, Structural)]
pub enum OrderStatus {
    Pending,
    Settled,
    Failed,
    Expired,
}

/// The order book of one authority.
#[derive(Clone, Copy, Debug, PartialEq, Eq)]
pub struct OrderBook {
    pub authority: Address,
    /// Orders submitted so far.
    pub order_count: u64,
    /// Orders settled so far.
    pub settled_count: u64,
}

/// An encrypted swap order; only the MPC cluster can read `encrypted_order`.
#[derive(Debug, PartialEq, Eq)]
pub struct SwapOrder {
    pub owner: Address,
    pub encrypted_order: Vec<u8>,
    pub client_pubkey: [u8; 32],
    pub nonce: [u8; 12],
    pub computation_id: [u8; 32],
    pub status: OrderStatus,
    pub submitted_at: i64,
    pub settled_at: i64,
}

/// Creates the empty order book of `authority`.
pub fn init_order_book(authority: Address) -> (book: OrderBook)
    ensures
        book == (OrderBook { authority, order_count: 0, settled_count: 0 }),
{
    OrderBook { authority, order_count: 0, settled_count: 0 }
}

/// The check that an encrypted order of `len` bytes fails, if any.
pub open spec fn order_size_error(len: nat) -> Option<ConfidentialError> {
    if len > MAX_ORDER_LEN {
        Some(ConfidentialError::OrderTooLarge)
    } else if len < MIN_ORDER_LEN {
        Some(ConfidentialError::OrderTooSmall)
    } else {
        None
    }
}

/// Stores an encrypted swap order of `owner` as pending and counts it in
/// the book.
pub fn submit_confidential_swap(
    book: &mut OrderBook,
    owner: Address,
    encrypted_order: Vec<u8>,
    client_pubkey: [u8; 32],
    nonce: [u8; 12],
    computation_id: [u8; 32],
    now: i64,
) -> (r: Result<SwapOrder, ConfidentialError>)
    requires
        old(book).order_count < u64::MAX,
    ensures
        match order_size_error(encrypted_order@.len()) {
            Some(e) => r == Err::<SwapOrder, ConfidentialError>(e) && *final(book) == *old(book),
            None => r == Ok::<SwapOrder, ConfidentialError>(
                SwapOrder {
                    owner,
                    encrypted_order,
                    client_pubkey,
                    nonce,
                    computation_id,
                    status: OrderStatus::Pending,
                    submitted_at: now,
                    settled_at: 0,
                },
            ) && *final(book) == (OrderBook { order_count: (old(book).order_count + 1) as u64, ..*old(book) }),
        },
{
    if encrypted_order.len() > MAX_ORDER_LEN {
        return Err(ConfidentialError::OrderTooLarge);
    }
    if encrypted_order.len() < MIN_ORDER_LEN {
        return Err(ConfidentialError::OrderTooSmall);
    }
    book.order_count = book.order_count + 1;
    Ok(SwapOrder {
        owner,
        encrypted_order,
        client_pubkey,
        nonce,
        computation_id,
        status: OrderStatus::Pending,
        submitted_at: now,
        settled_at: 0,
    })
}

/// Marks a pending order settled once the cluster has finished with it,
/// and counts it in the book.
pub fn execute_swap_callback(
    book: &mut OrderBook,
    order: &mut SwapOrder,
    now: i64,
) -> (r: Result<(), ConfidentialError>)
    requires
        old(book).settled_count < u64::MAX,
    ensures
        old(order).status != OrderStatus::Pending ==> {
            &&& r == Err::<(), ConfidentialError>(ConfidentialError::OrderNotPending)
            &&& *final(book) == *old(book)
            &&& *final(order) == *old(order)
        },
        old(order).status == OrderStatus::Pending ==> {
            &&& r == Ok::<(), ConfidentialError>(())
            &&& *final(book) == (OrderBook { settled_count: (old(book).settled_count + 1) as u64, ..*old(book) })
            &&& *final(order) == (SwapOrder { status: OrderStatus::Settled, settled_at: now, ..*old(order) })
        },
{
    if order.status != OrderStatus::Pending {
        return Err(ConfidentialError::OrderNotPending);
    }
    order.status = OrderStatus::Settled;
    order.settled_at = now;
    book.settled_count = book.settled_count + 1;
    Ok(())
}

/// The symbols of the tokens that confidential swaps support, as the
/// bytes of their names.
pub open spec fn supported_tokens() -> Seq<Seq<u8>> {
    seq![
        seq!['S' as u8, 'O' as u8, 'L' as u8],
        seq!['U' as u8, 'S' as u8, 'D' as u8, 'C' as u8],
        seq!['B' as u8, 'O' as u8, 'N' as u8, 'K' as u8],
        seq!['R' as u8, 'A' as u8, 'Y' as u8],
        seq!['J' as u8, 'L' as u8, 'P' as u8],
        seq!['m' as u8, 'S' as u8, 'O' as u8, 'L' as u8],
        seq!['J' as u8, 'i' as u8, 't' as u8, 'o' as u8, 'S' as u8, 'O' as u8, 'L' as u8],
        seq!['W' as u8, 'B' as u8, 'T' as u8, 'C' as u8],
        seq!['W' as u8, 'E' as u8, 'T' as u8, 'H' as u8],
    ]
}

/// Number of supported tokens.
pub const SUPPORTED_TOKEN_COUNT: usize = 9;

/// The `i`-th supported token symbol.
fn supported_token(i: usize) -> (r: Vec<u8>)
    requires
        i < SUPPORTED_TOKEN_COUNT,
    ensures
        r@ == supported_tokens()[i as int],
{
    let r = match i {
        0 => vec!['S' as u8, 'O' as u8, 'L' as u8],
        1 => vec!['U' as u8, 'S' as u8, 'D' as u8, 'C' as u8],
        2 => vec!['B' as u8, 'O' as u8, 'N' as u8, 'K' as u8],
        3 => vec!['R' as u8, 'A' as u8, 'Y' as u8],
        4 => vec!['J' as u8, 'L' as u8, 'P' as u8],
        5 => vec!['m' as u8, 'S' as u8, 'O' as u8, 'L' as u8],
        6 => vec!['J' as u8, 'i' as u8, 't' as u8, 'o' as u8, 'S' as u8, 'O' as u8, 'L' as u8],
        7 => vec!['W' as u8, 'B' as u8, 'T' as u8, 'C' as u8],
        _ => vec!['W' as u8, 'E' as u8, 'T' as u8, 'H' as u8],
    };
    assert(r@ =~= supported_tokens()[i as int]);
    r
}

/// Compares two byte strings.
fn bytes_eq(a: &[u8], b: &[u8]) -> (r: bool)
    ensures
        r == (a@ == b@),
{
    if a.len() != b.len() {
        return false;
    }
    let mut i: usize = 0;
    while i < a.len()
        invariant
            i <= a@.len(),
            a@.len() == b@.len(),
            forall|j: int| 0 <= j < i ==> a@[j] == b@[j],
        decreases a@.len() - i,
    {
        if a[i] != b[i] {
            return false;
        }
        i = i + 1;
    }
    assert(a@ =~= b@);
    true
}

/// Whether `symbol` names a supported token.
fn is_supported_token(symbol: &[u8]) -> (r: bool)
    ensures
        r == supported_tokens().contains(symbol@),
{
    let mut i: usize = 0;
    while i < SUPPORTED_TOKEN_COUNT
        invariant
            i <= SUPPORTED_TOKEN_COUNT,
            forall|j: int| 0 <= j < i ==> supported_tokens()[j] != symbol@,
        decreases SUPPORTED_TOKEN_COUNT - i,
    {
        let token = supported_token(i);
        if bytes_eq(token.as_slice(), symbol) {
            return true;
        }
        i = i + 1;
    }
    assert(supported_tokens().len() == SUPPORTED_TOKEN_COUNT);
    false
}

/// Whether a swap from `from` to `to` is supported: both are supported
/// tokens, and they differ.
pub fn is_valid_token_pair(from: &str, to: &str) -> (r: bool)
    ensures
        r == (supported_tokens().contains(from.spec_bytes()) && supported_tokens().contains(to.spec_bytes())
            && from.spec_bytes() != to.spec_bytes()),
{
    let from_bytes = from.as_bytes();
    let to_bytes = to.as_bytes();
    is_supported_token(from_bytes) && is_supported_token(to_bytes) && !bytes_eq(from_bytes, to_bytes)
}

/// Entry point of the swap computation. Decryption, routing and
/// settlement happen inside the MPC cluster; outside it there is nothing
/// to compute, and the result is empty.
pub fn confidential_swap(encrypted_order: Vec<u8>) -> (r: Vec<u8>)
    ensures
        r@.len() == 0,
{
    Vec::new()
}

} // verus!
