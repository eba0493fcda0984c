use glyphs::error::GlyphError;
use glyphs::seed::{generate_seed, MintContext};
use glyphs::state::ContractState;
use openzeppelin_stylus::token::erc721;
use stylus_sdk::alloy_primitives::{Address, U256};

const CALLER_A: [u8; 20] = [0xaa; 20];
const CALLER_B: [u8; 20] = [0xbb; 20];

fn context(sender: [u8; 20], block_number: u64, chain_id: u64) -> MintContext {
    MintContext { block_number, sender, chain_id, value: [0u8; 32] }
}

fn expected_encoding(block_number: u64, sender: [u8; 20], chain_id: u64) -> Vec<u8> {
    let mut out = vec![0u8; 96];
    out[24..32].copy_from_slice(&block_number.to_be_bytes());
    out[44..64].copy_from_slice(&sender);
    out[88..96].copy_from_slice(&chain_id.to_be_bytes());
    out
}

fn expected_seed(block_number: u64, sender: [u8; 20], chain_id: u64) -> [u8; 32] {
    stylus_sdk::crypto::keccak(expected_encoding(block_number, sender, chain_id)).0
}

fn receiver_error() -> erc721::Error {
    erc721::Error::InvalidReceiver(erc721::ERC721InvalidReceiver { receiver: Address::ZERO })
}

#[test]
fn single_mint_assigns_id_zero_and_binds_seed() {
    let mut state = ContractState::new();
    let ctx = context(CALLER_A, 10, 1);
    let r = state.mint(&ctx, Ok(()));
    assert!(matches!(r, Ok(0)));
    assert_eq!(state.total_supply(), 1);
    assert_eq!(state.metadata_seed(0), expected_seed(10, CALLER_A, 1));
    assert_eq!(state.metadata_seed(0), generate_seed(&ctx));
}

#[test]
fn seed_is_keccak_of_abi_encoded_context() {
    let ctx = context(CALLER_A, 10, 1);
    let seed = generate_seed(&ctx);
    assert_eq!(seed, expected_seed(10, CALLER_A, 1));
    assert_ne!(seed, [0u8; 32]);
    assert_ne!(&seed[..], &expected_encoding(10, CALLER_A, 1)[..32]);
}

#[test]
fn two_mints_same_block_share_a_seed() {
    let mut state = ContractState::new();
    let ctx = context(CALLER_A, 10, 1);
    assert!(matches!(state.mint(&ctx, Ok(())), Ok(0)));
    assert!(matches!(state.mint(&ctx, Ok(())), Ok(1)));
    assert_eq!(state.total_supply(), 2);
    assert_eq!(state.metadata_seed(0), state.metadata_seed(1));
}

#[test]
fn attached_value_does_not_change_the_mint() {
    let mut plain = ContractState::new();
    let mut paid = ContractState::new();
    let ctx = context(CALLER_A, 10, 1);
    let mut with_value = ctx;
    with_value.value[31] = 100;
    assert!(matches!(plain.mint(&ctx, Ok(())), Ok(0)));
    assert!(matches!(paid.mint(&with_value, Ok(())), Ok(0)));
    assert_eq!(plain.total_supply(), paid.total_supply());
    assert_eq!(plain.metadata_seed(0), paid.metadata_seed(0));
}

#[test]
fn sequential_mints_count_from_zero() {
    let mut state = ContractState::new();
    for i in 0..5u64 {
        let ctx = context(CALLER_A, 10 + i, 1);
        let r = state.mint(&ctx, Ok(()));
        assert!(matches!(r, Ok(id) if id == i));
        assert_eq!(state.total_supply(), i + 1);
    }
    for i in 0..5u64 {
        assert_eq!(state.metadata_seed(i), expected_seed(10 + i, CALLER_A, 1));
    }
}

#[test]
fn failed_mint_leaves_state_unchanged() {
    let mut state = ContractState::new();
    let ctx = context(CALLER_A, 10, 1);
    assert!(matches!(state.mint(&ctx, Ok(())), Ok(0)));
    let before = state.metadata_seed(0);
    let later = context(CALLER_B, 11, 1);
    let r = state.mint(&later, Err(receiver_error()));
    assert!(matches!(r, Err(GlyphError::InvalidReceiver(e)) if e.receiver == Address::ZERO));
    assert_eq!(state.total_supply(), 1);
    assert_eq!(state.metadata_seed(0), before);
    assert_eq!(state.metadata_seed(1), [0u8; 32]);
}

#[test]
fn unminted_id_resolves_to_zero_seed() {
    let mut state = ContractState::new();
    assert_eq!(state.metadata_seed(0), [0u8; 32]);
    assert!(matches!(state.mint(&context(CALLER_A, 10, 1), Ok(())), Ok(0)));
    assert_eq!(state.metadata_seed(1), [0u8; 32]);
    assert_eq!(state.metadata_seed(u64::MAX), [0u8; 32]);
}

#[test]
fn distinct_callers_get_distinct_seeds() {
    let a = generate_seed(&context(CALLER_A, 10, 1));
    let b = generate_seed(&context(CALLER_B, 10, 1));
    assert_ne!(a, b);
}

#[test]
fn block_and_chain_enter_the_seed() {
    let base = generate_seed(&context(CALLER_A, 10, 1));
    assert_ne!(base, generate_seed(&context(CALLER_A, 11, 1)));
    assert_ne!(base, generate_seed(&context(CALLER_A, 10, 2)));
}

#[test]
fn ledger_errors_map_one_to_one() {
    let id = U256::from(7);
    let owner = Address::repeat_byte(1);
    let other = Address::repeat_byte(2);
    let cases: Vec<erc721::Error> = vec![
        erc721::Error::InvalidOwner(erc721::ERC721InvalidOwner { owner }),
        erc721::Error::NonexistentToken(erc721::ERC721NonexistentToken { token_id: id }),
        erc721::Error::IncorrectOwner(erc721::ERC721IncorrectOwner {
            sender: other,
            token_id: id,
            owner,
        }),
        erc721::Error::InvalidSender(erc721::ERC721InvalidSender { sender: other }),
        erc721::Error::InvalidReceiver(erc721::ERC721InvalidReceiver { receiver: other }),
        erc721::Error::InvalidReceiverWithReason(erc721::InvalidReceiverWithReason {
            reason: String::from("refused"),
        }),
        erc721::Error::InsufficientApproval(erc721::ERC721InsufficientApproval {
            operator: other,
            token_id: id,
        }),
        erc721::Error::InvalidApprover(erc721::ERC721InvalidApprover { approver: other }),
        erc721::Error::InvalidOperator(erc721::ERC721InvalidOperator { operator: other }),
    ];
    let mapped: Vec<GlyphError> = cases.into_iter().map(GlyphError::from).collect();
    assert!(matches!(&mapped[0], GlyphError::InvalidOwner(e) if e.owner == owner));
    assert!(matches!(&mapped[1], GlyphError::NonexistentToken(e) if e.token_id == id));
    assert!(matches!(&mapped[2], GlyphError::IncorrectOwner(e)
        if e.sender == other && e.token_id == id && e.owner == owner));
    assert!(matches!(&mapped[3], GlyphError::InvalidSender(e) if e.sender == other));
    assert!(matches!(&mapped[4], GlyphError::InvalidReceiver(e) if e.receiver == other));
    assert!(matches!(&mapped[5], GlyphError::InvalidReceiverWithReason(e) if e.reason == "refused"));
    assert!(matches!(&mapped[6], GlyphError::InsufficientApproval(e)
        if e.operator == other && e.token_id == id));
    assert!(matches!(&mapped[7], GlyphError::InvalidApprover(e) if e.approver == other));
    assert!(matches!(&mapped[8], GlyphError::InvalidOperator(e) if e.operator == other));
}

#[test]
fn every_failed_mint_returns_the_mapped_error() {
    let mut state = ContractState::new();
    let ctx = context(CALLER_A, 10, 1);
    let err = erc721::Error::InvalidSender(erc721::ERC721InvalidSender { sender: Address::ZERO });
    let r = state.mint(&ctx, Err(err));
    assert!(matches!(r, Err(GlyphError::InvalidSender(e)) if e.sender == Address::ZERO));
    assert_eq!(state.total_supply(), 0);
    assert_eq!(state.metadata_seed(0), [0u8; 32]);
}

#[test]
fn name_and_symbol_are_fixed() {
    let state = ContractState::new();
    assert_eq!(state.name(), "Glyphs");
    assert_eq!(state.symbol(), "GLYPH");
}
