use vstd::prelude::*;

use alloy_sol_types::SolValue;
use stylus_sdk::alloy_primitives::Address;

verus! {

/// What a mint call sees of its execution environment.
#[derive(Clone, Copy, Debug, PartialEq, Eq)]
pub struct MintContext {
    /// Ordinal of the block that holds the call.
    pub block_number: u64,
    /// Address of the calling account.
    pub sender: [u8; 20],
    /// Identifier of the chain.
    pub chain_id: u64,
    /// Value attached to the call, as a big-endian 256-bit word. It is
    /// accepted and never read.
    pub value: [u8; 32],
}

/// Byte `k` of `v`, counting from the least significant.
pub open spec fn byte_of(v: u64, k: nat) -> u8 {
    ((v as nat / vstd::arithmetic::power::pow(256, k) as nat) % 256) as u8
}

/// A `uint64` as one 32-byte ABI word: big-endian, right-aligned.
pub open spec fn u64_word(v: u64) -> Seq<u8> {
    Seq::new(32, |i: int| if i < 24 { 0u8 } else { byte_of(v, (31 - i) as nat) })
}

/// An `address` as one 32-byte ABI word: twelve zero bytes, then the address.
pub open spec fn address_word(a: Seq<u8>) -> Seq<u8> {
    Seq::new(12, |i: int| 0u8) + a
}

/// The ABI encoding of the sequence (block number, sender, chain id): three
/// words, in that order.
pub open spec fn context_encoding(ctx: MintContext) -> Seq<u8> {
    u64_word(ctx.block_number) + address_word(ctx.sender@) + u64_word(ctx.chain_id)
}

/// Keccak-256 of a byte string.
pub uninterp spec fn keccak_of(data: Seq<u8>) -> Seq<u8>;

/// The seed that a mint in context `ctx` binds to its token.
pub open spec fn context_seed(ctx: MintContext) -> Seq<u8> {
    keccak_of(context_encoding(ctx))
}

/// Relies on `alloy_sol_types::SolValue::abi_encode_sequence` for the tuple
/// `(uint64, address, uint64)`: each element is one static 32-byte word, in
/// order, integers big-endian and right-aligned, the address right-aligned.
#[verifier::external_body]
fn encode_context(block_number: u64, sender: [u8; 20], chain_id: u64) -> (r: Vec<u8>)
    ensures
        r@ == u64_word(block_number) + address_word(sender@) + u64_word(chain_id),
{
    (block_number, Address::from(sender), chain_id).abi_encode_sequence()
}

/// Relies on `stylus_sdk::crypto::keccak`: the Keccak-256 digest of the bytes.
#[verifier::external_body]
fn keccak(data: &Vec<u8>) -> (r: [u8; 32])
    ensures
        r@ == keccak_of(data@),
{
    stylus_sdk::crypto::keccak(data).0
}

/// Derives the seed of a mint from its context: the Keccak-256 digest of the
/// ABI-encoded (block number, sender, chain id). No token id or nonce enters
/// it, so two mints by one account in one block on one chain get one seed.
pub fn generate_seed(ctx: &MintContext) -> (r: [u8; 32])
    ensures
        r@ == context_seed(*ctx),
{
    let hash_data = encode_context(ctx.block_number, ctx.sender, ctx.chain_id);
    keccak(&hash_data)
}

/// Two mint contexts that agree on block number, sender and chain id give
/// the same seed, whatever value is attached to either call.
pub proof fn lemma_seed_ignores_all_but_context(a: MintContext, b: MintContext)
    requires
        a.block_number == b.block_number,
        a.sender == b.sender,
        a.chain_id == b.chain_id,
    ensures
        context_seed(a) == context_seed(b),
{
}

/// Two mint contexts with different senders hash different byte strings:
/// the sender's 20 bytes stand unchanged in the encoding.
pub proof fn lemma_distinct_senders_distinct_preimages(a: MintContext, b: MintContext)
    requires
        a.sender != b.sender,
    ensures
        context_encoding(a) != context_encoding(b),
{
    let ea = context_encoding(a);
    let eb = context_encoding(b);
    assert(ea.subrange(44, 64) =~= a.sender@);
    assert(eb.subrange(44, 64) =~= b.sender@);
    if ea == eb {
        assert(a.sender@ == b.sender@);
        assert(a.sender =~= b.sender);
    }
}

} // verus!
