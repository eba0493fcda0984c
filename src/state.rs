use vstd::prelude::*;

use openzeppelin_stylus::token::erc721;

use crate::error::{glyph_error_of, GlyphError};
use crate::seed::{context_seed, generate_seed, MintContext};

verus! {

/// The seed that an id that was never minted resolves to: 32 zero bytes.
pub open spec fn zero_seed() -> Seq<u8> {
    Seq::new(32, |i: int| 0u8)
}

/// The seed that a table of seeds gives for token `k`: its entry where there
/// is one, else the zero seed.
pub open spec fn seed_at(table: Seq<Seq<u8>>, k: int) -> Seq<u8> {
    if 0 <= k < table.len() {
        table[k]
    } else {
        zero_seed()
    }
}

/// The seed table after a run of successful mints, one for each context in
/// `ctxs`, in order, starting from `table`.
pub open spec fn run_mints(table: Seq<Seq<u8>>, ctxs: Seq<MintContext>) -> Seq<Seq<u8>>
    decreases ctxs.len(),
{
    if ctxs.len() == 0 {
        table
    } else {
        run_mints(table, ctxs.drop_last()).push(context_seed(ctxs.last()))
    }
}

/// The token ids that a run of successful mints from `table` is assigned:
/// each mint gets the supply that the mints before it left.
pub open spec fn assigned_ids(table: Seq<Seq<u8>>, ctxs: Seq<MintContext>) -> Seq<nat> {
    Seq::new(ctxs.len(), |i: int| run_mints(table, ctxs.take(i)).len())
}

/// The persistent state of the contract: the supply counter, which is also
/// the next token id, and the seed bound to each token minted so far.
pub struct ContractState {
    total_supply: u64,
    seeds: Vec<[u8; 32]>,
}

impl ContractState {
    /// The number of tokens minted so far.
    pub closed spec fn supply(&self) -> nat {
        self.total_supply as nat
    }

    /// The seed of each token, indexed by token id.
    pub closed spec fn seed_table(&self) -> Seq<Seq<u8>> {
        self.seeds@.map_values(|s: [u8; 32]| s@)
    }

    /// Exactly the ids below the supply have a seed.
    pub closed spec fn wf(&self) -> bool {
        self.seeds@.len() == self.total_supply
    }

    /// The state of a contract on which nothing was minted.
    pub fn new() -> (r: Self)
        ensures
            r.wf(),
            r.supply() == 0,
            r.seed_table() == Seq::<Seq<u8>>::empty(),
    {
        let r = ContractState { total_supply: 0, seeds: Vec::new() };
        assert(r.seed_table() =~= Seq::<Seq<u8>>::empty());
        r
    }

    /// The well-formed state has one seed per minted token.
    pub proof fn lemma_supply_is_table_length(&self)
        requires
            self.wf(),
        ensures
            self.supply() == self.seed_table().len(),
    {
    }

    /// The collection's name.
    pub fn name(&self) -> (r: String)
        ensures
            r@ == "Glyphs"@,
    {
        "Glyphs".to_owned()
    }

    /// The collection's ticker symbol.
    pub fn symbol(&self) -> (r: String)
        ensures
            r@ == "GLYPH"@,
    {
        "GLYPH".to_owned()
    }

    /// The number of tokens minted so far, which is also the id that the
    /// next mint assigns.
    pub fn total_supply(&self) -> (r: u64)
        ensures
            r == self.supply(),
    {
        self.total_supply
    }

    /// The seed that metadata for `token_id` is generated from. An id that
    /// was never minted is not an error: it resolves to the zero seed.
    pub fn metadata_seed(&self, token_id: u64) -> (r: [u8; 32])
        requires
            self.wf(),
        ensures
            r@ == seed_at(self.seed_table(), token_id as int),
    {
        if token_id < self.total_supply {
            let len: usize = self.seeds.len();
            assert(token_id < len);
            let s = self.seeds[token_id as usize];
            s
        } else {
            let z: [u8; 32] = [0u8; 32];
            assert(z@ =~= zero_seed());
            z
        }
    }

    /// One mint in context `ctx`. The new token's id is the current supply;
    /// its seed is derived from `ctx`, written, and the supply raised by one.
    /// Then the token ledger records the sender as owner of that id: `ledger`
    /// is what the ledger's mint returned for (`ctx.sender`, that id). When it
    /// failed, every write of this call is undone and the ledger's error is
    /// returned as the matching contract error.
    pub fn mint(&mut self, ctx: &MintContext, ledger: Result<(), erc721::Error>) -> (r: Result<
        u64,
        GlyphError,
    >)
        requires
            old(self).wf(),
            old(self).supply() < u64::MAX,
        ensures
            final(self).wf(),
            match ledger {
                Ok(()) => {
                    &&& r == Ok::<u64, GlyphError>(old(self).supply() as u64)
                    &&& final(self).supply() == old(self).supply() + 1
                    &&& final(self).seed_table() == old(self).seed_table().push(context_seed(*ctx))
                },
                Err(e) => {
                    &&& r == Err::<u64, GlyphError>(glyph_error_of(e))
                    &&& final(self).supply() == old(self).supply()
                    &&& final(self).seed_table() == old(self).seed_table()
                },
            },
    {
        let seed = generate_seed(ctx);
        let token_id = self.total_supply;
        self.seeds.push(seed);
        self.total_supply = token_id + 1;
        assert(self.seed_table() =~= old(self).seed_table().push(context_seed(*ctx)));
        match ledger {
            Ok(()) => Ok(token_id),
            Err(e) => {
                self.seeds.pop();
                self.total_supply = token_id;
                assert(self.seed_table() =~= old(self).seed_table());
                Err(GlyphError::from(e))
            },
        }
    }
}

/// A run of successful mints appends, in call order, the seed of each
/// call's context to the table it started from.
pub proof fn lemma_run_appends_seeds(table: Seq<Seq<u8>>, ctxs: Seq<MintContext>)
    ensures
        run_mints(table, ctxs) == table + ctxs.map_values(|c: MintContext| context_seed(c)),
    decreases ctxs.len(),
{
    if ctxs.len() > 0 {
        lemma_run_appends_seeds(table, ctxs.drop_last());
        assert(ctxs.map_values(|c: MintContext| context_seed(c)) =~= ctxs.drop_last().map_values(
            |c: MintContext| context_seed(c),
        ).push(context_seed(ctxs.last())));
        assert(run_mints(table, ctxs) =~= table + ctxs.map_values(|c: MintContext| context_seed(c)));
    }
}

/// On a fresh contract, `n` successful mints are assigned the ids
/// `0, 1, ..., n - 1` in call order, with no gap and no id used twice; the
/// token minted `i`-th is bound to the seed of the `i`-th call's context,
/// and the table then holds `n` seeds.
pub proof fn lemma_fresh_run_assigns_sequential_ids(ctxs: Seq<MintContext>)
    ensures
        assigned_ids(Seq::empty(), ctxs) == Seq::new(ctxs.len(), |i: int| i as nat),
        run_mints(Seq::empty(), ctxs).len() == ctxs.len(),
        forall|i: int|
            0 <= i < ctxs.len() ==> #[trigger] run_mints(Seq::empty(), ctxs)[i] == context_seed(
                ctxs[i],
            ),
{
    lemma_run_appends_seeds(Seq::empty(), ctxs);
    assert forall|i: int| 0 <= i < ctxs.len() implies #[trigger] assigned_ids(
        Seq::empty(),
        ctxs,
    )[i] == i as nat by {
        lemma_run_appends_seeds(Seq::empty(), ctxs.take(i));
    }
    assert(assigned_ids(Seq::empty(), ctxs) =~= Seq::new(ctxs.len(), |i: int| i as nat));
}

/// After `n` successful mints on a fresh contract the supply is `n`.
pub proof fn lemma_supply_counts_mints(s: &ContractState, ctxs: Seq<MintContext>)
    requires
        s.wf(),
        s.seed_table() == run_mints(Seq::empty(), ctxs),
    ensures
        s.supply() == ctxs.len(),
{
    lemma_fresh_run_assigns_sequential_ids(ctxs);
}

/// Resolving an id at or above the supply is no error: it gives the zero
/// seed, from which the metadata is then generated.
pub proof fn lemma_unminted_id_resolves_to_zero_seed(s: &ContractState, token_id: int)
    requires
        s.wf(),
        token_id >= s.supply(),
    ensures
        seed_at(s.seed_table(), token_id) == zero_seed(),
{
}

} // verus!
