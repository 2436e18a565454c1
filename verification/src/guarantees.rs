//! What holds of every run of the three operations, whatever the seeds
//! yield.
use crate::address::Address;
use crate::contexts::claims;
use crate::contexts::vault_released;
use crate::contexts::Make;
use crate::contexts::Refund;
use crate::contexts::Take;
use crate::derivation::lemma_found_rederives;
use crate::derivation::rederived_address;
use crate::derivation::SeedError;
use crate::error::ErrorKind;
use crate::error::EscrowError;
use crate::ledger::escrow_at;
use crate::ledger::native_at;
use crate::ledger::token_at;
use crate::ledger::Books;
use crate::ledger::TokenAccount;
use crate::opened;
use crate::opened_with;
use crate::refunded;
use crate::refunded_with;
use crate::requests::plan_applied;
use crate::requests::Request;
use crate::seeds::spec_escrow_seeds;
use crate::seeds::spec_signer_seeds;
use crate::state::Escrow;
use crate::taken;
use crate::taken_with;
use vstd::prelude::*;

verus! {

/// The storage deposits of the vault and of the record went to the maker
/// and to nobody else: the maker's native funds rose by exactly the two
/// deposits, the two addresses hold none any more, and the native funds at
/// every other address are as they were.
pub open spec fn deposits_returned(
    before: Books,
    after: Books,
    maker: Address,
    vault: Address,
    escrow: Address,
) -> bool {
    &&& maker != vault && maker != escrow && vault != escrow
    &&& native_at(after.native, maker) == native_at(before.native, maker) + native_at(
        before.native,
        vault,
    ) + native_at(before.native, escrow)
    &&& native_at(after.native, vault) == 0
    &&& native_at(after.native, escrow) == 0
    &&& forall|a: Address|
        a != maker && a != vault && a != escrow ==> native_at(after.native, a) == native_at(
            before.native,
            a,
        )
}

/// An opening that succeeds leaves a vault that holds exactly the amount
/// given, of the asset offered and under the authority of the record's
/// address, and a record that stores the amounts and the parties as they
/// were given, with the bump that the search found. The maker's balance has
/// lost the deposit, and every other account and all native funds are as
/// they were.
pub proof fn lemma_opening_funds_vault(
    books: Books,
    ctx: Make,
    seed: u64,
    deposit: u64,
    receive: u64,
    escrow_found: Option<(Address, u8)>,
    vault_found: Option<(Address, u8)>,
)
    requires
        opened_with(books, ctx, seed, deposit, receive, escrow_found, vault_found) is Ok,
    ensures
        ({
            let after = opened_with(books, ctx, seed, deposit, receive, escrow_found, vault_found)->Ok_0;
            &&& deposit > 0 && receive > 0
            &&& !books.accounts.dom().contains(ctx.vault) && !books.accounts.dom().contains(ctx.escrow)
            &&& vault_found matches Some((vault_address, _))
            &&& vault_address == ctx.vault
            &&& escrow_found matches Some((escrow_address, bump))
            &&& escrow_address == ctx.escrow
            &&& token_at(after.accounts, ctx.vault) == Some(
                TokenAccount { mint: ctx.maker_mint, owner: ctx.escrow, amount: deposit },
            )
            &&& escrow_at(after.accounts, ctx.escrow) == Some(
                Escrow {
                    seed,
                    maker: ctx.maker,
                    maker_mint: ctx.maker_mint,
                    taker_mint: ctx.taker_mint,
                    deposit,
                    receive,
                    bump,
                },
            )
            &&& token_at(books.accounts, ctx.maker_token) matches Some(source)
            &&& source.amount >= deposit
            &&& token_at(after.accounts, ctx.maker_token) == Some(
                TokenAccount { amount: (source.amount - deposit) as u64, ..source },
            )
            &&& forall|a: Address|
                a != ctx.vault && a != ctx.escrow && a != ctx.maker_token ==> (
                after.accounts.dom().contains(a) <==> books.accounts.dom().contains(a)) && (
                books.accounts.dom().contains(a) ==> after.accounts[a] == books.accounts[a])
            &&& after.native == books.native
        }),
{
}

/// A fulfilment that succeeds raises the taker's destination balance by
/// exactly what the vault held before, raises the maker's balance by exactly
/// the amount that the record asks for, and leaves neither the vault nor the
/// record. This is stated for a destination that is none of the other three
/// balances, and a maker's balance that is neither the vault nor the balance
/// that the taker pays from.
pub proof fn lemma_fulfilment_settles(
    books: Books,
    ctx: Take,
    signer: Result<Address, SeedError>,
    vault_found: Option<(Address, u8)>,
)
    requires
        taken_with(books, ctx, signer, vault_found) is Ok,
        ctx.taker_receive_token != ctx.taker_token,
        ctx.taker_receive_token != ctx.maker_receive_token,
        ctx.taker_receive_token != ctx.vault,
        ctx.maker_receive_token != ctx.taker_token,
        ctx.maker_receive_token != ctx.vault,
    ensures
        ({
            let after = taken_with(books, ctx, signer, vault_found)->Ok_0;
            &&& escrow_at(books.accounts, ctx.escrow) matches Some(record)
            &&& token_at(books.accounts, ctx.vault) matches Some(vault)
            &&& token_at(books.accounts, ctx.taker_receive_token) matches Some(destination)
            &&& token_at(books.accounts, ctx.maker_receive_token) matches Some(proceeds)
            &&& token_at(after.accounts, ctx.taker_receive_token) == Some(
                TokenAccount { amount: (destination.amount + vault.amount) as u64, ..destination },
            )
            &&& token_at(after.accounts, ctx.maker_receive_token) == Some(
                TokenAccount { amount: (proceeds.amount + record.receive) as u64, ..proceeds },
            )
            &&& destination.amount + vault.amount <= u64::MAX
            &&& proceeds.amount + record.receive <= u64::MAX
            &&& destination.owner == ctx.taker
            &&& proceeds.owner == record.maker
            &&& !after.accounts.dom().contains(ctx.vault)
            &&& !after.accounts.dom().contains(ctx.escrow)
        }),
{
}

/// A fulfilment that succeeds acted on the authority of the record's own
/// address and handed the storage deposits of the vault and of the record to
/// the maker of the record: the maker's native funds rose by exactly the two
/// deposits, and nobody else's changed; a taker who is not the maker gained
/// none. The maker need not have asked for anything.
pub proof fn lemma_fulfilment_returns_deposits(
    books: Books,
    ctx: Take,
    signer: Result<Address, SeedError>,
    vault_found: Option<(Address, u8)>,
)
    requires
        taken_with(books, ctx, signer, vault_found) is Ok,
    ensures
        ({
            let after = taken_with(books, ctx, signer, vault_found)->Ok_0;
            &&& signer == Ok::<Address, SeedError>(ctx.escrow)
            &&& escrow_at(books.accounts, ctx.escrow) matches Some(record)
            &&& record.maker == ctx.maker
            &&& deposits_returned(books, after, record.maker, ctx.vault, ctx.escrow)
            &&& ctx.taker != record.maker ==> native_at(after.native, ctx.taker) <= native_at(
                books.native,
                ctx.taker,
            )
        }),
{
}

/// A cancellation that succeeds raises the maker's destination balance by
/// exactly what the vault held before, and leaves neither the vault nor the
/// record. This is stated for a destination that is not the vault itself.
pub proof fn lemma_cancellation_returns_deposit(
    books: Books,
    ctx: Refund,
    signer: Result<Address, SeedError>,
    vault_found: Option<(Address, u8)>,
)
    requires
        refunded_with(books, ctx, signer, vault_found) is Ok,
        ctx.maker_token != ctx.vault,
    ensures
        ({
            let after = refunded_with(books, ctx, signer, vault_found)->Ok_0;
            &&& escrow_at(books.accounts, ctx.escrow) matches Some(record)
            &&& token_at(books.accounts, ctx.vault) matches Some(vault)
            &&& token_at(books.accounts, ctx.maker_token) matches Some(destination)
            &&& token_at(after.accounts, ctx.maker_token) == Some(
                TokenAccount { amount: (destination.amount + vault.amount) as u64, ..destination },
            )
            &&& destination.amount + vault.amount <= u64::MAX
            &&& destination.owner == record.maker
            &&& !after.accounts.dom().contains(ctx.vault)
            &&& !after.accounts.dom().contains(ctx.escrow)
        }),
{
}

/// A cancellation that succeeds acted on the authority of the record's own
/// address and handed the storage deposits of the vault and of the record to
/// the maker: the maker's native funds rose by exactly the two deposits, and
/// nobody else's changed.
pub proof fn lemma_cancellation_returns_deposits(
    books: Books,
    ctx: Refund,
    signer: Result<Address, SeedError>,
    vault_found: Option<(Address, u8)>,
)
    requires
        refunded_with(books, ctx, signer, vault_found) is Ok,
    ensures
        ({
            let after = refunded_with(books, ctx, signer, vault_found)->Ok_0;
            &&& signer == Ok::<Address, SeedError>(ctx.escrow)
            &&& escrow_at(books.accounts, ctx.escrow) matches Some(record)
            &&& record.maker == ctx.maker
            &&& deposits_returned(books, after, record.maker, ctx.vault, ctx.escrow)
        }),
{
}

/// Where a fulfilment follows the opening of the same record and succeeds,
/// the taker's destination balance rises by exactly the deposit, the maker's
/// balance rises by exactly the amount asked for, and neither the vault nor
/// the record is left. Both operations search the vault from the same
/// seeds, so what the search found is the same for both. This is stated for
/// a destination and a maker's balance that differ from each other and from
/// the balance that the taker pays from.
pub proof fn lemma_open_then_fulfil(
    books: Books,
    open: Make,
    seed: u64,
    deposit: u64,
    receive: u64,
    escrow_found: Option<(Address, u8)>,
    vault_found: Option<(Address, u8)>,
    ctx: Take,
    signer: Result<Address, SeedError>,
)
    requires
        opened_with(books, open, seed, deposit, receive, escrow_found, vault_found) is Ok,
        ctx.escrow == open.escrow,
        taken_with(
            opened_with(books, open, seed, deposit, receive, escrow_found, vault_found)->Ok_0,
            ctx,
            signer,
            vault_found,
        ) is Ok,
        ctx.taker_receive_token != ctx.taker_token,
        ctx.taker_receive_token != ctx.maker_receive_token,
        ctx.maker_receive_token != ctx.taker_token,
    ensures
        ({
            let open_state = opened_with(books, open, seed, deposit, receive, escrow_found, vault_found)->Ok_0;
            let after = taken_with(open_state, ctx, signer, vault_found)->Ok_0;
            &&& ctx.vault == open.vault
            &&& ctx.maker == open.maker
            &&& token_at(open_state.accounts, ctx.taker_receive_token) matches Some(destination)
            &&& token_at(open_state.accounts, ctx.maker_receive_token) matches Some(proceeds)
            &&& token_at(after.accounts, ctx.taker_receive_token) == Some(
                TokenAccount { amount: (destination.amount + deposit) as u64, ..destination },
            )
            &&& token_at(after.accounts, ctx.maker_receive_token) == Some(
                TokenAccount { amount: (proceeds.amount + receive) as u64, ..proceeds },
            )
            &&& destination.amount + deposit <= u64::MAX
            &&& proceeds.amount + receive <= u64::MAX
            &&& destination.mint == open.maker_mint && destination.owner == ctx.taker
            &&& proceeds.mint == open.taker_mint && proceeds.owner == open.maker
            &&& !after.accounts.dom().contains(open.vault)
            &&& !after.accounts.dom().contains(open.escrow)
            &&& deposits_returned(books, after, open.maker, open.vault, open.escrow)
        }),
{
    lemma_opening_funds_vault(books, open, seed, deposit, receive, escrow_found, vault_found);
}

/// Where a cancellation follows the opening of the same record and
/// succeeds, the maker's destination balance rises by exactly the deposit,
/// and neither the vault nor the record is left. Both operations search the
/// vault from the same seeds, so what the search found is the same for both.
pub proof fn lemma_open_then_cancel(
    books: Books,
    open: Make,
    seed: u64,
    deposit: u64,
    receive: u64,
    escrow_found: Option<(Address, u8)>,
    vault_found: Option<(Address, u8)>,
    ctx: Refund,
    signer: Result<Address, SeedError>,
)
    requires
        opened_with(books, open, seed, deposit, receive, escrow_found, vault_found) is Ok,
        ctx.escrow == open.escrow,
        refunded_with(
            opened_with(books, open, seed, deposit, receive, escrow_found, vault_found)->Ok_0,
            ctx,
            signer,
            vault_found,
        ) is Ok,
    ensures
        ({
            let open_state = opened_with(books, open, seed, deposit, receive, escrow_found, vault_found)->Ok_0;
            let after = refunded_with(open_state, ctx, signer, vault_found)->Ok_0;
            &&& ctx.vault == open.vault
            &&& ctx.maker == open.maker
            &&& token_at(open_state.accounts, ctx.maker_token) matches Some(destination)
            &&& token_at(after.accounts, ctx.maker_token) == Some(
                TokenAccount { amount: (destination.amount + deposit) as u64, ..destination },
            )
            &&& destination.amount + deposit <= u64::MAX
            &&& destination.mint == open.maker_mint && destination.owner == open.maker
            &&& !after.accounts.dom().contains(open.vault)
            &&& !after.accounts.dom().contains(open.escrow)
            &&& deposits_returned(books, after, open.maker, open.vault, open.escrow)
        }),
{
    lemma_opening_funds_vault(books, open, seed, deposit, receive, escrow_found, vault_found);
}

/// The record that an opening writes claims its own address: presenting
/// its seeds with the bump that it stores yields the address at which it
/// lives, under the program that opened it.
pub proof fn lemma_record_claims_its_address(
    program: Address,
    books: Books,
    ctx: Make,
    seed: u64,
    deposit: u64,
    receive: u64,
)
    requires
        opened(program, books, ctx, seed, deposit, receive) is Ok,
    ensures
        ({
            let after = opened(program, books, ctx, seed, deposit, receive)->Ok_0;
            &&& escrow_at(after.accounts, ctx.escrow) matches Some(record)
            &&& claims(rederived_address(spec_signer_seeds(record), program@), ctx.escrow)
        }),
{
    lemma_found_rederives(spec_escrow_seeds(ctx.maker, seed), program@);
}

/// A fulfilment that follows the opening of a record succeeds where the
/// taker hands in the record, its vault and its maker, a balance of the
/// asset asked for that the taker may move and that holds the amount asked
/// for, a destination of the taker's for the asset offered, and a balance of
/// the maker's for the asset asked for, the three of them distinct from each
/// other and from the vault, and neither of the two that receive overflows.
/// The maker's address must be neither the vault's nor the record's, and
/// able to hold the two storage deposits.
pub proof fn lemma_valid_fulfilment_succeeds(
    program: Address,
    books: Books,
    open: Make,
    seed: u64,
    deposit: u64,
    receive: u64,
    ctx: Take,
)
    requires
        opened(program, books, open, seed, deposit, receive) is Ok,
        ctx.escrow == open.escrow,
        ctx.vault == open.vault,
        ctx.maker == open.maker,
        ctx.taker_token != ctx.taker_receive_token,
        ctx.taker_token != ctx.maker_receive_token,
        ctx.taker_receive_token != ctx.maker_receive_token,
        ctx.taker_token != ctx.vault,
        ctx.taker_receive_token != ctx.vault,
        ctx.maker_receive_token != ctx.vault,
        open.maker != open.vault,
        open.maker != open.escrow,
        native_at(books.native, open.maker) + native_at(books.native, open.vault) + native_at(
            books.native,
            open.escrow,
        ) <= u64::MAX,
        ({
            let open_state = opened(program, books, open, seed, deposit, receive)->Ok_0;
            &&& token_at(open_state.accounts, ctx.taker_token) matches Some(payment)
            &&& payment.mint == open.taker_mint && payment.owner == ctx.taker && payment.amount >= receive
            &&& token_at(open_state.accounts, ctx.taker_receive_token) matches Some(destination)
            &&& destination.mint == open.maker_mint && destination.owner == ctx.taker
            &&& destination.amount + deposit <= u64::MAX
            &&& token_at(open_state.accounts, ctx.maker_receive_token) matches Some(proceeds)
            &&& proceeds.mint == open.taker_mint && proceeds.owner == open.maker
            &&& proceeds.amount + receive <= u64::MAX
        }),
    ensures
        taken(program, opened(program, books, open, seed, deposit, receive)->Ok_0, ctx) is Ok,
{
    lemma_record_claims_its_address(program, books, open, seed, deposit, receive);
}

/// A cancellation that follows the opening of a record succeeds where the
/// maker hands in the record, its vault, and a destination of the maker's
/// for the asset offered that is not the vault and does not overflow. The
/// maker's address must be neither the vault's nor the record's, and able to
/// hold the two storage deposits.
pub proof fn lemma_valid_cancellation_succeeds(
    program: Address,
    books: Books,
    open: Make,
    seed: u64,
    deposit: u64,
    receive: u64,
    ctx: Refund,
)
    requires
        opened(program, books, open, seed, deposit, receive) is Ok,
        ctx.escrow == open.escrow,
        ctx.vault == open.vault,
        ctx.maker == open.maker,
        ctx.maker_token != ctx.vault,
        open.maker != open.vault,
        open.maker != open.escrow,
        native_at(books.native, open.maker) + native_at(books.native, open.vault) + native_at(
            books.native,
            open.escrow,
        ) <= u64::MAX,
        ({
            let open_state = opened(program, books, open, seed, deposit, receive)->Ok_0;
            &&& token_at(open_state.accounts, ctx.maker_token) matches Some(destination)
            &&& destination.mint == open.maker_mint && destination.owner == open.maker
            &&& destination.amount + deposit <= u64::MAX
        }),
    ensures
        refunded(program, opened(program, books, open, seed, deposit, receive)->Ok_0, ctx) is Ok,
{
    lemma_record_claims_its_address(program, books, open, seed, deposit, receive);
}

/// Where the record is gone, every fulfilment and every cancellation of it
/// is rejected for want of the record, whatever else the caller hands in.
pub proof fn lemma_closed_stays_closed(
    program: Address,
    books: Books,
    next_take: Take,
    next_refund: Refund,
    signer: Result<Address, SeedError>,
    vault_found: Option<(Address, u8)>,
)
    requires
        escrow_at(books.accounts, next_take.escrow) is None,
        escrow_at(books.accounts, next_refund.escrow) is None,
    ensures
        taken_with(books, next_take, signer, vault_found) == Err::<Books, EscrowError>(
            EscrowError::AccountMissing,
        ),
        refunded_with(books, next_refund, signer, vault_found) == Err::<Books, EscrowError>(
            EscrowError::AccountMissing,
        ),
        taken(program, books, next_take) == Err::<Books, EscrowError>(EscrowError::AccountMissing),
        refunded(program, books, next_refund) == Err::<Books, EscrowError>(EscrowError::AccountMissing),
        EscrowError::AccountMissing.kind() == ErrorKind::State,
{
}

/// Once a fulfilment has succeeded, every further fulfilment or
/// cancellation of the same record is rejected because the record is gone.
pub proof fn lemma_fulfilled_is_final(
    program: Address,
    books: Books,
    ctx: Take,
    next_take: Take,
    next_refund: Refund,
)
    requires
        taken(program, books, ctx) is Ok,
        next_take.escrow == ctx.escrow,
        next_refund.escrow == ctx.escrow,
    ensures
        ({
            let after = taken(program, books, ctx)->Ok_0;
            &&& escrow_at(after.accounts, ctx.escrow) is None
            &&& taken(program, after, next_take) == Err::<Books, EscrowError>(EscrowError::AccountMissing)
            &&& refunded(program, after, next_refund) == Err::<Books, EscrowError>(
                EscrowError::AccountMissing,
            )
            &&& EscrowError::AccountMissing.kind() == ErrorKind::State
        }),
{
}

/// Once a cancellation has succeeded, every further fulfilment or
/// cancellation of the same record is rejected because the record is gone.
pub proof fn lemma_cancelled_is_final(
    program: Address,
    books: Books,
    ctx: Refund,
    next_take: Take,
    next_refund: Refund,
)
    requires
        refunded(program, books, ctx) is Ok,
        next_take.escrow == ctx.escrow,
        next_refund.escrow == ctx.escrow,
    ensures
        ({
            let after = refunded(program, books, ctx)->Ok_0;
            &&& escrow_at(after.accounts, ctx.escrow) is None
            &&& taken(program, after, next_take) == Err::<Books, EscrowError>(EscrowError::AccountMissing)
            &&& refunded(program, after, next_refund) == Err::<Books, EscrowError>(
                EscrowError::AccountMissing,
            )
            &&& EscrowError::AccountMissing.kind() == ErrorKind::State
        }),
{
}

/// A cancellation asked for by anyone but the maker of the record is
/// rejected as unauthorized, whatever the seeds yield.
pub proof fn lemma_only_maker_cancels(
    program: Address,
    books: Books,
    ctx: Refund,
    signer: Result<Address, SeedError>,
    vault_found: Option<(Address, u8)>,
)
    requires
        escrow_at(books.accounts, ctx.escrow) matches Some(record) && record.maker != ctx.maker,
    ensures
        refunded_with(books, ctx, signer, vault_found) == Err::<Books, EscrowError>(
            EscrowError::Unauthorized,
        ),
        refunded(program, books, ctx) == Err::<Books, EscrowError>(EscrowError::Unauthorized),
        EscrowError::Unauthorized.kind() == ErrorKind::Authorization,
{
}

/// Moving funds out of a vault and closing it succeeds only on the
/// authority of the record's own address, and only for exactly what the
/// vault holds. The destination then holds that much more, the vault is
/// gone, its storage deposit has gone to the address named for it and to
/// no other, and the record is as it was. This is stated for a destination
/// that is not the vault itself.
pub proof fn lemma_release_settles(
    books: Books,
    escrow: Address,
    vault: Address,
    destination: Address,
    refund_to: Address,
    signer: Result<Address, SeedError>,
    amount: u64,
)
    requires
        vault_released(books, escrow, vault, destination, refund_to, signer, amount) is Ok,
        destination != vault,
    ensures
        ({
            let after = vault_released(books, escrow, vault, destination, refund_to, signer, amount)->Ok_0;
            &&& signer == Ok::<Address, SeedError>(escrow)
            &&& token_at(books.accounts, vault) matches Some(held)
            &&& held.owner == escrow && held.amount == amount
            &&& token_at(books.accounts, destination) matches Some(target)
            &&& token_at(after.accounts, destination) == Some(
                TokenAccount { amount: (target.amount + amount) as u64, ..target },
            )
            &&& !after.accounts.dom().contains(vault)
            &&& escrow_at(after.accounts, escrow) == escrow_at(books.accounts, escrow)
            &&& refund_to != vault
            &&& native_at(after.native, refund_to) == native_at(books.native, refund_to) + native_at(
                books.native,
                vault,
            )
            &&& native_at(after.native, vault) == 0
            &&& forall|a: Address|
                a != refund_to && a != vault ==> native_at(after.native, a) == native_at(books.native, a)
        }),
{
}

/// The plan of an opening whose checks have passed gives, applied in its
/// order, what the opening gives.
pub proof fn lemma_opening_plan(
    books: Books,
    ctx: Make,
    seed: u64,
    deposit: u64,
    receive: u64,
    escrow_found: Option<(Address, u8)>,
    vault_found: Option<(Address, u8)>,
)
    requires
        ctx.checked(books.accounts, deposit, receive, escrow_found, vault_found) is Ok,
    ensures
        plan_applied(
            books,
            ctx.spec_plan(
                seed,
                deposit,
                receive,
                ctx.checked(books.accounts, deposit, receive, escrow_found, vault_found)->Ok_0,
            ),
        ) == opened_with(books, ctx, seed, deposit, receive, escrow_found, vault_found),
{
    let bumps = ctx.checked(books.accounts, deposit, receive, escrow_found, vault_found)->Ok_0;
    let plan = ctx.spec_plan(seed, deposit, receive, bumps);
    reveal_with_fuel(plan_applied, 4);
    assert(plan.drop_first() =~= seq![plan[1], plan[2]]);
    assert(plan.drop_first().drop_first() =~= seq![plan[2]]);
    assert(plan.drop_first().drop_first().drop_first() =~= Seq::<Request>::empty());
}

/// The plan of a cancellation whose checks have passed gives, applied in
/// its order, what the cancellation gives.
pub proof fn lemma_cancellation_plan(
    books: Books,
    ctx: Refund,
    signer: Result<Address, SeedError>,
    vault_found: Option<(Address, u8)>,
)
    requires
        ctx.checked(books.accounts, signer, vault_found) is Ok,
    ensures
        plan_applied(books, ctx.spec_plan(ctx.checked(books.accounts, signer, vault_found)->Ok_0.1))
            == refunded_with(books, ctx, signer, vault_found),
{
    let plan = ctx.spec_plan(ctx.checked(books.accounts, signer, vault_found)->Ok_0.1);
    reveal_with_fuel(plan_applied, 4);
    assert(plan.drop_first() =~= seq![plan[1], plan[2]]);
    assert(plan.drop_first().drop_first() =~= seq![plan[2]]);
    assert(plan.drop_first().drop_first().drop_first() =~= Seq::<Request>::empty());
}

/// The plan of a fulfilment whose checks have passed gives, applied in its
/// order, what the fulfilment gives.
pub proof fn lemma_fulfilment_plan(
    books: Books,
    ctx: Take,
    signer: Result<Address, SeedError>,
    vault_found: Option<(Address, u8)>,
)
    requires
        ctx.checked(books.accounts, signer, vault_found) is Ok,
    ensures
        plan_applied(
            books,
            ctx.spec_plan(
                ctx.checked(books.accounts, signer, vault_found)->Ok_0.0,
                ctx.checked(books.accounts, signer, vault_found)->Ok_0.1,
            ),
        ) == taken_with(books, ctx, signer, vault_found),
{
    let found = ctx.checked(books.accounts, signer, vault_found)->Ok_0;
    let plan = ctx.spec_plan(found.0, found.1);
    reveal_with_fuel(plan_applied, 5);
    assert(plan.drop_first() =~= seq![plan[1], plan[2], plan[3]]);
    assert(plan.drop_first().drop_first() =~= seq![plan[2], plan[3]]);
    assert(plan.drop_first().drop_first().drop_first() =~= seq![plan[3]]);
    assert(plan.drop_first().drop_first().drop_first().drop_first() =~= Seq::<Request>::empty());
}

} // verus!
