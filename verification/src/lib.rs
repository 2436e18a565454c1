//! An escrow for the atomic swap of two assets between two parties.
//!
//! A maker locks an amount of one asset in a vault and names the asset and
//! the amount wanted in return. A taker fulfils the offer by paying the
//! maker and receives what the vault holds; or the maker cancels and takes
//! the deposit back. Each of the three operations is applied whole or not
//! at all.
//!
//! The record of an offer and its vault live at addresses derived from the
//! maker's address and a number of the maker's choice. The vault is moved by
//! no principal's key, only by the authority of the record's address, which
//! every operation derives again from the seeds that the record stores.
use crate::address::Address;
use crate::contexts::release_vault;
use crate::contexts::vault_released;
use crate::contexts::Make;
use crate::contexts::Refund;
use crate::contexts::Take;
use crate::derivation::find_program_address;
use crate::derivation::found_address;
use crate::derivation::rederive_program_address;
use crate::derivation::rederived_address;
use crate::derivation::SeedError;
use crate::error::EscrowError;
use crate::ledger::applied;
use crate::ledger::escrow_at;
use crate::ledger::escrow_closed;
use crate::ledger::escrow_created;
use crate::ledger::token_account_created;
use crate::ledger::transferred;
use crate::ledger::Books;
use crate::ledger::Ledger;
use crate::seeds::escrow_seeds;
use crate::seeds::signer_seeds;
use crate::seeds::spec_escrow_seeds;
use crate::seeds::spec_signer_seeds;
use crate::seeds::spec_vault_seeds;
use crate::seeds::vault_seeds;
use vstd::prelude::*;

pub mod address;
pub mod contexts;
pub mod derivation;
pub mod error;
pub mod guarantees;
pub mod ledger;
pub mod requests;
pub mod seeds;
pub mod state;
mod store;

verus! {

/// What opening an escrow gives, where the searches of the record's and of
/// the vault's seeds found `escrow_found` and `vault_found`: after the
/// checks, the vault is created empty, the deposit moves into it from the
/// maker's balance, and the record is written.
pub open spec fn opened_with(
    books: Books,
    ctx: Make,
    seed: u64,
    deposit: u64,
    receive: u64,
    escrow_found: Option<(Address, u8)>,
    vault_found: Option<(Address, u8)>,
) -> Result<Books, EscrowError> {
    match ctx.checked(books.accounts, deposit, receive, escrow_found, vault_found) {
        Err(e) => Err(e),
        Ok(bumps) => match token_account_created(books, ctx.vault, ctx.maker_mint, ctx.escrow) {
            Err(e) => Err(e),
            Ok(with_vault) => match transferred(with_vault, ctx.maker_token, ctx.vault, ctx.maker, deposit) {
                Err(e) => Err(e),
                Ok(funded) => escrow_created(funded, ctx.escrow, ctx.record(seed, deposit, receive, bumps)),
            },
        },
    }
}

/// What cancelling an escrow gives, where presenting the record's seeds
/// yielded `signer` and the search of the vault's seeds found
/// `vault_found`: after the checks, all that the vault held moves back to
/// the maker's balance, the vault is closed and the record is destroyed,
/// and the storage deposits of both go to the maker.
pub open spec fn refunded_with(
    books: Books,
    ctx: Refund,
    signer: Result<Address, SeedError>,
    vault_found: Option<(Address, u8)>,
) -> Result<Books, EscrowError> {
    match ctx.checked(books.accounts, signer, vault_found) {
        Err(e) => Err(e),
        Ok((_, vault)) => match vault_released(
            books,
            ctx.escrow,
            ctx.vault,
            ctx.maker_token,
            ctx.maker,
            signer,
            vault.amount,
        ) {
            Err(e) => Err(e),
            Ok(released) => escrow_closed(released, ctx.escrow, ctx.maker),
        },
    }
}

/// What fulfilling an escrow gives, where presenting the record's seeds
/// yielded `signer` and the search of the vault's seeds found
/// `vault_found`: after the checks, the taker pays the maker what the
/// record asks for, all that the vault held moves to the taker's balance,
/// the vault is closed and the record is destroyed, and the storage
/// deposits of both go to the maker.
pub open spec fn taken_with(
    books: Books,
    ctx: Take,
    signer: Result<Address, SeedError>,
    vault_found: Option<(Address, u8)>,
) -> Result<Books, EscrowError> {
    match ctx.checked(books.accounts, signer, vault_found) {
        Err(e) => Err(e),
        Ok((_, vault)) => match ctx.paid(books) {
            Err(e) => Err(e),
            Ok(paid) => match vault_released(
                paid,
                ctx.escrow,
                ctx.vault,
                ctx.taker_receive_token,
                ctx.maker,
                signer,
                vault.amount,
            ) {
                Err(e) => Err(e),
                Ok(released) => escrow_closed(released, ctx.escrow, ctx.maker),
            },
        },
    }
}

/// What opening an escrow gives under the program at `program`, which
/// owns the derived addresses.
pub open spec fn opened(
    program: Address,
    books: Books,
    ctx: Make,
    seed: u64,
    deposit: u64,
    receive: u64,
) -> Result<Books, EscrowError> {
    opened_with(
        books,
        ctx,
        seed,
        deposit,
        receive,
        found_address(spec_escrow_seeds(ctx.maker, seed), program@),
        found_address(spec_vault_seeds(ctx.escrow), program@),
    )
}

/// What cancelling an escrow gives under the program at `program`. The
/// seeds presented are those of the record that the ledger holds.
pub open spec fn refunded(program: Address, books: Books, ctx: Refund) -> Result<Books, EscrowError> {
    match escrow_at(books.accounts, ctx.escrow) {
        None => Err(EscrowError::AccountMissing),
        Some(record) => refunded_with(
            books,
            ctx,
            rederived_address(spec_signer_seeds(record), program@),
            found_address(spec_vault_seeds(ctx.escrow), program@),
        ),
    }
}

/// What fulfilling an escrow gives under the program at `program`. The
/// seeds presented are those of the record that the ledger holds.
pub open spec fn taken(program: Address, books: Books, ctx: Take) -> Result<Books, EscrowError> {
    match escrow_at(books.accounts, ctx.escrow) {
        None => Err(EscrowError::AccountMissing),
        Some(record) => taken_with(
            books,
            ctx,
            rederived_address(spec_signer_seeds(record), program@),
            found_address(spec_vault_seeds(ctx.escrow), program@),
        ),
    }
}

/// Opens an escrow, given what the searches of the record's and of the
/// vault's seeds found. On an error the ledger is left as it was.
pub fn make_with(
    ledger: &mut Ledger,
    ctx: &Make,
    seed: u64,
    deposit: u64,
    receive: u64,
    escrow_found: &Option<(Address, u8)>,
    vault_found: &Option<(Address, u8)>,
) -> (r: Result<(), EscrowError>)
    requires
        old(ledger).wf(),
    ensures
        final(ledger).wf(),
        applied(
            old(ledger)@,
            final(ledger)@,
            r,
            opened_with(old(ledger)@, *ctx, seed, deposit, receive, *escrow_found, *vault_found),
        ),
{
    let bumps = match ctx.validate(ledger, deposit, receive, escrow_found, vault_found) {
        Ok(bumps) => bumps,
        Err(e) => { return Err(e); },
    };
    let saved = ledger.snapshot();
    match ctx.init_vault(ledger) {
        Ok(()) => {},
        Err(e) => { return Err(e); },
    }
    match ctx.deposit(ledger, deposit) {
        Ok(()) => {},
        Err(e) => {
            *ledger = saved;
            return Err(e);
        },
    }
    match ctx.save_escrow(ledger, seed, deposit, receive, &bumps) {
        Ok(()) => Ok(()),
        Err(e) => {
            *ledger = saved;
            Err(e)
        },
    }
}

/// Cancels an escrow, given what presenting the record's seeds yielded and
/// what the search of the vault's seeds found. On an error the ledger is
/// left as it was.
pub fn refund_with(
    ledger: &mut Ledger,
    ctx: &Refund,
    signer: &Result<Address, SeedError>,
    vault_found: &Option<(Address, u8)>,
) -> (r: Result<(), EscrowError>)
    requires
        old(ledger).wf(),
    ensures
        final(ledger).wf(),
        applied(old(ledger)@, final(ledger)@, r, refunded_with(old(ledger)@, *ctx, *signer, *vault_found)),
{
    let vault = match ctx.validate(ledger, signer, vault_found) {
        Ok((_, vault)) => vault,
        Err(e) => { return Err(e); },
    };
    let saved = ledger.snapshot();
    match release_vault(
        ledger,
        &ctx.escrow,
        &ctx.vault,
        &ctx.maker_token,
        &ctx.maker,
        signer,
        vault.amount,
    ) {
        Ok(()) => {},
        Err(e) => { return Err(e); },
    }
    match ledger.close_escrow(ctx.escrow, ctx.maker) {
        Ok(()) => Ok(()),
        Err(e) => {
            *ledger = saved;
            Err(e)
        },
    }
}

/// Fulfils an escrow, given what presenting the record's seeds yielded and
/// what the search of the vault's seeds found. On an error the ledger is
/// left as it was.
pub fn take_with(
    ledger: &mut Ledger,
    ctx: &Take,
    signer: &Result<Address, SeedError>,
    vault_found: &Option<(Address, u8)>,
) -> (r: Result<(), EscrowError>)
    requires
        old(ledger).wf(),
    ensures
        final(ledger).wf(),
        applied(old(ledger)@, final(ledger)@, r, taken_with(old(ledger)@, *ctx, *signer, *vault_found)),
{
    let vault = match ctx.validate(ledger, signer, vault_found) {
        Ok((_, vault)) => vault,
        Err(e) => { return Err(e); },
    };
    let saved = ledger.snapshot();
    match ctx.deposit(ledger) {
        Ok(()) => {},
        Err(e) => { return Err(e); },
    }
    match release_vault(
        ledger,
        &ctx.escrow,
        &ctx.vault,
        &ctx.taker_receive_token,
        &ctx.maker,
        signer,
        vault.amount,
    ) {
        Ok(()) => {},
        Err(e) => {
            *ledger = saved;
            return Err(e);
        },
    }
    match ledger.close_escrow(ctx.escrow, ctx.maker) {
        Ok(()) => Ok(()),
        Err(e) => {
            *ledger = saved;
            Err(e)
        },
    }
}

/// Opens an escrow: the maker of `ctx` deposits `deposit` of the asset
/// offered and asks for `receive` of the asset wanted, under the number
/// `seed`. The addresses of the record and of the vault are searched from
/// their seeds. On an error the ledger is left as it was.
pub fn make(
    program_id: &Address,
    ledger: &mut Ledger,
    ctx: &Make,
    seed: u64,
    deposit: u64,
    receive: u64,
) -> (r: Result<(), EscrowError>)
    requires
        old(ledger).wf(),
    ensures
        final(ledger).wf(),
        applied(
            old(ledger)@,
            final(ledger)@,
            r,
            opened(*program_id, old(ledger)@, *ctx, seed, deposit, receive),
        ),
{
    let escrow_found = find_program_address(&escrow_seeds(&ctx.maker, seed), program_id);
    let vault_found = find_program_address(&vault_seeds(&ctx.escrow), program_id);
    make_with(ledger, ctx, seed, deposit, receive, &escrow_found, &vault_found)
}

/// Cancels an escrow: the maker of `ctx` takes back all that the vault
/// holds, and the vault and the record are destroyed, their storage
/// deposits going to the maker. The authority over
/// the vault is derived from the seeds and the bump that the record
/// stores. On an error the ledger is left as it was.
pub fn refund(program_id: &Address, ledger: &mut Ledger, ctx: &Refund) -> (r: Result<(), EscrowError>)
    requires
        old(ledger).wf(),
    ensures
        final(ledger).wf(),
        applied(old(ledger)@, final(ledger)@, r, refunded(*program_id, old(ledger)@, *ctx)),
{
    let record = match ledger.escrow(&ctx.escrow) {
        Some(record) => record,
        None => { return Err(EscrowError::AccountMissing); },
    };
    let signer = rederive_program_address(&signer_seeds(&record), program_id);
    let vault_found = find_program_address(&vault_seeds(&ctx.escrow), program_id);
    refund_with(ledger, ctx, &signer, &vault_found)
}

/// Fulfils an escrow: the taker of `ctx` pays the maker what the record
/// asks for and receives all that the vault holds, and the vault and the
/// record are destroyed, their storage deposits going to the maker. The
/// authority over the vault is derived from the
/// seeds and the bump that the record stores. On an error the ledger is
/// left as it was.
pub fn take(program_id: &Address, ledger: &mut Ledger, ctx: &Take) -> (r: Result<(), EscrowError>)
    requires
        old(ledger).wf(),
    ensures
        final(ledger).wf(),
        applied(old(ledger)@, final(ledger)@, r, taken(*program_id, old(ledger)@, *ctx)),
{
    let record = match ledger.escrow(&ctx.escrow) {
        Some(record) => record,
        None => { return Err(EscrowError::AccountMissing); },
    };
    let signer = rederive_program_address(&signer_seeds(&record), program_id);
    let vault_found = find_program_address(&vault_seeds(&ctx.escrow), program_id);
    take_with(ledger, ctx, &signer, &vault_found)
}

} // verus!
