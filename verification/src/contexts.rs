//! The accounts that each operation works on, and the steps it is made of.
//!
//! A context names, by address, the accounts that a caller hands to an
//! operation. Nothing in it is believed: every step looks the accounts up in
//! the ledger, and the checks hold the addresses of the record and of the
//! vault against what their seeds yield.
//!
//! The checks take what the seeds yielded as arguments, so that what they
//! decide is stated for every outcome of a derivation. The two steps that
//! empty a vault present the seeds of the stored record themselves.
use crate::address::Address;
use crate::derivation::rederive_program_address;
use crate::derivation::rederived_address;
use crate::derivation::SeedError;
use crate::error::EscrowError;
use crate::ledger::applied;
use crate::ledger::escrow_at;
use crate::ledger::escrow_created;
use crate::ledger::token_account_closed;
use crate::ledger::token_account_created;
use crate::ledger::token_at;
use crate::ledger::transferred;
use crate::ledger::Account;
use crate::ledger::Books;
use crate::ledger::Ledger;
use crate::ledger::TokenAccount;
use crate::requests::Request;
use crate::seeds::signer_seeds;
use crate::seeds::spec_signer_seeds;
use crate::state::Escrow;
use vstd::prelude::*;

verus! {

/// What the check of the two amounts of an offer gives: neither may be
/// zero.
pub open spec fn amounts_checked(deposit: u64, receive: u64) -> Result<(), EscrowError> {
    if deposit == 0 || receive == 0 {
        Err(EscrowError::ZeroAmount)
    } else {
        Ok(())
    }
}

/// Checks the two amounts of an offer: neither may be zero.
pub fn check_amounts(deposit: u64, receive: u64) -> (r: Result<(), EscrowError>)
    ensures
        r == amounts_checked(deposit, receive),
{
    if deposit == 0 || receive == 0 {
        Err(EscrowError::ZeroAmount)
    } else {
        Ok(())
    }
}

/// What holding the address `given` against what a search of its seeds
/// `found` gives: the bump, if the search found that very address.
pub open spec fn address_checked(found: Option<(Address, u8)>, given: Address) -> Result<u8, EscrowError> {
    match found {
        None => Err(EscrowError::NoViableBump),
        Some((address, bump)) => if address != given {
            Err(EscrowError::SeedsMismatch)
        } else {
            Ok(bump)
        },
    }
}

/// Holds the address `given` against what a search of its seeds found, and
/// returns the bump.
pub fn check_address(found: &Option<(Address, u8)>, given: &Address) -> (r: Result<u8, EscrowError>)
    ensures
        r == address_checked(*found, *given),
{
    match found {
        None => Err(EscrowError::NoViableBump),
        Some((address, bump)) => if *address != *given {
            Err(EscrowError::SeedsMismatch)
        } else {
            Ok(*bump)
        },
    }
}

/// Presenting the record's seeds and bump yields the address `given`, and so
/// claims its authority.
pub open spec fn claims(signer: Result<Address, SeedError>, given: Address) -> bool {
    signer matches Ok(address) && address == given
}

/// Whether `vault`, found at `vault_address`, is the vault of the record at
/// `escrow`: a balance of `mint` that the record's address may move, at the
/// address that a search of the vault's seeds found.
pub open spec fn vault_checked(
    vault_found: Option<(Address, u8)>,
    escrow: Address,
    vault_address: Address,
    vault: TokenAccount,
    mint: Address,
) -> Result<(), EscrowError> {
    if vault.mint != mint {
        Err(EscrowError::MintMismatch)
    } else if vault.owner != escrow {
        Err(EscrowError::OwnerMismatch)
    } else {
        match address_checked(vault_found, vault_address) {
            Err(e) => Err(e),
            Ok(_) => Ok(()),
        }
    }
}

fn check_vault(
    vault_found: &Option<(Address, u8)>,
    escrow: &Address,
    vault_address: &Address,
    vault: &TokenAccount,
    mint: &Address,
) -> (r: Result<(), EscrowError>)
    ensures
        r == vault_checked(*vault_found, *escrow, *vault_address, *vault, *mint),
{
    if vault.mint != *mint {
        return Err(EscrowError::MintMismatch);
    }
    if vault.owner != *escrow {
        return Err(EscrowError::OwnerMismatch);
    }
    match check_address(vault_found, vault_address) {
        Err(e) => Err(e),
        Ok(_) => Ok(()),
    }
}

/// What moving `amount` out of the vault to `destination` and closing the
/// vault gives, where presenting the seeds and the bump of the record at
/// `escrow` yielded `signer`. Nothing moves unless the seeds yield the
/// record's own address; then both requests are made on the authority of
/// that address, first the move, then the closing, which hands the vault's
/// storage deposit to `refund_to`.
pub open spec fn vault_released(
    books: Books,
    escrow: Address,
    vault: Address,
    destination: Address,
    refund_to: Address,
    signer: Result<Address, SeedError>,
    amount: u64,
) -> Result<Books, EscrowError> {
    if !claims(signer, escrow) {
        Err(EscrowError::SeedsMismatch)
    } else {
        match transferred(books, vault, destination, escrow, amount) {
            Err(e) => Err(e),
            Ok(moved) => token_account_closed(moved, vault, refund_to, escrow),
        }
    }
}

/// Moves `amount` out of the vault to `destination` and closes the vault,
/// given what presenting the seeds and the bump of the record at `escrow`
/// yielded. The vault's storage deposit goes to `refund_to`. The vault
/// closes only if it is then empty; on an error the ledger is left as it
/// was.
pub fn release_vault(
    ledger: &mut Ledger,
    escrow: &Address,
    vault: &Address,
    destination: &Address,
    refund_to: &Address,
    signer: &Result<Address, SeedError>,
    amount: u64,
) -> (r: Result<(), EscrowError>)
    requires
        old(ledger).wf(),
    ensures
        final(ledger).wf(),
        applied(
            old(ledger)@,
            final(ledger)@,
            r,
            vault_released(old(ledger)@, *escrow, *vault, *destination, *refund_to, *signer, amount),
        ),
{
    let authority = match signer {
        Ok(authority) => *authority,
        Err(_) => { return Err(EscrowError::SeedsMismatch); },
    };
    if authority != *escrow {
        return Err(EscrowError::SeedsMismatch);
    }
    let saved = ledger.snapshot();
    match ledger.transfer(*vault, *destination, authority, amount) {
        Ok(()) => {},
        Err(e) => { return Err(e); },
    }
    match ledger.close_token_account(*vault, *refund_to, authority) {
        Ok(()) => Ok(()),
        Err(e) => {
            *ledger = saved;
            Err(e)
        },
    }
}

/// The accounts of an opening: the maker, the balance that the maker pays
/// from, the two asset types, and the addresses at which the record and the
/// vault are to be created.
#[derive(Clone, Copy, Debug)]
pub struct Make {
    /// Who opens the escrow. The caller vouches that this principal asked
    /// for it.
    pub maker: Address,
    /// The balance that the deposit comes from.
    pub maker_token: Address,
    /// The asset type offered.
    pub maker_mint: Address,
    /// The asset type asked for.
    pub taker_mint: Address,
    /// Where the record is to live.
    pub escrow: Address,
    /// Where the vault is to live.
    pub vault: Address,
}

/// The bumps that the checks of an opening found.
#[derive(Clone, Copy, Debug, PartialEq, Eq, Structural)]
pub struct MakeBumps {
    /// The bump of the record's address.
    pub escrow: u8,
    /// The bump of the vault's address.
    pub vault: u8,
}

impl Make {
    /// What the checks of an opening give: the bumps of the two addresses,
    /// or the first complaint. The amounts must not be zero, the maker's
    /// balance must hold the asset offered, and the two addresses must be
    /// the ones that the searches of their seeds found and must be free.
    pub open spec fn checked(
        self,
        accounts: Map<Address, Account>,
        deposit: u64,
        receive: u64,
        escrow_found: Option<(Address, u8)>,
        vault_found: Option<(Address, u8)>,
    ) -> Result<MakeBumps, EscrowError> {
        if amounts_checked(deposit, receive) is Err {
            Err(EscrowError::ZeroAmount)
        } else {
            match token_at(accounts, self.maker_token) {
                None => Err(EscrowError::AccountMissing),
                Some(source) => if source.mint != self.maker_mint {
                    Err(EscrowError::MintMismatch)
                } else {
                    match address_checked(escrow_found, self.escrow) {
                        Err(e) => Err(e),
                        Ok(escrow_bump) => if accounts.dom().contains(self.escrow) {
                            Err(EscrowError::AddressInUse)
                        } else {
                            match address_checked(vault_found, self.vault) {
                                Err(e) => Err(e),
                                Ok(vault_bump) => if accounts.dom().contains(self.vault) {
                                    Err(EscrowError::AddressInUse)
                                } else {
                                    Ok(MakeBumps { escrow: escrow_bump, vault: vault_bump })
                                },
                            }
                        },
                    }
                },
            }
        }
    }

    /// The record that an opening writes.
    pub open spec fn record(self, seed: u64, deposit: u64, receive: u64, bumps: MakeBumps) -> Escrow {
        Escrow {
            seed,
            maker: self.maker,
            maker_mint: self.maker_mint,
            taker_mint: self.taker_mint,
            deposit,
            receive,
            bump: bumps.escrow,
        }
    }

    /// The requests of an opening, in their order: open the vault, move the
    /// deposit into it on the maker's word, write the record.
    pub open spec fn spec_plan(self, seed: u64, deposit: u64, receive: u64, bumps: MakeBumps) -> Seq<Request> {
        seq![
            Request::CreateToken { address: self.vault, mint: self.maker_mint, owner: self.escrow },
            Request::Transfer {
                from: self.maker_token,
                to: self.vault,
                authority: self.maker,
                amount: deposit,
            },
            Request::CreateRecord {
                address: self.escrow,
                record: self.record(seed, deposit, receive, bumps),
            },
        ]
    }

    /// The requests of an opening, in their order.
    pub fn plan(&self, seed: u64, deposit: u64, receive: u64, bumps: &MakeBumps) -> (plan: Vec<Request>)
        ensures
            plan@ == self.spec_plan(seed, deposit, receive, *bumps),
    {
        let record = Escrow {
            seed,
            maker: self.maker,
            maker_mint: self.maker_mint,
            taker_mint: self.taker_mint,
            deposit,
            receive,
            bump: bumps.escrow,
        };
        let mut plan: Vec<Request> = Vec::new();
        plan.push(Request::CreateToken { address: self.vault, mint: self.maker_mint, owner: self.escrow });
        plan.push(
            Request::Transfer {
                from: self.maker_token,
                to: self.vault,
                authority: self.maker,
                amount: deposit,
            },
        );
        plan.push(Request::CreateRecord { address: self.escrow, record });
        assert(plan@ =~= self.spec_plan(seed, deposit, receive, *bumps));
        plan
    }

    /// Checks the accounts and the amounts of an opening against what the
    /// searches of the record's and of the vault's seeds found, and returns
    /// the two bumps.
    pub fn validate(
        &self,
        ledger: &Ledger,
        deposit: u64,
        receive: u64,
        escrow_found: &Option<(Address, u8)>,
        vault_found: &Option<(Address, u8)>,
    ) -> (r: Result<MakeBumps, EscrowError>)
        requires
            ledger.wf(),
        ensures
            r == self.checked(ledger@.accounts, deposit, receive, *escrow_found, *vault_found),
    {
        match check_amounts(deposit, receive) {
            Ok(()) => {},
            Err(e) => { return Err(e); },
        }
        let source = match ledger.token_account(&self.maker_token) {
            Some(source) => source,
            None => { return Err(EscrowError::AccountMissing); },
        };
        if source.mint != self.maker_mint {
            return Err(EscrowError::MintMismatch);
        }
        let escrow_bump = match check_address(escrow_found, &self.escrow) {
            Ok(bump) => bump,
            Err(e) => { return Err(e); },
        };
        if ledger.get(&self.escrow).is_some() {
            return Err(EscrowError::AddressInUse);
        }
        let vault_bump = match check_address(vault_found, &self.vault) {
            Ok(bump) => bump,
            Err(e) => { return Err(e); },
        };
        if ledger.get(&self.vault).is_some() {
            return Err(EscrowError::AddressInUse);
        }
        Ok(MakeBumps { escrow: escrow_bump, vault: vault_bump })
    }

    /// Opens the vault: an empty balance of the asset offered, which only
    /// the record's address may move.
    pub fn init_vault(&self, ledger: &mut Ledger) -> (r: Result<(), EscrowError>)
        requires
            old(ledger).wf(),
        ensures
            final(ledger).wf(),
            applied(
                old(ledger)@,
                final(ledger)@,
                r,
                token_account_created(old(ledger)@, self.vault, self.maker_mint, self.escrow),
            ),
    {
        ledger.create_token_account(self.vault, self.maker_mint, self.escrow)
    }

    /// Moves `amount` from the maker's balance into the vault.
    pub fn deposit(&self, ledger: &mut Ledger, amount: u64) -> (r: Result<(), EscrowError>)
        requires
            old(ledger).wf(),
        ensures
            final(ledger).wf(),
            applied(
                old(ledger)@,
                final(ledger)@,
                r,
                transferred(old(ledger)@, self.maker_token, self.vault, self.maker, amount),
            ),
    {
        ledger.transfer(self.maker_token, self.vault, self.maker, amount)
    }

    /// Writes the record. The amount deposited is the one given here, not
    /// one read back from the vault.
    pub fn save_escrow(
        &self,
        ledger: &mut Ledger,
        seed: u64,
        deposit: u64,
        receive: u64,
        bumps: &MakeBumps,
    ) -> (r: Result<(), EscrowError>)
        requires
            old(ledger).wf(),
        ensures
            final(ledger).wf(),
            applied(
                old(ledger)@,
                final(ledger)@,
                r,
                escrow_created(old(ledger)@, self.escrow, self.record(seed, deposit, receive, *bumps)),
            ),
    {
        let record = Escrow {
            seed,
            maker: self.maker,
            maker_mint: self.maker_mint,
            taker_mint: self.taker_mint,
            deposit,
            receive,
            bump: bumps.escrow,
        };
        ledger.create_escrow(self.escrow, record)
    }
}

/// The accounts of a cancellation: the maker, the balance that takes the
/// deposit back, the record and its vault.
#[derive(Clone, Copy, Debug)]
pub struct Refund {
    /// Who cancels. The caller vouches that this principal asked for it.
    pub maker: Address,
    /// The balance that the deposit goes back to.
    pub maker_token: Address,
    /// The record.
    pub escrow: Address,
    /// The vault of the record.
    pub vault: Address,
}

impl Refund {
    /// What the checks of a cancellation give: the record and the vault as
    /// they stand, or the first complaint. The record must exist and name
    /// the caller as its maker; the destination must hold the asset
    /// offered and belong to the maker; presenting the record's seeds and
    /// bump must yield the record's address; the vault must be the one of
    /// the record.
    pub open spec fn checked(
        self,
        accounts: Map<Address, Account>,
        signer: Result<Address, SeedError>,
        vault_found: Option<(Address, u8)>,
    ) -> Result<(Escrow, TokenAccount), EscrowError> {
        match escrow_at(accounts, self.escrow) {
            None => Err(EscrowError::AccountMissing),
            Some(record) => if record.maker != self.maker {
                Err(EscrowError::Unauthorized)
            } else {
                match (token_at(accounts, self.maker_token), token_at(accounts, self.vault)) {
                    (Some(destination), Some(vault)) => if destination.mint != record.maker_mint {
                        Err(EscrowError::MintMismatch)
                    } else if destination.owner != self.maker {
                        Err(EscrowError::OwnerMismatch)
                    } else if !claims(signer, self.escrow) {
                        Err(EscrowError::SeedsMismatch)
                    } else {
                        match vault_checked(vault_found, self.escrow, self.vault, vault, record.maker_mint) {
                            Err(e) => Err(e),
                            Ok(()) => Ok((record, vault)),
                        }
                    },
                    _ => Err(EscrowError::AccountMissing),
                }
            },
        }
    }

    /// Checks the accounts of a cancellation against what presenting the
    /// record's seeds yielded and what the search of the vault's seeds
    /// found, and returns the record and the vault as they stand.
    pub fn validate(
        &self,
        ledger: &Ledger,
        signer: &Result<Address, SeedError>,
        vault_found: &Option<(Address, u8)>,
    ) -> (r: Result<(Escrow, TokenAccount), EscrowError>)
        requires
            ledger.wf(),
        ensures
            r == self.checked(ledger@.accounts, *signer, *vault_found),
    {
        let record = match ledger.escrow(&self.escrow) {
            Some(record) => record,
            None => { return Err(EscrowError::AccountMissing); },
        };
        if record.maker != self.maker {
            return Err(EscrowError::Unauthorized);
        }
        let destination = match ledger.token_account(&self.maker_token) {
            Some(destination) => destination,
            None => { return Err(EscrowError::AccountMissing); },
        };
        let vault = match ledger.token_account(&self.vault) {
            Some(vault) => vault,
            None => { return Err(EscrowError::AccountMissing); },
        };
        if destination.mint != record.maker_mint {
            return Err(EscrowError::MintMismatch);
        }
        if destination.owner != self.maker {
            return Err(EscrowError::OwnerMismatch);
        }
        match signer {
            Err(_) => { return Err(EscrowError::SeedsMismatch); },
            Ok(address) => {
                if *address != self.escrow {
                    return Err(EscrowError::SeedsMismatch);
                }
            },
        }
        match check_vault(vault_found, &self.escrow, &self.vault, &vault, &record.maker_mint) {
            Err(e) => Err(e),
            Ok(()) => Ok((record, vault)),
        }
    }

    /// The requests of a cancellation, in their order: move all that the
    /// vault was found to hold back to the maker's balance and close the
    /// vault, both on the authority of the record's address, then destroy
    /// the record. Both storage deposits go to the maker.
    pub open spec fn spec_plan(self, vault: TokenAccount) -> Seq<Request> {
        seq![
            Request::Transfer {
                from: self.vault,
                to: self.maker_token,
                authority: self.escrow,
                amount: vault.amount,
            },
            Request::CloseToken { account: self.vault, destination: self.maker, authority: self.escrow },
            Request::CloseRecord { address: self.escrow, destination: self.maker },
        ]
    }

    /// The requests of a cancellation, in their order, where the checks
    /// found the vault as `vault`.
    pub fn plan(&self, vault: &TokenAccount) -> (plan: Vec<Request>)
        ensures
            plan@ == self.spec_plan(*vault),
    {
        let mut plan: Vec<Request> = Vec::new();
        plan.push(
            Request::Transfer {
                from: self.vault,
                to: self.maker_token,
                authority: self.escrow,
                amount: vault.amount,
            },
        );
        plan.push(
            Request::CloseToken { account: self.vault, destination: self.maker, authority: self.escrow },
        );
        plan.push(Request::CloseRecord { address: self.escrow, destination: self.maker });
        assert(plan@ =~= self.spec_plan(*vault));
        plan
    }

    /// What emptying the vault back to the maker gives under the program at
    /// `program`: the seeds and the bump of the stored record are presented,
    /// all that the vault holds moves to the maker's balance on the
    /// authority of the record's address, and the vault is closed, its
    /// storage deposit going to the maker.
    pub open spec fn vault_refunded(self, program: Address, books: Books) -> Result<Books, EscrowError> {
        match (escrow_at(books.accounts, self.escrow), token_at(books.accounts, self.vault)) {
            (Some(record), Some(vault)) => vault_released(
                books,
                self.escrow,
                self.vault,
                self.maker_token,
                self.maker,
                rederived_address(spec_signer_seeds(record), program@),
                vault.amount,
            ),
            _ => Err(EscrowError::AccountMissing),
        }
    }

    /// Moves all that the vault holds back to the maker's balance and closes
    /// the vault, whose storage deposit goes to the maker. The authority
    /// is the record's address, claimed by presenting the seeds and the
    /// bump that the record stores; where they yield another address, or
    /// none, nothing moves. On an error the ledger is left as it was.
    pub fn refund_and_close_vault(&self, program_id: &Address, ledger: &mut Ledger) -> (r: Result<
        (),
        EscrowError,
    >)
        requires
            old(ledger).wf(),
        ensures
            final(ledger).wf(),
            applied(old(ledger)@, final(ledger)@, r, self.vault_refunded(*program_id, old(ledger)@)),
    {
        let record = match ledger.escrow(&self.escrow) {
            Some(record) => record,
            None => { return Err(EscrowError::AccountMissing); },
        };
        let vault = match ledger.token_account(&self.vault) {
            Some(vault) => vault,
            None => { return Err(EscrowError::AccountMissing); },
        };
        let signer = rederive_program_address(&signer_seeds(&record), program_id);
        release_vault(
            ledger,
            &self.escrow,
            &self.vault,
            &self.maker_token,
            &self.maker,
            &signer,
            vault.amount,
        )
    }
}

/// The accounts of a fulfilment: the taker, the balance that the taker pays
/// from, the balance that takes the vault's funds, the maker and the balance
/// that takes the payment, the record and its vault.
#[derive(Clone, Copy, Debug)]
pub struct Take {
    /// Who fulfils. The caller vouches that this principal asked for it.
    pub taker: Address,
    /// The balance that the payment comes from.
    pub taker_token: Address,
    /// The balance that the vault's funds go to.
    pub taker_receive_token: Address,
    /// The maker of the escrow. Nobody vouches for this one: it is held
    /// against the record.
    pub maker: Address,
    /// The maker's balance that the payment goes to.
    pub maker_receive_token: Address,
    /// The record.
    pub escrow: Address,
    /// The vault of the record.
    pub vault: Address,
}

impl Take {
    /// What the checks of a fulfilment give: the record and the vault as
    /// they stand, or the first complaint. The record must exist; the
    /// taker's two balances and the maker's balance must hold the asset
    /// types that the record names; the destination must belong to the
    /// taker and the maker's balance to the maker, who must be the one of
    /// the record; presenting the record's seeds and bump must yield the
    /// record's address; the vault must be the one of the record.
    pub open spec fn checked(
        self,
        accounts: Map<Address, Account>,
        signer: Result<Address, SeedError>,
        vault_found: Option<(Address, u8)>,
    ) -> Result<(Escrow, TokenAccount), EscrowError> {
        match escrow_at(accounts, self.escrow) {
            None => Err(EscrowError::AccountMissing),
            Some(record) => match (
                token_at(accounts, self.taker_token),
                token_at(accounts, self.taker_receive_token),
                token_at(accounts, self.maker_receive_token),
                token_at(accounts, self.vault),
            ) {
                (Some(payment), Some(destination), Some(proceeds), Some(vault)) => if payment.mint
                    != record.taker_mint {
                    Err(EscrowError::MintMismatch)
                } else if destination.mint != record.maker_mint {
                    Err(EscrowError::MintMismatch)
                } else if destination.owner != self.taker {
                    Err(EscrowError::OwnerMismatch)
                } else if proceeds.mint != record.taker_mint {
                    Err(EscrowError::MintMismatch)
                } else if proceeds.owner != self.maker {
                    Err(EscrowError::OwnerMismatch)
                } else if record.maker != self.maker {
                    Err(EscrowError::MakerMismatch)
                } else if !claims(signer, self.escrow) {
                    Err(EscrowError::SeedsMismatch)
                } else {
                    match vault_checked(vault_found, self.escrow, self.vault, vault, record.maker_mint) {
                        Err(e) => Err(e),
                        Ok(()) => Ok((record, vault)),
                    }
                },
                _ => Err(EscrowError::AccountMissing),
            },
        }
    }

    /// Checks the accounts of a fulfilment against what presenting the
    /// record's seeds yielded and what the search of the vault's seeds
    /// found, and returns the record and the vault as they stand.
    pub fn validate(
        &self,
        ledger: &Ledger,
        signer: &Result<Address, SeedError>,
        vault_found: &Option<(Address, u8)>,
    ) -> (r: Result<(Escrow, TokenAccount), EscrowError>)
        requires
            ledger.wf(),
        ensures
            r == self.checked(ledger@.accounts, *signer, *vault_found),
    {
        let record = match ledger.escrow(&self.escrow) {
            Some(record) => record,
            None => { return Err(EscrowError::AccountMissing); },
        };
        let payment = match ledger.token_account(&self.taker_token) {
            Some(payment) => payment,
            None => { return Err(EscrowError::AccountMissing); },
        };
        let destination = match ledger.token_account(&self.taker_receive_token) {
            Some(destination) => destination,
            None => { return Err(EscrowError::AccountMissing); },
        };
        let proceeds = match ledger.token_account(&self.maker_receive_token) {
            Some(proceeds) => proceeds,
            None => { return Err(EscrowError::AccountMissing); },
        };
        let vault = match ledger.token_account(&self.vault) {
            Some(vault) => vault,
            None => { return Err(EscrowError::AccountMissing); },
        };
        if payment.mint != record.taker_mint {
            return Err(EscrowError::MintMismatch);
        }
        if destination.mint != record.maker_mint {
            return Err(EscrowError::MintMismatch);
        }
        if destination.owner != self.taker {
            return Err(EscrowError::OwnerMismatch);
        }
        if proceeds.mint != record.taker_mint {
            return Err(EscrowError::MintMismatch);
        }
        if proceeds.owner != self.maker {
            return Err(EscrowError::OwnerMismatch);
        }
        if record.maker != self.maker {
            return Err(EscrowError::MakerMismatch);
        }
        match signer {
            Err(_) => { return Err(EscrowError::SeedsMismatch); },
            Ok(address) => {
                if *address != self.escrow {
                    return Err(EscrowError::SeedsMismatch);
                }
            },
        }
        match check_vault(vault_found, &self.escrow, &self.vault, &vault, &record.maker_mint) {
            Err(e) => Err(e),
            Ok(()) => Ok((record, vault)),
        }
    }

    /// What paying the maker gives: the amount that the record asks for
    /// moves from the taker's balance to the maker's.
    pub open spec fn paid(self, books: Books) -> Result<Books, EscrowError> {
        match escrow_at(books.accounts, self.escrow) {
            None => Err(EscrowError::AccountMissing),
            Some(record) => transferred(
                books,
                self.taker_token,
                self.maker_receive_token,
                self.taker,
                record.receive,
            ),
        }
    }

    /// Pays the maker: moves the amount that the record asks for from the
    /// taker's balance to the maker's, on the taker's word.
    pub fn deposit(&self, ledger: &mut Ledger) -> (r: Result<(), EscrowError>)
        requires
            old(ledger).wf(),
        ensures
            final(ledger).wf(),
            applied(old(ledger)@, final(ledger)@, r, self.paid(old(ledger)@)),
    {
        let record = match ledger.escrow(&self.escrow) {
            Some(record) => record,
            None => { return Err(EscrowError::AccountMissing); },
        };
        ledger.transfer(self.taker_token, self.maker_receive_token, self.taker, record.receive)
    }

    /// The requests of a fulfilment, in their order: pay the maker what the
    /// record asks for, on the taker's word; move all that the vault was
    /// found to hold to the taker's balance and close the vault, both on the
    /// authority of the record's address; then destroy the record. Both
    /// storage deposits go to the maker.
    pub open spec fn spec_plan(self, record: Escrow, vault: TokenAccount) -> Seq<Request> {
        seq![
            Request::Transfer {
                from: self.taker_token,
                to: self.maker_receive_token,
                authority: self.taker,
                amount: record.receive,
            },
            Request::Transfer {
                from: self.vault,
                to: self.taker_receive_token,
                authority: self.escrow,
                amount: vault.amount,
            },
            Request::CloseToken { account: self.vault, destination: self.maker, authority: self.escrow },
            Request::CloseRecord { address: self.escrow, destination: self.maker },
        ]
    }

    /// The requests of a fulfilment, in their order, where the checks found
    /// the record as `record` and the vault as `vault`.
    pub fn plan(&self, record: &Escrow, vault: &TokenAccount) -> (plan: Vec<Request>)
        ensures
            plan@ == self.spec_plan(*record, *vault),
    {
        let mut plan: Vec<Request> = Vec::new();
        plan.push(
            Request::Transfer {
                from: self.taker_token,
                to: self.maker_receive_token,
                authority: self.taker,
                amount: record.receive,
            },
        );
        plan.push(
            Request::Transfer {
                from: self.vault,
                to: self.taker_receive_token,
                authority: self.escrow,
                amount: vault.amount,
            },
        );
        plan.push(
            Request::CloseToken { account: self.vault, destination: self.maker, authority: self.escrow },
        );
        plan.push(Request::CloseRecord { address: self.escrow, destination: self.maker });
        assert(plan@ =~= self.spec_plan(*record, *vault));
        plan
    }

    /// What emptying the vault to the taker gives under the program at
    /// `program`: the seeds and the bump of the stored record are presented,
    /// all that the vault holds moves to the taker's balance on the
    /// authority of the record's address, and the vault is closed, its
    /// storage deposit going to the maker.
    pub open spec fn vault_withdrawn(self, program: Address, books: Books) -> Result<Books, EscrowError> {
        match (escrow_at(books.accounts, self.escrow), token_at(books.accounts, self.vault)) {
            (Some(record), Some(vault)) => vault_released(
                books,
                self.escrow,
                self.vault,
                self.taker_receive_token,
                self.maker,
                rederived_address(spec_signer_seeds(record), program@),
                vault.amount,
            ),
            _ => Err(EscrowError::AccountMissing),
        }
    }

    /// Moves all that the vault holds to the taker's balance and closes the
    /// vault, whose storage deposit goes to the maker. The authority is the
    /// record's address, claimed by presenting the seeds and the bump that
    /// the record stores; where they yield another address, or none,
    /// nothing moves. On an error the ledger is left as it was.
    pub fn withdraw_and_close_vault(&self, program_id: &Address, ledger: &mut Ledger) -> (r: Result<
        (),
        EscrowError,
    >)
        requires
            old(ledger).wf(),
        ensures
            final(ledger).wf(),
            applied(old(ledger)@, final(ledger)@, r, self.vault_withdrawn(*program_id, old(ledger)@)),
    {
        let record = match ledger.escrow(&self.escrow) {
            Some(record) => record,
            None => { return Err(EscrowError::AccountMissing); },
        };
        let vault = match ledger.token_account(&self.vault) {
            Some(vault) => vault,
            None => { return Err(EscrowError::AccountMissing); },
        };
        let signer = rederive_program_address(&signer_seeds(&record), program_id);
        release_vault(
            ledger,
            &self.escrow,
            &self.vault,
            &self.taker_receive_token,
            &self.maker,
            &signer,
            vault.amount,
        )
    }
}

} // verus!
