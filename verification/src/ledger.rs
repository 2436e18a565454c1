//! The shared ledger: the balances of every asset and the escrow records,
//! each under its address, and the native funds that every address holds.
//!
//! The ledger moves funds only for the authority that a balance names, never
//! creates two accounts at one address, and either applies a request whole or
//! rejects it and changes nothing. The native funds at the address of an
//! account are its storage deposit: closing the account hands them to the
//! destination that the request names.
use crate::address::Address;
use crate::error::EscrowError;
use crate::state::Escrow;
use crate::store::Store;
use vstd::prelude::*;

verus! {

/// A balance of one asset type.
#[derive(Clone, Copy, Debug, PartialEq, Eq)]
pub struct TokenAccount {
    /// The asset type that the balance holds.
    pub mint: Address,
    /// The authority that may move funds out of the balance.
    pub owner: Address,
    /// How much the balance holds.
    pub amount: u64,
}

/// What lives at an address.
#[derive(Clone, Copy, Debug, PartialEq, Eq)]
pub enum Account {
    /// A balance.
    Token(TokenAccount),
    /// An escrow record.
    Escrow(Escrow),
}

/// What the ledger holds: the account at each address in use, and the
/// native funds at each address that has any.
pub ghost struct Books {
    /// The account that lives at each address in use.
    pub accounts: Map<Address, Account>,
    /// The native funds at each address; an address that is missing here
    /// holds none.
    pub native: Map<Address, u64>,
}

/// The ledger. Its view is what it holds.
pub struct Ledger {
    accounts: Store<Account>,
    native: Store<u64>,
}

/// The balance at the address, if a balance lives there.
pub open spec fn token_at(accounts: Map<Address, Account>, address: Address) -> Option<TokenAccount> {
    if accounts.dom().contains(address) {
        match accounts[address] {
            Account::Token(t) => Some(t),
            Account::Escrow(_) => None,
        }
    } else {
        None
    }
}

/// The escrow record at the address, if a record lives there.
pub open spec fn escrow_at(accounts: Map<Address, Account>, address: Address) -> Option<Escrow> {
    if accounts.dom().contains(address) {
        match accounts[address] {
            Account::Token(_) => None,
            Account::Escrow(e) => Some(e),
        }
    } else {
        None
    }
}

/// The native funds at the address.
pub open spec fn native_at(native: Map<Address, u64>, address: Address) -> u64 {
    if native.dom().contains(address) {
        native[address]
    } else {
        0
    }
}

/// A request was applied as `expected` says: it succeeded and left what
/// `expected` holds, or it was rejected with the error that `expected` holds
/// and left everything as it was.
pub open spec fn applied(
    before: Books,
    after: Books,
    r: Result<(), EscrowError>,
    expected: Result<Books, EscrowError>,
) -> bool {
    match expected {
        Ok(books) => r is Ok && after == books,
        Err(e) => r == Err::<(), EscrowError>(e) && after == before,
    }
}

/// What opening a balance at `address` gives: an empty balance of `mint`
/// that `owner` may move, unless the address is in use.
pub open spec fn token_account_created(books: Books, address: Address, mint: Address, owner: Address) -> Result<
    Books,
    EscrowError,
> {
    if books.accounts.dom().contains(address) {
        Err(EscrowError::AddressInUse)
    } else {
        Ok(
            Books {
                accounts: books.accounts.insert(
                    address,
                    Account::Token(TokenAccount { mint, owner, amount: 0 }),
                ),
                ..books
            },
        )
    }
}

/// What issuing `amount` to the balance at `address` gives.
pub open spec fn minted(books: Books, address: Address, amount: u64) -> Result<Books, EscrowError> {
    match token_at(books.accounts, address) {
        None => Err(EscrowError::AccountMissing),
        Some(t) => if t.amount + amount > u64::MAX {
            Err(EscrowError::Overflow)
        } else {
            Ok(
                Books {
                    accounts: books.accounts.insert(
                        address,
                        Account::Token(TokenAccount { amount: (t.amount + amount) as u64, ..t }),
                    ),
                    ..books
                },
            )
        },
    }
}

/// What handing `amount` of native funds to `address` gives.
pub open spec fn funded(books: Books, address: Address, amount: u64) -> Result<Books, EscrowError> {
    if native_at(books.native, address) + amount > u64::MAX {
        Err(EscrowError::Overflow)
    } else {
        Ok(
            Books {
                native: books.native.insert(address, (native_at(books.native, address) + amount) as u64),
                ..books
            },
        )
    }
}

/// What moving `amount` from the balance at `from` to the balance at `to`
/// gives, when `authority` asks for it. Both must be balances of one asset
/// type, `from` must hold the amount and name `authority` as its owner, and
/// `to` must be able to hold it. A move from a balance to itself that passes
/// these tests changes nothing.
pub open spec fn transferred(
    books: Books,
    from: Address,
    to: Address,
    authority: Address,
    amount: u64,
) -> Result<Books, EscrowError> {
    match (token_at(books.accounts, from), token_at(books.accounts, to)) {
        (Some(source), Some(destination)) => if source.amount < amount {
            Err(EscrowError::InsufficientFunds)
        } else if source.mint != destination.mint {
            Err(EscrowError::MintMismatch)
        } else if source.owner != authority {
            Err(EscrowError::OwnerMismatch)
        } else if from == to {
            Ok(books)
        } else if destination.amount + amount > u64::MAX {
            Err(EscrowError::Overflow)
        } else {
            Ok(
                Books {
                    accounts: books.accounts.insert(
                        from,
                        Account::Token(TokenAccount { amount: (source.amount - amount) as u64, ..source }),
                    ).insert(
                        to,
                        Account::Token(
                            TokenAccount { amount: (destination.amount + amount) as u64, ..destination },
                        ),
                    ),
                    ..books
                },
            )
        },
        _ => Err(EscrowError::AccountMissing),
    }
}

/// The native funds after all that `from` held went to `to`.
pub open spec fn deposit_moved(native: Map<Address, u64>, from: Address, to: Address) -> Map<Address, u64> {
    native.insert(to, (native_at(native, to) + native_at(native, from)) as u64).remove(from)
}

/// What destroying the account at `address` gives, once the account's own
/// tests have passed: the account is gone and its storage deposit has gone
/// to `destination`, which must be another address and able to hold it.
pub open spec fn account_closed(books: Books, address: Address, destination: Address) -> Result<
    Books,
    EscrowError,
> {
    if destination == address {
        Err(EscrowError::InvalidDestination)
    } else if native_at(books.native, destination) + native_at(books.native, address) > u64::MAX {
        Err(EscrowError::Overflow)
    } else {
        Ok(
            Books {
                accounts: books.accounts.remove(address),
                native: deposit_moved(books.native, address, destination),
            },
        )
    }
}

/// What closing the balance at `address` gives, when `authority` asks for
/// it: the balance must be empty and name `authority` as its owner, and its
/// storage deposit goes to `destination`.
pub open spec fn token_account_closed(
    books: Books,
    address: Address,
    destination: Address,
    authority: Address,
) -> Result<Books, EscrowError> {
    match token_at(books.accounts, address) {
        None => Err(EscrowError::AccountMissing),
        Some(t) => if t.amount != 0 {
            Err(EscrowError::NonZeroBalance)
        } else if t.owner != authority {
            Err(EscrowError::OwnerMismatch)
        } else {
            account_closed(books, address, destination)
        },
    }
}

/// What storing the record at `address` gives, unless the address is in use.
pub open spec fn escrow_created(books: Books, address: Address, record: Escrow) -> Result<Books, EscrowError> {
    if books.accounts.dom().contains(address) {
        Err(EscrowError::AddressInUse)
    } else {
        Ok(Books { accounts: books.accounts.insert(address, Account::Escrow(record)), ..books })
    }
}

/// What destroying the record at `address` gives: its storage deposit goes
/// to `destination`.
pub open spec fn escrow_closed(books: Books, address: Address, destination: Address) -> Result<
    Books,
    EscrowError,
> {
    match escrow_at(books.accounts, address) {
        None => Err(EscrowError::AccountMissing),
        Some(_) => account_closed(books, address, destination),
    }
}

impl View for Ledger {
    type V = Books;

    closed spec fn view(&self) -> Books {
        Books { accounts: self.accounts@, native: self.native@ }
    }
}

impl Ledger {
    /// No address holds two accounts or two native balances. Every ledger
    /// that this module hands out is well formed, and every request keeps
    /// it so.
    pub closed spec fn wf(&self) -> bool {
        self.accounts.wf() && self.native.wf()
    }

    /// A ledger without accounts and without native funds.
    pub fn new() -> (ledger: Ledger)
        ensures
            ledger.wf(),
            ledger@ == (Books {
                accounts: Map::<Address, Account>::empty(),
                native: Map::<Address, u64>::empty(),
            }),
    {
        Ledger { accounts: Store::new(), native: Store::new() }
    }

    /// The account that lives at the address, if any.
    pub fn get(&self, address: &Address) -> (r: Option<Account>)
        requires
            self.wf(),
        ensures
            r == (if self@.accounts.dom().contains(*address) {
                Some(self@.accounts[*address])
            } else {
                None
            }),
    {
        self.accounts.get(address)
    }

    /// The balance that lives at the address, if one does.
    pub fn token_account(&self, address: &Address) -> (r: Option<TokenAccount>)
        requires
            self.wf(),
        ensures
            r == token_at(self@.accounts, *address),
    {
        match self.accounts.get(address) {
            Some(Account::Token(t)) => Some(t),
            _ => None,
        }
    }

    /// The escrow record that lives at the address, if one does.
    pub fn escrow(&self, address: &Address) -> (r: Option<Escrow>)
        requires
            self.wf(),
        ensures
            r == escrow_at(self@.accounts, *address),
    {
        match self.accounts.get(address) {
            Some(Account::Escrow(e)) => Some(e),
            _ => None,
        }
    }

    /// The native funds at the address.
    pub fn native_balance(&self, address: &Address) -> (r: u64)
        requires
            self.wf(),
        ensures
            r == native_at(self@.native, *address),
    {
        match self.native.get(address) {
            Some(held) => held,
            None => 0,
        }
    }

    /// A copy of the ledger as it stands.
    pub fn snapshot(&self) -> (copy: Ledger)
        requires
            self.wf(),
        ensures
            copy.wf(),
            copy@ == self@,
    {
        Ledger { accounts: self.accounts.snapshot(), native: self.native.snapshot() }
    }

    /// Opens an empty balance of `mint` at `address`, with `owner` as the
    /// authority that may move its funds.
    pub fn create_token_account(&mut self, address: Address, mint: Address, owner: Address) -> (r: Result<
        (),
        EscrowError,
    >)
        requires
            old(self).wf(),
        ensures
            final(self).wf(),
            applied(old(self)@, final(self)@, r, token_account_created(old(self)@, address, mint, owner)),
    {
        if self.accounts.get(&address).is_some() {
            return Err(EscrowError::AddressInUse);
        }
        self.accounts.set(address, Account::Token(TokenAccount { mint, owner, amount: 0 }));
        Ok(())
    }

    /// Issues `amount` to the balance at `address`.
    pub fn mint_to(&mut self, address: Address, amount: u64) -> (r: Result<(), EscrowError>)
        requires
            old(self).wf(),
        ensures
            final(self).wf(),
            applied(old(self)@, final(self)@, r, minted(old(self)@, address, amount)),
    {
        let t = match self.token_account(&address) {
            Some(t) => t,
            None => { return Err(EscrowError::AccountMissing); },
        };
        if amount > u64::MAX - t.amount {
            return Err(EscrowError::Overflow);
        }
        self.accounts.set(
            address,
            Account::Token(TokenAccount { mint: t.mint, owner: t.owner, amount: t.amount + amount }),
        );
        Ok(())
    }

    /// Hands `amount` of native funds to `address`.
    pub fn fund(&mut self, address: Address, amount: u64) -> (r: Result<(), EscrowError>)
        requires
            old(self).wf(),
        ensures
            final(self).wf(),
            applied(old(self)@, final(self)@, r, funded(old(self)@, address, amount)),
    {
        let held = self.native_balance(&address);
        if amount > u64::MAX - held {
            return Err(EscrowError::Overflow);
        }
        self.native.set(address, held + amount);
        Ok(())
    }

    /// Moves `amount` from the balance at `from` to the balance at `to`, on
    /// the word of `authority`.
    pub fn transfer(&mut self, from: Address, to: Address, authority: Address, amount: u64) -> (r: Result<
        (),
        EscrowError,
    >)
        requires
            old(self).wf(),
        ensures
            final(self).wf(),
            applied(old(self)@, final(self)@, r, transferred(old(self)@, from, to, authority, amount)),
    {
        let source = match self.token_account(&from) {
            Some(t) => t,
            None => { return Err(EscrowError::AccountMissing); },
        };
        let destination = match self.token_account(&to) {
            Some(t) => t,
            None => { return Err(EscrowError::AccountMissing); },
        };
        if source.amount < amount {
            return Err(EscrowError::InsufficientFunds);
        }
        if source.mint != destination.mint {
            return Err(EscrowError::MintMismatch);
        }
        if source.owner != authority {
            return Err(EscrowError::OwnerMismatch);
        }
        if from == to {
            return Ok(());
        }
        if amount > u64::MAX - destination.amount {
            return Err(EscrowError::Overflow);
        }
        self.accounts.set(
            from,
            Account::Token(
                TokenAccount { mint: source.mint, owner: source.owner, amount: source.amount - amount },
            ),
        );
        self.accounts.set(
            to,
            Account::Token(
                TokenAccount {
                    mint: destination.mint,
                    owner: destination.owner,
                    amount: destination.amount + amount,
                },
            ),
        );
        Ok(())
    }

    fn close_account(&mut self, address: Address, destination: Address) -> (r: Result<(), EscrowError>)
        requires
            old(self).wf(),
        ensures
            final(self).wf(),
            applied(old(self)@, final(self)@, r, account_closed(old(self)@, address, destination)),
    {
        if destination == address {
            return Err(EscrowError::InvalidDestination);
        }
        let deposit = self.native_balance(&address);
        let held = self.native_balance(&destination);
        if deposit > u64::MAX - held {
            return Err(EscrowError::Overflow);
        }
        self.accounts.remove(&address);
        self.native.set(destination, held + deposit);
        self.native.remove(&address);
        Ok(())
    }

    /// Closes the empty balance at `address`, on the word of `authority`,
    /// and hands its storage deposit to `destination`.
    pub fn close_token_account(
        &mut self,
        address: Address,
        destination: Address,
        authority: Address,
    ) -> (r: Result<(), EscrowError>)
        requires
            old(self).wf(),
        ensures
            final(self).wf(),
            applied(
                old(self)@,
                final(self)@,
                r,
                token_account_closed(old(self)@, address, destination, authority),
            ),
    {
        let t = match self.token_account(&address) {
            Some(t) => t,
            None => { return Err(EscrowError::AccountMissing); },
        };
        if t.amount != 0 {
            return Err(EscrowError::NonZeroBalance);
        }
        if t.owner != authority {
            return Err(EscrowError::OwnerMismatch);
        }
        self.close_account(address, destination)
    }

    /// Stores the record at `address`.
    pub(crate) fn create_escrow(&mut self, address: Address, record: Escrow) -> (r: Result<(), EscrowError>)
        requires
            old(self).wf(),
        ensures
            final(self).wf(),
            applied(old(self)@, final(self)@, r, escrow_created(old(self)@, address, record)),
    {
        if self.accounts.get(&address).is_some() {
            return Err(EscrowError::AddressInUse);
        }
        self.accounts.set(address, Account::Escrow(record));
        Ok(())
    }

    /// Destroys the record at `address` and hands its storage deposit to
    /// `destination`.
    pub(crate) fn close_escrow(&mut self, address: Address, destination: Address) -> (r: Result<
        (),
        EscrowError,
    >)
        requires
            old(self).wf(),
        ensures
            final(self).wf(),
            applied(old(self)@, final(self)@, r, escrow_closed(old(self)@, address, destination)),
    {
        if self.escrow(&address).is_none() {
            return Err(EscrowError::AccountMissing);
        }
        self.close_account(address, destination)
    }
}

} // verus!
