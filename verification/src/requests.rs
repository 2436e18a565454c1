//! The requests that an operation makes of the ledger, as plain values.
//!
//! A caller that keeps the ledger elsewhere asks an operation for its plan
//! and makes the requests itself, in their order. What the plan gives when
//! it is applied to this crate's ledger is what the operation gives.
use crate::address::Address;
use crate::error::EscrowError;
use crate::ledger::applied;
use crate::ledger::escrow_closed;
use crate::ledger::escrow_created;
use crate::ledger::token_account_closed;
use crate::ledger::token_account_created;
use crate::ledger::transferred;
use crate::ledger::Books;
use crate::ledger::Ledger;
use crate::state::Escrow;
use vstd::prelude::*;

verus! {

/// One request to the ledger.
#[derive(Clone, Copy, Debug, PartialEq, Eq)]
pub enum Request {
    /// Open an empty balance of `mint` at `address`, which `owner` may move.
    CreateToken { address: Address, mint: Address, owner: Address },
    /// Move `amount` from the balance at `from` to the balance at `to`, on
    /// the word of `authority`.
    Transfer { from: Address, to: Address, authority: Address, amount: u64 },
    /// Close the empty balance at `account`, on the word of `authority`,
    /// and hand its storage deposit to `destination`.
    CloseToken { account: Address, destination: Address, authority: Address },
    /// Store `record` at `address`.
    CreateRecord { address: Address, record: Escrow },
    /// Destroy the record at `address` and hand its storage deposit to
    /// `destination`.
    CloseRecord { address: Address, destination: Address },
}

/// What the request gives.
pub open spec fn request_applied(books: Books, request: Request) -> Result<Books, EscrowError> {
    match request {
        Request::CreateToken { address, mint, owner } => token_account_created(books, address, mint, owner),
        Request::Transfer { from, to, authority, amount } => transferred(books, from, to, authority, amount),
        Request::CloseToken { account, destination, authority } => token_account_closed(
            books,
            account,
            destination,
            authority,
        ),
        Request::CreateRecord { address, record } => escrow_created(books, address, record),
        Request::CloseRecord { address, destination } => escrow_closed(books, address, destination),
    }
}

/// What the requests give when they are made in their order: what the last
/// one leaves, or the first error.
pub open spec fn plan_applied(books: Books, plan: Seq<Request>) -> Result<Books, EscrowError>
    decreases plan.len(),
{
    if plan.len() == 0 {
        Ok(books)
    } else {
        match request_applied(books, plan.first()) {
            Err(e) => Err(e),
            Ok(next) => plan_applied(next, plan.drop_first()),
        }
    }
}

/// Makes one request of the ledger.
pub fn apply(ledger: &mut Ledger, request: &Request) -> (r: Result<(), EscrowError>)
    requires
        old(ledger).wf(),
    ensures
        final(ledger).wf(),
        applied(old(ledger)@, final(ledger)@, r, request_applied(old(ledger)@, *request)),
{
    match request {
        Request::CreateToken { address, mint, owner } => ledger.create_token_account(*address, *mint, *owner),
        Request::Transfer { from, to, authority, amount } => ledger.transfer(*from, *to, *authority, *amount),
        Request::CloseToken { account, destination, authority } => ledger.close_token_account(
            *account,
            *destination,
            *authority,
        ),
        Request::CreateRecord { address, record } => ledger.create_escrow(*address, *record),
        Request::CloseRecord { address, destination } => ledger.close_escrow(*address, *destination),
    }
}

/// Makes the requests of the ledger in their order, all or none: on an
/// error the ledger is left as it was.
pub fn apply_plan(ledger: &mut Ledger, plan: &Vec<Request>) -> (r: Result<(), EscrowError>)
    requires
        old(ledger).wf(),
    ensures
        final(ledger).wf(),
        applied(old(ledger)@, final(ledger)@, r, plan_applied(old(ledger)@, plan@)),
{
    let saved = ledger.snapshot();
    let mut i: usize = 0;
    assert(plan@.subrange(0, plan@.len() as int) =~= plan@);
    while i < plan.len()
        invariant
            i <= plan@.len(),
            ledger.wf(),
            saved.wf(),
            saved@ == old(ledger)@,
            plan_applied(old(ledger)@, plan@) == plan_applied(
                ledger@,
                plan@.subrange(i as int, plan@.len() as int),
            ),
        decreases plan@.len() - i,
    {
        let ghost rest = plan@.subrange(i as int, plan@.len() as int);
        assert(rest.first() == plan@[i as int]);
        assert(rest.drop_first() =~= plan@.subrange(i + 1, plan@.len() as int));
        match apply(ledger, &plan[i]) {
            Ok(()) => {},
            Err(e) => {
                *ledger = saved;
                return Err(e);
            },
        }
        i += 1;
    }
    assert(plan@.subrange(i as int, plan@.len() as int).len() == 0);
    Ok(())
}

} // verus!
