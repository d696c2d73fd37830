//! A mock fungible token with a minimal allowance surface.
//!
//! Fills the gap between the bare [`MockToken`](super::token::MockToken) and a
//! full SAC-style mock: it adds `approve` / `allowance` / `transfer_from` so
//! spender flows (routers, vaults, payment pullers) can be tested. No events,
//! decimals, or allowance expiry.
//!
//! ## Allowance semantics
//! - `approve(from, spender, amount)` sets (overwrites) the allowance and
//!   needs `from`'s authorization.
//! - `transfer_from(spender, from, to, amount)` needs `spender`'s
//!   authorization, decrements the allowance, and moves the balance.
//! - Spending more than the allowance fails with `InsufficientAllowance`;
//!   spending more than the balance fails with `InsufficientBalance`.

use vstd::prelude::*;
use crate::address::{Address, Auth};
use crate::mocks::allowance::{
    approve_outcome, transfer_from_outcome, transferred_from, AllowanceLedger,
    AllowanceLedgerView,
};
use crate::mocks::ledger::{init_outcome, mint_outcome, minted, TokenError};

verus! {

/// A mock fungible token with allowances.
pub struct MockAllowanceToken {
    state: AllowanceLedger,
}

impl View for MockAllowanceToken {
    type V = AllowanceLedgerView;

    open spec fn view(&self) -> AllowanceLedgerView {
        self.state_view()
    }
}

impl MockAllowanceToken {
    /// The token's stored state.
    pub closed spec fn state_view(&self) -> AllowanceLedgerView {
        self.state@
    }

    /// The internal bookkeeping is consistent.
    pub closed spec fn wf(&self) -> bool {
        self.state.wf()
    }

    /// A freshly registered token: no admin, balances or allowances.
    pub fn new() -> (t: Self)
        ensures
            t.wf(),
            t@.ledger.admin is None,
            t@.ledger.balances == Map::<Seq<u8>, i128>::empty(),
            t@.ledger.supply == 0,
            t@.allowances == Map::<(Seq<u8>, Seq<u8>), i128>::empty(),
    {
        MockAllowanceToken { state: AllowanceLedger::new() }
    }

    /// One-time setup. `admin` is the only address allowed to `mint`.
    pub fn init(&mut self, admin: &Address) -> (r: Result<(), TokenError>)
        requires
            old(self).wf(),
        ensures
            final(self).wf(),
            r == init_outcome(old(self)@.ledger),
            r is Ok ==> final(self)@ == old(self)@.with_ledger(old(self)@.ledger.with_admin(admin@)),
            r is Err ==> final(self)@ == old(self)@,
    {
        self.state.init(admin)
    }

    /// Mint `amount` of the token to `to`. Admin-only.
    pub fn mint(&mut self, to: &Address, amount: i128, auth: &Auth) -> (r: Result<(), TokenError>)
        requires
            old(self).wf(),
        ensures
            final(self).wf(),
            r == mint_outcome(old(self)@.ledger, to@, amount as int, auth@),
            r is Ok ==> final(self)@ == old(self)@.with_ledger(
                minted(old(self)@.ledger, to@, amount as int),
            ),
            r is Ok ==> final(self)@.ledger.supply == old(self)@.ledger.supply + amount,
            r is Ok && old(self)@.ledger.balances_nonnegative()
                ==> final(self)@.ledger.balances_nonnegative(),
            r is Err ==> final(self)@ == old(self)@,
    {
        self.state.mint(to, amount, auth)
    }

    /// Set `spender`'s allowance over `from`'s balance to `amount`
    /// (overwrite). Requires `from`'s authorization.
    pub fn approve(&mut self, from: &Address, spender: &Address, amount: i128, auth: &Auth) -> (r:
        Result<(), TokenError>)
        requires
            old(self).wf(),
        ensures
            final(self).wf(),
            r == approve_outcome(from@, amount as int, auth@),
            r is Ok ==> final(self)@ == old(self)@.with_allowance(from@, spender@, amount),
            r is Err ==> final(self)@ == old(self)@,
    {
        self.state.approve(from, spender, amount, auth)
    }

    /// Read `spender`'s remaining allowance over `from`. `0` if never set.
    pub fn allowance(&self, from: &Address, spender: &Address) -> (r: i128)
        requires
            self.wf(),
        ensures
            r == self@.allowance(from@, spender@),
    {
        self.state.allowance(from, spender)
    }

    /// Move `amount` from `from` to `to`, spending `spender`'s allowance.
    /// Requires `spender`'s authorization.
    pub fn transfer_from(
        &mut self,
        spender: &Address,
        from: &Address,
        to: &Address,
        amount: i128,
        auth: &Auth,
    ) -> (r: Result<(), TokenError>)
        requires
            old(self).wf(),
        ensures
            final(self).wf(),
            r == transfer_from_outcome(old(self)@, spender@, from@, to@, amount as int, auth@),
            r is Ok ==> final(self)@ == transferred_from(
                old(self)@,
                spender@,
                from@,
                to@,
                amount as int,
            ),
            r is Ok ==> final(self)@.ledger.supply == old(self)@.ledger.supply,
            r is Ok ==> final(self)@.allowance(from@, spender@) == old(self)@.allowance(
                from@,
                spender@,
            ) - amount,
            r is Ok && old(self)@.ledger.balances_nonnegative()
                ==> final(self)@.ledger.balances_nonnegative(),
            r is Err ==> final(self)@ == old(self)@,
    {
        self.state.transfer_from(spender, from, to, amount, auth)
    }

    /// Store `amount` as `id`'s balance entry, as it stands in contract
    /// storage; used to bring stored entries into the model.
    pub fn load_balance(&mut self, id: &Address, amount: i128)
        requires
            old(self).wf(),
        ensures
            final(self).wf(),
            final(self)@ == old(self)@.with_ledger(old(self)@.ledger.with_balance(id@, amount)),
    {
        self.state.load_balance(id, amount);
    }

    /// Store `amount` as `spender`'s allowance entry over `from`, as it
    /// stands in contract storage.
    pub fn load_allowance(&mut self, from: &Address, spender: &Address, amount: i128)
        requires
            old(self).wf(),
        ensures
            final(self).wf(),
            final(self)@ == old(self)@.with_allowance(from@, spender@, amount),
    {
        self.state.load_allowance(from, spender, amount);
    }

    /// Read `id`'s balance. Returns `0` for an unknown address.
    pub fn balance(&self, id: &Address) -> (r: i128)
        requires
            self.wf(),
        ensures
            r == self@.ledger.balance(id@),
    {
        self.state.balance(id)
    }
}

} // verus!
