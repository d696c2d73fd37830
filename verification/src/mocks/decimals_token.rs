//! A mock fungible token exposing a fixed `decimals()`.
//!
//! Mirrors the bare [`MockToken`](super::token::MockToken) and adds a constant
//! `decimals()` ([`DECIMALS`], `2`), chosen to differ from the typical Stellar
//! `7` so scaling bugs are easy to spot. `admin` may `mint`; `transfer` needs the
//! payer's authorization; an address never credited has balance `0`.

use vstd::prelude::*;
use crate::address::{Address, Auth};
use crate::mocks::ledger::{
    init_outcome, mint_outcome, minted, moved, transfer_outcome, LedgerView, TokenError,
    TokenLedger,
};

verus! {

/// Fixed decimals reported by this mock.
pub const DECIMALS: u32 = 2;

/// A mock fungible token with fixed decimals.
pub struct MockDecimalsToken {
    ledger: TokenLedger,
}

impl View for MockDecimalsToken {
    type V = LedgerView;

    open spec fn view(&self) -> LedgerView {
        self.ledger_view()
    }
}

impl MockDecimalsToken {
    /// The token's stored state.
    pub closed spec fn ledger_view(&self) -> LedgerView {
        self.ledger@
    }

    /// The internal bookkeeping is consistent.
    pub closed spec fn wf(&self) -> bool {
        self.ledger.wf()
    }

    /// A freshly registered token: no admin, no balances.
    pub fn new() -> (t: MockDecimalsToken)
        ensures
            t.wf(),
            t@.admin is None,
            t@.balances == Map::<Seq<u8>, i128>::empty(),
            t@.supply == 0,
    {
        MockDecimalsToken { ledger: TokenLedger::new() }
    }

    /// One-time setup. `admin` is the only address allowed to `mint`.
    pub fn init(&mut self, admin: &Address) -> (r: Result<(), TokenError>)
        requires
            old(self).wf(),
        ensures
            final(self).wf(),
            r == init_outcome(old(self)@),
            r is Ok ==> final(self)@ == old(self)@.with_admin(admin@),
            r is Err ==> final(self)@ == old(self)@,
    {
        self.ledger.init(admin)
    }

    /// Mint `amount` of the token to `to`. Admin-only.
    pub fn mint(&mut self, to: &Address, amount: i128, auth: &Auth) -> (r: Result<(), TokenError>)
        requires
            old(self).wf(),
        ensures
            final(self).wf(),
            r == mint_outcome(old(self)@, to@, amount as int, auth@),
            r is Ok ==> final(self)@ == minted(old(self)@, to@, amount as int),
            r is Ok ==> final(self)@.supply == old(self)@.supply + amount,
            r is Ok && old(self)@.balances_nonnegative() ==> final(self)@.balances_nonnegative(),
            r is Err ==> final(self)@ == old(self)@,
    {
        self.ledger.mint(to, amount, auth)
    }

    /// Move `amount` from `from` to `to`. Requires `from`'s authorization.
    pub fn transfer(&mut self, from: &Address, to: &Address, amount: i128, auth: &Auth) -> (r:
        Result<(), TokenError>)
        requires
            old(self).wf(),
        ensures
            final(self).wf(),
            r == transfer_outcome(old(self)@, from@, to@, amount as int, auth@),
            r is Ok ==> final(self)@ == moved(old(self)@, from@, to@, amount as int, amount as int),
            r is Ok ==> final(self)@.supply == old(self)@.supply,
            r is Ok && old(self)@.balances_nonnegative() ==> final(self)@.balances_nonnegative(),
            r is Err ==> final(self)@ == old(self)@,
    {
        self.ledger.transfer(from, to, amount, auth)
    }

    /// Store `amount` as `id`'s balance entry, as it stands in contract
    /// storage; used to bring stored entries into the model.
    pub fn load_balance(&mut self, id: &Address, amount: i128)
        requires
            old(self).wf(),
        ensures
            final(self).wf(),
            final(self)@ == old(self)@.with_balance(id@, amount),
    {
        self.ledger.load_balance(id, amount);
    }

    /// Read `id`'s balance. Returns `0` for an unknown address.
    pub fn balance(&self, id: &Address) -> (r: i128)
        requires
            self.wf(),
        ensures
            r == self@.balance(id@),
    {
        self.ledger.balance(id)
    }

    /// Fixed token decimals. See [`DECIMALS`].
    pub fn decimals(&self) -> (r: u32)
        ensures
            r == DECIMALS,
    {
        DECIMALS
    }
}

} // verus!
