//! A token ledger with allowances: `approve` / `allowance` /
//! `transfer_from`, shared by the allowance-token and SAC-style mocks.
//!
//! - `approve(from, spender, amount)` sets (overwrites) the allowance and
//!   needs `from`'s authorization.
//! - `transfer_from(spender, from, to, amount)` needs `spender`'s
//!   authorization, fails with `InsufficientAllowance` before it looks at the
//!   balance, then decrements the allowance and moves the funds.

use vstd::prelude::*;
use crate::address::{Address, Auth, AuthView};
use crate::mocks::book::{amount_in, AllowanceKey, Book};
use crate::mocks::ledger::{debited, fits_i128, init_outcome, lemma_moved, lemma_with_balance, mint_outcome, minted, moved, LedgerView, TokenError, TokenLedger};

verus! {

/// A token ledger with allowances, as a mathematical value.
pub struct AllowanceLedgerView {
    pub ledger: LedgerView,
    /// Stored allowances, keyed by (owner, spender).
    pub allowances: Map<(Seq<u8>, Seq<u8>), i128>,
}

impl AllowanceLedgerView {
    /// `spender`'s remaining allowance over `from`; `0` if never set.
    pub open spec fn allowance(self, from: Seq<u8>, spender: Seq<u8>) -> i128 {
        amount_in(self.allowances, (from, spender))
    }

    /// The same state with the token ledger replaced.
    pub open spec fn with_ledger(self, ledger: LedgerView) -> AllowanceLedgerView {
        AllowanceLedgerView { ledger, allowances: self.allowances }
    }

    /// The same state with `spender`'s allowance over `from` stored as
    /// `amount`.
    pub open spec fn with_allowance(self, from: Seq<u8>, spender: Seq<u8>, amount: i128) -> AllowanceLedgerView {
        AllowanceLedgerView {
            ledger: self.ledger,
            allowances: self.allowances.insert((from, spender), amount),
        }
    }
}

/// The outcome of `approve(from, spender, amount)`.
pub open spec fn approve_outcome(from: Seq<u8>, amount: int, auth: AuthView) -> Result<(), TokenError> {
    if amount < 0 {
        Err(TokenError::NegativeAmount)
    } else if !auth.authorizes(from) {
        Err(TokenError::Unauthorized)
    } else {
        Ok(())
    }
}

/// The outcome of `transfer_from(spender, from, to, amount)`.
pub open spec fn transfer_from_outcome(
    s: AllowanceLedgerView,
    spender: Seq<u8>,
    from: Seq<u8>,
    to: Seq<u8>,
    amount: int,
    auth: AuthView,
) -> Result<(), TokenError> {
    if amount < 0 {
        Err(TokenError::NegativeAmount)
    } else if !auth.authorizes(spender) {
        Err(TokenError::Unauthorized)
    } else if s.allowance(from, spender) < amount {
        Err(TokenError::InsufficientAllowance)
    } else if s.ledger.balance(from) < amount {
        Err(TokenError::InsufficientBalance)
    } else if !fits_i128(debited(s.ledger, from, amount).balance(to) + amount) {
        Err(TokenError::Overflow)
    } else {
        Ok(())
    }
}

/// The state after a successful `transfer_from(spender, from, to, amount)`:
/// the allowance is decremented and the funds are moved.
pub open spec fn transferred_from(
    s: AllowanceLedgerView,
    spender: Seq<u8>,
    from: Seq<u8>,
    to: Seq<u8>,
    amount: int,
) -> AllowanceLedgerView {
    s.with_allowance(from, spender, (s.allowance(from, spender) - amount) as i128).with_ledger(
        moved(s.ledger, from, to, amount, amount),
    )
}

/// A token ledger with allowances.
pub struct AllowanceLedger {
    ledger: TokenLedger,
    allowances: Book<AllowanceKey>,
}

impl View for AllowanceLedger {
    type V = AllowanceLedgerView;

    open spec fn view(&self) -> AllowanceLedgerView {
        self.allowance_view()
    }
}

impl AllowanceLedger {
    /// The state as a mathematical value.
    pub closed spec fn allowance_view(&self) -> AllowanceLedgerView {
        AllowanceLedgerView { ledger: self.ledger@, allowances: self.allowances.stored() }
    }

    /// The internal bookkeeping is consistent.
    pub closed spec fn wf(&self) -> bool {
        self.ledger.wf() && self.allowances.wf()
    }

    /// A ledger with no admin, no balances and no allowances.
    pub fn new() -> (l: AllowanceLedger)
        ensures
            l.wf(),
            l@.ledger.admin is None,
            l@.ledger.balances == Map::<Seq<u8>, i128>::empty(),
            l@.ledger.supply == 0,
            l@.allowances == Map::<(Seq<u8>, Seq<u8>), i128>::empty(),
    {
        AllowanceLedger { ledger: TokenLedger::new(), allowances: Book::new() }
    }

    /// Record `admin` as the only address allowed to mint.
    pub fn init(&mut self, admin: &Address) -> (r: Result<(), TokenError>)
        requires
            old(self).wf(),
        ensures
            final(self).wf(),
            r == init_outcome(old(self)@.ledger),
            r is Ok ==> final(self)@ == old(self)@.with_ledger(old(self)@.ledger.with_admin(admin@)),
            r is Err ==> final(self)@ == old(self)@,
    {
        self.ledger.init(admin)
    }

    /// Credit `to` with `amount`; needs the admin's authorization.
    pub fn mint(&mut self, to: &Address, amount: i128, auth: &Auth) -> (r: Result<(), TokenError>)
        requires
            old(self).wf(),
        ensures
            final(self).wf(),
            r == mint_outcome(old(self)@.ledger, to@, amount as int, auth@),
            r is Ok ==> final(self)@ == old(self)@.with_ledger(
                minted(old(self)@.ledger, to@, amount as int),
            ),
            r is Ok ==> final(self)@.ledger.supply == old(self)@.ledger.supply + amount,
            r is Ok && old(self)@.ledger.balances_nonnegative()
                ==> final(self)@.ledger.balances_nonnegative(),
            r is Err ==> final(self)@ == old(self)@,
    {
        self.ledger.mint(to, amount, auth)
    }

    /// Set `spender`'s allowance over `from` to `amount`, overwriting any
    /// earlier allowance; needs `from`'s authorization.
    pub fn approve(&mut self, from: &Address, spender: &Address, amount: i128, auth: &Auth) -> (r:
        Result<(), TokenError>)
        requires
            old(self).wf(),
        ensures
            final(self).wf(),
            r == approve_outcome(from@, amount as int, auth@),
            r is Ok ==> final(self)@ == old(self)@.with_allowance(from@, spender@, amount),
            r is Err ==> final(self)@ == old(self)@,
    {
        if amount < 0 {
            return Err(TokenError::NegativeAmount);
        }
        if !auth.authorizes(from) {
            return Err(TokenError::Unauthorized);
        }
        let key = AllowanceKey { from: from.duplicate(), spender: spender.duplicate() };
        self.allowances.set(&key, amount);
        Ok(())
    }

    /// `spender`'s remaining allowance over `from`; `0` if never set.
    pub fn allowance(&self, from: &Address, spender: &Address) -> (r: i128)
        requires
            self.wf(),
        ensures
            r == self@.allowance(from@, spender@),
    {
        let key = AllowanceKey { from: from.duplicate(), spender: spender.duplicate() };
        self.allowances.get(&key)
    }

    /// Move `amount` from `from` to `to`, spending `spender`'s allowance;
    /// needs `spender`'s authorization.
    pub fn transfer_from(
        &mut self,
        spender: &Address,
        from: &Address,
        to: &Address,
        amount: i128,
        auth: &Auth,
    ) -> (r: Result<(), TokenError>)
        requires
            old(self).wf(),
        ensures
            final(self).wf(),
            r == transfer_from_outcome(old(self)@, spender@, from@, to@, amount as int, auth@),
            r is Ok ==> final(self)@ == transferred_from(
                old(self)@,
                spender@,
                from@,
                to@,
                amount as int,
            ),
            r is Ok ==> final(self)@.ledger.supply == old(self)@.ledger.supply,
            r is Ok ==> final(self)@.allowance(from@, spender@) == old(self)@.allowance(
                from@,
                spender@,
            ) - amount,
            r is Ok && old(self)@.ledger.balances_nonnegative()
                ==> final(self)@.ledger.balances_nonnegative(),
            r is Err ==> final(self)@ == old(self)@,
    {
        if amount < 0 {
            return Err(TokenError::NegativeAmount);
        }
        if !auth.authorizes(spender) {
            return Err(TokenError::Unauthorized);
        }
        let key = AllowanceKey { from: from.duplicate(), spender: spender.duplicate() };
        let allowed = self.allowances.get(&key);
        if allowed < amount {
            return Err(TokenError::InsufficientAllowance);
        }
        let from_balance = self.ledger.balance(from);
        if from_balance < amount {
            return Err(TokenError::InsufficientBalance);
        }
        proof {
            if fits_i128(debited(old(self)@.ledger, from@, amount as int).balance(to@) + amount) {
                lemma_moved(old(self)@.ledger, from@, to@, amount as int, amount as int);
            }
        }
        if let Err(e) = self.ledger.transfer_checked(from, to, amount, amount) {
            return Err(e);
        }
        self.allowances.set(&key, allowed - amount);
        Ok(())
    }

    /// Store `amount` as `id`'s balance entry, as it stands in contract
    /// storage; used to bring stored entries into the ledger.
    pub fn load_balance(&mut self, id: &Address, amount: i128)
        requires
            old(self).wf(),
        ensures
            final(self).wf(),
            final(self)@ == old(self)@.with_ledger(old(self)@.ledger.with_balance(id@, amount)),
    {
        self.ledger.load_balance(id, amount);
    }

    /// Store `amount` as `spender`'s allowance entry over `from`, as it
    /// stands in contract storage.
    pub fn load_allowance(&mut self, from: &Address, spender: &Address, amount: i128)
        requires
            old(self).wf(),
        ensures
            final(self).wf(),
            final(self)@ == old(self)@.with_allowance(from@, spender@, amount),
    {
        let key = AllowanceKey { from: from.duplicate(), spender: spender.duplicate() };
        self.allowances.set(&key, amount);
    }

    /// The balance of `id`; `0` for an address that was never credited.
    pub fn balance(&self, id: &Address) -> (r: i128)
        requires
            self.wf(),
        ensures
            r == self@.ledger.balance(id@),
    {
        self.ledger.balance(id)
    }
}

/// Law: `allowance(from, spender)` reads back what `approve(from, spender,
/// amount)` wrote, and an approval leaves every other allowance unchanged.
pub proof fn law_approve_then_allowance(
    s: AllowanceLedgerView,
    from: Seq<u8>,
    spender: Seq<u8>,
    amount: i128,
    other_from: Seq<u8>,
    other_spender: Seq<u8>,
)
    ensures
        s.with_allowance(from, spender, amount).allowance(from, spender) == amount,
        (other_from, other_spender) != (from, spender) ==> s.with_allowance(
            from,
            spender,
            amount,
        ).allowance(other_from, other_spender) == s.allowance(other_from, other_spender),
{
}

/// Law: a successful `transfer_from(spender, from, to, amount)` spends
/// exactly `amount` of the allowance and moves exactly `amount` from `from`
/// to `to` (nothing, when they are the same address), leaving the total
/// supply unchanged.
pub proof fn law_transfer_from_spends_allowance(
    s: AllowanceLedgerView,
    spender: Seq<u8>,
    from: Seq<u8>,
    to: Seq<u8>,
    amount: int,
    auth: AuthView,
)
    requires
        transfer_from_outcome(s, spender, from, to, amount, auth) is Ok,
    ensures
        transferred_from(s, spender, from, to, amount).allowance(from, spender) == s.allowance(
            from,
            spender,
        ) - amount,
        from != to ==> transferred_from(s, spender, from, to, amount).ledger.balance(from)
            == s.ledger.balance(from) - amount,
        from != to ==> transferred_from(s, spender, from, to, amount).ledger.balance(to)
            == s.ledger.balance(to) + amount,
        from == to ==> transferred_from(s, spender, from, to, amount).ledger.balance(from)
            == s.ledger.balance(from),
        transferred_from(s, spender, from, to, amount).ledger.supply == s.ledger.supply,
{
    lemma_moved(s.ledger, from, to, amount, amount);
}

/// Law: spending more than the allowance fails with `InsufficientAllowance`,
/// whatever the balance, once the amount and the authorization are valid.
pub proof fn law_allowance_checked_before_balance(
    s: AllowanceLedgerView,
    spender: Seq<u8>,
    from: Seq<u8>,
    to: Seq<u8>,
    amount: int,
    auth: AuthView,
)
    requires
        amount >= 0,
        auth.authorizes(spender),
        s.allowance(from, spender) < amount,
    ensures
        transfer_from_outcome(s, spender, from, to, amount, auth) == Err::<(), TokenError>(
            TokenError::InsufficientAllowance,
        ),
{
}

/// Law: allowance calls are refused without the right authorization: once
/// the amount is valid, an `approve` the owner has not authorized, or a
/// `transfer_from` the spender has not authorized, fails with
/// `Unauthorized`.
pub proof fn law_unauthorized_allowance_calls_are_refused(
    s: AllowanceLedgerView,
    spender: Seq<u8>,
    from: Seq<u8>,
    to: Seq<u8>,
    amount: int,
    auth: AuthView,
)
    requires
        amount >= 0,
    ensures
        !auth.authorizes(from) ==> approve_outcome(from, amount, auth) == Err::<(), TokenError>(
            TokenError::Unauthorized,
        ),
        !auth.authorizes(spender) ==> transfer_from_outcome(s, spender, from, to, amount, auth)
            == Err::<(), TokenError>(TokenError::Unauthorized),
{
}

/// Law: `transfer_from` succeeds whenever the amount is non-negative, the
/// spender authorized the call, the allowance covers the amount, the owner's
/// balance covers the amount, and the recipient's new balance fits in an
/// `i128` (always so when paying oneself). How the allowance compares with
/// the balance plays no part: an allowance larger than the balance does not
/// refuse an amount the balance covers.
pub proof fn law_transfer_from_succeeds_when_covered(
    s: AllowanceLedgerView,
    spender: Seq<u8>,
    from: Seq<u8>,
    to: Seq<u8>,
    amount: int,
    auth: AuthView,
)
    requires
        amount >= 0,
        auth.authorizes(spender),
        s.allowance(from, spender) >= amount,
        s.ledger.balance(from) >= amount,
        from == to || i128::MIN <= s.ledger.balance(to) + amount <= i128::MAX,
    ensures
        transfer_from_outcome(s, spender, from, to, amount, auth) is Ok,
{
    lemma_with_balance(s.ledger, from, (s.ledger.balance(from) - amount) as i128);
}

/// Law: each refusal of `transfer_from` names a condition that really
/// fails: a negative amount, a spender that did not authorize, an allowance
/// below the amount, a balance below the amount, or a recipient balance that
/// would not fit in an `i128`.
pub proof fn law_transfer_from_refusals_are_justified(
    s: AllowanceLedgerView,
    spender: Seq<u8>,
    from: Seq<u8>,
    to: Seq<u8>,
    amount: int,
    auth: AuthView,
)
    ensures
        transfer_from_outcome(s, spender, from, to, amount, auth) == Err::<(), TokenError>(
            TokenError::NegativeAmount,
        ) ==> amount < 0,
        transfer_from_outcome(s, spender, from, to, amount, auth) == Err::<(), TokenError>(
            TokenError::Unauthorized,
        ) ==> !auth.authorizes(spender),
        transfer_from_outcome(s, spender, from, to, amount, auth) == Err::<(), TokenError>(
            TokenError::InsufficientAllowance,
        ) ==> s.allowance(from, spender) < amount,
        transfer_from_outcome(s, spender, from, to, amount, auth) == Err::<(), TokenError>(
            TokenError::InsufficientBalance,
        ) ==> s.ledger.balance(from) < amount,
        transfer_from_outcome(s, spender, from, to, amount, auth) == Err::<(), TokenError>(
            TokenError::Overflow,
        ) ==> from != to && !(i128::MIN <= s.ledger.balance(to) + amount <= i128::MAX),
{
    lemma_with_balance(s.ledger, from, (s.ledger.balance(from) - amount) as i128);
}

/// Law: an `approve` needs only the owner's authorization: it succeeds
/// exactly when the amount is non-negative and `from` authorized the call,
/// whatever the current allowance or balance.
pub proof fn law_approve_needs_only_the_owner(from: Seq<u8>, amount: int, auth: AuthView)
    ensures
        approve_outcome(from, amount, auth) is Ok <==> amount >= 0 && auth.authorizes(from),
{
}

} // verus!
