//! The token ledger shared by the mock tokens: an optional admin and the
//! stored balances, with the mint / transfer / burn rules they all follow.
//!
//! Every operation checks its inputs in the same order as the contracts do,
//! and fails with the first failing check; a failed operation changes nothing.

use vstd::prelude::*;
use crate::address::{Address, Auth, AuthView};
use crate::mocks::book::{amount_in, Book};

verus! {

/// Why a token operation fails.
#[derive(Debug, Clone, Copy, PartialEq, Eq, Structural)]
pub enum TokenError {
    /// `init` was called on a token that already has an admin.
    AlreadyInitialized,
    /// The operation needs the admin (or fee) set by `init`, and there is none.
    NotInitialized,
    /// A negative amount was passed.
    NegativeAmount,
    /// The address that must authorize the call did not.
    Unauthorized,
    /// The payer holds less than the amount.
    InsufficientBalance,
    /// The spender's allowance is less than the amount.
    InsufficientAllowance,
    /// The fee passed to `init` is outside `0..=10_000` basis points.
    FeeOutOfRange,
    /// A balance or fee computation does not fit in an `i128`.
    Overflow,
}

impl TokenError {
    /// The message the failing contract call reports.
    pub fn message(&self) -> (r: &'static str)
        ensures
            *self == TokenError::AlreadyInitialized ==> r@ == "already initialized"@,
            *self == TokenError::NotInitialized ==> r@ == "not initialized"@,
            *self == TokenError::NegativeAmount ==> r@ == "amount must be non-negative"@,
            *self == TokenError::Unauthorized ==> r@ == "authorization required"@,
            *self == TokenError::InsufficientBalance ==> r@ == "insufficient balance"@,
            *self == TokenError::InsufficientAllowance ==> r@ == "insufficient allowance"@,
            *self == TokenError::FeeOutOfRange ==> r@ == "fee_bps out of range"@,
            *self == TokenError::Overflow ==> r@ == "arithmetic overflow"@,
    {
        match self {
            TokenError::AlreadyInitialized => "already initialized",
            TokenError::NotInitialized => "not initialized",
            TokenError::NegativeAmount => "amount must be non-negative",
            TokenError::Unauthorized => "authorization required",
            TokenError::InsufficientBalance => "insufficient balance",
            TokenError::InsufficientAllowance => "insufficient allowance",
            TokenError::FeeOutOfRange => "fee_bps out of range",
            TokenError::Overflow => "arithmetic overflow",
        }
    }
}

/// A token ledger as a mathematical value.
pub struct LedgerView {
    /// The admin set by `init`, if any.
    pub admin: Option<Seq<u8>>,
    /// The stored balance entries.
    pub balances: Map<Seq<u8>, i128>,
    /// The total supply: the sum of all stored balances.
    pub supply: int,
}

impl LedgerView {
    /// The balance of `id`; `0` for an address that was never credited.
    pub open spec fn balance(self, id: Seq<u8>) -> i128 {
        amount_in(self.balances, id)
    }

    /// The ledger with `id`'s balance stored as `amount`.
    pub open spec fn with_balance(self, id: Seq<u8>, amount: i128) -> LedgerView {
        LedgerView {
            admin: self.admin,
            balances: self.balances.insert(id, amount),
            supply: self.supply - self.balance(id) + amount,
        }
    }

    /// The ledger with `admin` recorded as the admin.
    pub open spec fn with_admin(self, admin: Seq<u8>) -> LedgerView {
        LedgerView { admin: Some(admin), balances: self.balances, supply: self.supply }
    }

    /// No stored balance is negative.
    pub open spec fn balances_nonnegative(self) -> bool {
        forall|id: Seq<u8>| #[trigger] self.balances.contains_key(id) ==> self.balances[id] >= 0
    }
}

/// An amount fits in an `i128`.
pub open spec fn fits_i128(x: int) -> bool {
    i128::MIN <= x <= i128::MAX
}

/// The outcome of `init(admin)`.
pub open spec fn init_outcome(s: LedgerView) -> Result<(), TokenError> {
    if s.admin is Some {
        Err(TokenError::AlreadyInitialized)
    } else {
        Ok(())
    }
}

/// The outcome of `mint(to, amount)`.
pub open spec fn mint_outcome(s: LedgerView, to: Seq<u8>, amount: int, auth: AuthView) -> Result<
    (),
    TokenError,
> {
    if amount < 0 {
        Err(TokenError::NegativeAmount)
    } else if s.admin is None {
        Err(TokenError::NotInitialized)
    } else if !auth.authorizes(s.admin->0) {
        Err(TokenError::Unauthorized)
    } else if !fits_i128(s.balance(to) + amount) {
        Err(TokenError::Overflow)
    } else {
        Ok(())
    }
}

/// The ledger after a successful `mint(to, amount)`.
pub open spec fn minted(s: LedgerView, to: Seq<u8>, amount: int) -> LedgerView {
    s.with_balance(to, (s.balance(to) + amount) as i128)
}

/// The outcome of `transfer(from, to, amount)`.
pub open spec fn transfer_outcome(
    s: LedgerView,
    from: Seq<u8>,
    to: Seq<u8>,
    amount: int,
    auth: AuthView,
) -> Result<(), TokenError> {
    if amount < 0 {
        Err(TokenError::NegativeAmount)
    } else if !auth.authorizes(from) {
        Err(TokenError::Unauthorized)
    } else if s.balance(from) < amount {
        Err(TokenError::InsufficientBalance)
    } else if !fits_i128(debited(s, from, amount).balance(to) + amount) {
        Err(TokenError::Overflow)
    } else {
        Ok(())
    }
}

/// The ledger once `amount` has been taken from `from`'s balance.
pub open spec fn debited(s: LedgerView, from: Seq<u8>, amount: int) -> LedgerView {
    s.with_balance(from, (s.balance(from) - amount) as i128)
}

/// The ledger after moving `amount` out of `from` and crediting `to` with
/// `credit`: `from` is debited first, then `to` is credited on the debited
/// ledger. A move from an address to itself therefore leaves its balance at
/// `balance - amount + credit`.
pub open spec fn moved(s: LedgerView, from: Seq<u8>, to: Seq<u8>, amount: int, credit: int) -> LedgerView {
    let d = debited(s, from, amount);
    d.with_balance(to, (d.balance(to) + credit) as i128)
}

/// The outcome of `burn(from, amount)`.
pub open spec fn burn_outcome(s: LedgerView, from: Seq<u8>, amount: int, auth: AuthView) -> Result<
    (),
    TokenError,
> {
    if amount < 0 {
        Err(TokenError::NegativeAmount)
    } else if !auth.authorizes(from) {
        Err(TokenError::Unauthorized)
    } else if s.balance(from) < amount {
        Err(TokenError::InsufficientBalance)
    } else {
        Ok(())
    }
}

/// The ledger after a successful `burn(from, amount)`.
pub open spec fn burned(s: LedgerView, from: Seq<u8>, amount: int) -> LedgerView {
    s.with_balance(from, (s.balance(from) - amount) as i128)
}

/// Storing a balance changes the supply by the difference, keeps the other
/// balances, and keeps balances non-negative when the new one is.
pub proof fn lemma_with_balance(s: LedgerView, id: Seq<u8>, amount: i128)
    ensures
        s.with_balance(id, amount).balance(id) == amount,
        forall|other: Seq<u8>|
            other != id ==> #[trigger] s.with_balance(id, amount).balance(other) == s.balance(other),
        s.with_balance(id, amount).supply == s.supply - s.balance(id) + amount,
        s.balances_nonnegative() && amount >= 0 ==> s.with_balance(id, amount).balances_nonnegative(),
{
}

/// A balance read from a ledger whose balances are non-negative is
/// non-negative.
pub proof fn lemma_balance_nonnegative(s: LedgerView, id: Seq<u8>)
    requires
        s.balances_nonnegative(),
    ensures
        s.balance(id) >= 0,
{
    if s.balances.contains_key(id) {
        assert(s.balances[id] >= 0);
    }
}

/// Moving funds changes the supply by `credit - amount`, for every pair of
/// addresses: `from` loses `amount`, `to` gains `credit` (both at once when
/// they are the same address), and every other balance stays.
pub proof fn lemma_moved(s: LedgerView, from: Seq<u8>, to: Seq<u8>, amount: int, credit: int)
    requires
        0 <= credit <= amount <= s.balance(from),
        fits_i128(debited(s, from, amount).balance(to) + credit),
    ensures
        moved(s, from, to, amount, credit).supply == s.supply - amount + credit,
        from != to ==> moved(s, from, to, amount, credit).balance(from) == s.balance(from) - amount,
        from != to ==> moved(s, from, to, amount, credit).balance(to) == s.balance(to) + credit,
        from == to ==> moved(s, from, to, amount, credit).balance(to) == s.balance(to) - amount
            + credit,
        forall|other: Seq<u8>|
            other != from && other != to ==> #[trigger] moved(s, from, to, amount, credit).balance(
                other,
            ) == s.balance(other),
        s.balances_nonnegative() ==> moved(s, from, to, amount, credit).balances_nonnegative(),
{
    let d = debited(s, from, amount);
    lemma_with_balance(s, from, (s.balance(from) - amount) as i128);
    lemma_with_balance(d, to, (d.balance(to) + credit) as i128);
    if s.balances_nonnegative() {
        lemma_balance_nonnegative(d, to);
    }
}

/// The admin and balances of a mock token.
pub struct TokenLedger {
    admin: Option<Address>,
    balances: Book<Address>,
}

impl View for TokenLedger {
    type V = LedgerView;

    open spec fn view(&self) -> LedgerView {
        self.ledger_view()
    }
}

impl TokenLedger {
    /// The ledger as a mathematical value.
    pub closed spec fn ledger_view(&self) -> LedgerView {
        LedgerView {
            admin: match self.admin {
                Some(a) => Some(a@),
                None => None,
            },
            balances: self.balances.stored(),
            supply: self.balances.total(),
        }
    }

    /// The internal bookkeeping is consistent.
    pub closed spec fn wf(&self) -> bool {
        self.balances.wf()
    }

    /// A ledger with no admin and no balances.
    pub fn new() -> (l: TokenLedger)
        ensures
            l.wf(),
            l@.admin is None,
            l@.balances == Map::<Seq<u8>, i128>::empty(),
            l@.supply == 0,
    {
        TokenLedger { admin: None, balances: Book::new() }
    }

    /// Record `admin` as the only address allowed to mint; fails if an admin
    /// is already recorded.
    pub fn init(&mut self, admin: &Address) -> (r: Result<(), TokenError>)
        requires
            old(self).wf(),
        ensures
            final(self).wf(),
            r == init_outcome(old(self)@),
            r is Ok ==> final(self)@ == old(self)@.with_admin(admin@),
            r is Err ==> final(self)@ == old(self)@,
    {
        if self.admin.is_some() {
            return Err(TokenError::AlreadyInitialized);
        }
        self.admin = Some(admin.duplicate());
        Ok(())
    }

    /// Whether an admin is recorded.
    pub fn is_initialized(&self) -> (r: bool)
        ensures
            r == self@.admin is Some,
    {
        self.admin.is_some()
    }

    /// Credit `to` with `amount`; needs the admin's authorization.
    pub fn mint(&mut self, to: &Address, amount: i128, auth: &Auth) -> (r: Result<(), TokenError>)
        requires
            old(self).wf(),
        ensures
            final(self).wf(),
            r == mint_outcome(old(self)@, to@, amount as int, auth@),
            r is Ok ==> final(self)@ == minted(old(self)@, to@, amount as int),
            r is Ok ==> final(self)@.supply == old(self)@.supply + amount,
            r is Ok && old(self)@.balances_nonnegative() ==> final(self)@.balances_nonnegative(),
            r is Err ==> final(self)@ == old(self)@,
    {
        proof {
            if old(self)@.balances_nonnegative() {
                lemma_balance_nonnegative(old(self)@, to@);
            }
            lemma_with_balance(old(self)@, to@, (old(self)@.balance(to@) + amount) as i128);
        }
        if amount < 0 {
            return Err(TokenError::NegativeAmount);
        }
        match &self.admin {
            None => {
                return Err(TokenError::NotInitialized);
            },
            Some(admin) => {
                if !auth.authorizes(admin) {
                    return Err(TokenError::Unauthorized);
                }
            },
        }
        let balance = self.balances.get(to);
        match balance.checked_add(amount) {
            None => Err(TokenError::Overflow),
            Some(updated) => {
                self.balances.set(to, updated);
                Ok(())
            },
        }
    }

    /// Move `amount` out of `from` and credit `to` with `credit`
    /// (`credit <= amount`); the check that `from` may pay has been made.
    /// `to`'s balance is taken after the debit, so nothing is written unless
    /// the credit fits.
    fn move_funds(&mut self, from: &Address, to: &Address, amount: i128, credit: i128) -> (r: Result<
        (),
        TokenError,
    >)
        requires
            old(self).wf(),
            0 <= credit <= amount <= old(self)@.balance(from@),
        ensures
            final(self).wf(),
            r == (if fits_i128(debited(old(self)@, from@, amount as int).balance(to@) + credit) {
                Ok(())
            } else {
                Err(TokenError::Overflow)
            }),
            r is Ok ==> final(self)@ == moved(old(self)@, from@, to@, amount as int, credit as int),
            r is Err ==> final(self)@ == old(self)@,
    {
        proof {
            lemma_with_balance(old(self)@, from@, (old(self)@.balance(from@) - amount) as i128);
        }
        let from_balance = self.balances.get(from);
        let to_balance = if from.same_as(to) {
            from_balance - amount
        } else {
            self.balances.get(to)
        };
        match to_balance.checked_add(credit) {
            None => Err(TokenError::Overflow),
            Some(updated) => {
                self.balances.set(from, from_balance - amount);
                self.balances.set(to, updated);
                Ok(())
            },
        }
    }

    /// Move `amount` from `from` to `to`; needs `from`'s authorization.
    pub fn transfer(&mut self, from: &Address, to: &Address, amount: i128, auth: &Auth) -> (r:
        Result<(), TokenError>)
        requires
            old(self).wf(),
        ensures
            final(self).wf(),
            r == transfer_outcome(old(self)@, from@, to@, amount as int, auth@),
            r is Ok ==> final(self)@ == moved(
                old(self)@,
                from@,
                to@,
                amount as int,
                amount as int,
            ),
            r is Ok ==> final(self)@.supply == old(self)@.supply,
            r is Ok && old(self)@.balances_nonnegative() ==> final(self)@.balances_nonnegative(),
            r is Err ==> final(self)@ == old(self)@,
    {
        if amount < 0 {
            return Err(TokenError::NegativeAmount);
        }
        if !auth.authorizes(from) {
            return Err(TokenError::Unauthorized);
        }
        let from_balance = self.balances.get(from);
        if from_balance < amount {
            return Err(TokenError::InsufficientBalance);
        }
        proof {
            if fits_i128(debited(old(self)@, from@, amount as int).balance(to@) + amount) {
                lemma_moved(old(self)@, from@, to@, amount as int, amount as int);
            }
        }
        self.move_funds(from, to, amount, amount)
    }

    /// Move `amount` from `from` to `to` crediting `to` with `credit`, after
    /// the caller has checked the amount and the authorization.
    pub(crate) fn transfer_checked(
        &mut self,
        from: &Address,
        to: &Address,
        amount: i128,
        credit: i128,
    ) -> (r: Result<(), TokenError>)
        requires
            old(self).wf(),
            0 <= credit <= amount <= old(self)@.balance(from@),
        ensures
            final(self).wf(),
            r == (if fits_i128(debited(old(self)@, from@, amount as int).balance(to@) + credit) {
                Ok(())
            } else {
                Err(TokenError::Overflow)
            }),
            r is Ok ==> final(self)@ == moved(old(self)@, from@, to@, amount as int, credit as int),
            r is Err ==> final(self)@ == old(self)@,
    {
        self.move_funds(from, to, amount, credit)
    }

    /// Destroy `amount` of `from`'s balance; needs `from`'s authorization.
    pub fn burn(&mut self, from: &Address, amount: i128, auth: &Auth) -> (r: Result<(), TokenError>)
        requires
            old(self).wf(),
        ensures
            final(self).wf(),
            r == burn_outcome(old(self)@, from@, amount as int, auth@),
            r is Ok ==> final(self)@ == burned(old(self)@, from@, amount as int),
            r is Ok ==> final(self)@.supply == old(self)@.supply - amount,
            r is Ok && old(self)@.balances_nonnegative() ==> final(self)@.balances_nonnegative(),
            r is Err ==> final(self)@ == old(self)@,
    {
        proof {
            lemma_with_balance(old(self)@, from@, (old(self)@.balance(from@) - amount) as i128);
        }
        if amount < 0 {
            return Err(TokenError::NegativeAmount);
        }
        if !auth.authorizes(from) {
            return Err(TokenError::Unauthorized);
        }
        let from_balance = self.balances.get(from);
        if from_balance < amount {
            return Err(TokenError::InsufficientBalance);
        }
        self.balances.set(from, from_balance - amount);
        Ok(())
    }

    /// Store `amount` as `id`'s balance entry, as it stands in contract
    /// storage; used to bring stored entries into the ledger.
    pub fn load_balance(&mut self, id: &Address, amount: i128)
        requires
            old(self).wf(),
        ensures
            final(self).wf(),
            final(self)@ == old(self)@.with_balance(id@, amount),
    {
        self.balances.set(id, amount);
    }

    /// The balance of `id`; `0` for an address that was never credited.
    pub fn balance(&self, id: &Address) -> (r: i128)
        requires
            self.wf(),
        ensures
            r == self@.balance(id@),
    {
        self.balances.get(id)
    }
}

/// Law: `init` succeeds at most once. Once an admin is recorded, every
/// later `init` fails with `AlreadyInitialized`.
pub proof fn law_init_is_one_time(s: LedgerView, admin: Seq<u8>)
    requires
        init_outcome(s) is Ok,
    ensures
        init_outcome(s.with_admin(admin)) == Err::<(), TokenError>(TokenError::AlreadyInitialized),
{
}

/// Law: a successful `mint(to, amount)` raises `to`'s balance and the total
/// supply by `amount` and leaves every other balance unchanged.
pub proof fn law_mint_credits_recipient(
    s: LedgerView,
    to: Seq<u8>,
    amount: int,
    auth: AuthView,
    other: Seq<u8>,
)
    requires
        mint_outcome(s, to, amount, auth) is Ok,
    ensures
        minted(s, to, amount).balance(to) == s.balance(to) + amount,
        other != to ==> minted(s, to, amount).balance(other) == s.balance(other),
        minted(s, to, amount).supply == s.supply + amount,
{
    lemma_with_balance(s, to, (s.balance(to) + amount) as i128);
}

/// Law: a successful `transfer(from, to, amount)` moves funds and creates
/// none. Between two distinct addresses it lowers `from`'s balance by
/// `amount` and raises `to`'s by `amount`; from an address to itself it
/// leaves the balance as it was. Every other balance and the total supply
/// stay unchanged.
pub proof fn law_transfer_conserves_supply(
    s: LedgerView,
    from: Seq<u8>,
    to: Seq<u8>,
    amount: int,
    auth: AuthView,
    other: Seq<u8>,
)
    requires
        transfer_outcome(s, from, to, amount, auth) is Ok,
    ensures
        from != to ==> moved(s, from, to, amount, amount).balance(from) == s.balance(from) - amount,
        from != to ==> moved(s, from, to, amount, amount).balance(to) == s.balance(to) + amount,
        from == to ==> moved(s, from, to, amount, amount).balance(from) == s.balance(from),
        other != from && other != to ==> moved(s, from, to, amount, amount).balance(other)
            == s.balance(other),
        moved(s, from, to, amount, amount).supply == s.supply,
{
    lemma_moved(s, from, to, amount, amount);
}

/// Law: a successful `burn(from, amount)` lowers `from`'s balance and the
/// total supply by `amount`.
pub proof fn law_burn_reduces_supply(s: LedgerView, from: Seq<u8>, amount: int, auth: AuthView)
    requires
        burn_outcome(s, from, amount, auth) is Ok,
    ensures
        burned(s, from, amount).balance(from) == s.balance(from) - amount,
        burned(s, from, amount).supply == s.supply - amount,
{
    lemma_with_balance(s, from, (s.balance(from) - amount) as i128);
}

/// Law: balances never become negative. Starting from non-negative
/// balances, every successful mint, transfer and burn keeps them so.
pub proof fn law_balances_stay_nonnegative(
    s: LedgerView,
    from: Seq<u8>,
    to: Seq<u8>,
    amount: int,
    auth: AuthView,
)
    requires
        s.balances_nonnegative(),
    ensures
        mint_outcome(s, to, amount, auth) is Ok ==> minted(s, to, amount).balances_nonnegative(),
        transfer_outcome(s, from, to, amount, auth) is Ok ==> moved(
            s,
            from,
            to,
            amount,
            amount,
        ).balances_nonnegative(),
        burn_outcome(s, from, amount, auth) is Ok ==> burned(s, from, amount).balances_nonnegative(),
{
    lemma_balance_nonnegative(s, to);
    if mint_outcome(s, to, amount, auth) is Ok {
        lemma_with_balance(s, to, (s.balance(to) + amount) as i128);
    }
    if transfer_outcome(s, from, to, amount, auth) is Ok {
        lemma_moved(s, from, to, amount, amount);
    }
    if burn_outcome(s, from, amount, auth) is Ok {
        lemma_with_balance(s, from, (s.balance(from) - amount) as i128);
    }
}

/// Law: privileged calls are refused without the right authorization. Once
/// the amount (and, for `mint`, the initialization) checks pass, a `mint` the
/// admin has not authorized, or a `transfer` / `burn` the payer has not
/// authorized, fails with `Unauthorized` — whatever the balances.
pub proof fn law_unauthorized_calls_are_refused(
    s: LedgerView,
    from: Seq<u8>,
    to: Seq<u8>,
    amount: int,
    auth: AuthView,
)
    requires
        amount >= 0,
    ensures
        s.admin matches Some(admin) && !auth.authorizes(admin) ==> mint_outcome(s, to, amount, auth)
            == Err::<(), TokenError>(TokenError::Unauthorized),
        !auth.authorizes(from) ==> transfer_outcome(s, from, to, amount, auth) == Err::<
            (),
            TokenError,
        >(TokenError::Unauthorized),
        !auth.authorizes(from) ==> burn_outcome(s, from, amount, auth) == Err::<(), TokenError>(
            TokenError::Unauthorized,
        ),
{
}

/// Law: a `transfer` needs only the payer's authorization. It succeeds
/// whenever the amount is non-negative, `from` authorized the call, `from`'s
/// balance covers the amount and the recipient's new balance fits in an
/// `i128` (always so when paying oneself); who the admin is, and whether the
/// admin authorized anything, makes no difference to its outcome.
pub proof fn law_transfer_needs_only_the_payer(
    s: LedgerView,
    from: Seq<u8>,
    to: Seq<u8>,
    amount: int,
    auth: AuthView,
    admin: Option<Seq<u8>>,
)
    ensures
        amount >= 0 && auth.authorizes(from) && s.balance(from) >= amount && (from == to
            || i128::MIN <= s.balance(to) + amount <= i128::MAX) ==> transfer_outcome(
            s,
            from,
            to,
            amount,
            auth,
        ) is Ok,
        transfer_outcome(LedgerView { admin, ..s }, from, to, amount, auth) == transfer_outcome(
            s,
            from,
            to,
            amount,
            auth,
        ),
        transfer_outcome(s, from, to, amount, auth) == Err::<(), TokenError>(
            TokenError::Unauthorized,
        ) ==> !auth.authorizes(from),
        transfer_outcome(s, from, to, amount, auth) == Err::<(), TokenError>(
            TokenError::InsufficientBalance,
        ) ==> s.balance(from) < amount,
{
    lemma_with_balance(s, from, (s.balance(from) - amount) as i128);
    let t = LedgerView { admin, ..s };
    lemma_with_balance(t, from, (t.balance(from) - amount) as i128);
}

/// Law: a holder burns its own tokens with its own authorization. A `burn`
/// succeeds whenever the amount is non-negative, `from` authorized the call
/// and `from`'s balance covers the amount; who the admin is, and whether the
/// admin authorized anything, makes no difference to its outcome.
pub proof fn law_burn_needs_only_the_holder(
    s: LedgerView,
    from: Seq<u8>,
    amount: int,
    auth: AuthView,
    admin: Option<Seq<u8>>,
)
    ensures
        amount >= 0 && auth.authorizes(from) && s.balance(from) >= amount ==> burn_outcome(
            s,
            from,
            amount,
            auth,
        ) is Ok,
        burn_outcome(LedgerView { admin, ..s }, from, amount, auth) == burn_outcome(
            s,
            from,
            amount,
            auth,
        ),
        burn_outcome(s, from, amount, auth) == Err::<(), TokenError>(TokenError::Unauthorized)
            ==> !auth.authorizes(from),
        burn_outcome(s, from, amount, auth) == Err::<(), TokenError>(
            TokenError::InsufficientBalance,
        ) ==> s.balance(from) < amount,
{
}

/// Law: a `mint` needs only the admin's authorization. It succeeds whenever
/// the amount is non-negative, an admin is recorded and authorized the call,
/// and the recipient's new balance fits in an `i128`; each refusal names a
/// condition that really fails.
pub proof fn law_mint_needs_only_the_admin(s: LedgerView, to: Seq<u8>, amount: int, auth: AuthView)
    ensures
        amount >= 0 && (s.admin matches Some(admin) && auth.authorizes(admin)) && i128::MIN
            <= s.balance(to) + amount <= i128::MAX ==> mint_outcome(s, to, amount, auth) is Ok,
        mint_outcome(s, to, amount, auth) == Err::<(), TokenError>(TokenError::NegativeAmount)
            ==> amount < 0,
        mint_outcome(s, to, amount, auth) == Err::<(), TokenError>(TokenError::NotInitialized)
            ==> s.admin is None,
        mint_outcome(s, to, amount, auth) == Err::<(), TokenError>(TokenError::Unauthorized)
            ==> (s.admin matches Some(admin) && !auth.authorizes(admin)),
        mint_outcome(s, to, amount, auth) == Err::<(), TokenError>(TokenError::Overflow) ==> !(
        i128::MIN <= s.balance(to) + amount <= i128::MAX),
{
}

} // verus!
