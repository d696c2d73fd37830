//! A fee-on-transfer token mock.
//!
//! Fee-on-transfer tokens silently break AMMs and vaults that assume the
//! recipient receives exactly `amount`. This mock deducts a configurable
//! basis-point fee on every `transfer`, so the recipient receives
//! `amount - fee`. The fee is burned (removed from supply), not redirected.
//!
//! ## Fee rounding
//! The fee is `amount * fee_bps / 10_000` with integer division, which
//! **rounds the fee down** (and therefore rounds the recipient's credit up).
//! With `fee_bps == 0` transfers are fee-free. `fee_bps` is set at `init` and
//! must be in `0..=10_000`.

use vstd::prelude::*;
use crate::address::{Address, Auth, AuthView};
use crate::mocks::ledger::{
    debited, fits_i128, lemma_moved, lemma_with_balance, mint_outcome, minted, moved, LedgerView, TokenError, TokenLedger,
};

verus! {

/// Denominator for basis-point math (100% == 10_000 bps).
pub const BPS_DENOMINATOR: i128 = 10_000;

/// The fee charged on a transfer of `amount` at `fee_bps` basis points,
/// rounded down.
pub open spec fn fee_on(amount: int, fee_bps: int) -> int {
    (amount * fee_bps) / 10_000
}

/// A fee-on-transfer token as a mathematical value.
pub struct FeeTokenView {
    pub ledger: LedgerView,
    /// The per-transfer fee in basis points, set by `init`.
    pub fee_bps: Option<i128>,
}

impl FeeTokenView {
    /// The same state with the token ledger replaced.
    pub open spec fn with_ledger(self, ledger: LedgerView) -> FeeTokenView {
        FeeTokenView { ledger, fee_bps: self.fee_bps }
    }
}

/// The outcome of `init(admin, fee_bps)`.
pub open spec fn fee_init_outcome(s: FeeTokenView, fee_bps: int) -> Result<(), TokenError> {
    if s.ledger.admin is Some {
        Err(TokenError::AlreadyInitialized)
    } else if !(0 <= fee_bps <= 10_000) {
        Err(TokenError::FeeOutOfRange)
    } else {
        Ok(())
    }
}

/// The outcome of `transfer(from, to, amount)` on the fee token.
pub open spec fn fee_transfer_outcome(
    s: FeeTokenView,
    from: Seq<u8>,
    to: Seq<u8>,
    amount: int,
    auth: AuthView,
) -> Result<(), TokenError> {
    if amount < 0 {
        Err(TokenError::NegativeAmount)
    } else if !auth.authorizes(from) {
        Err(TokenError::Unauthorized)
    } else if s.ledger.balance(from) < amount {
        Err(TokenError::InsufficientBalance)
    } else if s.fee_bps is None {
        Err(TokenError::NotInitialized)
    } else if !fits_i128(amount * s.fee_bps->0) {
        Err(TokenError::Overflow)
    } else if !fits_i128(
        debited(s.ledger, from, amount).balance(to) + (amount - fee_on(amount, s.fee_bps->0 as int)),
    ) {
        Err(TokenError::Overflow)
    } else {
        Ok(())
    }
}

/// The state after a successful fee-charging `transfer(from, to, amount)`:
/// `from` pays `amount`, `to` is credited `amount - fee`.
pub open spec fn fee_transferred(s: FeeTokenView, from: Seq<u8>, to: Seq<u8>, amount: int) -> FeeTokenView {
    s.with_ledger(
        moved(s.ledger, from, to, amount, amount - fee_on(amount, s.fee_bps->0 as int)),
    )
}

/// The fee never exceeds the amount and is never negative.
pub proof fn lemma_fee_bounds(amount: int, fee_bps: int)
    requires
        amount >= 0,
        0 <= fee_bps <= 10_000,
    ensures
        0 <= fee_on(amount, fee_bps) <= amount,
{
    assert(0 <= amount * fee_bps <= amount * 10_000) by (nonlinear_arith)
        requires
            amount >= 0,
            0 <= fee_bps <= 10_000,
    ;
}

/// A fee-on-transfer token mock.
pub struct MockFeeToken {
    ledger: TokenLedger,
    fee_bps: Option<i128>,
}

impl View for MockFeeToken {
    type V = FeeTokenView;

    open spec fn view(&self) -> FeeTokenView {
        self.fee_view()
    }
}

impl MockFeeToken {
    /// The token's stored state.
    pub closed spec fn fee_view(&self) -> FeeTokenView {
        FeeTokenView { ledger: self.ledger@, fee_bps: self.fee_bps }
    }

    /// The internal bookkeeping is consistent: the fee is set exactly when the
    /// admin is, and lies in `0..=10_000`.
    pub closed spec fn wf(&self) -> bool {
        &&& self.ledger.wf()
        &&& (self.ledger@.admin is Some <==> self.fee_bps is Some)
        &&& (self.fee_bps matches Some(f) ==> 0 <= f <= 10_000)
    }

    /// A freshly registered token: no admin, no fee, no balances.
    pub fn new() -> (t: Self)
        ensures
            t.wf(),
            t@.ledger.admin is None,
            t@.fee_bps is None,
            t@.ledger.balances == Map::<Seq<u8>, i128>::empty(),
            t@.ledger.supply == 0,
    {
        MockFeeToken { ledger: TokenLedger::new(), fee_bps: None }
    }

    /// One-time setup. `admin` may `mint`; `fee_bps` is the per-transfer fee in
    /// basis points and must be in `0..=10_000`.
    pub fn init(&mut self, admin: &Address, fee_bps: i128) -> (r: Result<(), TokenError>)
        requires
            old(self).wf(),
        ensures
            final(self).wf(),
            r == fee_init_outcome(old(self)@, fee_bps as int),
            r is Ok ==> final(self)@ == (FeeTokenView {
                ledger: old(self)@.ledger.with_admin(admin@),
                fee_bps: Some(fee_bps),
            }),
            r is Err ==> final(self)@ == old(self)@,
    {
        if self.ledger.is_initialized() {
            return Err(TokenError::AlreadyInitialized);
        }
        if !(0 <= fee_bps && fee_bps <= BPS_DENOMINATOR) {
            return Err(TokenError::FeeOutOfRange);
        }
        let r = self.ledger.init(admin);
        self.fee_bps = Some(fee_bps);
        r
    }

    /// Mint `amount` to `to`. Admin-only.
    pub fn mint(&mut self, to: &Address, amount: i128, auth: &Auth) -> (r: Result<(), TokenError>)
        requires
            old(self).wf(),
        ensures
            final(self).wf(),
            r == mint_outcome(old(self)@.ledger, to@, amount as int, auth@),
            r is Ok ==> final(self)@ == old(self)@.with_ledger(
                minted(old(self)@.ledger, to@, amount as int),
            ),
            r is Ok ==> final(self)@.ledger.supply == old(self)@.ledger.supply + amount,
            r is Ok && old(self)@.ledger.balances_nonnegative()
                ==> final(self)@.ledger.balances_nonnegative(),
            r is Err ==> final(self)@ == old(self)@,
    {
        self.ledger.mint(to, amount, auth)
    }

    /// Transfer `amount` from `from`, crediting `to` with `amount - fee`. The
    /// fee is burned. Requires `from`'s authorization.
    pub fn transfer(&mut self, from: &Address, to: &Address, amount: i128, auth: &Auth) -> (r:
        Result<(), TokenError>)
        requires
            old(self).wf(),
        ensures
            final(self).wf(),
            r == fee_transfer_outcome(old(self)@, from@, to@, amount as int, auth@),
            r is Ok ==> final(self)@ == fee_transferred(old(self)@, from@, to@, amount as int),
            r is Ok ==> final(self)@.ledger.supply == old(self)@.ledger.supply - fee_on(
                amount as int,
                old(self)@.fee_bps->0 as int,
            ),
            r is Ok && from@ != to@ ==> final(self)@.ledger.balance(to@) == old(self)@.ledger.balance(
                to@,
            ) + amount - fee_on(amount as int, old(self)@.fee_bps->0 as int),
            r is Ok && old(self)@.ledger.balances_nonnegative()
                ==> final(self)@.ledger.balances_nonnegative(),
            r is Err ==> final(self)@ == old(self)@,
    {
        if amount < 0 {
            return Err(TokenError::NegativeAmount);
        }
        if !auth.authorizes(from) {
            return Err(TokenError::Unauthorized);
        }
        let from_balance = self.ledger.balance(from);
        if from_balance < amount {
            return Err(TokenError::InsufficientBalance);
        }
        let bps = match self.fee_bps {
            None => {
                return Err(TokenError::NotInitialized);
            },
            Some(b) => b,
        };
        let scaled = match amount.checked_mul(bps) {
            None => {
                return Err(TokenError::Overflow);
            },
            Some(p) => p,
        };
        let fee = scaled / BPS_DENOMINATOR;
        proof {
            lemma_fee_bounds(amount as int, bps as int);
        }
        let credited = amount - fee;
        proof {
            if fits_i128(debited(old(self)@.ledger, from@, amount as int).balance(to@) + credited) {
                lemma_moved(old(self)@.ledger, from@, to@, amount as int, credited as int);
            }
        }
        self.ledger.transfer_checked(from, to, amount, credited)
    }

    /// The configured per-transfer fee in basis points.
    pub fn fee_bps(&self) -> (r: Result<i128, TokenError>)
        requires
            self.wf(),
        ensures
            match self@.fee_bps {
                Some(f) => r == Ok::<i128, TokenError>(f),
                None => r == Err::<i128, TokenError>(TokenError::NotInitialized),
            },
    {
        match self.fee_bps {
            Some(f) => Ok(f),
            None => Err(TokenError::NotInitialized),
        }
    }

    /// Store `amount` as `id`'s balance entry, as it stands in contract
    /// storage; used to bring stored entries into the model.
    pub fn load_balance(&mut self, id: &Address, amount: i128)
        requires
            old(self).wf(),
        ensures
            final(self).wf(),
            final(self)@ == old(self)@.with_ledger(old(self)@.ledger.with_balance(id@, amount)),
    {
        self.ledger.load_balance(id, amount);
    }

    /// Read `id`'s balance. Returns `0` for an unknown address.
    pub fn balance(&self, id: &Address) -> (r: i128)
        requires
            self.wf(),
        ensures
            r == self@.ledger.balance(id@),
    {
        self.ledger.balance(id)
    }
}

/// Law: a successful fee-charging transfer debits `from` by `amount`,
/// credits `to` with `amount - fee` where `0 <= fee <= amount`, and burns the
/// fee from the total supply. A transfer from an address to itself costs it
/// exactly the fee.
pub proof fn law_fee_is_burned(s: FeeTokenView, from: Seq<u8>, to: Seq<u8>, amount: int, auth: AuthView)
    requires
        fee_transfer_outcome(s, from, to, amount, auth) is Ok,
        0 <= s.fee_bps->0 <= 10_000,
    ensures
        0 <= fee_on(amount, s.fee_bps->0 as int) <= amount,
        from != to ==> fee_transferred(s, from, to, amount).ledger.balance(from) == s.ledger.balance(
            from,
        ) - amount,
        from != to ==> fee_transferred(s, from, to, amount).ledger.balance(to) == s.ledger.balance(
            to,
        ) + amount - fee_on(amount, s.fee_bps->0 as int),
        from == to ==> fee_transferred(s, from, to, amount).ledger.balance(from) == s.ledger.balance(
            from,
        ) - fee_on(amount, s.fee_bps->0 as int),
        fee_transferred(s, from, to, amount).ledger.supply == s.ledger.supply - fee_on(
            amount,
            s.fee_bps->0 as int,
        ),
{
    lemma_fee_bounds(amount, s.fee_bps->0 as int);
    lemma_moved(s.ledger, from, to, amount, amount - fee_on(amount, s.fee_bps->0 as int));
}

/// Law: the fee rounds down: it is the largest integer whose `10_000`-fold
/// does not exceed `amount * fee_bps`.
pub proof fn law_fee_rounds_down(amount: int, fee_bps: int)
    requires
        amount >= 0,
        0 <= fee_bps <= 10_000,
    ensures
        fee_on(amount, fee_bps) * 10_000 <= amount * fee_bps,
        amount * fee_bps < (fee_on(amount, fee_bps) + 1) * 10_000,
{
    let p = amount * fee_bps;
    assert(p >= 0) by (nonlinear_arith)
        requires
            amount >= 0,
            fee_bps >= 0,
            p == amount * fee_bps,
    ;
    vstd::arithmetic::div_mod::lemma_fundamental_div_mod(p, 10_000);
}

/// Law: with a zero fee, transfers are lossless.
pub proof fn law_zero_fee_is_lossless(amount: int)
    ensures
        fee_on(amount, 0) == 0,
{
}

/// Law: a fee-charging `transfer` needs only the payer's authorization. It
/// succeeds whenever the amount is non-negative, `from` authorized the call,
/// `from`'s balance covers the amount, a fee is configured, and the fee and
/// the recipient's new balance can be computed in an `i128`; each refusal
/// names a condition that really fails.
pub proof fn law_fee_transfer_succeeds_when_covered(
    s: FeeTokenView,
    from: Seq<u8>,
    to: Seq<u8>,
    amount: int,
    auth: AuthView,
)
    requires
        s.fee_bps matches Some(f) && 0 <= f <= 10_000,
    ensures
        amount >= 0 && auth.authorizes(from) && s.ledger.balance(from) >= amount && i128::MIN
            <= amount * s.fee_bps->0 <= i128::MAX && (from == to || i128::MIN <= s.ledger.balance(
            to,
        ) + amount - fee_on(amount, s.fee_bps->0 as int) <= i128::MAX) ==> fee_transfer_outcome(
            s,
            from,
            to,
            amount,
            auth,
        ) is Ok,
        fee_transfer_outcome(s, from, to, amount, auth) == Err::<(), TokenError>(
            TokenError::Unauthorized,
        ) ==> !auth.authorizes(from),
        fee_transfer_outcome(s, from, to, amount, auth) == Err::<(), TokenError>(
            TokenError::InsufficientBalance,
        ) ==> s.ledger.balance(from) < amount,
        fee_transfer_outcome(s, from, to, amount, auth) == Err::<(), TokenError>(
            TokenError::NegativeAmount,
        ) ==> amount < 0,
{
    lemma_with_balance(s.ledger, from, (s.ledger.balance(from) - amount) as i128);
    if amount >= 0 {
        lemma_fee_bounds(amount, s.fee_bps->0 as int);
    }
}

} // verus!
