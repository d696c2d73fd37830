//! A mock price-feed contract.
//!
//! DeFi contract tests (AMMs, vaults, liquidation logic) constantly need a
//! price for some asset without wiring up a real oracle. `MockOracle` stores
//! a single `i128` price per asset address and lets a test set it directly.

use vstd::prelude::*;
use crate::address::Address;
use crate::mocks::book::{amount_in, Book};

verus! {

/// A mock price feed.
pub struct MockOracle {
    prices: Book<Address>,
}

impl View for MockOracle {
    type V = Map<Seq<u8>, i128>;

    open spec fn view(&self) -> Map<Seq<u8>, i128> {
        self.prices_view()
    }
}

impl MockOracle {
    /// The stored prices, by asset.
    pub closed spec fn prices_view(&self) -> Map<Seq<u8>, i128> {
        self.prices.stored()
    }

    /// The internal bookkeeping is consistent.
    pub closed spec fn wf(&self) -> bool {
        self.prices.wf()
    }

    /// A freshly registered oracle with no prices.
    pub fn new() -> (o: MockOracle)
        ensures
            o.wf(),
            o@ == Map::<Seq<u8>, i128>::empty(),
    {
        MockOracle { prices: Book::new() }
    }

    /// Set `asset`'s price. Overwrites any previously set value.
    pub fn set_price(&mut self, asset: &Address, price: i128)
        requires
            old(self).wf(),
        ensures
            final(self).wf(),
            final(self)@ == old(self)@.insert(asset@, price),
    {
        self.prices.set(asset, price);
    }

    /// Read `asset`'s last-set price. Returns `0` for an asset with no price
    /// set yet.
    pub fn get_price(&self, asset: &Address) -> (r: i128)
        requires
            self.wf(),
        ensures
            r == amount_in(self@, asset@),
    {
        self.prices.get(asset)
    }
}

} // verus!
