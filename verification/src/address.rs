//! Addresses, symbols and call authorization.
//!
//! An [`Address`] is identified by its strkey text (for example
//! `"GA7Q..."` for an account or `"CA3D..."` for a contract), held as bytes.
//! Two addresses are the same address exactly when their strkeys are equal.
//!
//! An [`Auth`] records which addresses authorized the current contract call:
//! either every address (a test environment with all authorizations mocked)
//! or an explicit list of signers.

use vstd::prelude::*;

verus! {

/// Byte-wise equality of two byte vectors.
pub(crate) fn bytes_equal(a: &Vec<u8>, b: &Vec<u8>) -> (r: bool)
    ensures
        r == (a@ == b@),
{
    if a.len() != b.len() {
        return false;
    }
    let n = a.len();
    let mut i: usize = 0;
    while i < n
        invariant
            n == a.len(),
            n == b.len(),
            i <= n,
            forall|j: int| 0 <= j < i ==> a@[j] == b@[j],
        decreases n - i,
    {
        if a[i] != b[i] {
            assert(a@[i as int] != b@[i as int]);
            return false;
        }
        i = i + 1;
    }
    assert(a@ =~= b@);
    true
}

/// A byte-for-byte copy of a byte vector.
fn bytes_copy(a: &Vec<u8>) -> (r: Vec<u8>)
    ensures
        r@ == a@,
{
    let mut out: Vec<u8> = Vec::new();
    let n = a.len();
    let mut i: usize = 0;
    while i < n
        invariant
            n == a.len(),
            i <= n,
            out@ == a@.subrange(0, i as int),
        decreases n - i,
    {
        out.push(a[i]);
        i = i + 1;
        assert(out@ =~= a@.subrange(0, i as int));
    }
    assert(a@.subrange(0, n as int) =~= a@);
    out
}

/// An account or contract address, identified by its strkey bytes.
#[derive(Debug)]
pub struct Address {
    strkey: Vec<u8>,
}

impl View for Address {
    type V = Seq<u8>;

    open spec fn view(&self) -> Seq<u8> {
        self.strkey_view()
    }
}

impl Address {
    /// The strkey bytes of this address.
    pub closed spec fn strkey_view(&self) -> Seq<u8> {
        self.strkey@
    }

    /// The address whose strkey is `strkey`.
    pub fn from_strkey(strkey: Vec<u8>) -> (a: Address)
        ensures
            a@ == strkey@,
    {
        Address { strkey }
    }

    /// The strkey bytes of this address.
    pub fn strkey(&self) -> (r: &Vec<u8>)
        ensures
            r@ == self@,
    {
        &self.strkey
    }

    /// Whether `self` and `other` are the same address.
    pub fn same_as(&self, other: &Address) -> (r: bool)
        ensures
            r == (self@ == other@),
    {
        bytes_equal(&self.strkey, &other.strkey)
    }

    /// A copy of this address.
    pub fn duplicate(&self) -> (r: Address)
        ensures
            r@ == self@,
    {
        Address { strkey: bytes_copy(&self.strkey) }
    }
}

/// A contract-event topic symbol, identified by its characters.
#[derive(Debug)]
pub struct Symbol {
    chars: Vec<u8>,
}

impl View for Symbol {
    type V = Seq<u8>;

    open spec fn view(&self) -> Seq<u8> {
        self.chars_view()
    }
}

impl Symbol {
    /// The characters of this symbol.
    pub closed spec fn chars_view(&self) -> Seq<u8> {
        self.chars@
    }

    /// The symbol made of `chars`.
    pub fn from_chars(chars: Vec<u8>) -> (s: Symbol)
        ensures
            s@ == chars@,
    {
        Symbol { chars }
    }

    /// Whether `self` and `other` are the same symbol.
    pub fn same_as(&self, other: &Symbol) -> (r: bool)
        ensures
            r == (self@ == other@),
    {
        bytes_equal(&self.chars, &other.chars)
    }

    /// A copy of this symbol.
    pub fn duplicate(&self) -> (r: Symbol)
        ensures
            r@ == self@,
    {
        Symbol { chars: bytes_copy(&self.chars) }
    }
}

/// Which addresses authorized a contract call, as a mathematical value.
pub struct AuthView {
    pub everyone: bool,
    pub signers: Set<Seq<u8>>,
}

impl AuthView {
    /// Whether a `require_auth()` on `addr` succeeds under this authorization.
    pub open spec fn authorizes(self, addr: Seq<u8>) -> bool {
        self.everyone || self.signers.contains(addr)
    }
}

/// The authorizations attached to one contract call.
pub struct Auth {
    everyone: bool,
    signers: Vec<Address>,
}

impl View for Auth {
    type V = AuthView;

    open spec fn view(&self) -> AuthView {
        self.auth_view()
    }
}

impl Auth {
    /// The authorizations as a mathematical value.
    pub closed spec fn auth_view(&self) -> AuthView {
        AuthView {
            everyone: self.everyone,
            signers: self.signers@.map_values(|a: Address| a@).to_set(),
        }
    }

    /// Every address has authorized the call (all authorizations mocked).
    pub fn everyone() -> (r: Auth)
        ensures
            forall|a: Seq<u8>| r@.authorizes(a),
    {
        Auth { everyone: true, signers: Vec::new() }
    }

    /// No address has authorized the call.
    pub fn nobody() -> (r: Auth)
        ensures
            r@ == (AuthView { everyone: false, signers: Set::<Seq<u8>>::empty() }),
            forall|a: Seq<u8>| !r@.authorizes(a),
    {
        let r = Auth { everyone: false, signers: Vec::new() };
        assert(r.signers@.map_values(|a: Address| a@) =~= Seq::<Seq<u8>>::empty());
        assert(r@.signers =~= Set::<Seq<u8>>::empty());
        r
    }

    /// Exactly the addresses in `signers` have authorized the call.
    pub fn signed_by(signers: Vec<Address>) -> (r: Auth)
        ensures
            forall|a: Seq<u8>|
                r@.authorizes(a) <==> exists|i: int| 0 <= i < signers@.len() && signers@[i]@ == a,
    {
        let r = Auth { everyone: false, signers };
        assert forall|a: Seq<u8>|
            r@.authorizes(a) <==> exists|i: int| 0 <= i < signers@.len() && signers@[i]@ == a by {
            let s = r.signers@.map_values(|x: Address| x@);
            if r@.authorizes(a) {
                assert(s.contains(a));
                let i = choose|i: int| 0 <= i < s.len() && s[i] == a;
                assert(signers@[i]@ == a);
            }
            if exists|i: int| 0 <= i < signers@.len() && signers@[i]@ == a {
                let i = choose|i: int| 0 <= i < signers@.len() && signers@[i]@ == a;
                assert(s[i] == a);
                assert(s.contains(a));
            }
        }
        r
    }

    /// Whether `addr.require_auth()` succeeds under these authorizations.
    pub fn authorizes(&self, addr: &Address) -> (r: bool)
        ensures
            r == self@.authorizes(addr@),
    {
        if self.everyone {
            return true;
        }
        let ghost s = self.signers@.map_values(|a: Address| a@);
        let n = self.signers.len();
        let mut i: usize = 0;
        while i < n
            invariant
                n == self.signers.len(),
                s == self.signers@.map_values(|a: Address| a@),
                i <= n,
                forall|j: int| 0 <= j < i ==> s[j] != addr@,
            decreases n - i,
        {
            if self.signers[i].same_as(addr) {
                assert(s[i as int] == addr@);
                assert(s.contains(addr@));
                return true;
            }
            i = i + 1;
        }
        assert(!s.contains(addr@));
        false
    }
}

} // verus!
