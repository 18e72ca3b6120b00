//! The agreement state and the plain-value types it is built from.

use vstd::prelude::*;

verus! {

/// An authenticated caller identity, as the host environment hands it in:
/// an opaque address string. The core never parses or verifies it.
#[derive(Debug)]
pub struct Addr {
    pub id: String,
}

impl View for Addr {
    type V = Seq<char>;

    open spec fn view(&self) -> Seq<char> {
        self.id@
    }
}

impl Addr {
    /// Wraps an already-authenticated address string.
    pub fn new(id: String) -> (a: Addr)
        ensures
            a@ == id@,
    {
        Addr { id }
    }

    /// Hands the underlying address string back out.
    pub fn into_string(self) -> (s: String)
        ensures
            s@ == self@,
    {
        self.id
    }
}

impl PartialEq for Addr {
    fn eq(&self, other: &Addr) -> (r: bool) {
        self.id == other.id
    }
}

impl vstd::std_specs::cmp::PartialEqSpecImpl for Addr {
    open spec fn obeys_eq_spec() -> bool {
        true
    }

    open spec fn eq_spec(&self, other: &Addr) -> bool {
        self.id@ == other.id@
    }
}

impl Clone for Addr {
    fn clone(&self) -> (r: Addr)
        ensures
            r@ == self@,
    {
        Addr { id: self.id.clone() }
    }
}

/// The mathematical value of a [`Coin`]: a denomination and an amount.
#[verifier::ext_equal]
pub struct CoinView {
    pub denom: Seq<char>,
    pub amount: int,
}

/// One (denomination, amount) pair of a price or of attached funds.
#[derive(Debug, PartialEq)]
pub struct Coin {
    pub denom: String,
    pub amount: u128,
}

impl View for Coin {
    type V = CoinView;

    open spec fn view(&self) -> CoinView {
        CoinView { denom: self.denom@, amount: self.amount as int }
    }
}

impl Clone for Coin {
    fn clone(&self) -> (r: Coin)
        ensures
            r@ == self@,
    {
        Coin { denom: self.denom.clone(), amount: self.amount }
    }
}

/// The values of a coin list, coin by coin.
pub open spec fn coins_view(s: Seq<Coin>) -> Seq<CoinView> {
    s.map_values(|c: Coin| c@)
}

/// Builds one coin.
pub fn coin(amount: u128, denom: String) -> (c: Coin)
    ensures
        c@ == (CoinView { denom: denom@, amount: amount as int }),
{
    Coin { denom, amount }
}

/// Builds a one-entry coin list, the common shape of a single-currency price.
pub fn coins(amount: u128, denom: String) -> (v: Vec<Coin>)
    ensures
        coins_view(v@) =~= seq![CoinView { denom: denom@, amount: amount as int }],
{
    let mut v: Vec<Coin> = Vec::new();
    v.push(Coin { denom, amount });
    v
}

/// Copies a coin list value for value.
pub fn clone_coins(v: &Vec<Coin>) -> (r: Vec<Coin>)
    ensures
        coins_view(r@) == coins_view(v@),
{
    let mut r: Vec<Coin> = Vec::new();
    let mut i: usize = 0;
    while i < v.len()
        invariant
            i <= v.len(),
            r@.len() == i,
            forall|j: int| 0 <= j < i ==> r@[j]@ == v@[j]@,
        decreases v.len() - i,
    {
        r.push(v[i].clone());
        i = i + 1;
    }
    assert(coins_view(r@) =~= coins_view(v@));
    r
}

/// The mathematical value of the agreement [`State`].
#[verifier::ext_equal]
pub struct StateView {
    pub address: Seq<char>,
    pub rentcost: Seq<CoinView>,
    pub renters: Seq<Seq<char>>,
    pub ownername: Seq<char>,
    pub owner: Seq<char>,
}

/// The one agreement record of a deployed contract: the rented property, the
/// required rent, the roster of renters, and the landlord's identity and
/// display name.
#[derive(Debug)]
pub struct State {
    pub address: String,
    pub rentcost: Vec<Coin>,
    pub renters: Vec<Addr>,
    pub ownername: String,
    pub owner: Addr,
}

/// The identities of a roster, entry by entry.
pub open spec fn renters_view(s: Seq<Addr>) -> Seq<Seq<char>> {
    s.map_values(|a: Addr| a@)
}

impl View for State {
    type V = StateView;

    open spec fn view(&self) -> StateView {
        StateView {
            address: self.address@,
            rentcost: coins_view(self.rentcost@),
            renters: renters_view(self.renters@),
            ownername: self.ownername@,
            owner: self.owner@,
        }
    }
}

/// Copies a roster identity for identity.
pub fn clone_renters(v: &Vec<Addr>) -> (r: Vec<Addr>)
    ensures
        renters_view(r@) == renters_view(v@),
{
    let mut r: Vec<Addr> = Vec::new();
    let mut i: usize = 0;
    while i < v.len()
        invariant
            i <= v.len(),
            r@.len() == i,
            forall|j: int| 0 <= j < i ==> r@[j]@ == v@[j]@,
        decreases v.len() - i,
    {
        r.push(v[i].clone());
        i = i + 1;
    }
    assert(renters_view(r@) =~= renters_view(v@));
    r
}

impl Clone for State {
    fn clone(&self) -> (r: State)
        ensures
            r@ == self@,
    {
        let r = State {
            address: self.address.clone(),
            rentcost: clone_coins(&self.rentcost),
            renters: clone_renters(&self.renters),
            ownername: self.ownername.clone(),
            owner: self.owner.clone(),
        };
        assert(r@ =~= self@);
        r
    }
}

} // verus!
