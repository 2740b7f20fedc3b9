use vstd::prelude::*;

verus! {

/// An amount of one fungible asset, named by its denomination.
#[derive(Debug, Clone, PartialEq, Eq)]
pub struct Coin {
    pub denom: String,
    pub amount: u128,
}

/// The mathematical value of a `Coin`.
pub struct CoinView {
    pub denom: Seq<char>,
    pub amount: u128,
}

impl View for Coin {
    type V = CoinView;

    open spec fn view(&self) -> CoinView {
        CoinView { denom: self.denom@, amount: self.amount }
    }
}

/// The abstract value of a list of coins.
pub open spec fn coins_view(v: Seq<Coin>) -> Seq<CoinView> {
    v.map_values(|c: Coin| c@)
}

/// The character of a single decimal digit.
pub open spec fn digit_char(d: nat) -> char {
    seq!['0', '1', '2', '3', '4', '5', '6', '7', '8', '9'][d as int]
}

/// The decimal notation of a natural number: no sign, no leading zeros.
pub open spec fn decimal(n: nat) -> Seq<char>
    decreases n,
{
    if n < 10 {
        seq![digit_char(n)]
    } else {
        decimal(n / 10).push(digit_char(n % 10))
    }
}

/// Relies on the `Display` impl of `u64` (through `ToString`): the number in
/// decimal digits, without sign or padding.
#[verifier::external_body]
pub(crate) fn u64_text(n: u64) -> (r: String)
    ensures
        r@ == decimal(n as nat),
{
    n.to_string()
}

/// Relies on cosmwasm_std's `Display` impl for `Coin`: the amount in decimal
/// digits immediately followed by the denomination.
#[verifier::external_body]
pub(crate) fn coin_text(c: &Coin) -> (r: String)
    ensures
        r@ == decimal(c.amount as nat) + c.denom@,
{
    cosmwasm_std::Coin::new(c.amount, c.denom.clone()).to_string()
}

impl Coin {
    /// A coin of `amount` units of `denom`.
    pub fn new(amount: u128, denom: String) -> (r: Coin)
        ensures
            r.amount == amount,
            r.denom@ == denom@,
    {
        Coin { denom, amount }
    }

    /// A copy of this coin.
    pub fn duplicate(&self) -> (r: Coin)
        ensures
            r@ == self@,
    {
        Coin { denom: self.denom.clone(), amount: self.amount }
    }

    /// The coin as text, as the host's attributes show it: `"10atom"`.
    pub fn to_text(&self) -> (r: String)
        ensures
            r@ == decimal(self.amount as nat) + self.denom@,
    {
        coin_text(self)
    }
}

} // verus!
