use vstd::prelude::*;

use crate::coin::CoinView;
use crate::contract::{
    after_donate, after_reset, cap_for, cap_from, donation_fits, initial_state,
    min_amount, remaining, threshold_met, withdraw_to_amounts,
};
use crate::state::StateView;

verus! {

/// A fresh instance reads zero, is owned by the account that created it, and
/// keeps the minimal donation it was given.
pub proof fn fresh_instance(sender: Seq<char>, minimal: CoinView)
    ensures
        initial_state(sender, minimal).counter == 0,
        initial_state(sender, minimal).owner == sender,
        initial_state(sender, minimal).minimal_donation == minimal,
{
}

/// A donation that meets the threshold adds exactly one to the counter; one
/// that does not leaves the state as it was. The owner and the minimal
/// donation never change, whoever donates.
pub proof fn donation_counts_once(s: StateView, funds: Seq<CoinView>)
    requires
        donation_fits(s, funds),
    ensures
        threshold_met(s.minimal_donation, funds) ==> after_donate(s, funds).counter == s.counter
            + 1,
        !threshold_met(s.minimal_donation, funds) ==> after_donate(s, funds) == s,
        after_donate(s, funds).owner == s.owner,
        after_donate(s, funds).minimal_donation == s.minimal_donation,
{
}

/// Funds with no coin of the minimal donation's denomination, or only coins
/// of it below the minimal amount, are not counted.
pub proof fn insufficient_donation_ignored(s: StateView, funds: Seq<CoinView>)
    requires
        forall|i: int|
            0 <= i < funds.len() && #[trigger] funds[i].denom == s.minimal_donation.denom
                ==> funds[i].amount < s.minimal_donation.amount,
    ensures
        after_donate(s, funds) == s,
{
}

/// The owner's reset sets the counter to exactly the given value, lower or
/// higher than before; anyone else's reset changes nothing.
pub proof fn reset_by_owner_only(s: StateView, sender: Seq<char>, counter: u64)
    ensures
        sender == s.owner ==> after_reset(s, sender, counter).counter == counter,
        sender == s.owner ==> after_reset(s, sender, counter).owner == s.owner,
        sender == s.owner ==> after_reset(s, sender, counter).minimal_donation
            == s.minimal_donation,
        sender != s.owner ==> after_reset(s, sender, counter) == s,
{
}

/// Sending the whole balance, as a withdrawal does, leaves every
/// denomination at zero.
pub proof fn withdraw_empties_balance(balance: Seq<CoinView>)
    ensures
        remaining(balance, balance).len() == balance.len(),
        forall|i: int|
            0 <= i < balance.len() ==> (#[trigger] remaining(balance, balance)[i]).amount == 0
                && remaining(balance, balance)[i].denom == balance[i].denom,
{
}

proof fn cap_from_absent(caps: Seq<CoinView>, denom: Seq<char>, i: nat)
    requires
        forall|j: int| 0 <= j < caps.len() ==> (#[trigger] caps[j]).denom != denom,
    ensures
        cap_from(caps, denom, i) == 0,
    decreases caps.len() - i,
{
    if i < caps.len() {
        cap_from_absent(caps, denom, i + 1);
    }
}

/// With no caps a withdrawal sends the whole balance. With caps, each held
/// denomination sends the lesser of what is held and its cap, and one
/// without a cap sends nothing; so nothing beyond what is held ever leaves,
/// and what stays plus what is sent is what was held.
pub proof fn withdraw_to_respects_caps(balance: Seq<CoinView>, caps: Seq<CoinView>)
    ensures
        caps.len() == 0 ==> withdraw_to_amounts(balance, caps) == balance,
        withdraw_to_amounts(balance, caps).len() == balance.len(),
        forall|i: int|
            #![trigger withdraw_to_amounts(balance, caps)[i]]
            0 <= i < balance.len() ==> withdraw_to_amounts(balance, caps)[i].denom
                == balance[i].denom && withdraw_to_amounts(balance, caps)[i].amount
                <= balance[i].amount && remaining(balance, withdraw_to_amounts(balance, caps))[i].amount
                + withdraw_to_amounts(balance, caps)[i].amount == balance[i].amount,
        caps.len() > 0 ==> forall|i: int|
            #![trigger withdraw_to_amounts(balance, caps)[i]]
            0 <= i < balance.len() ==> withdraw_to_amounts(balance, caps)[i].amount
                == min_amount(balance[i].amount, cap_for(caps, balance[i].denom)),
        caps.len() > 0 ==> forall|i: int|
            #![trigger withdraw_to_amounts(balance, caps)[i]]
            0 <= i < balance.len() && (forall|j: int|
                0 <= j < caps.len() ==> (#[trigger] caps[j]).denom != balance[i].denom)
                ==> withdraw_to_amounts(balance, caps)[i].amount == 0,
{
    assert forall|i: int|
        0 <= i < balance.len() && (forall|j: int|
            0 <= j < caps.len() ==> (#[trigger] caps[j]).denom != balance[i].denom) implies cap_for(
        caps,
        balance[i].denom,
    ) == 0 by {
        cap_from_absent(caps, balance[i].denom, 0);
    }
}

} // verus!
