use vstd::prelude::*;
use crate::amount::whole_coins;
use crate::error::LifeError;
use crate::state::{
    buy_object_error, give_name_error, listed_price, name_given, object_bought, object_listed,
    object_sale_closed, person_minted, sell_object_error, LifeState,
};
use crate::records::{Listing, SoldObjectReceipt};
use crate::tokens::ObjectPayout;

verus! {

/// Person ids come in sequence: a mint returns the previous highest id plus one,
/// an id no person had before, so two mints in a row return strictly increasing
/// ids and never the same one.
pub proof fn lemma_person_ids_sequential(
    s0: LifeState,
    s1: LifeState,
    s2: LifeState,
    id1: u64,
    id2: u64,
    father1: u64,
    mother1: u64,
    now1: i64,
    father2: u64,
    mother2: u64,
    now2: i64,
)
    requires
        person_minted(s0, s1, id1, father1, mother1, now1),
        person_minted(s1, s2, id2, father2, mother2, now2),
    ensures
        id1 == s0.people.len() + 1,
        !s0.has_person(id1),
        s1.has_person(id1),
        id2 == id1 + 1,
        !s1.has_person(id2),
        s2.has_person(id1) && s2.has_person(id2),
{
}

/// A person is named at most once: after a successful naming, naming the same
/// person again fails with `NameAlreadyAssigned`, whatever the new name.
pub proof fn lemma_name_once(
    s0: LifeState,
    s1: LifeState,
    id: u64,
    name: Seq<char>,
    other: Seq<char>,
)
    requires
        give_name_error(s0, id, name) is None,
        name_given(s0, s1, id, name),
    ensures
        give_name_error(s1, id, other) == Some(LifeError::NameAlreadyAssigned),
{
    assert(name.len() > 0);
    assert(s1.person(id).name@ != Seq::<char>::empty()) by {
        assert(s1.person(id).name@.len() > 0);
    }
}

/// Listing an object and redeeming the receipt with no purchase between hands
/// the object itself back, not coins; the object's record is unchanged and it
/// is out of the vault again.
pub proof fn lemma_list_then_close_returns_object(
    s0: LifeState,
    s1: LifeState,
    s2: LifeState,
    id: u64,
    price: u32,
    receipt_id: u64,
    receipt: SoldObjectReceipt,
    payout: ObjectPayout,
)
    requires
        s0.wf(),
        sell_object_error(s0, id) is None,
        object_listed(s0, s1, id, price, receipt_id, receipt),
        object_sale_closed(s1, s2, receipt, payout),
    ensures
        payout matches ObjectPayout::Object(nft) && nft@ == id,
        s2.objects == s0.objects,
        s2.object_listing[id - 1] is Unlisted,
{
    assert(s1.object_listing[id - 1] == Listing::Listed { price });
}

/// An object bought out of the vault cannot be bought again: a second purchase
/// of the same id fails with `NotOnSale`, whatever the payment.
pub proof fn lemma_no_second_purchase(s1: LifeState, s2: LifeState, id: u64, paid: u128, again: u128)
    requires
        s1.wf(),
        buy_object_error(s1, id, paid) is None,
        object_bought(s1, s2, id),
    ensures
        buy_object_error(s2, id, again) == Some(LifeError::NotOnSale),
{
}

/// One full escrow cycle with one purchase: list at `price`, buy out of the
/// vault, redeem the receipt. The receipt pays exactly `price` in fresh coins,
/// which is what was burned from the buyer, and the vault no longer holds the
/// object.
pub proof fn lemma_escrow_cycle_conserves_coins(
    s0: LifeState,
    s1: LifeState,
    s2: LifeState,
    s3: LifeState,
    id: u64,
    price: u32,
    receipt_id: u64,
    receipt: SoldObjectReceipt,
    paid_before: u128,
    paid_after: u128,
    payout: ObjectPayout,
)
    requires
        s0.wf(),
        sell_object_error(s0, id) is None,
        object_listed(s0, s1, id, price, receipt_id, receipt),
        buy_object_error(s1, id, paid_before) is None,
        paid_after == paid_before - whole_coins(listed_price(s1.object_listing[id - 1])),
        object_bought(s1, s2, id),
        object_sale_closed(s2, s3, receipt, payout),
    ensures
        payout matches ObjectPayout::Coins(c) && c@ == whole_coins(price) && c@ == paid_before
            - paid_after,
        s3.object_listing[id - 1] is Unlisted,
{
    assert(s1.object_listing[id - 1] == Listing::Listed { price });
    assert(s2.object_listing[id - 1] == Listing::Unlisted);
}

} // verus!
