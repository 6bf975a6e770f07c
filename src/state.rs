use vstd::prelude::*;
use crate::amount::{conversion, whole_coins};
use crate::error::LifeError;
use crate::events::LifeEvent;
use crate::names::name_error;
use crate::records::{
    ChoicePrice, Listing, ObjectData, ObjectTypeData, PeopleData, SoldObjectReceipt,
    SoldPeopleReceipt,
};
use crate::tokens::{ObjectPayout, PeoplePayout};

verus! {

/// The abstract state of the engine.
///
/// Person `id` is `people[id - 1]` and object `id` is `objects[id - 1]`: ids are
/// handed out from 1 upward and never reused. An asset is in its holding vault
/// exactly when its listing is `Listed`. All amounts are in attos.
pub struct LifeState {
    pub eggs_on_sale: u32,
    pub egg_xrd_price: u128,
    pub coin_xrd_price: u128,
    pub hatch_time: i64,
    pub egg_image_url: Seq<char>,
    pub xrd_pool: u128,
    pub people: Seq<PeopleData>,
    pub people_listing: Seq<Listing>,
    pub objects: Seq<ObjectData>,
    pub object_listing: Seq<Listing>,
    pub object_types: Seq<ObjectTypeData>,
    pub choices: Seq<ChoicePrice>,
    pub last_receipt_id: u64,
    pub events: Seq<LifeEvent>,
}

impl LifeState {
    pub open spec fn has_person(self, id: u64) -> bool {
        1 <= id <= self.people.len()
    }

    pub open spec fn person(self, id: u64) -> PeopleData {
        self.people[id - 1]
    }

    pub open spec fn has_object(self, id: u64) -> bool {
        1 <= id <= self.objects.len()
    }

    pub open spec fn object(self, id: u64) -> ObjectData {
        self.objects[id - 1]
    }

    pub open spec fn has_type(self, name: Seq<char>) -> bool {
        exists|i: int| 0 <= i < self.object_types.len() && #[trigger] self.object_types[i].name@ == name
    }

    /// Where the catalog entry named `name` stands (meaningful when `has_type`).
    pub open spec fn type_index(self, name: Seq<char>) -> int {
        choose|i: int| 0 <= i < self.object_types.len() && #[trigger] self.object_types[i].name@ == name
    }

    pub open spec fn object_type(self, name: Seq<char>) -> ObjectTypeData {
        self.object_types[self.type_index(name)]
    }

    pub open spec fn has_choice(self, choice: Seq<char>) -> bool {
        exists|i: int| 0 <= i < self.choices.len() && #[trigger] self.choices[i].choice@ == choice
    }

    pub open spec fn choice_index(self, choice: Seq<char>) -> int {
        choose|i: int| 0 <= i < self.choices.len() && #[trigger] self.choices[i].choice@ == choice
    }

    pub open spec fn choice_price(self, choice: Seq<char>) -> u32 {
        self.choices[self.choice_index(choice)].price
    }

    /// The state's invariant: listings parallel the registries, ids fit in
    /// `u64`, the configuration is valid, and catalog and choice names are unique.
    pub open spec fn wf(self) -> bool {
        &&& self.people_listing.len() == self.people.len()
        &&& self.object_listing.len() == self.objects.len()
        &&& self.people.len() <= u64::MAX
        &&& self.objects.len() <= u64::MAX
        &&& self.egg_xrd_price > 0
        &&& self.coin_xrd_price > 0
        &&& self.hatch_time >= 0
        &&& type_names_unique(self.object_types)
        &&& choice_names_unique(self.choices)
    }
}

/// No two catalog entries share a name.
pub open spec fn type_names_unique(types: Seq<ObjectTypeData>) -> bool {
    forall|i: int, j: int|
        0 <= i < j < types.len() ==> #[trigger] types[i].name@ != #[trigger] types[j].name@
}

/// No two entries of the price table share a choice.
pub open spec fn choice_names_unique(choices: Seq<ChoicePrice>) -> bool {
    forall|i: int, j: int|
        0 <= i < j < choices.len() ==> #[trigger] choices[i].choice@ != #[trigger] choices[j].choice@
}

/// A fresh person record as minting makes it.
pub open spec fn is_newborn(
    p: PeopleData,
    father: u64,
    mother: u64,
    birth_date: int,
    image: Seq<char>,
) -> bool {
    &&& p.name@ == Seq::<char>::empty()
    &&& p.birth_date == birth_date
    &&& p.father == father
    &&& p.mother == mother
    &&& p.gender@ == "unknown"@
    &&& p.occupation@ == "unemployed"@
    &&& p.partner == 0
    &&& p.mood_status@ == "normal"@
    &&& p.health_status@ == "healthy"@
    &&& p.schooling@ == "none"@
    &&& p.key_image_url@ == image
}

/// Why minting a person at time `now` fails, if it does.
pub open spec fn mint_person_error(s: LifeState, now: i64) -> Option<LifeError> {
    if s.people.len() >= u64::MAX || now + s.hatch_time > i64::MAX {
        Some(LifeError::Overflow)
    } else {
        None
    }
}

/// `s1` is `s0` with person `id` minted at `now`: the next id, default fields,
/// birth `hatch_time` seconds after `now`, and a birth event.
pub open spec fn person_minted(
    s0: LifeState,
    s1: LifeState,
    id: u64,
    father: u64,
    mother: u64,
    now: i64,
) -> bool {
    &&& id == s0.people.len() + 1
    &&& s1.people.len() == s0.people.len() + 1
    &&& s1.people.drop_last() == s0.people
    &&& is_newborn(s1.people.last(), father, mother, now + s0.hatch_time, s0.egg_image_url)
    &&& s1 == LifeState {
        people: s1.people,
        people_listing: s0.people_listing.push(Listing::Unlisted),
        events: s0.events.push(
            LifeEvent::NewPeople { people_id: id, birth_date: (now + s0.hatch_time) as i64 },
        ),
        ..s0
    }
}

/// A fresh object record of catalog entry `t`.
pub open spec fn is_new_object(o: ObjectData, t: ObjectTypeData, mortgaged: bool) -> bool {
    &&& o.name@ == t.name@
    &&& o.mortgaged == mortgaged
    &&& !o.rent_allowed
    &&& o.daily_rent_price == 0
    &&& o.rent_to == 0
    &&& o.key_image_url@ == t.key_image_url@
}

/// `s1` is `s0` with object `id` of catalog entry `t` minted.
pub open spec fn object_minted(
    s0: LifeState,
    s1: LifeState,
    id: u64,
    t: ObjectTypeData,
    mortgaged: bool,
) -> bool {
    &&& id == s0.objects.len() + 1
    &&& s1.objects.len() == s0.objects.len() + 1
    &&& s1.objects.drop_last() == s0.objects
    &&& is_new_object(s1.objects.last(), t, mortgaged)
    &&& s1 == LifeState {
        objects: s1.objects,
        object_listing: s0.object_listing.push(Listing::Unlisted),
        ..s0
    }
}

/// Why buying an egg with `paid` attos at time `now` fails, if it does.
pub open spec fn buy_egg_error(s: LifeState, paid: u128, now: i64) -> Option<LifeError> {
    if paid < s.egg_xrd_price {
        Some(LifeError::InsufficientAmount)
    } else if s.eggs_on_sale == 0 {
        Some(LifeError::SaleEnded)
    } else if s.xrd_pool + s.egg_xrd_price > u128::MAX {
        Some(LifeError::Overflow)
    } else {
        mint_person_error(s, now)
    }
}

/// The price in whole coins of `amount` objects at unit price `price`; a
/// mortgaged purchase pays half, rounded down.
pub open spec fn objects_cost(price: u32, amount: u8, mortgaged: bool) -> int {
    if mortgaged {
        (price * amount) / 2
    } else {
        price * amount
    }
}

/// Why buying `amount` objects named `name` with `paid` attos fails, if it does.
pub open spec fn buy_objects_error(
    s: LifeState,
    paid: u128,
    name: Seq<char>,
    amount: u8,
    mortgaged: bool,
) -> Option<LifeError> {
    if amount == 0 {
        Some(LifeError::ZeroAmount)
    } else if !s.has_type(name) {
        Some(LifeError::ObjectNotFound)
    } else if !s.object_type(name).can_be_bought {
        Some(LifeError::CantBeBought)
    } else if mortgaged && !s.object_type(name).can_be_mortgaged {
        Some(LifeError::CantBeMortgaged)
    } else if s.object_type(name).price * amount > u32::MAX {
        Some(LifeError::Overflow)
    } else if paid < whole_coins(objects_cost(s.object_type(name).price, amount, mortgaged) as u32) {
        Some(LifeError::InsufficientAmount)
    } else if s.objects.len() + amount > u64::MAX {
        Some(LifeError::Overflow)
    } else {
        None
    }
}

/// `s1` is `s0` with `amount` objects of entry `t` minted under the next ids,
/// reported in one event.
pub open spec fn objects_minted(
    s0: LifeState,
    s1: LifeState,
    t: ObjectTypeData,
    amount: nat,
    mortgaged: bool,
) -> bool {
    &&& s1.objects.len() == s0.objects.len() + amount
    &&& s1.objects.subrange(0, s0.objects.len() as int) == s0.objects
    &&& forall|k: int|
        s0.objects.len() <= k < s1.objects.len() ==> is_new_object(
            #[trigger] s1.objects[k],
            t,
            mortgaged,
        )
    &&& s1.events.len() == s0.events.len() + 1
    &&& s1.events.drop_last() == s0.events
    &&& s1.events.last() matches LifeEvent::NewObject { name: n, ids, mortgaged: m } && n@
        == t.name@ && m == mortgaged && ids@ == Seq::new(
        amount,
        |k: int| (s0.objects.len() + 1 + k) as u64,
    )
    &&& s1 == LifeState {
        objects: s1.objects,
        object_listing: s0.object_listing + Seq::new(amount, |k: int| Listing::Unlisted),
        events: s1.events,
        ..s0
    }
}

/// Why buying coins with `paid` attos of the settlement asset fails, if it does.
pub open spec fn buy_coins_error(s: LifeState, paid: u128) -> Option<LifeError> {
    if conversion(paid as int, s.coin_xrd_price as int) > u128::MAX || s.xrd_pool + paid
        > u128::MAX {
        Some(LifeError::Overflow)
    } else {
        None
    }
}

/// The catalog entry as given to `add_object_type` or `update_object_type`.
pub open spec fn entry_is(
    t: ObjectTypeData,
    name: Seq<char>,
    price: u32,
    key_image_url: Seq<char>,
    can_be_bought: bool,
    can_be_mortgaged: bool,
    can_be_rent: bool,
) -> bool {
    &&& t.name@ == name
    &&& t.price == price
    &&& t.key_image_url@ == key_image_url
    &&& t.can_be_bought == can_be_bought
    &&& t.can_be_mortgaged == can_be_mortgaged
    &&& t.can_be_rent == can_be_rent
}

/// Why naming person `id` with the trimmed name `name` fails, if it does.
pub open spec fn give_name_error(s: LifeState, id: u64, name: Seq<char>) -> Option<LifeError> {
    if !s.has_person(id) {
        Some(LifeError::WrongNft)
    } else if s.person(id).name@ != Seq::<char>::empty() {
        Some(LifeError::NameAlreadyAssigned)
    } else {
        name_error(name)
    }
}

/// `s1` is `s0` with person `id` named `name`, and the naming logged.
pub open spec fn name_given(s0: LifeState, s1: LifeState, id: u64, name: Seq<char>) -> bool {
    &&& s0.has_person(id)
    &&& s1.person(id).name@ == name
    &&& s1.person(id) == PeopleData { name: s1.person(id).name, ..s0.person(id) }
    &&& s1 == LifeState {
        people: s0.people.update(id - 1, s1.person(id)),
        events: s0.events.push(LifeEvent::Name { people_id: id, name: s1.person(id).name }),
        ..s0
    }
}

/// The field after an optional update: the new value if there is one.
pub open spec fn updated<T>(old_value: T, new_value: Option<T>) -> T {
    match new_value {
        Some(v) => v,
        None => old_value,
    }
}

/// Why renting object `object_id` of entry `name` to person `people_id` fails, if it does.
pub open spec fn rent_error(s: LifeState, people_id: u64, name: Seq<char>, object_id: u64) -> Option<
    LifeError,
> {
    if !s.has_person(people_id) {
        Some(LifeError::WrongNft)
    } else if !s.has_type(name) {
        Some(LifeError::ObjectNotFound)
    } else if !s.object_type(name).can_be_rent {
        Some(LifeError::CantBeRent)
    } else if s.has_object(object_id) && !s.object(object_id).rent_allowed {
        Some(LifeError::NotForRent)
    } else if s.has_object(object_id) && s.object(object_id).rent_to != 0 {
        Some(LifeError::AlreadyRented)
    } else if s.has_object(object_id) && s.object(object_id).name@ != name {
        Some(LifeError::WrongName)
    } else {
        None
    }
}

/// Why person `people_id` cannot end the rent of object `object_id`, if it cannot.
pub open spec fn terminate_rent_error(s: LifeState, people_id: u64, object_id: u64) -> Option<
    LifeError,
> {
    if !s.has_person(people_id) {
        Some(LifeError::WrongNft)
    } else if s.has_object(object_id) && s.object(object_id).rent_to != people_id {
        Some(LifeError::NotRentedToCaller)
    } else {
        None
    }
}

/// Why mortgaging object `id` fails, if it does.
pub open spec fn mortgage_error(s: LifeState, id: u64) -> Option<LifeError> {
    if !s.has_object(id) {
        Some(LifeError::WrongNft)
    } else if !s.has_type(s.object(id).name@) {
        Some(LifeError::ObjectNotFound)
    } else if !s.object_type(s.object(id).name@).can_be_mortgaged {
        Some(LifeError::CantBeMortgaged)
    } else if s.object(id).mortgaged {
        Some(LifeError::AlreadyMortgaged)
    } else {
        None
    }
}

/// What a mortgage of object `id` pays out, in whole coins: half the catalog price.
pub open spec fn mortgage_payout(s: LifeState, id: u64) -> u32 {
    (s.object_type(s.object(id).name@).price / 2) as u32
}

/// Why opening or closing object `id` for rent fails, if it does.
pub open spec fn allow_rent_error(s: LifeState, id: u64, daily_price: Option<u32>) -> Option<
    LifeError,
> {
    if !s.has_object(id) {
        Some(LifeError::WrongNft)
    } else if !s.has_type(s.object(id).name@) {
        Some(LifeError::ObjectNotFound)
    } else if !s.object_type(s.object(id).name@).can_be_rent {
        Some(LifeError::CantBeRent)
    } else if s.object(id).rent_to != 0 && daily_price is Some {
        Some(LifeError::PriceLockedWhileRented)
    } else {
        None
    }
}

/// Why a choice fails, if it does, for person `people_id` paying `paid` attos.
pub open spec fn make_choice_error(s: LifeState, people_id: u64, choice: Seq<char>, paid: u128) -> Option<
    LifeError,
> {
    if !s.has_person(people_id) {
        Some(LifeError::WrongNft)
    } else if !s.has_choice(choice) {
        Some(LifeError::ChoiceNotFound)
    } else if s.choice_price(choice) > 0 && paid < whole_coins(s.choice_price(choice)) {
        Some(LifeError::NotEnoughCoins)
    } else {
        None
    }
}

/// The price an asset was last listed at (0 when it is not listed).
pub open spec fn listed_price(l: Listing) -> u32 {
    match l {
        Listing::Listed { price } => price,
        Listing::Unlisted => 0,
    }
}

/// Why listing object `id` for sale fails, if it does.
pub open spec fn sell_object_error(s: LifeState, id: u64) -> Option<LifeError> {
    if !s.has_object(id) {
        Some(LifeError::WrongNft)
    } else if s.object(id).rent_allowed || s.object(id).rent_to != 0 {
        Some(LifeError::CantSellRented)
    } else if s.last_receipt_id == u64::MAX {
        Some(LifeError::Overflow)
    } else {
        None
    }
}

/// `s1` is `s0` with object `id` moved into the vault at `price`, and
/// `receipt` issued under the next receipt id.
pub open spec fn object_listed(
    s0: LifeState,
    s1: LifeState,
    id: u64,
    price: u32,
    receipt_id: u64,
    receipt: SoldObjectReceipt,
) -> bool {
    &&& receipt_id == s0.last_receipt_id + 1
    &&& receipt.object_id == id
    &&& receipt.price == price
    &&& receipt.key_image_url == s0.object(id).key_image_url
    &&& s1 == LifeState {
        object_listing: s0.object_listing.update(id - 1, Listing::Listed { price }),
        last_receipt_id: receipt_id,
        events: s0.events.push(LifeEvent::SoldObject { object_id: id, price }),
        ..s0
    }
}

/// Why buying object `id` out of the vault with `paid` attos fails, if it does.
pub open spec fn buy_object_error(s: LifeState, id: u64, paid: u128) -> Option<LifeError> {
    if !s.has_object(id) || s.object_listing[id - 1] is Unlisted {
        Some(LifeError::NotOnSale)
    } else if paid < whole_coins(listed_price(s.object_listing[id - 1])) {
        Some(LifeError::InsufficientAmount)
    } else {
        None
    }
}

/// `s1` is `s0` with object `id` taken out of the vault by a buyer.
pub open spec fn object_bought(s0: LifeState, s1: LifeState, id: u64) -> bool {
    s1 == LifeState {
        object_listing: s0.object_listing.update(id - 1, Listing::Unlisted),
        events: s0.events.push(LifeEvent::BoughtObject { object_id: id }),
        ..s0
    }
}

/// Settlement of an object receipt: the object back while it is still in the
/// vault, otherwise the receipt's price in fresh coins.
pub open spec fn object_sale_closed(
    s0: LifeState,
    s1: LifeState,
    receipt: SoldObjectReceipt,
    payout: ObjectPayout,
) -> bool {
    let id = receipt.object_id;
    if s0.object_listing[id - 1] is Listed {
        &&& s1 == LifeState {
            object_listing: s0.object_listing.update(id - 1, Listing::Unlisted),
            ..s0
        }
        &&& payout matches ObjectPayout::Object(nft) && nft@ == id
    } else {
        &&& s1 == s0
        &&& payout matches ObjectPayout::Coins(c) && c@ == whole_coins(receipt.price)
    }
}

/// Why listing person `id` for sale fails, if it does.
pub open spec fn sell_people_error(s: LifeState, id: u64) -> Option<LifeError> {
    if !s.has_person(id) {
        Some(LifeError::WrongNft)
    } else if s.last_receipt_id == u64::MAX {
        Some(LifeError::Overflow)
    } else {
        None
    }
}

/// `s1` is `s0` with person `id` moved into the vault at `price`, and
/// `receipt` issued under the next receipt id.
pub open spec fn people_listed(
    s0: LifeState,
    s1: LifeState,
    id: u64,
    price: u32,
    receipt_id: u64,
    receipt: SoldPeopleReceipt,
) -> bool {
    &&& receipt_id == s0.last_receipt_id + 1
    &&& receipt.people_id == id
    &&& receipt.price == price
    &&& receipt.key_image_url == s0.person(id).key_image_url
    &&& s1 == LifeState {
        people_listing: s0.people_listing.update(id - 1, Listing::Listed { price }),
        last_receipt_id: receipt_id,
        events: s0.events.push(LifeEvent::SoldPeople { people_id: id, price }),
        ..s0
    }
}

/// Why buying person `id` out of the vault with `paid` attos fails, if it does.
pub open spec fn buy_people_error(s: LifeState, id: u64, paid: u128) -> Option<LifeError> {
    if !s.has_person(id) || s.people_listing[id - 1] is Unlisted {
        Some(LifeError::NotOnSale)
    } else if paid < whole_coins(listed_price(s.people_listing[id - 1])) {
        Some(LifeError::InsufficientAmount)
    } else {
        None
    }
}

/// `s1` is `s0` with person `id` taken out of the vault by a buyer.
pub open spec fn people_bought(s0: LifeState, s1: LifeState, id: u64) -> bool {
    s1 == LifeState {
        people_listing: s0.people_listing.update(id - 1, Listing::Unlisted),
        events: s0.events.push(LifeEvent::BoughtPeople { people_id: id }),
        ..s0
    }
}

/// Settlement of a person receipt: the person back while still in the vault,
/// otherwise the receipt's price in fresh coins.
pub open spec fn people_sale_closed(
    s0: LifeState,
    s1: LifeState,
    receipt: SoldPeopleReceipt,
    payout: PeoplePayout,
) -> bool {
    let id = receipt.people_id;
    if s0.people_listing[id - 1] is Listed {
        &&& s1 == LifeState {
            people_listing: s0.people_listing.update(id - 1, Listing::Unlisted),
            ..s0
        }
        &&& payout matches PeoplePayout::Person(nft) && nft@ == id
    } else {
        &&& s1 == s0
        &&& payout matches PeoplePayout::Coins(c) && c@ == whole_coins(receipt.price)
    }
}

/// In a state with unique catalog names, the entry at `i` is the one its name finds.
pub proof fn lemma_type_index_at(s: LifeState, i: int)
    requires
        type_names_unique(s.object_types),
        0 <= i < s.object_types.len(),
    ensures
        s.has_type(s.object_types[i].name@),
        s.type_index(s.object_types[i].name@) == i,
{
    let name = s.object_types[i].name@;
    assert(s.object_types[i].name@ == name);
    let k = s.type_index(name);
    assert(s.object_types[k].name@ == name);
    if k < i {
        assert(s.object_types[k].name@ != s.object_types[i].name@);
    } else if k > i {
        assert(s.object_types[i].name@ != s.object_types[k].name@);
    }
}

/// In a state with unique choice names, the entry at `i` is the one its name finds.
pub proof fn lemma_choice_index_at(s: LifeState, i: int)
    requires
        choice_names_unique(s.choices),
        0 <= i < s.choices.len(),
    ensures
        s.has_choice(s.choices[i].choice@),
        s.choice_index(s.choices[i].choice@) == i,
{
    let name = s.choices[i].choice@;
    assert(s.choices[i].choice@ == name);
    let k = s.choice_index(name);
    assert(s.choices[k].choice@ == name);
    if k < i {
        assert(s.choices[k].choice@ != s.choices[i].choice@);
    } else if k > i {
        assert(s.choices[i].choice@ != s.choices[k].choice@);
    }
}

} // verus!
