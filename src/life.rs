use vstd::prelude::*;
use crate::amount::{coins_of_price, conversion, convert_at_rate, whole_coins};
use crate::error::LifeError;
use crate::events::LifeEvent;
use crate::names::{trim, trim_of, validate_name};
use crate::records::{
    ChoicePrice, Listing, ObjectData, ObjectTypeData, PeopleData, PeopleFieldUpdate,
    SoldObjectReceipt, SoldPeopleReceipt,
};
use crate::state::{
    allow_rent_error, buy_coins_error, buy_egg_error, buy_object_error, buy_objects_error,
    buy_people_error, entry_is, give_name_error, is_new_object, lemma_choice_index_at,
    lemma_type_index_at, listed_price, make_choice_error, mint_person_error, mortgage_error,
    mortgage_payout, name_given, object_bought, object_listed, object_minted,
    object_sale_closed, objects_cost, objects_minted, people_bought, people_listed,
    people_sale_closed, person_minted, rent_error, sell_object_error, sell_people_error,
    terminate_rent_error, updated, LifeState,
};
use crate::tokens::{
    Coins, ObjectNft, ObjectPayout, PeopleNft, PeoplePayout, SoldObjectNft, SoldPeopleNft,
};

verus! {

/// The engine: registries of people and objects, the catalog, the price table
/// of choices, the holding vaults, the settlement pool and the audit log.
///
/// Who may call what (owner, operator, public) is checked by the host before a
/// call reaches the engine; ownership of a record is attested by lending its
/// `PeopleNft` or `ObjectNft`.
pub struct RadixLife {
    eggs_on_sale: u32,
    egg_xrd_price: u128,
    coin_xrd_price: u128,
    hatch_time: i64,
    egg_image_url: String,
    xrd_pool: u128,
    people: Vec<PeopleData>,
    people_listing: Vec<Listing>,
    objects: Vec<ObjectData>,
    object_listing: Vec<Listing>,
    object_types: Vec<ObjectTypeData>,
    choices: Vec<ChoicePrice>,
    last_receipt_id: u64,
    events: Vec<LifeEvent>,
}

impl View for RadixLife {
    type V = LifeState;

    closed spec fn view(&self) -> LifeState {
        LifeState {
            eggs_on_sale: self.eggs_on_sale,
            egg_xrd_price: self.egg_xrd_price,
            coin_xrd_price: self.coin_xrd_price,
            hatch_time: self.hatch_time,
            egg_image_url: self.egg_image_url@,
            xrd_pool: self.xrd_pool,
            people: self.people@,
            people_listing: self.people_listing@,
            objects: self.objects@,
            object_listing: self.object_listing@,
            object_types: self.object_types@,
            choices: self.choices@,
            last_receipt_id: self.last_receipt_id,
            events: self.events@,
        }
    }
}

impl RadixLife {
    /// Sets up an engine with `eggs_on_sale` eggs at `egg_xrd_price` attos each,
    /// coins at `coin_xrd_price` attos each, and births `hatch_time` seconds
    /// after minting.
    pub fn new(
        eggs_on_sale: u32,
        egg_xrd_price: u128,
        coin_xrd_price: u128,
        hatch_time: i64,
        egg_image_url: String,
    ) -> (r: Result<RadixLife, LifeError>)
        ensures
            eggs_on_sale <= 2 ==> r == Err::<RadixLife, LifeError>(LifeError::TooFewEggs),
            eggs_on_sale > 2 && egg_xrd_price == 0 ==> r == Err::<RadixLife, LifeError>(
                LifeError::InvalidEggPrice,
            ),
            eggs_on_sale > 2 && egg_xrd_price > 0 && coin_xrd_price == 0 ==> r == Err::<
                RadixLife,
                LifeError,
            >(LifeError::InvalidCoinPrice),
            eggs_on_sale > 2 && egg_xrd_price > 0 && coin_xrd_price > 0 && hatch_time < 0 ==> r
                == Err::<RadixLife, LifeError>(LifeError::NegativeHatchTime),
            eggs_on_sale > 2 && egg_xrd_price > 0 && coin_xrd_price > 0 && hatch_time >= 0 ==> r
                is Ok,
            r matches Ok(life) ==> life@.wf() && life@ == (LifeState {
                eggs_on_sale,
                egg_xrd_price,
                coin_xrd_price,
                hatch_time,
                egg_image_url: egg_image_url@,
                xrd_pool: 0,
                people: Seq::empty(),
                people_listing: Seq::empty(),
                objects: Seq::empty(),
                object_listing: Seq::empty(),
                object_types: Seq::empty(),
                choices: Seq::empty(),
                last_receipt_id: 0,
                events: Seq::empty(),
            }),
    {
        if eggs_on_sale <= 2 {
            return Err(LifeError::TooFewEggs);
        }
        if egg_xrd_price == 0 {
            return Err(LifeError::InvalidEggPrice);
        }
        if coin_xrd_price == 0 {
            return Err(LifeError::InvalidCoinPrice);
        }
        if hatch_time < 0 {
            return Err(LifeError::NegativeHatchTime);
        }
        let life = RadixLife {
            eggs_on_sale,
            egg_xrd_price,
            coin_xrd_price,
            hatch_time,
            egg_image_url,
            xrd_pool: 0,
            people: Vec::new(),
            people_listing: Vec::new(),
            objects: Vec::new(),
            object_listing: Vec::new(),
            object_types: Vec::new(),
            choices: Vec::new(),
            last_receipt_id: 0,
            events: Vec::new(),
        };
        proof {
            assert(life@.people =~= Seq::<PeopleData>::empty());
        }
        Ok(life)
    }

    /// Where person `id` stands in the registry.
    fn person_index(&self, id: u64) -> (r: Option<usize>)
        requires
            self@.wf(),
        ensures
            r matches Some(i) ==> self@.has_person(id) && i == id - 1,
            r is None ==> !self@.has_person(id),
    {
        if id == 0 || id > self.people.len() as u64 {
            None
        } else {
            Some((id - 1) as usize)
        }
    }

    /// Where object `id` stands in the registry.
    fn object_index(&self, id: u64) -> (r: Option<usize>)
        requires
            self@.wf(),
        ensures
            r matches Some(i) ==> self@.has_object(id) && i == id - 1,
            r is None ==> !self@.has_object(id),
    {
        if id == 0 || id > self.objects.len() as u64 {
            None
        } else {
            Some((id - 1) as usize)
        }
    }

    /// Where the catalog entry named `name` stands.
    fn find_type(&self, name: &String) -> (r: Option<usize>)
        requires
            self@.wf(),
        ensures
            r matches Some(i) ==> self@.has_type(name@) && i == self@.type_index(name@),
            r is None ==> !self@.has_type(name@),
    {
        let mut i: usize = 0;
        while i < self.object_types.len()
            invariant
                self@.wf(),
                i <= self.object_types@.len(),
                forall|j: int| 0 <= j < i ==> (#[trigger] self.object_types@[j]).name@ != name@,
            decreases self.object_types@.len() - i,
        {
            if self.object_types[i].name == *name {
                proof {
                    let k = self@.type_index(name@);
                    assert(0 <= i < self@.object_types.len() && self@.object_types[i as int].name@
                        == name@);
                    assert(self@.object_types[k].name@ == name@);
                    if k != i {
                        if k < i {
                            assert(self@.object_types[k].name@ != self@.object_types[i as int].name@);
                        } else {
                            assert(self@.object_types[i as int].name@ != self@.object_types[k].name@);
                        }
                    }
                }
                return Some(i);
            }
            i = i + 1;
        }
        None
    }

    /// Where the price of `choice` stands.
    fn find_choice(&self, choice: &String) -> (r: Option<usize>)
        requires
            self@.wf(),
        ensures
            r matches Some(i) ==> self@.has_choice(choice@) && i == self@.choice_index(choice@),
            r is None ==> !self@.has_choice(choice@),
    {
        let mut i: usize = 0;
        while i < self.choices.len()
            invariant
                self@.wf(),
                i <= self.choices@.len(),
                forall|j: int| 0 <= j < i ==> (#[trigger] self.choices@[j]).choice@ != choice@,
            decreases self.choices@.len() - i,
        {
            if self.choices[i].choice == *choice {
                proof {
                    let k = self@.choice_index(choice@);
                    assert(0 <= i < self@.choices.len() && self@.choices[i as int].choice@
                        == choice@);
                    assert(self@.choices[k].choice@ == choice@);
                    if k != i {
                        if k < i {
                            assert(self@.choices[k].choice@ != self@.choices[i as int].choice@);
                        } else {
                            assert(self@.choices[i as int].choice@ != self@.choices[k].choice@);
                        }
                    }
                }
                return Some(i);
            }
            i = i + 1;
        }
        None
    }

    /// Mints the next person, born `hatch_time` seconds after `now`.
    fn mint_egg(&mut self, father: u64, mother: u64, now: i64) -> (r: Result<
        PeopleNft,
        LifeError,
    >)
        requires
            old(self)@.wf(),
        ensures
            final(self)@.wf(),
            match r {
                Ok(nft) => mint_person_error(old(self)@, now) is None && person_minted(
                    old(self)@,
                    final(self)@,
                    nft@,
                    father,
                    mother,
                    now,
                ),
                Err(e) => mint_person_error(old(self)@, now) == Some(e) && final(self)@ == old(self)@,
            },
    {
        if self.people.len() as u64 == u64::MAX {
            return Err(LifeError::Overflow);
        }
        let birth_date = match now.checked_add(self.hatch_time) {
            Some(b) => b,
            None => return Err(LifeError::Overflow),
        };
        let id = self.people.len() as u64 + 1;
        let ghost s0 = self@;
        self.people.push(
            PeopleData {
                name: String::new(),
                birth_date,
                father,
                mother,
                gender: String::from_str("unknown"),
                occupation: String::from_str("unemployed"),
                partner: 0,
                mood_status: String::from_str("normal"),
                health_status: String::from_str("healthy"),
                schooling: String::from_str("none"),
                key_image_url: self.egg_image_url.clone(),
            },
        );
        self.people_listing.push(Listing::Unlisted);
        self.events.push(LifeEvent::NewPeople { people_id: id, birth_date });
        proof {
            assert(self@.people.drop_last() =~= s0.people);
        }
        Ok(PeopleNft::mint(id))
    }

    /// Mints a person with the given parents (operator only).
    pub fn new_egg(&mut self, father: u64, mother: u64, now: i64) -> (r: Result<
        PeopleNft,
        LifeError,
    >)
        requires
            old(self)@.wf(),
        ensures
            final(self)@.wf(),
            match r {
                Ok(nft) => mint_person_error(old(self)@, now) is None && person_minted(
                    old(self)@,
                    final(self)@,
                    nft@,
                    father,
                    mother,
                    now,
                ),
                Err(e) => mint_person_error(old(self)@, now) == Some(e) && final(self)@ == old(self)@,
            },
    {
        self.mint_egg(father, mother, now)
    }

    /// Sells one egg from the offer for `paid` attos of the settlement asset;
    /// the egg price goes to the pool and the rest comes back as change.
    pub fn buy_egg(&mut self, paid: u128, now: i64) -> (r: Result<(PeopleNft, u128), LifeError>)
        requires
            old(self)@.wf(),
        ensures
            final(self)@.wf(),
            match r {
                Ok((nft, change)) => buy_egg_error(old(self)@, paid, now) is None && change == paid
                    - old(self)@.egg_xrd_price && person_minted(
                    LifeState {
                        eggs_on_sale: (old(self)@.eggs_on_sale - 1) as u32,
                        xrd_pool: (old(self)@.xrd_pool + old(self)@.egg_xrd_price) as u128,
                        ..old(self)@
                    },
                    final(self)@,
                    nft@,
                    0,
                    0,
                    now,
                ),
                Err(e) => buy_egg_error(old(self)@, paid, now) == Some(e) && final(self)@ == old(self)@,
            },
    {
        if paid < self.egg_xrd_price {
            return Err(LifeError::InsufficientAmount);
        }
        if self.eggs_on_sale == 0 {
            return Err(LifeError::SaleEnded);
        }
        if self.xrd_pool > u128::MAX - self.egg_xrd_price {
            return Err(LifeError::Overflow);
        }
        if self.people.len() as u64 == u64::MAX || now.checked_add(self.hatch_time).is_none() {
            return Err(LifeError::Overflow);
        }
        self.xrd_pool = self.xrd_pool + self.egg_xrd_price;
        self.eggs_on_sale = self.eggs_on_sale - 1;
        match self.mint_egg(0, 0, now) {
            Ok(nft) => Ok((nft, paid - self.egg_xrd_price)),
            Err(e) => Err(e),
        }
    }

    /// Mints one object of the catalog entry `name` (operator only).
    pub fn new_object(&mut self, name: String, mortgaged: bool) -> (r: Result<
        ObjectNft,
        LifeError,
    >)
        requires
            old(self)@.wf(),
        ensures
            final(self)@.wf(),
            !old(self)@.has_type(name@) ==> r == Err::<ObjectNft, LifeError>(
                LifeError::ObjectNotFound,
            ),
            old(self)@.has_type(name@) && old(self)@.objects.len() >= u64::MAX ==> r == Err::<
                ObjectNft,
                LifeError,
            >(LifeError::Overflow),
            r is Err ==> final(self)@ == old(self)@,
            r matches Ok(nft) ==> old(self)@.has_type(name@) && object_minted(
                old(self)@,
                final(self)@,
                nft@,
                old(self)@.object_type(name@),
                mortgaged,
            ),
            old(self)@.has_type(name@) && old(self)@.objects.len() < u64::MAX ==> r is Ok,
    {
        let t = match self.find_type(&name) {
            Some(t) => t,
            None => return Err(LifeError::ObjectNotFound),
        };
        if self.objects.len() as u64 == u64::MAX {
            return Err(LifeError::Overflow);
        }
        let id = self.objects.len() as u64 + 1;
        let ghost s0 = self@;
        let image = self.object_types[t].key_image_url.clone();
        self.objects.push(
            ObjectData {
                name,
                mortgaged,
                rent_allowed: false,
                daily_rent_price: 0,
                rent_to: 0,
                key_image_url: image,
            },
        );
        self.object_listing.push(Listing::Unlisted);
        proof {
            assert(self@.objects.drop_last() =~= s0.objects);
        }
        Ok(ObjectNft::mint(id))
    }

    /// Sells `amount` objects of catalog entry `name`, paid in coins burned from
    /// `payment`; a mortgaged purchase costs half.
    pub fn buy_objects(
        &mut self,
        payment: &mut Coins,
        name: String,
        amount: u8,
        mortgaged: bool,
    ) -> (r: Result<Vec<ObjectNft>, LifeError>)
        requires
            old(self)@.wf(),
        ensures
            final(self)@.wf(),
            match r {
                Ok(nfts) => buy_objects_error(old(self)@, old(payment)@, name@, amount, mortgaged)
                    is None && final(payment)@ == old(payment)@ - whole_coins(
                    objects_cost(old(self)@.object_type(name@).price, amount, mortgaged) as u32,
                ) && objects_minted(
                    old(self)@,
                    final(self)@,
                    old(self)@.object_type(name@),
                    amount as nat,
                    mortgaged,
                ) && nfts@.len() == amount && forall|k: int|
                    0 <= k < amount ==> (#[trigger] nfts@[k])@ == old(self)@.objects.len() + 1 + k,
                Err(e) => buy_objects_error(old(self)@, old(payment)@, name@, amount, mortgaged)
                    == Some(e) && final(self)@ == old(self)@ && final(payment)@ == old(payment)@,
            },
    {
        if amount == 0 {
            return Err(LifeError::ZeroAmount);
        }
        let t = match self.find_type(&name) {
            Some(t) => t,
            None => return Err(LifeError::ObjectNotFound),
        };
        if !self.object_types[t].can_be_bought {
            return Err(LifeError::CantBeBought);
        }
        if mortgaged && !self.object_types[t].can_be_mortgaged {
            return Err(LifeError::CantBeMortgaged);
        }
        let unit = self.object_types[t].price;
        let full = match unit.checked_mul(amount as u32) {
            Some(p) => p,
            None => return Err(LifeError::Overflow),
        };
        let total = if mortgaged {
            full / 2
        } else {
            full
        };
        let cost = coins_of_price(total);
        if payment.amount() < cost {
            return Err(LifeError::InsufficientAmount);
        }
        if self.objects.len() as u64 > u64::MAX - amount as u64 {
            return Err(LifeError::Overflow);
        }
        let first = self.objects.len() as u64 + 1;
        payment.burn(cost);
        let ghost s0 = self@;
        let image = self.object_types[t].key_image_url.clone();
        let mut nfts: Vec<ObjectNft> = Vec::new();
        let mut ids: Vec<u64> = Vec::new();
        let mut k: u8 = 0;
        while k < amount
            invariant
                s0.wf(),
                0 <= k <= amount,
                first == s0.objects.len() + 1,
                s0.objects.len() + amount <= u64::MAX,
                image@ == s0.object_types[t as int].key_image_url@,
                name@ == s0.object_types[t as int].name@,
                0 <= t < s0.object_types.len(),
                self@ == (LifeState {
                    objects: self@.objects,
                    object_listing: self@.object_listing,
                    ..s0
                }),
                self@.objects.len() == s0.objects.len() + k,
                self@.objects.subrange(0, s0.objects.len() as int) == s0.objects,
                self@.object_listing == s0.object_listing + Seq::new(
                    k as nat,
                    |j: int| Listing::Unlisted,
                ),
                forall|j: int|
                    s0.objects.len() <= j < self@.objects.len() ==> is_new_object(
                        #[trigger] self@.objects[j],
                        s0.object_types[t as int],
                        mortgaged,
                    ),
                nfts@.len() == k,
                forall|j: int| 0 <= j < k ==> (#[trigger] nfts@[j])@ == first + j,
                ids@ == Seq::new(k as nat, |j: int| (first + j) as u64),
            decreases amount - k,
        {
            let id = first + k as u64;
            let ghost before = self@;
            self.objects.push(
                ObjectData {
                    name: name.clone(),
                    mortgaged,
                    rent_allowed: false,
                    daily_rent_price: 0,
                    rent_to: 0,
                    key_image_url: image.clone(),
                },
            );
            self.object_listing.push(Listing::Unlisted);
            nfts.push(ObjectNft::mint(id));
            ids.push(id);
            k = k + 1;
            proof {
                assert(self@.objects.subrange(0, s0.objects.len() as int) =~= s0.objects) by {
                    assert(self@.objects.subrange(0, s0.objects.len() as int) =~= before.objects.subrange(
                        0,
                        s0.objects.len() as int,
                    ));
                }
                assert(self@.object_listing =~= s0.object_listing + Seq::new(
                    k as nat,
                    |j: int| Listing::Unlisted,
                ));
                assert(ids@ =~= Seq::new(k as nat, |j: int| (first + j) as u64));
            }
        }
        self.events.push(LifeEvent::NewObject { name, ids, mortgaged });
        proof {
            assert(self@.events.drop_last() =~= s0.events);
            assert(s0.object_type(name@) == s0.object_types[t as int]);
        }
        Ok(nfts)
    }

    /// Converts `paid` attos of the settlement asset into coins at the current
    /// rate; the settlement asset stays in the pool.
    pub fn buy_coins(&mut self, paid: u128) -> (r: Result<Coins, LifeError>)
        requires
            old(self)@.wf(),
        ensures
            final(self)@.wf(),
            match r {
                Ok(coins) => buy_coins_error(old(self)@, paid) is None && coins@ == conversion(
                    paid as int,
                    old(self)@.coin_xrd_price as int,
                ) && final(self)@ == (LifeState {
                    xrd_pool: (old(self)@.xrd_pool + paid) as u128,
                    ..old(self)@
                }),
                Err(e) => buy_coins_error(old(self)@, paid) == Some(e) && final(self)@ == old(self)@,
            },
    {
        let amount = match convert_at_rate(paid, self.coin_xrd_price) {
            Some(a) => a,
            None => return Err(LifeError::Overflow),
        };
        if self.xrd_pool > u128::MAX - paid {
            return Err(LifeError::Overflow);
        }
        self.xrd_pool = self.xrd_pool + paid;
        Ok(Coins::mint(amount))
    }

    /// Empties the settlement pool and returns what it held (owner only).
    pub fn withdraw_xrd(&mut self) -> (r: u128)
        requires
            old(self)@.wf(),
        ensures
            final(self)@.wf(),
            r == old(self)@.xrd_pool,
            final(self)@ == (LifeState { xrd_pool: 0, ..old(self)@ }),
    {
        let all = self.xrd_pool;
        self.xrd_pool = 0;
        all
    }

    /// Sets the price of a coin in attos of the settlement asset (owner only).
    pub fn update_coin_xrd_price(&mut self, coin_xrd_price: u128) -> (r: Result<(), LifeError>)
        requires
            old(self)@.wf(),
        ensures
            final(self)@.wf(),
            coin_xrd_price == 0 ==> r == Err::<(), LifeError>(LifeError::InvalidCoinPrice)
                && final(self)@ == old(self)@,
            coin_xrd_price > 0 ==> r is Ok && final(self)@ == (LifeState {
                coin_xrd_price,
                ..old(self)@
            }),
    {
        if coin_xrd_price == 0 {
            return Err(LifeError::InvalidCoinPrice);
        }
        self.coin_xrd_price = coin_xrd_price;
        Ok(())
    }

    /// Adds a catalog entry, or replaces the one with the same name (owner only).
    pub fn add_object_type(
        &mut self,
        name: String,
        price: u32,
        key_image_url: String,
        can_be_bought: bool,
        can_be_mortgaged: bool,
        can_be_rent: bool,
    )
        requires
            old(self)@.wf(),
        ensures
            final(self)@.wf(),
            old(self)@.has_type(name@) ==> final(self)@.object_types == old(self)@.object_types.update(
                old(self)@.type_index(name@),
                final(self)@.object_types[old(self)@.type_index(name@)],
            ),
            !old(self)@.has_type(name@) ==> final(self)@.object_types == old(self)@.object_types.push(final(self)@.object_types.last()),
            final(self)@.has_type(name@),
            entry_is(
                final(self)@.object_type(name@),
                name@,
                price,
                key_image_url@,
                can_be_bought,
                can_be_mortgaged,
                can_be_rent,
            ),
            final(self)@ == (LifeState { object_types: final(self)@.object_types, ..old(self)@ }),
    {
        let entry = ObjectTypeData {
            name: name.clone(),
            can_be_bought,
            can_be_mortgaged,
            can_be_rent,
            price,
            key_image_url,
        };
        let ghost s0 = self@;
        match self.find_type(&name) {
            Some(i) => {
                self.object_types.set(i, entry);
                proof {
                    assert(self@.object_types[i as int].name@ == name@);
                    lemma_type_index_at(self@, i as int);
                }
            },
            None => {
                self.object_types.push(entry);
                proof {
                    let n = s0.object_types.len() as int;
                    assert forall|a: int, b: int|
                        0 <= a < b < self@.object_types.len() implies #[trigger] self@.object_types[a].name@
                        != #[trigger] self@.object_types[b].name@ by {
                        if b == n {
                            assert(s0.object_types[a].name@ != name@);
                        }
                    }
                    assert(self@.object_types[n].name@ == name@);
                    lemma_type_index_at(self@, n);
                }
            },
        }
    }

    /// Changes the price and flags of an existing catalog entry (owner only).
    pub fn update_object_type(
        &mut self,
        name: String,
        price: u32,
        can_be_bought: bool,
        can_be_mortgaged: bool,
        can_be_rent: bool,
    ) -> (r: Result<(), LifeError>)
        requires
            old(self)@.wf(),
        ensures
            final(self)@.wf(),
            !old(self)@.has_type(name@) ==> r == Err::<(), LifeError>(LifeError::ObjectNotFound)
                && final(self)@ == old(self)@,
            old(self)@.has_type(name@) ==> r is Ok && final(self)@ == (LifeState {
                object_types: old(self)@.object_types.update(
                    old(self)@.type_index(name@),
                    ObjectTypeData {
                        price,
                        can_be_bought,
                        can_be_mortgaged,
                        can_be_rent,
                        ..old(self)@.object_type(name@)
                    },
                ),
                ..old(self)@
            }),
    {
        let i = match self.find_type(&name) {
            Some(i) => i,
            None => return Err(LifeError::ObjectNotFound),
        };
        let ghost s0 = self@;
        self.object_types[i].price = price;
        self.object_types[i].can_be_bought = can_be_bought;
        self.object_types[i].can_be_mortgaged = can_be_mortgaged;
        self.object_types[i].can_be_rent = can_be_rent;
        proof {
            assert(self@.object_types =~= s0.object_types.update(
                i as int,
                ObjectTypeData {
                    price,
                    can_be_bought,
                    can_be_mortgaged,
                    can_be_rent,
                    ..s0.object_types[i as int]
                },
            ));
            assert forall|a: int, b: int|
                0 <= a < b < self@.object_types.len() implies #[trigger] self@.object_types[a].name@
                != #[trigger] self@.object_types[b].name@ by {
                assert(s0.object_types[a].name@ != s0.object_types[b].name@);
            }
        }
        Ok(())
    }

    /// Sets the price of `choice`, or with `None` removes it (owner only).
    pub fn add_choice(&mut self, choice: String, price: Option<u32>)
        requires
            old(self)@.wf(),
        ensures
            final(self)@.wf(),
            final(self)@ == (LifeState { choices: final(self)@.choices, ..old(self)@ }),
            price matches Some(p) ==> final(self)@.has_choice(choice@) && final(self)@.choice_price(
                choice@,
            ) == p,
            price matches Some(p) && old(self)@.has_choice(choice@) ==> final(self)@.choices
                == old(self)@.choices.update(
                old(self)@.choice_index(choice@),
                final(self)@.choices[old(self)@.choice_index(choice@)],
            ),
            price matches Some(p) && !old(self)@.has_choice(choice@) ==> final(self)@.choices
                == old(self)@.choices.push(final(self)@.choices.last()),
            price is None && old(self)@.has_choice(choice@) ==> final(self)@.choices == old(self)@.choices.remove(old(self)@.choice_index(choice@)),
            price is None ==> !final(self)@.has_choice(choice@),
            price is None && !old(self)@.has_choice(choice@) ==> final(self)@ == old(self)@,
    {
        let ghost s0 = self@;
        match price {
            Some(p) => {
                match self.find_choice(&choice) {
                    Some(i) => {
                        self.choices.set(i, ChoicePrice { choice, price: p });
                        proof {
                            lemma_choice_index_at(self@, i as int);
                        }
                    },
                    None => {
                        let ghost c = choice@;
                        self.choices.push(ChoicePrice { choice, price: p });
                        proof {
                            let n = s0.choices.len() as int;
                            assert forall|a: int, b: int|
                                0 <= a < b < self@.choices.len() implies #[trigger] self@.choices[a].choice@
                                != #[trigger] self@.choices[b].choice@ by {
                                if b == n {
                                    assert(s0.choices[a].choice@ != c);
                                }
                            }
                            lemma_choice_index_at(self@, n);
                        }
                    },
                }
            },
            None => {
                match self.find_choice(&choice) {
                    Some(i) => {
                        self.choices.remove(i);
                        proof {
                            assert forall|a: int, b: int|
                                0 <= a < b < self@.choices.len() implies #[trigger] self@.choices[a].choice@
                                != #[trigger] self@.choices[b].choice@ by {
                                let a0 = if a < i { a } else { a + 1 };
                                let b0 = if b < i { b } else { b + 1 };
                                assert(s0.choices[a0].choice@ != s0.choices[b0].choice@);
                            }
                            assert forall|a: int| 0 <= a < self@.choices.len() implies #[trigger] self@.choices[a].choice@
                                != choice@ by {
                                let a0 = if a < i { a } else { a + 1 };
                                if a0 < i {
                                    assert(s0.choices[a0].choice@ != s0.choices[i as int].choice@);
                                } else {
                                    assert(s0.choices[i as int].choice@ != s0.choices[a0].choice@);
                                }
                            }
                        }
                    },
                    None => {},
                }
            },
        }
    }

    /// Names the person attested by `person`, once: the name is trimmed, then
    /// must be 1 to 255 ASCII letters, digits or spaces.
    pub fn give_name(&mut self, person: &PeopleNft, name: &str) -> (r: Result<(), LifeError>)
        requires
            old(self)@.wf(),
        ensures
            final(self)@.wf(),
            match r {
                Ok(()) => give_name_error(old(self)@, person@, trim_of(name@)) is None
                    && name_given(old(self)@, final(self)@, person@, trim_of(name@)),
                Err(e) => give_name_error(old(self)@, person@, trim_of(name@)) == Some(e)
                    && final(self)@ == old(self)@,
            },
    {
        let id = person.id();
        let trimmed = trim(name);
        self.name_person(id, trimmed)
    }

    /// Names person `id` with an already trimmed name, once.
    pub fn name_person(&mut self, id: u64, name: String) -> (r: Result<(), LifeError>)
        requires
            old(self)@.wf(),
        ensures
            final(self)@.wf(),
            match r {
                Ok(()) => give_name_error(old(self)@, id, name@) is None && name_given(
                    old(self)@,
                    final(self)@,
                    id,
                    name@,
                ),
                Err(e) => give_name_error(old(self)@, id, name@) == Some(e) && final(self)@ == old(self)@,
            },
    {
        let i = match self.person_index(id) {
            Some(i) => i,
            None => return Err(LifeError::WrongNft),
        };
        if self.people[i].name.unicode_len() != 0 {
            return Err(LifeError::NameAlreadyAssigned);
        }
        assert(self@.person(id).name@ =~= Seq::<char>::empty());
        match validate_name(name.as_str()) {
            Ok(()) => {},
            Err(e) => return Err(e),
        }
        let ghost s0 = self@;
        let logged = name.clone();
        self.people[i].name = name;
        self.events.push(LifeEvent::Name { people_id: id, name: logged });
        proof {
            assert(s0.person(id).name@ =~= Seq::<char>::empty());
            assert(self@.people =~= s0.people.update(id - 1, self@.person(id)));
        }
        Ok(())
    }

    /// Burns the whole of `payment` and logs a simulated bank credit of its
    /// value in whole coins to person `people_id`.
    pub fn deposit_to_bank_account(&mut self, people_id: u64, payment: &mut Coins) -> (r: Result<
        (),
        LifeError,
    >)
        requires
            old(self)@.wf(),
        ensures
            final(self)@.wf(),
            old(payment)@ / crate::amount::ATTOS_PER_UNIT > u32::MAX ==> r == Err::<(), LifeError>(
                LifeError::Overflow,
            ) && final(self)@ == old(self)@ && final(payment)@ == old(payment)@,
            old(payment)@ / crate::amount::ATTOS_PER_UNIT <= u32::MAX ==> r is Ok && final(payment)@
                == 0 && final(self)@ == (LifeState {
                events: old(self)@.events.push(
                    LifeEvent::BankDeposit {
                        people_id,
                        amount: (old(payment)@ / crate::amount::ATTOS_PER_UNIT) as u32,
                    },
                ),
                ..old(self)@
            }),
    {
        let whole = payment.amount() / crate::amount::ATTOS_PER_UNIT;
        if whole > u32::MAX as u128 {
            return Err(LifeError::Overflow);
        }
        let all = payment.amount();
        payment.burn(all);
        self.events.push(LifeEvent::BankDeposit { people_id, amount: whole as u32 });
        Ok(())
    }

    /// Logs a simulated bank withdrawal of `amount` coins by the person attested.
    pub fn withdraw_from_bank_account(&mut self, person: &PeopleNft, amount: u32) -> (r: Result<
        (),
        LifeError,
    >)
        requires
            old(self)@.wf(),
        ensures
            final(self)@.wf(),
            !old(self)@.has_person(person@) ==> r == Err::<(), LifeError>(LifeError::WrongNft)
                && final(self)@ == old(self)@,
            old(self)@.has_person(person@) ==> r is Ok && final(self)@ == (LifeState {
                events: old(self)@.events.push(
                    LifeEvent::BankWithdraw { amount, people_id: person@ },
                ),
                ..old(self)@
            }),
    {
        let id = person.id();
        if self.person_index(id).is_none() {
            return Err(LifeError::WrongNft);
        }
        self.events.push(LifeEvent::BankWithdraw { amount, people_id: id });
        Ok(())
    }

    /// Overrides fields of person `people_id`; each `None` leaves its field
    /// as it is (operator only).
    pub fn update_people_data(
        &mut self,
        people_id: u64,
        fields: PeopleFieldUpdate,
        partner: Option<u64>,
        key_image_url: Option<String>,
    ) -> (r: Result<(), LifeError>)
        requires
            old(self)@.wf(),
        ensures
            final(self)@.wf(),
            !old(self)@.has_person(people_id) ==> r == Err::<(), LifeError>(LifeError::WrongNft)
                && final(self)@ == old(self)@,
            old(self)@.has_person(people_id) ==> r is Ok && final(self)@ == (LifeState {
                people: old(self)@.people.update(
                    people_id - 1,
                    PeopleData {
                        name: updated(old(self)@.person(people_id).name, fields.name),
                        gender: updated(old(self)@.person(people_id).gender, fields.gender),
                        occupation: updated(
                            old(self)@.person(people_id).occupation,
                            fields.occupation,
                        ),
                        mood_status: updated(
                            old(self)@.person(people_id).mood_status,
                            fields.mood_status,
                        ),
                        health_status: updated(
                            old(self)@.person(people_id).health_status,
                            fields.health_status,
                        ),
                        schooling: updated(old(self)@.person(people_id).schooling, fields.schooling),
                        partner: updated(old(self)@.person(people_id).partner, partner),
                        key_image_url: updated(
                            old(self)@.person(people_id).key_image_url,
                            key_image_url,
                        ),
                        ..old(self)@.person(people_id)
                    },
                ),
                ..old(self)@
            }),
    {
        let i = match self.person_index(people_id) {
            Some(i) => i,
            None => return Err(LifeError::WrongNft),
        };
        let ghost s0 = self@;
        let PeopleFieldUpdate { name, gender, occupation, mood_status, health_status, schooling } =
            fields;
        if let Some(v) = name {
            self.people[i].name = v;
        }
        if let Some(v) = gender {
            self.people[i].gender = v;
        }
        if let Some(v) = occupation {
            self.people[i].occupation = v;
        }
        if let Some(v) = mood_status {
            self.people[i].mood_status = v;
        }
        if let Some(v) = health_status {
            self.people[i].health_status = v;
        }
        if let Some(v) = schooling {
            self.people[i].schooling = v;
        }
        if let Some(v) = partner {
            self.people[i].partner = v;
        }
        if let Some(v) = key_image_url {
            self.people[i].key_image_url = v;
        }
        proof {
            assert(self@.people =~= s0.people.update(people_id - 1, self@.people[i as int]));
        }
        Ok(())
    }

    /// Overrides the mortgage flag and the occupant of object `object_id`; each
    /// `None` leaves its field as it is (operator only).
    pub fn update_object_data(
        &mut self,
        object_id: u64,
        mortgaged: Option<bool>,
        rent_to: Option<u64>,
    ) -> (r: Result<(), LifeError>)
        requires
            old(self)@.wf(),
        ensures
            final(self)@.wf(),
            !old(self)@.has_object(object_id) ==> r == Err::<(), LifeError>(LifeError::WrongNft)
                && final(self)@ == old(self)@,
            old(self)@.has_object(object_id) ==> r is Ok && final(self)@ == (LifeState {
                objects: old(self)@.objects.update(
                    object_id - 1,
                    ObjectData {
                        mortgaged: updated(old(self)@.object(object_id).mortgaged, mortgaged),
                        rent_to: updated(old(self)@.object(object_id).rent_to, rent_to),
                        ..old(self)@.object(object_id)
                    },
                ),
                ..old(self)@
            }),
    {
        let i = match self.object_index(object_id) {
            Some(i) => i,
            None => return Err(LifeError::WrongNft),
        };
        let ghost s0 = self@;
        if let Some(v) = mortgaged {
            self.objects[i].mortgaged = v;
        }
        if let Some(v) = rent_to {
            self.objects[i].rent_to = v;
        }
        proof {
            assert(self@.objects =~= s0.objects.update(object_id - 1, self@.objects[i as int]));
        }
        Ok(())
    }

    /// Mortgages the object attested by `object` for half its catalog price:
    /// paid as coins, or, with `deposit_account`, logged as a bank credit to
    /// that person.
    pub fn mortgage(&mut self, object: &ObjectNft, deposit_account: Option<u64>) -> (r: Result<
        Option<Coins>,
        LifeError,
    >)
        requires
            old(self)@.wf(),
        ensures
            final(self)@.wf(),
            match r {
                Ok(payout) => (mortgage_error(old(self)@, object@) is None) && final(self)@ == (LifeState {
                    objects: old(self)@.objects.update(
                        object@ - 1,
                        ObjectData { mortgaged: true, ..old(self)@.object(object@) },
                    ),
                    events: match deposit_account {
                        Some(people_id) => old(self)@.events.push(
                            LifeEvent::BankDeposit {
                                people_id,
                                amount: mortgage_payout(old(self)@, object@),
                            },
                        ),
                        None => old(self)@.events,
                    },
                    ..old(self)@
                }) && match deposit_account {
                    Some(_) => payout is None,
                    None => payout matches Some(c) && c@ == whole_coins(
                        mortgage_payout(old(self)@, object@),
                    ),
                },
                Err(e) => mortgage_error(old(self)@, object@) == Some(e) && final(self)@ == old(self)@,
            },
    {
        let i = match self.object_index(object.id()) {
            Some(i) => i,
            None => return Err(LifeError::WrongNft),
        };
        let t = match self.find_type(&self.objects[i].name) {
            Some(t) => t,
            None => return Err(LifeError::ObjectNotFound),
        };
        if !self.object_types[t].can_be_mortgaged {
            return Err(LifeError::CantBeMortgaged);
        }
        if self.objects[i].mortgaged {
            return Err(LifeError::AlreadyMortgaged);
        }
        let ghost s0 = self@;
        self.objects[i].mortgaged = true;
        let amount = self.object_types[t].price / 2;
        proof {
            assert(self@.objects =~= s0.objects.update(object@ - 1, self@.objects[i as int]));
        }
        match deposit_account {
            None => Ok(Some(Coins::mint(coins_of_price(amount)))),
            Some(people_id) => {
                self.events.push(LifeEvent::BankDeposit { people_id, amount });
                Ok(None)
            },
        }
    }

    /// Opens (`allow`) or closes the object attested by `object` for rent and
    /// sets its daily price (0 with `None`); the price cannot change while the
    /// object has an occupant. `account` is carried in the event for notice.
    pub fn allow_rent(
        &mut self,
        object: &ObjectNft,
        allow: bool,
        daily_price: Option<u32>,
        account: Option<u64>,
    ) -> (r: Result<(), LifeError>)
        requires
            old(self)@.wf(),
        ensures
            final(self)@.wf(),
            match r {
                Ok(()) => (allow_rent_error(old(self)@, object@, daily_price) is None)
                    && final(self)@ == (LifeState {
                    objects: old(self)@.objects.update(
                        object@ - 1,
                        ObjectData {
                            rent_allowed: allow,
                            daily_rent_price: updated(0, daily_price),
                            ..old(self)@.object(object@)
                        },
                    ),
                    events: old(self)@.events.push(
                        LifeEvent::AllowRent { object_id: object@, allow, daily_price, account },
                    ),
                    ..old(self)@
                }),
                Err(e) => allow_rent_error(old(self)@, object@, daily_price) == Some(e) && final(self)@ == old(self)@,
            },
    {
        let id = object.id();
        let i = match self.object_index(id) {
            Some(i) => i,
            None => return Err(LifeError::WrongNft),
        };
        let t = match self.find_type(&self.objects[i].name) {
            Some(t) => t,
            None => return Err(LifeError::ObjectNotFound),
        };
        if !self.object_types[t].can_be_rent {
            return Err(LifeError::CantBeRent);
        }
        if self.objects[i].rent_to != 0 && daily_price.is_some() {
            return Err(LifeError::PriceLockedWhileRented);
        }
        let ghost s0 = self@;
        self.objects[i].rent_allowed = allow;
        self.objects[i].daily_rent_price = match daily_price {
            Some(p) => p,
            None => 0,
        };
        self.events.push(LifeEvent::AllowRent { object_id: id, allow, daily_price, account });
        proof {
            assert(self@.objects =~= s0.objects.update(id - 1, self@.objects[i as int]));
        }
        Ok(())
    }

    /// Rents object `object_id` of catalog entry `name` to the person attested.
    /// An id that was never minted is rented by convention: only the event is
    /// logged.
    pub fn rent(&mut self, person: &PeopleNft, name: String, object_id: u64) -> (r: Result<
        (),
        LifeError,
    >)
        requires
            old(self)@.wf(),
        ensures
            final(self)@.wf(),
            match r {
                Ok(()) => (rent_error(old(self)@, person@, name@, object_id) is None)
                    && final(self)@ == (LifeState {
                    objects: if old(self)@.has_object(object_id) {
                        old(self)@.objects.update(
                            object_id - 1,
                            ObjectData { rent_to: person@, ..old(self)@.object(object_id) },
                        )
                    } else {
                        old(self)@.objects
                    },
                    events: old(self)@.events.push(
                        LifeEvent::Rent { object_id, people_id: person@ },
                    ),
                    ..old(self)@
                }),
                Err(e) => rent_error(old(self)@, person@, name@, object_id) == Some(e) && final(self)@ == old(self)@,
            },
    {
        let people_id = person.id();
        if self.person_index(people_id).is_none() {
            return Err(LifeError::WrongNft);
        }
        let t = match self.find_type(&name) {
            Some(t) => t,
            None => return Err(LifeError::ObjectNotFound),
        };
        if !self.object_types[t].can_be_rent {
            return Err(LifeError::CantBeRent);
        }
        let ghost s0 = self@;
        if let Some(i) = self.object_index(object_id) {
            if !self.objects[i].rent_allowed {
                return Err(LifeError::NotForRent);
            }
            if self.objects[i].rent_to != 0 {
                return Err(LifeError::AlreadyRented);
            }
            if name != self.objects[i].name {
                return Err(LifeError::WrongName);
            }
            self.objects[i].rent_to = people_id;
            proof {
                assert(self@.objects =~= s0.objects.update(object_id - 1, self@.objects[i as int]));
            }
        }
        self.events.push(LifeEvent::Rent { object_id, people_id });
        Ok(())
    }

    /// Ends the rent of object `object_id` by its occupant, the person attested.
    /// An id that was never minted only gets the event.
    pub fn terminate_rent(&mut self, person: &PeopleNft, object_id: u64) -> (r: Result<
        (),
        LifeError,
    >)
        requires
            old(self)@.wf(),
        ensures
            final(self)@.wf(),
            match r {
                Ok(()) => (terminate_rent_error(old(self)@, person@, object_id) is None)
                    && final(self)@ == (LifeState {
                    objects: if old(self)@.has_object(object_id) {
                        old(self)@.objects.update(
                            object_id - 1,
                            ObjectData { rent_to: 0, ..old(self)@.object(object_id) },
                        )
                    } else {
                        old(self)@.objects
                    },
                    events: old(self)@.events.push(LifeEvent::TerminateRent { object_id }),
                    ..old(self)@
                }),
                Err(e) => terminate_rent_error(old(self)@, person@, object_id) == Some(e) && final(self)@ == old(self)@,
            },
    {
        let people_id = person.id();
        if self.person_index(people_id).is_none() {
            return Err(LifeError::WrongNft);
        }
        let ghost s0 = self@;
        if let Some(i) = self.object_index(object_id) {
            if self.objects[i].rent_to != people_id {
                return Err(LifeError::NotRentedToCaller);
            }
            self.objects[i].rent_to = 0;
            proof {
                assert(self@.objects =~= s0.objects.update(object_id - 1, self@.objects[i as int]));
            }
        }
        self.events.push(LifeEvent::TerminateRent { object_id });
        Ok(())
    }

    /// Makes a priced choice for the person attested; `number` is an opaque
    /// selector. When the choice costs something, `payment` must cover it and
    /// is burned whole.
    pub fn make_choice(
        &mut self,
        person: &PeopleNft,
        choice: String,
        payment: &mut Coins,
        number: u64,
    ) -> (r: Result<(), LifeError>)
        requires
            old(self)@.wf(),
        ensures
            final(self)@.wf(),
            match r {
                Ok(()) => (make_choice_error(old(self)@, person@, choice@, old(payment)@) is None)
                    && final(payment)@ == (if old(self)@.choice_price(choice@) > 0 {
                    0
                } else {
                    old(payment)@
                }) && final(self)@.events.len() == old(self)@.events.len() + 1
                    && final(self)@.events.drop_last() == old(self)@.events && final(self)@.events.last() == LifeEvent::Choice { choice, people_id: person@, number }
                    && final(self)@ == (LifeState { events: final(self)@.events, ..old(self)@ }),
                Err(e) => make_choice_error(old(self)@, person@, choice@, old(payment)@) == Some(e)
                    && final(self)@ == old(self)@ && final(payment)@ == old(payment)@,
            },
    {
        let people_id = person.id();
        if self.person_index(people_id).is_none() {
            return Err(LifeError::WrongNft);
        }
        let c = match self.find_choice(&choice) {
            Some(c) => c,
            None => return Err(LifeError::ChoiceNotFound),
        };
        let price = self.choices[c].price;
        if price > 0 {
            if payment.amount() < coins_of_price(price) {
                return Err(LifeError::NotEnoughCoins);
            }
            let all = payment.amount();
            payment.burn(all);
        }
        let ghost s0 = self@;
        self.events.push(LifeEvent::Choice { choice, people_id, number });
        proof {
            assert(self@.events.drop_last() =~= s0.events);
        }
        Ok(())
    }

    /// Lists the object for sale at `price` coins: it moves into the vault and
    /// the seller gets a receipt. A rented or rent-listed object is handed back
    /// with the error.
    pub fn sell_object(&mut self, object: ObjectNft, price: u32) -> (r: Result<
        SoldObjectNft,
        (LifeError, ObjectNft),
    >)
        requires
            old(self)@.wf(),
        ensures
            final(self)@.wf(),
            match r {
                Ok(receipt) => (sell_object_error(old(self)@, object@) is None) && object_listed(
                    old(self)@,
                    final(self)@,
                    object@,
                    price,
                    receipt.receipt_id(),
                    receipt.receipt(),
                ),
                Err((e, back)) => sell_object_error(old(self)@, object@) == Some(e) && back@
                    == object@ && final(self)@ == old(self)@,
            },
    {
        let id = object.id();
        let i = match self.object_index(id) {
            Some(i) => i,
            None => return Err((LifeError::WrongNft, object)),
        };
        if self.objects[i].rent_allowed || self.objects[i].rent_to != 0 {
            return Err((LifeError::CantSellRented, object));
        }
        if self.last_receipt_id == u64::MAX {
            return Err((LifeError::Overflow, object));
        }
        self.object_listing.set(i, Listing::Listed { price });
        self.events.push(LifeEvent::SoldObject { object_id: id, price });
        self.last_receipt_id = self.last_receipt_id + 1;
        let data = SoldObjectReceipt {
            object_id: id,
            price,
            key_image_url: self.objects[i].key_image_url.clone(),
        };
        Ok(SoldObjectNft::mint(self.last_receipt_id, data))
    }

    /// Buys object `object_id` out of the vault at its listed price; the price
    /// is burned from `payment`.
    pub fn buy_used_object(&mut self, object_id: u64, payment: &mut Coins) -> (r: Result<
        ObjectNft,
        LifeError,
    >)
        requires
            old(self)@.wf(),
        ensures
            final(self)@.wf(),
            match r {
                Ok(nft) => (buy_object_error(old(self)@, object_id, old(payment)@) is None) && nft@
                    == object_id && final(payment)@ == old(payment)@ - whole_coins(
                    listed_price(old(self)@.object_listing[object_id - 1]),
                ) && object_bought(old(self)@, final(self)@, object_id),
                Err(e) => buy_object_error(old(self)@, object_id, old(payment)@) == Some(e)
                    && final(self)@ == old(self)@ && final(payment)@ == old(payment)@,
            },
    {
        let i = match self.object_index(object_id) {
            Some(i) => i,
            None => return Err(LifeError::NotOnSale),
        };
        let price = match self.object_listing[i] {
            Listing::Listed { price } => price,
            Listing::Unlisted => return Err(LifeError::NotOnSale),
        };
        let cost = coins_of_price(price);
        if payment.amount() < cost {
            return Err(LifeError::InsufficientAmount);
        }
        payment.burn(cost);
        self.object_listing.set(i, Listing::Unlisted);
        self.events.push(LifeEvent::BoughtObject { object_id });
        Ok(ObjectNft::mint(object_id))
    }

    /// Redeems an object receipt: the object itself while it is still in the
    /// vault, otherwise the listed price in freshly minted coins.
    pub fn close_object_sale(&mut self, receipt: SoldObjectNft) -> (r: Result<
        ObjectPayout,
        (LifeError, SoldObjectNft),
    >)
        requires
            old(self)@.wf(),
        ensures
            final(self)@.wf(),
            match r {
                Ok(payout) => old(self)@.has_object(receipt.receipt().object_id)
                    && object_sale_closed(old(self)@, final(self)@, receipt.receipt(), payout),
                Err((e, back)) => !old(self)@.has_object(receipt.receipt().object_id) && e
                    == LifeError::WrongNft && back == receipt && final(self)@ == old(self)@,
            },
    {
        let id = receipt.data().object_id;
        let i = match self.object_index(id) {
            Some(i) => i,
            None => return Err((LifeError::WrongNft, receipt)),
        };
        match self.object_listing[i] {
            Listing::Listed { .. } => {
                self.object_listing.set(i, Listing::Unlisted);
                Ok(ObjectPayout::Object(ObjectNft::mint(id)))
            },
            Listing::Unlisted => Ok(
                ObjectPayout::Coins(Coins::mint(coins_of_price(receipt.data().price))),
            ),
        }
    }

    /// Lists the person for sale at `price` coins: it moves into the vault and
    /// the seller gets a receipt.
    pub fn sell_people(&mut self, person: PeopleNft, price: u32) -> (r: Result<
        SoldPeopleNft,
        (LifeError, PeopleNft),
    >)
        requires
            old(self)@.wf(),
        ensures
            final(self)@.wf(),
            match r {
                Ok(receipt) => (sell_people_error(old(self)@, person@) is None) && people_listed(
                    old(self)@,
                    final(self)@,
                    person@,
                    price,
                    receipt.receipt_id(),
                    receipt.receipt(),
                ),
                Err((e, back)) => sell_people_error(old(self)@, person@) == Some(e) && back@
                    == person@ && final(self)@ == old(self)@,
            },
    {
        let id = person.id();
        let i = match self.person_index(id) {
            Some(i) => i,
            None => return Err((LifeError::WrongNft, person)),
        };
        if self.last_receipt_id == u64::MAX {
            return Err((LifeError::Overflow, person));
        }
        self.people_listing.set(i, Listing::Listed { price });
        self.events.push(LifeEvent::SoldPeople { people_id: id, price });
        self.last_receipt_id = self.last_receipt_id + 1;
        let data = SoldPeopleReceipt {
            people_id: id,
            price,
            key_image_url: self.people[i].key_image_url.clone(),
        };
        Ok(SoldPeopleNft::mint(self.last_receipt_id, data))
    }

    /// Buys person `people_id` out of the vault at the listed price; the price
    /// is burned from `payment`.
    pub fn buy_people(&mut self, people_id: u64, payment: &mut Coins) -> (r: Result<
        PeopleNft,
        LifeError,
    >)
        requires
            old(self)@.wf(),
        ensures
            final(self)@.wf(),
            match r {
                Ok(nft) => (buy_people_error(old(self)@, people_id, old(payment)@) is None) && nft@
                    == people_id && final(payment)@ == old(payment)@ - whole_coins(
                    listed_price(old(self)@.people_listing[people_id - 1]),
                ) && people_bought(old(self)@, final(self)@, people_id),
                Err(e) => buy_people_error(old(self)@, people_id, old(payment)@) == Some(e)
                    && final(self)@ == old(self)@ && final(payment)@ == old(payment)@,
            },
    {
        let i = match self.person_index(people_id) {
            Some(i) => i,
            None => return Err(LifeError::NotOnSale),
        };
        let price = match self.people_listing[i] {
            Listing::Listed { price } => price,
            Listing::Unlisted => return Err(LifeError::NotOnSale),
        };
        let cost = coins_of_price(price);
        if payment.amount() < cost {
            return Err(LifeError::InsufficientAmount);
        }
        payment.burn(cost);
        self.people_listing.set(i, Listing::Unlisted);
        self.events.push(LifeEvent::BoughtPeople { people_id });
        Ok(PeopleNft::mint(people_id))
    }

    /// Redeems a person receipt: the person while still in the vault,
    /// otherwise the listed price in freshly minted coins.
    pub fn close_people_sale(&mut self, receipt: SoldPeopleNft) -> (r: Result<
        PeoplePayout,
        (LifeError, SoldPeopleNft),
    >)
        requires
            old(self)@.wf(),
        ensures
            final(self)@.wf(),
            match r {
                Ok(payout) => old(self)@.has_person(receipt.receipt().people_id)
                    && people_sale_closed(old(self)@, final(self)@, receipt.receipt(), payout),
                Err((e, back)) => !old(self)@.has_person(receipt.receipt().people_id) && e
                    == LifeError::WrongNft && back == receipt && final(self)@ == old(self)@,
            },
    {
        let id = receipt.data().people_id;
        let i = match self.person_index(id) {
            Some(i) => i,
            None => return Err((LifeError::WrongNft, receipt)),
        };
        match self.people_listing[i] {
            Listing::Listed { .. } => {
                self.people_listing.set(i, Listing::Unlisted);
                Ok(PeoplePayout::Person(PeopleNft::mint(id)))
            },
            Listing::Unlisted => Ok(
                PeoplePayout::Coins(Coins::mint(coins_of_price(receipt.data().price))),
            ),
        }
    }

    /// The audit log, oldest first.
    pub fn events(&self) -> (r: &Vec<LifeEvent>)
        ensures
            r@ == self@.events,
    {
        &self.events
    }

    /// Hands the audit log over for delivery and starts a new one.
    pub fn take_events(&mut self) -> (r: Vec<LifeEvent>)
        requires
            old(self)@.wf(),
        ensures
            final(self)@.wf(),
            r@ == old(self)@.events,
            final(self)@ == (LifeState { events: Seq::empty(), ..old(self)@ }),
    {
        let mut taken: Vec<LifeEvent> = Vec::new();
        std::mem::swap(&mut taken, &mut self.events);
        proof {
            assert(self@.events =~= Seq::<LifeEvent>::empty());
        }
        taken
    }

    /// Person `id`, if it was minted.
    pub fn person(&self, id: u64) -> (r: Option<&PeopleData>)
        requires
            self@.wf(),
        ensures
            self@.has_person(id) ==> r == Some(&self@.person(id)),
            !self@.has_person(id) ==> r is None,
    {
        match self.person_index(id) {
            Some(i) => Some(&self.people[i]),
            None => None,
        }
    }

    /// Object `id`, if it was minted.
    pub fn object(&self, id: u64) -> (r: Option<&ObjectData>)
        requires
            self@.wf(),
        ensures
            self@.has_object(id) ==> r == Some(&self@.object(id)),
            !self@.has_object(id) ==> r is None,
    {
        match self.object_index(id) {
            Some(i) => Some(&self.objects[i]),
            None => None,
        }
    }

    /// The catalog entry named `name`, if there is one.
    pub fn object_type(&self, name: &String) -> (r: Option<&ObjectTypeData>)
        requires
            self@.wf(),
        ensures
            self@.has_type(name@) ==> r == Some(&self@.object_type(name@)),
            !self@.has_type(name@) ==> r is None,
    {
        match self.find_type(name) {
            Some(i) => Some(&self.object_types[i]),
            None => None,
        }
    }

    /// The price of `choice`, if one is set.
    pub fn choice_price(&self, choice: &String) -> (r: Option<u32>)
        requires
            self@.wf(),
        ensures
            self@.has_choice(choice@) ==> r == Some(self@.choice_price(choice@)),
            !self@.has_choice(choice@) ==> r is None,
    {
        match self.find_choice(choice) {
            Some(i) => Some(self.choices[i].price),
            None => None,
        }
    }

    /// Whether object `id` is in the vault, and at what price; `None` for an
    /// id never minted.
    pub fn object_listing(&self, id: u64) -> (r: Option<Listing>)
        requires
            self@.wf(),
        ensures
            self@.has_object(id) ==> r == Some(self@.object_listing[id - 1]),
            !self@.has_object(id) ==> r is None,
    {
        match self.object_index(id) {
            Some(i) => Some(self.object_listing[i]),
            None => None,
        }
    }

    /// Whether person `id` is in the vault, and at what price; `None` for an
    /// id never minted.
    pub fn people_listing(&self, id: u64) -> (r: Option<Listing>)
        requires
            self@.wf(),
        ensures
            self@.has_person(id) ==> r == Some(self@.people_listing[id - 1]),
            !self@.has_person(id) ==> r is None,
    {
        match self.person_index(id) {
            Some(i) => Some(self.people_listing[i]),
            None => None,
        }
    }

    /// The highest person id minted so far (0 before the first).
    pub fn last_people_id(&self) -> (r: u64)
        requires
            self@.wf(),
        ensures
            r == self@.people.len(),
    {
        self.people.len() as u64
    }

    /// The highest object id minted so far (0 before the first).
    pub fn last_object_id(&self) -> (r: u64)
        requires
            self@.wf(),
        ensures
            r == self@.objects.len(),
    {
        self.objects.len() as u64
    }

    /// The highest receipt id issued so far (0 before the first).
    pub fn last_receipt_id(&self) -> (r: u64)
        ensures
            r == self@.last_receipt_id,
    {
        self.last_receipt_id
    }

    pub fn eggs_on_sale(&self) -> (r: u32)
        ensures
            r == self@.eggs_on_sale,
    {
        self.eggs_on_sale
    }

    pub fn egg_xrd_price(&self) -> (r: u128)
        ensures
            r == self@.egg_xrd_price,
    {
        self.egg_xrd_price
    }

    pub fn coin_xrd_price(&self) -> (r: u128)
        ensures
            r == self@.coin_xrd_price,
    {
        self.coin_xrd_price
    }

    /// The settlement asset held in the pool, in attos.
    pub fn xrd_pool(&self) -> (r: u128)
        ensures
            r == self@.xrd_pool,
    {
        self.xrd_pool
    }
}

} // verus!
