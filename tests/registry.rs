use radix_life::amount::{coins_of_price, convert_at_rate};
use radix_life::error::LifeError;
use radix_life::events::LifeEvent;
use radix_life::life::RadixLife;
use radix_life::names::validate_name;
use radix_life::records::PeopleFieldUpdate;
use radix_life::tokens::Coins;

const UNIT: u128 = 1_000_000_000_000_000_000;

fn engine() -> RadixLife {
    let mut life = RadixLife::new(3, 5 * UNIT, UNIT, 3600, "egg.png".to_string()).unwrap();
    life.add_object_type("House".to_string(), 100, "house.png".to_string(), true, true, true);
    life.add_object_type("Chair".to_string(), 7, "chair.png".to_string(), true, false, false);
    life
}

fn no_fields() -> PeopleFieldUpdate {
    PeopleFieldUpdate {
        name: None,
        gender: None,
        occupation: None,
        mood_status: None,
        health_status: None,
        schooling: None,
    }
}

#[test]
fn construction_is_validated() {
    let bad = |r: Result<RadixLife, LifeError>| r.err();
    assert_eq!(bad(RadixLife::new(2, UNIT, UNIT, 0, String::new())), Some(LifeError::TooFewEggs));
    assert_eq!(bad(RadixLife::new(3, 0, UNIT, 0, String::new())), Some(LifeError::InvalidEggPrice));
    assert_eq!(bad(RadixLife::new(3, UNIT, 0, 0, String::new())), Some(LifeError::InvalidCoinPrice));
    assert_eq!(bad(RadixLife::new(3, UNIT, UNIT, -1, String::new())), Some(LifeError::NegativeHatchTime));
    let life = RadixLife::new(3, UNIT, UNIT, 0, String::new()).unwrap();
    assert_eq!(life.last_people_id(), 0);
    assert_eq!(life.eggs_on_sale(), 3);
}

#[test]
fn minted_person_ids_follow_the_previous_highest() {
    let mut life = engine();
    let a = life.new_egg(0, 0, 1_000).unwrap();
    let b = life.new_egg(1, 0, 1_000).unwrap();
    let c = life.new_egg(1, 2, 2_000).unwrap();
    assert_eq!((a.id(), b.id(), c.id()), (1, 2, 3));
    let (d, change) = life.buy_egg(7 * UNIT, 5).ok().unwrap();
    assert_eq!(d.id(), 4);
    assert_eq!(change, 2 * UNIT);
    assert_eq!(life.last_people_id(), 4);
    let p = life.person(3).unwrap();
    assert_eq!((p.father, p.mother, p.birth_date), (1, 2, 5_600));
    assert_eq!(p.name, "");
    assert_eq!(p.gender, "unknown");
    assert_eq!(p.occupation, "unemployed");
    assert_eq!(p.mood_status, "normal");
    assert_eq!(p.health_status, "healthy");
    assert_eq!(p.schooling, "none");
    assert_eq!(p.key_image_url, "egg.png");
    assert!(matches!(life.events()[0], LifeEvent::NewPeople { people_id: 1, birth_date: 4_600 }));
}

#[test]
fn egg_sale_takes_price_and_ends() {
    let mut life = engine();
    assert_eq!(life.buy_egg(4 * UNIT, 0).err(), Some(LifeError::InsufficientAmount));
    for _ in 0..3 {
        life.buy_egg(5 * UNIT, 0).ok().unwrap();
    }
    assert_eq!(life.xrd_pool(), 15 * UNIT);
    assert_eq!(life.buy_egg(5 * UNIT, 0).err(), Some(LifeError::SaleEnded));
    assert_eq!(life.withdraw_xrd(), 15 * UNIT);
    assert_eq!(life.xrd_pool(), 0);
}

#[test]
fn birth_date_overflow_is_refused() {
    let mut life = engine();
    assert_eq!(life.new_egg(0, 0, i64::MAX).err(), Some(LifeError::Overflow));
    assert_eq!(life.last_people_id(), 0);
}

#[test]
fn claim_name_succeeds_once() {
    let mut life = engine();
    let p = life.new_egg(0, 0, 0).unwrap();
    assert_eq!(life.give_name(&p, "Alice Smith"), Ok(()));
    assert_eq!(life.person(1).unwrap().name, "Alice Smith");
    assert_eq!(life.give_name(&p, "Bob"), Err(LifeError::NameAlreadyAssigned));
    assert_eq!(life.give_name(&p, ""), Err(LifeError::NameAlreadyAssigned));
    assert_eq!(life.person(1).unwrap().name, "Alice Smith");
}

#[test]
fn claim_name_validates() {
    let mut life = engine();
    let p = life.new_egg(0, 0, 0).unwrap();
    assert_eq!(life.give_name(&p, ""), Err(LifeError::InvalidNameSize));
    assert_eq!(life.give_name(&p, &"a".repeat(300)), Err(LifeError::InvalidNameSize));
    assert_eq!(life.give_name(&p, "A!ice"), Err(LifeError::IllegalCharacter));
    assert_eq!(life.person(1).unwrap().name, "");
    assert_eq!(life.give_name(&p, "Alice Smith"), Ok(()));
}

#[test]
fn claim_name_trims_first() {
    let mut life = engine();
    let p = life.new_egg(0, 0, 0).unwrap();
    assert_eq!(life.give_name(&p, "   "), Err(LifeError::InvalidNameSize));
    assert_eq!(life.give_name(&p, "  Bob 2  "), Ok(()));
    assert_eq!(life.person(1).unwrap().name, "Bob 2");
    assert!(matches!(&life.events()[1], LifeEvent::Name { people_id: 1, name } if name == "Bob 2"));
}

#[test]
fn name_checks_length_and_characters() {
    assert_eq!(validate_name(&"x".repeat(255)), Ok(()));
    assert_eq!(validate_name(&"x".repeat(256)), Err(LifeError::InvalidNameSize));
    assert_eq!(validate_name("Zoe 9"), Ok(()));
    assert_eq!(validate_name("Zoé"), Err(LifeError::IllegalCharacter));
    assert_eq!(validate_name("a_b"), Err(LifeError::IllegalCharacter));
}

#[test]
fn new_object_copies_the_catalog() {
    let mut life = engine();
    assert_eq!(life.new_object("Boat".to_string(), false).err(), Some(LifeError::ObjectNotFound));
    let o = life.new_object("House".to_string(), true).unwrap();
    assert_eq!(o.id(), 1);
    let data = life.object(1).unwrap();
    assert_eq!(data.name, "House");
    assert!(data.mortgaged);
    assert!(!data.rent_allowed);
    assert_eq!((data.daily_rent_price, data.rent_to), (0, 0));
    assert_eq!(data.key_image_url, "house.png");
}

#[test]
fn buy_objects_charges_and_mints_in_sequence() {
    let mut life = engine();
    let mut pay = life.buy_coins(1_000 * UNIT).unwrap();
    let objs = life.buy_objects(&mut pay, "House".to_string(), 3, false).unwrap();
    assert_eq!(objs.iter().map(|o| o.id()).collect::<Vec<_>>(), vec![1, 2, 3]);
    assert_eq!(pay.amount(), 700 * UNIT);
    let half = life.buy_objects(&mut pay, "House".to_string(), 3, true).unwrap();
    assert_eq!(half.len(), 3);
    assert_eq!(pay.amount(), 550 * UNIT);
    assert!(life.object(4).unwrap().mortgaged);
    match life.events().last().unwrap() {
        LifeEvent::NewObject { name, ids, mortgaged } => {
            assert_eq!(name, "House");
            assert_eq!(ids, &vec![4, 5, 6]);
            assert!(*mortgaged);
        }
        _ => panic!("expected a mint event"),
    }
}

#[test]
fn buy_objects_errors() {
    let mut life = engine();
    let mut pay = life.buy_coins(10 * UNIT).unwrap();
    assert_eq!(life.buy_objects(&mut pay, "House".to_string(), 0, false).err(), Some(LifeError::ZeroAmount));
    assert_eq!(life.buy_objects(&mut pay, "Boat".to_string(), 1, false).err(), Some(LifeError::ObjectNotFound));
    assert_eq!(life.buy_objects(&mut pay, "Chair".to_string(), 1, true).err(), Some(LifeError::CantBeMortgaged));
    assert_eq!(life.buy_objects(&mut pay, "House".to_string(), 1, false).err(), Some(LifeError::InsufficientAmount));
    life.update_object_type("House".to_string(), 100, false, true, true).unwrap();
    assert_eq!(life.buy_objects(&mut pay, "House".to_string(), 1, false).err(), Some(LifeError::CantBeBought));
    life.add_object_type("Castle".to_string(), u32::MAX, "c.png".to_string(), true, true, true);
    assert_eq!(life.buy_objects(&mut pay, "Castle".to_string(), 2, false).err(), Some(LifeError::Overflow));
    assert_eq!(pay.amount(), 10 * UNIT);
    assert_eq!(life.last_object_id(), 0);
}

#[test]
fn coins_follow_the_rate() {
    let mut life = RadixLife::new(3, UNIT, 3 * UNIT, 0, String::new()).unwrap();
    let single = life.buy_coins(10 * UNIT).unwrap();
    let double = life.buy_coins(20 * UNIT).unwrap();
    assert_eq!(single.amount(), 3_333_333_333_333_333_333);
    assert_eq!(double.amount(), 6_666_666_666_666_666_666);
    assert_eq!(life.xrd_pool(), 30 * UNIT);
    assert_eq!(life.update_coin_xrd_price(0), Err(LifeError::InvalidCoinPrice));
    assert_eq!(life.update_coin_xrd_price(UNIT / 2), Ok(()));
    assert_eq!(life.buy_coins(UNIT).unwrap().amount(), 2 * UNIT);
}

#[test]
fn doubling_payment_doubles_coins_up_to_rounding() {
    let rate = 7 * UNIT;
    for paid in [1u128, 13, 5 * UNIT, 123_456_789 * UNIT + 17] {
        let one = convert_at_rate(paid, rate).unwrap();
        let two = convert_at_rate(2 * paid, rate).unwrap();
        assert!(two == 2 * one || two == 2 * one + 1);
    }
}

#[test]
fn conversion_reports_overflow() {
    assert_eq!(convert_at_rate(10 * UNIT, 4 * UNIT), Some(2_500_000_000_000_000_000));
    assert_eq!(convert_at_rate(u128::MAX, 1), None);
    assert_eq!(coins_of_price(3), 3 * UNIT);
}

#[test]
fn mortgage_pays_half_the_price() {
    let mut life = engine();
    let o = life.new_object("House".to_string(), false).unwrap();
    let coins = life.mortgage(&o, None).unwrap().unwrap();
    assert_eq!(coins.amount(), 50 * UNIT);
    assert!(life.object(1).unwrap().mortgaged);
    assert_eq!(life.mortgage(&o, None).err(), Some(LifeError::AlreadyMortgaged));
    let o2 = life.new_object("House".to_string(), false).unwrap();
    assert!(life.mortgage(&o2, Some(4)).unwrap().is_none());
    assert!(matches!(life.events().last().unwrap(), LifeEvent::BankDeposit { people_id: 4, amount: 50 }));
}

#[test]
fn mortgage_refused_for_unmortgageable_entry() {
    let mut life = engine();
    let chair = life.new_object("Chair".to_string(), false).unwrap();
    assert_eq!(life.mortgage(&chair, None).err(), Some(LifeError::CantBeMortgaged));
    assert_eq!(life.mortgage(&chair, Some(1)).err(), Some(LifeError::CantBeMortgaged));
    assert!(!life.object(1).unwrap().mortgaged);
}

#[test]
fn allow_rent_price_locked_while_occupied() {
    let mut life = engine();
    let o = life.new_object("House".to_string(), false).unwrap();
    let p = life.new_egg(0, 0, 0).unwrap();
    assert_eq!(life.allow_rent(&o, true, Some(10), Some(9)), Ok(()));
    assert_eq!(life.object(1).unwrap().daily_rent_price, 10);
    assert_eq!(life.rent(&p, "House".to_string(), 1), Ok(()));
    assert_eq!(life.object(1).unwrap().rent_to, 1);
    assert_eq!(life.allow_rent(&o, true, Some(12), None), Err(LifeError::PriceLockedWhileRented));
    assert_eq!(life.allow_rent(&o, false, None, None), Ok(()));
    let data = life.object(1).unwrap();
    assert!(!data.rent_allowed);
    assert_eq!(data.daily_rent_price, 0);
    assert_eq!(data.rent_to, 1);
}

#[test]
fn allow_rent_needs_rentable_entry() {
    let mut life = engine();
    let chair = life.new_object("Chair".to_string(), false).unwrap();
    assert_eq!(life.allow_rent(&chair, true, Some(1), None), Err(LifeError::CantBeRent));
}

#[test]
fn rent_and_terminate() {
    let mut life = engine();
    let o = life.new_object("House".to_string(), false).unwrap();
    let alice = life.new_egg(0, 0, 0).unwrap();
    let bob = life.new_egg(0, 0, 0).unwrap();
    assert_eq!(life.rent(&alice, "House".to_string(), 1), Err(LifeError::NotForRent));
    life.allow_rent(&o, true, Some(3), None).unwrap();
    assert_eq!(life.rent(&alice, "Chair".to_string(), 1), Err(LifeError::CantBeRent));
    assert_eq!(life.rent(&alice, "Boat".to_string(), 1), Err(LifeError::ObjectNotFound));
    life.add_object_type("Hut".to_string(), 1, "h.png".to_string(), true, true, true);
    assert_eq!(life.rent(&alice, "Hut".to_string(), 1), Err(LifeError::WrongName));
    assert_eq!(life.rent(&alice, "House".to_string(), 1), Ok(()));
    assert_eq!(life.rent(&bob, "House".to_string(), 1), Err(LifeError::AlreadyRented));
    assert_eq!(life.terminate_rent(&bob, 1), Err(LifeError::NotRentedToCaller));
    assert_eq!(life.terminate_rent(&alice, 1), Ok(()));
    assert_eq!(life.object(1).unwrap().rent_to, 0);
    assert!(matches!(life.events().last().unwrap(), LifeEvent::TerminateRent { object_id: 1 }));
}

#[test]
fn unminted_objects_are_rented_by_convention() {
    let mut life = engine();
    let alice = life.new_egg(0, 0, 0).unwrap();
    assert_eq!(life.rent(&alice, "House".to_string(), 500), Ok(()));
    assert!(matches!(life.events().last().unwrap(), LifeEvent::Rent { object_id: 500, people_id: 1 }));
    assert_eq!(life.terminate_rent(&alice, 500), Ok(()));
    assert!(life.object(500).is_none());
}

#[test]
fn operator_updates_leave_absent_fields() {
    let mut life = engine();
    let _p = life.new_egg(3, 4, 0).unwrap();
    let mut fields = no_fields();
    fields.occupation = Some("baker".to_string());
    fields.name = Some("Ann".to_string());
    assert_eq!(life.update_people_data(1, fields, Some(7), None), Ok(()));
    let p = life.person(1).unwrap();
    assert_eq!(p.occupation, "baker");
    assert_eq!(p.name, "Ann");
    assert_eq!(p.partner, 7);
    assert_eq!(p.gender, "unknown");
    assert_eq!(p.key_image_url, "egg.png");
    assert_eq!((p.father, p.mother), (3, 4));
    assert_eq!(life.update_people_data(2, no_fields(), None, None), Err(LifeError::WrongNft));
    let _o = life.new_object("House".to_string(), false).unwrap();
    assert_eq!(life.update_object_data(1, None, Some(9)), Ok(()));
    let o = life.object(1).unwrap();
    assert!(!o.mortgaged);
    assert_eq!(o.rent_to, 9);
    assert_eq!(life.update_object_data(1, Some(true), None), Ok(()));
    assert!(life.object(1).unwrap().mortgaged);
    assert_eq!(life.object(1).unwrap().rent_to, 9);
    assert_eq!(life.update_object_data(3, Some(true), None), Err(LifeError::WrongNft));
}

#[test]
fn catalog_upserts_by_name() {
    let mut life = engine();
    life.add_object_type("House".to_string(), 250, "big.png".to_string(), false, false, true);
    let t = life.object_type(&"House".to_string()).unwrap();
    assert_eq!(t.price, 250);
    assert_eq!(t.key_image_url, "big.png");
    assert!(!t.can_be_bought);
    assert_eq!(life.update_object_type("Boat".to_string(), 1, true, true, true), Err(LifeError::ObjectNotFound));
    assert_eq!(life.update_object_type("House".to_string(), 9, true, true, false), Ok(()));
    let t = life.object_type(&"House".to_string()).unwrap();
    assert_eq!((t.price, t.can_be_bought, t.can_be_mortgaged, t.can_be_rent), (9, true, true, false));
    assert_eq!(t.key_image_url, "big.png");
}

#[test]
fn choices_are_priced_and_paid() {
    let mut life = engine();
    let p = life.new_egg(0, 0, 0).unwrap();
    let mut pay = life.buy_coins(10 * UNIT).unwrap();
    assert_eq!(life.make_choice(&p, "dance".to_string(), &mut pay, 1), Err(LifeError::ChoiceNotFound));
    life.add_choice("dance".to_string(), Some(0));
    assert_eq!(life.make_choice(&p, "dance".to_string(), &mut pay, 42), Ok(()));
    assert_eq!(pay.amount(), 10 * UNIT);
    assert!(matches!(life.events().last().unwrap(), LifeEvent::Choice { people_id: 1, number: 42, .. }));
    life.add_choice("travel".to_string(), Some(20));
    assert_eq!(life.make_choice(&p, "travel".to_string(), &mut pay, 1), Err(LifeError::NotEnoughCoins));
    life.add_choice("travel".to_string(), Some(4));
    assert_eq!(life.choice_price(&"travel".to_string()), Some(4));
    assert_eq!(life.make_choice(&p, "travel".to_string(), &mut pay, 1), Ok(()));
    assert_eq!(pay.amount(), 0);
    life.add_choice("travel".to_string(), None);
    assert_eq!(life.choice_price(&"travel".to_string()), None);
    assert_eq!(life.choice_price(&"dance".to_string()), Some(0));
}

#[test]
fn bank_operations_only_log() {
    let mut life = engine();
    let p = life.new_egg(0, 0, 0).unwrap();
    let mut pay = life.buy_coins(12 * UNIT + 5).unwrap();
    assert_eq!(life.deposit_to_bank_account(1, &mut pay), Ok(()));
    assert_eq!(pay.amount(), 0);
    assert!(matches!(life.events().last().unwrap(), LifeEvent::BankDeposit { people_id: 1, amount: 12 }));
    assert_eq!(life.withdraw_from_bank_account(&p, 8), Ok(()));
    assert!(matches!(life.events().last().unwrap(), LifeEvent::BankWithdraw { amount: 8, people_id: 1 }));
}

#[test]
fn coin_parcels_split_and_merge() {
    let mut a = Coins::empty();
    assert!(a.take(1).is_none());
    let mut life = engine();
    let mut b = life.buy_coins(10 * UNIT).unwrap();
    let part = b.take(4 * UNIT).unwrap();
    assert_eq!((b.amount(), part.amount()), (6 * UNIT, 4 * UNIT));
    assert!(a.put(part).is_ok());
    assert_eq!(a.amount(), 4 * UNIT);
}
