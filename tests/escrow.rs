use radix_life::error::LifeError;
use radix_life::events::LifeEvent;
use radix_life::life::RadixLife;
use radix_life::records::Listing;
use radix_life::tokens::{Coins, ObjectNft, ObjectPayout, PeoplePayout};

const UNIT: u128 = 1_000_000_000_000_000_000;

fn engine() -> RadixLife {
    let mut life = RadixLife::new(10, 5 * UNIT, UNIT, 3600, "egg.png".to_string()).unwrap();
    life.add_object_type("House".to_string(), 100, "house.png".to_string(), true, true, true);
    life
}

fn coins(life: &mut RadixLife, whole: u128) -> Coins {
    life.buy_coins(whole * UNIT).unwrap()
}

fn house(life: &mut RadixLife) -> ObjectNft {
    life.new_object("House".to_string(), false).unwrap()
}

#[test]
fn sell_then_close_returns_the_object() {
    let mut life = engine();
    let obj = house(&mut life);
    let id = obj.id();
    let receipt = life.sell_object(obj, 100).ok().unwrap();
    assert_eq!(receipt.data().object_id, id);
    assert_eq!(receipt.data().price, 100);
    assert_eq!(receipt.data().key_image_url, "house.png");
    assert_eq!(life.object_listing(id), Some(Listing::Listed { price: 100 }));
    match life.close_object_sale(receipt).ok().unwrap() {
        ObjectPayout::Object(back) => assert_eq!(back.id(), id),
        ObjectPayout::Coins(_) => panic!("expected the object back"),
    }
    assert_eq!(life.object_listing(id), Some(Listing::Unlisted));
    let o = life.object(id).unwrap();
    assert_eq!(o.name, "House");
    assert!(!o.mortgaged);
}

#[test]
fn settlement_after_purchase_pays_the_price() {
    let mut life = engine();
    let mut objs = Vec::new();
    for _ in 0..7 {
        objs.push(house(&mut life));
    }
    let obj7 = objs.pop().unwrap();
    assert_eq!(obj7.id(), 7);
    let receipt = life.sell_object(obj7, 100).ok().unwrap();
    let mut payment = coins(&mut life, 100);
    let bought = life.buy_used_object(7, &mut payment).ok().unwrap();
    assert_eq!(bought.id(), 7);
    assert_eq!(payment.amount(), 0);
    match life.close_object_sale(receipt).ok().unwrap() {
        ObjectPayout::Coins(c) => assert_eq!(c.amount(), 100 * UNIT),
        ObjectPayout::Object(_) => panic!("expected coins"),
    }
    assert_eq!(life.object_listing(7), Some(Listing::Unlisted));
}

#[test]
fn second_purchase_of_same_object_fails() {
    let mut life = engine();
    let obj = house(&mut life);
    let id = obj.id();
    let _receipt = life.sell_object(obj, 10).ok().unwrap();
    let mut payment = coins(&mut life, 50);
    assert!(life.buy_used_object(id, &mut payment).is_ok());
    assert_eq!(payment.amount(), 40 * UNIT);
    assert_eq!(life.buy_used_object(id, &mut payment).err(), Some(LifeError::NotOnSale));
    assert_eq!(payment.amount(), 40 * UNIT);
}

#[test]
fn escrow_cycle_burns_what_it_mints() {
    let mut life = engine();
    let obj = house(&mut life);
    let id = obj.id();
    let receipt = life.sell_object(obj, 37).ok().unwrap();
    let mut payment = coins(&mut life, 60);
    let before = payment.amount();
    life.buy_used_object(id, &mut payment).ok().unwrap();
    let burned = before - payment.amount();
    let minted = match life.close_object_sale(receipt).ok().unwrap() {
        ObjectPayout::Coins(c) => c.amount(),
        ObjectPayout::Object(_) => panic!("expected coins"),
    };
    assert_eq!(burned, minted);
    assert_eq!(minted, 37 * UNIT);
}

#[test]
fn purchase_needs_enough_coins() {
    let mut life = engine();
    let obj = house(&mut life);
    let id = obj.id();
    let _receipt = life.sell_object(obj, 100).ok().unwrap();
    let mut payment = coins(&mut life, 99);
    assert_eq!(life.buy_used_object(id, &mut payment).err(), Some(LifeError::InsufficientAmount));
    assert_eq!(payment.amount(), 99 * UNIT);
    assert_eq!(life.object_listing(id), Some(Listing::Listed { price: 100 }));
}

#[test]
fn unlisted_object_cannot_be_bought() {
    let mut life = engine();
    let _obj = house(&mut life);
    let mut payment = coins(&mut life, 100);
    assert_eq!(life.buy_used_object(1, &mut payment).err(), Some(LifeError::NotOnSale));
    assert_eq!(life.buy_used_object(99, &mut payment).err(), Some(LifeError::NotOnSale));
}

#[test]
fn rented_object_cannot_be_listed() {
    let mut life = engine();
    let obj = house(&mut life);
    life.allow_rent(&obj, true, Some(5), None).unwrap();
    let (err, back) = life.sell_object(obj, 100).err().unwrap();
    assert_eq!(err, LifeError::CantSellRented);
    assert_eq!(back.id(), 1);
    assert_eq!(life.last_receipt_id(), 0);
}

#[test]
fn receipt_ids_are_their_own_sequence() {
    let mut life = engine();
    let a = house(&mut life);
    let b = house(&mut life);
    let person = life.new_egg(0, 0, 1_000).unwrap();
    let ra = life.sell_object(a, 1).ok().unwrap();
    let rp = life.sell_people(person, 2).ok().unwrap();
    let rb = life.sell_object(b, 3).ok().unwrap();
    assert_eq!(ra.local_id(), 1);
    assert_eq!(rp.local_id(), 2);
    assert_eq!(rb.local_id(), 3);
    assert_eq!(rb.data().object_id, 2);
}

#[test]
fn people_escrow_cycle() {
    let mut life = engine();
    let person = life.new_egg(0, 0, 1_000).unwrap();
    let id = person.id();
    let receipt = life.sell_people(person, 20).ok().unwrap();
    assert_eq!(receipt.data().people_id, id);
    assert_eq!(receipt.data().key_image_url, "egg.png");
    let mut payment = coins(&mut life, 25);
    let bought = life.buy_people(id, &mut payment).ok().unwrap();
    assert_eq!(bought.id(), id);
    assert_eq!(payment.amount(), 5 * UNIT);
    assert_eq!(life.buy_people(id, &mut payment).err(), Some(LifeError::NotOnSale));
    match life.close_people_sale(receipt).ok().unwrap() {
        PeoplePayout::Coins(c) => assert_eq!(c.amount(), 20 * UNIT),
        PeoplePayout::Person(_) => panic!("expected coins"),
    }
}

#[test]
fn people_listing_closed_unsold_returns_person() {
    let mut life = engine();
    let person = life.new_egg(0, 0, 1_000).unwrap();
    let receipt = life.sell_people(person, 20).ok().unwrap();
    assert_eq!(life.people_listing(1), Some(Listing::Listed { price: 20 }));
    match life.close_people_sale(receipt).ok().unwrap() {
        PeoplePayout::Person(p) => assert_eq!(p.id(), 1),
        PeoplePayout::Coins(_) => panic!("expected the person back"),
    }
    assert_eq!(life.people_listing(1), Some(Listing::Unlisted));
}

#[test]
fn listing_and_purchase_are_logged() {
    let mut life = engine();
    let obj = house(&mut life);
    life.take_events();
    let _receipt = life.sell_object(obj, 9).ok().unwrap();
    let mut payment = coins(&mut life, 9);
    life.buy_used_object(1, &mut payment).ok().unwrap();
    let events = life.take_events();
    assert_eq!(events.len(), 2);
    assert!(matches!(events[0], LifeEvent::SoldObject { object_id: 1, price: 9 }));
    assert!(matches!(events[1], LifeEvent::BoughtObject { object_id: 1 }));
    assert!(life.events().is_empty());
}
