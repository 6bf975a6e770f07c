use vstd::prelude::*;

verus! {

/// The data a person record carries.
///
/// `name` starts empty and is claimed once; `birth_date`, `father` and `mother`
/// never change after minting. Lineage ids of 0 mean "unknown".
pub struct PeopleData {
    pub name: String,
    /// Seconds since the Unix epoch.
    pub birth_date: i64,
    pub father: u64,
    pub mother: u64,
    pub gender: String,
    pub occupation: String,
    pub partner: u64,
    pub mood_status: String,
    pub health_status: String,
    pub schooling: String,
    pub key_image_url: String,
}

/// The data an object record carries. `rent_to` is the occupant's person id,
/// 0 while the object is vacant.
pub struct ObjectData {
    pub name: String,
    pub mortgaged: bool,
    pub rent_allowed: bool,
    pub daily_rent_price: u32,
    pub rent_to: u64,
    pub key_image_url: String,
}

/// What a receipt for a listed object records: which object, at what price.
pub struct SoldObjectReceipt {
    pub object_id: u64,
    pub price: u32,
    pub key_image_url: String,
}

/// What a receipt for a listed person records: which person, at what price.
pub struct SoldPeopleReceipt {
    pub people_id: u64,
    pub price: u32,
    pub key_image_url: String,
}

/// A catalog entry: the template objects of one type are minted against.
pub struct ObjectTypeData {
    pub name: String,
    pub can_be_bought: bool,
    pub can_be_mortgaged: bool,
    pub can_be_rent: bool,
    /// Unit price in whole coins.
    pub price: u32,
    pub key_image_url: String,
}

/// An entry of the price table of choices.
pub struct ChoicePrice {
    pub choice: String,
    pub price: u32,
}

/// Whether an asset currently sits in the holding vault, and at what price it
/// was last listed.
#[derive(Clone, Copy, PartialEq, Eq, Structural, Debug)]
pub enum Listing {
    Unlisted,
    Listed { price: u32 },
}

/// Optional new values for the free-form fields of a person; `None` leaves a
/// field as it is.
pub struct PeopleFieldUpdate {
    pub name: Option<String>,
    pub gender: Option<String>,
    pub occupation: Option<String>,
    pub mood_status: Option<String>,
    pub health_status: Option<String>,
    pub schooling: Option<String>,
}

} // verus!
