use vstd::prelude::*;
use crate::records::{SoldObjectReceipt, SoldPeopleReceipt};

verus! {

/// Custody of one person record. Only the engine creates one; holding it is
/// owning the person, lending `&PeopleNft` attests ownership.
pub struct PeopleNft {
    id: u64,
}

/// Custody of one object record.
pub struct ObjectNft {
    id: u64,
}

/// A parcel of coins, counted in attos.
pub struct Coins {
    amount: u128,
}

/// The claim check handed to the seller of a listed object.
pub struct SoldObjectNft {
    local_id: u64,
    data: SoldObjectReceipt,
}

/// The claim check handed to the seller of a listed person.
pub struct SoldPeopleNft {
    local_id: u64,
    data: SoldPeopleReceipt,
}

/// What redeeming an object receipt hands out.
pub enum ObjectPayout {
    Object(ObjectNft),
    Coins(Coins),
}

/// What redeeming a person receipt hands out.
pub enum PeoplePayout {
    Person(PeopleNft),
    Coins(Coins),
}

impl View for PeopleNft {
    type V = u64;

    closed spec fn view(&self) -> u64 {
        self.id
    }
}

impl View for ObjectNft {
    type V = u64;

    closed spec fn view(&self) -> u64 {
        self.id
    }
}

impl View for Coins {
    type V = u128;

    closed spec fn view(&self) -> u128 {
        self.amount
    }
}

impl PeopleNft {
    pub(crate) fn mint(id: u64) -> (r: Self)
        ensures
            r@ == id,
    {
        PeopleNft { id }
    }

    /// The person's id.
    pub fn id(&self) -> (r: u64)
        ensures
            r == self@,
    {
        self.id
    }
}

impl ObjectNft {
    pub(crate) fn mint(id: u64) -> (r: Self)
        ensures
            r@ == id,
    {
        ObjectNft { id }
    }

    /// The object's id.
    pub fn id(&self) -> (r: u64)
        ensures
            r == self@,
    {
        self.id
    }
}

impl Coins {
    pub(crate) fn mint(amount: u128) -> (r: Self)
        ensures
            r@ == amount,
    {
        Coins { amount }
    }

    /// An empty parcel.
    pub fn empty() -> (r: Self)
        ensures
            r@ == 0,
    {
        Coins { amount: 0 }
    }

    /// The parcel's amount in attos.
    pub fn amount(&self) -> (r: u128)
        ensures
            r == self@,
    {
        self.amount
    }

    /// Splits `amount` attos off this parcel; `None`, and nothing taken, when
    /// the parcel holds less.
    pub fn take(&mut self, amount: u128) -> (r: Option<Coins>)
        ensures
            amount <= old(self)@ ==> r is Some && r->Some_0@ == amount && final(self)@ == old(self)@ - amount,
            amount > old(self)@ ==> r is None && final(self)@ == old(self)@,
    {
        if amount <= self.amount {
            self.amount = self.amount - amount;
            Some(Coins { amount })
        } else {
            None
        }
    }

    /// Merges `other` into this parcel; hands `other` back when the sum does not fit.
    pub fn put(&mut self, other: Coins) -> (r: Result<(), Coins>)
        ensures
            old(self)@ + other@ <= u128::MAX ==> r is Ok && final(self)@ == old(self)@ + other@,
            old(self)@ + other@ > u128::MAX ==> r is Err && r->Err_0@ == other@ && final(self)@
                == old(self)@,
    {
        if other.amount <= u128::MAX - self.amount {
            self.amount = self.amount + other.amount;
            Ok(())
        } else {
            Err(other)
        }
    }

    /// Destroys `amount` attos of the parcel.
    pub(crate) fn burn(&mut self, amount: u128)
        requires
            amount <= old(self)@,
        ensures
            final(self)@ == old(self)@ - amount,
    {
        self.amount = self.amount - amount;
    }
}

impl SoldObjectNft {
    pub(crate) fn mint(local_id: u64, data: SoldObjectReceipt) -> (r: Self)
        ensures
            r.receipt_id() == local_id,
            r.receipt() == data,
    {
        SoldObjectNft { local_id, data }
    }

    /// The receipt's own id, from a sequence apart from the assets' ids.
    pub closed spec fn receipt_id(&self) -> u64 {
        self.local_id
    }

    /// What the receipt records.
    pub closed spec fn receipt(&self) -> SoldObjectReceipt {
        self.data
    }

    pub fn local_id(&self) -> (r: u64)
        ensures
            r == self.receipt_id(),
    {
        self.local_id
    }

    pub fn data(&self) -> (r: &SoldObjectReceipt)
        ensures
            *r == self.receipt(),
    {
        &self.data
    }
}

impl SoldPeopleNft {
    pub(crate) fn mint(local_id: u64, data: SoldPeopleReceipt) -> (r: Self)
        ensures
            r.receipt_id() == local_id,
            r.receipt() == data,
    {
        SoldPeopleNft { local_id, data }
    }

    /// The receipt's own id, from a sequence apart from the assets' ids.
    pub closed spec fn receipt_id(&self) -> u64 {
        self.local_id
    }

    /// What the receipt records.
    pub closed spec fn receipt(&self) -> SoldPeopleReceipt {
        self.data
    }

    pub fn local_id(&self) -> (r: u64)
        ensures
            r == self.receipt_id(),
    {
        self.local_id
    }

    pub fn data(&self) -> (r: &SoldPeopleReceipt)
        ensures
            *r == self.receipt(),
    {
        &self.data
    }
}

} // verus!
