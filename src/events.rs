use vstd::prelude::*;

verus! {

/// One entry of the audit log; each state-changing operation appends at most one.
pub enum LifeEvent {
    NewPeople { people_id: u64, birth_date: i64 },
    Name { people_id: u64, name: String },
    NewObject { name: String, ids: Vec<u64>, mortgaged: bool },
    BankDeposit { people_id: u64, amount: u32 },
    AllowRent { object_id: u64, allow: bool, daily_price: Option<u32>, account: Option<u64> },
    Rent { object_id: u64, people_id: u64 },
    TerminateRent { object_id: u64 },
    SoldObject { object_id: u64, price: u32 },
    BoughtObject { object_id: u64 },
    Choice { choice: String, people_id: u64, number: u64 },
    BankWithdraw { amount: u32, people_id: u64 },
    SoldPeople { people_id: u64, price: u32 },
    BoughtPeople { people_id: u64 },
}

} // verus!
