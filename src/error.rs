use vstd::prelude::*;

verus! {

/// Why an operation was refused. A refused operation changes nothing.
#[derive(Clone, Copy, PartialEq, Eq, Structural, Debug)]
pub enum LifeError {
    /// Fewer than three eggs offered at construction.
    TooFewEggs,
    /// An egg price of zero.
    InvalidEggPrice,
    /// A coin exchange rate of zero.
    InvalidCoinPrice,
    /// A negative hatch delay.
    NegativeHatchTime,
    /// The presented record does not belong to this registry.
    WrongNft,
    /// No catalog entry has the given name.
    ObjectNotFound,
    /// No price is set for the given choice.
    ChoiceNotFound,
    /// The payment is smaller than the price.
    InsufficientAmount,
    /// The payment for a choice is smaller than its price.
    NotEnoughCoins,
    /// No eggs are left on sale.
    SaleEnded,
    /// A purchase of zero objects.
    ZeroAmount,
    /// The catalog entry is not for sale.
    CantBeBought,
    /// The catalog entry cannot be mortgaged.
    CantBeMortgaged,
    /// The object is already mortgaged.
    AlreadyMortgaged,
    /// The catalog entry cannot be rented.
    CantBeRent,
    /// A new daily price while the object has an occupant.
    PriceLockedWhileRented,
    /// The object is not open for rent.
    NotForRent,
    /// The object already has an occupant.
    AlreadyRented,
    /// The catalog name does not match the object's.
    WrongName,
    /// The object is not rented to the caller.
    NotRentedToCaller,
    /// A rented or rent-listed object cannot be listed for sale.
    CantSellRented,
    /// The asset is not in the holding vault.
    NotOnSale,
    /// The person already has a name.
    NameAlreadyAssigned,
    /// A name that is empty or 256 characters or longer, once trimmed.
    InvalidNameSize,
    /// A name with a character that is neither ASCII alphanumeric nor a space.
    IllegalCharacter,
    /// A counter or an amount would leave its range.
    Overflow,
}

} // verus!
