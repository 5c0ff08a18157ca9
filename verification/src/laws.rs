//! What holds of the contract as a whole.

pub mod accrual;
pub mod answers;
pub mod books;
pub mod changes;
pub mod claims;
pub mod clock;
pub mod counts;
pub mod endings;
pub mod flows;
pub mod gates;
pub mod ids;
pub mod lists;
pub mod makings;
pub mod pages;
pub mod parties;
pub mod payments;
pub mod readings;
pub mod refusals;
pub mod roundtrips;
pub mod streams;
pub mod totals;
