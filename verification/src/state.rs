//! The records of a treasury. The treasury is the root; every other record
//! belongs to exactly one treasury and names it in its `treasury` field.

pub mod milestone_payment;
pub mod payment_stream;
pub mod proposal;
pub mod recurring_payment;
pub mod role;
pub mod treasury;
pub mod whitelisted_recipient;
