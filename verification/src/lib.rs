pub mod account_value;
pub mod calendar;
pub mod catalog;
pub mod checkout;
pub mod clock;
pub mod error;
pub mod inventory;
pub mod json;
pub mod lifecycle;
pub mod membership;
pub mod money;
pub mod partner;
pub mod payment;
pub mod physical;
pub mod recharge;
pub mod settlement;
pub mod shipment;
pub mod text;
pub mod transitions;
