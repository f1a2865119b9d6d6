pub mod derivation;
pub mod errors;
pub mod ledger;
pub mod schema;
