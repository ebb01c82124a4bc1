pub mod address;
pub mod auth_utils;
pub mod bounds;
pub mod capacity;
pub mod history;
pub mod instructions;
pub mod laws;
pub mod layout;
pub mod ledger;
pub mod models;
pub mod program;
pub mod seeds;
pub mod token;
pub mod totals;
