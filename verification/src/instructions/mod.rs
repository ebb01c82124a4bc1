pub mod contexts;
pub mod errors;
pub mod marketplace;
pub mod mint_credits;
pub mod monitoring;
pub mod register_project;
pub mod track_impact;
pub mod trade_credits;
pub mod verify_project;
