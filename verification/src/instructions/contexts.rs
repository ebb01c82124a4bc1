use crate::address::Address;
use vstd::prelude::*;

verus! {

// Each of these holds the addresses that one operation names. A field that
// stands for the party that acts holds a key whose holder the host has
// authenticated.

/// The accounts of `initialize_registry`.
#[derive(Clone, Copy, Debug)]
pub struct InitializeRegistry {
    pub registry: Address,
    pub carbon_token_mint: Address,
    pub admin: Address,
}

/// The accounts of `register_project`.
#[derive(Clone, Copy, Debug)]
pub struct RegisterProject {
    pub project: Address,
    pub registry: Address,
    pub project_owner: Address,
}

/// The accounts of `verify_project`.
#[derive(Clone, Copy, Debug)]
pub struct VerifyProject {
    pub project: Address,
    pub registry: Address,
    pub admin: Address,
}

/// The accounts of `mint_verified_credits`.
#[derive(Clone, Copy, Debug)]
pub struct MintVerifiedCredits {
    pub project: Address,
    pub registry: Address,
    pub carbon_token_mint: Address,
    pub recipient_token_account: Address,
    pub owner: Address,
    pub recipient: Address,
}

/// The accounts of `mint_credits`, the older way to mint.
#[derive(Clone, Copy, Debug)]
pub struct MintCredits {
    pub mint: Address,
    pub project: Address,
    pub owner: Address,
    pub recipient_token_account: Address,
    pub mint_authority: Address,
}

/// The accounts of `transfer_credits`.
#[derive(Clone, Copy, Debug)]
pub struct TransferCredits {
    pub from_account: Address,
    pub to_account: Address,
    pub from_authority: Address,
}

/// The accounts of `retire_credits`.
#[derive(Clone, Copy, Debug)]
pub struct RetireCredits {
    pub from_account: Address,
    pub retirement_account: Address,
    pub from_authority: Address,
}

/// The accounts of `trade_credits`.
#[derive(Clone, Copy, Debug)]
pub struct TradeCredits {
    pub authority: Address,
}

/// The accounts of `register_blue_carbon_project`.
#[derive(Clone, Copy, Debug)]
pub struct RegisterBlueProject {
    pub project: Address,
    pub registry: Address,
    pub project_owner: Address,
}

/// The accounts of `register_verifier`.
#[derive(Clone, Copy, Debug)]
pub struct RegisterVerifier {
    pub verifier: Address,
    pub verifier_authority: Address,
}

/// The accounts of `multi_party_verify_project`.
#[derive(Clone, Copy, Debug)]
pub struct MultiPartyVerifyProject {
    pub project: Address,
    pub verifier: Address,
    pub verifier_authority: Address,
}

/// The accounts of `submit_monitoring_data`.
#[derive(Clone, Copy, Debug)]
pub struct SubmitMonitoringData {
    pub monitoring_data: Address,
    pub project: Address,
    pub data_provider: Address,
}

/// The accounts of `create_marketplace_listing`.
#[derive(Clone, Copy, Debug)]
pub struct CreateMarketplaceListing {
    pub listing: Address,
    pub project: Address,
    pub seller: Address,
}

/// The accounts of `generate_impact_report`.
#[derive(Clone, Copy, Debug)]
pub struct GenerateImpactReport {
    pub impact_report: Address,
    pub project: Address,
    pub report_generator: Address,
}

} // verus!
