//! The bodies that the HTTP interface receives and answers.

use vstd::prelude::*;
use crate::domain::property::Property;
use crate::domain::vehicle::Vehicle;

verus! {

/// A home to publish, for a client.
#[derive(Debug)]
pub struct AddPropertyUseCaseRequest {
    pub property: Property,
    pub client_id: String,
}

/// The answer to a published home; it carries nothing.
#[derive(Debug)]
pub struct AddPropertyUseCaseResponse {}

/// A vehicle to publish, for a client.
#[derive(Debug)]
pub struct AddVehicleUseCaseRequest {
    pub client_id: String,
    pub vehicle: Vehicle,
}

/// The answer to a published vehicle; it carries nothing.
#[derive(Debug)]
pub struct AddVehicleUseCaseResponse {}

/// A request about a client's marketplace account.
#[derive(Debug)]
pub struct MarketplaceUseCaseRequest {
    pub client_id: String,
}

/// Whether the client is signed in.
#[derive(Debug)]
pub struct MarketplaceUseCaseResponse {
    pub status: bool,
}

/// How many listings were renewed.
#[derive(Debug)]
pub struct RenewListingsUseCaseResponse {
    pub renewed: u32,
}

/// The answer of the health check.
#[derive(Debug)]
pub struct HealthzResponse {
    pub status: String,
    pub version: &'static str,
}

/// The health check's answer for a build of the given version.
pub fn healthz_response(version: &'static str) -> (r: HealthzResponse)
    ensures
        r.status@ == "ok"@,
        r.version == version,
{
    HealthzResponse { status: String::from_str("ok"), version }
}

} // verus!
