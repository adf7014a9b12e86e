//! The provider's account-level records: zones and destination addresses.
use vstd::prelude::*;

verus! {

/// A zone: a domain managed by the provider, with its id.
#[derive(Debug)]
pub struct CFZoneInfo {
    pub id: String,
    pub name: String,
}

/// A verified destination address of an account, with its id.
#[derive(Debug)]
pub struct CFDestinationAddr {
    pub id: String,
    pub email: String,
}

/// A message that the provider attaches to a response.
#[derive(Debug)]
pub struct CFMessage {
    pub code: u32,
    pub message: String,
}

/// A destination address as listed in an account's routing addresses.
#[derive(Debug)]
pub struct CFEmailDestination {
    pub id: String,
    pub email: String,
}

/// The provider's answer to a listing of destination addresses.
#[derive(Debug)]
pub struct CFEmailDestinations {
    pub messages: Vec<CFMessage>,
    pub success: bool,
    pub result: Vec<CFEmailDestination>,
}

} // verus!
