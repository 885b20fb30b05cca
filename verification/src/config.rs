use vstd::prelude::*;

verus! {

/// Credentials and return address that the operator supplies before a payment
/// is attempted.
#[derive(Clone, Debug)]
pub struct Configuration {
    pub client_id: String,
    pub client_secret: String,
    pub client_kid: String,
    pub client_private_key: String,
    pub redirect_uri: String,
}

} // verus!
