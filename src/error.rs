use vstd::prelude::*;

verus! {

/// What can go wrong in one step of a login flow.
#[derive(Debug, Clone, PartialEq, Eq)]
pub enum AuthError {
    /// A step needs a setting that the configuration does not hold (the client secret).
    ConfigurationError,
    /// A request could not be written as a query string.
    EncodingError,
    /// The network round trip failed, or the provider answered with a failure status.
    TransportError(String),
    /// A response body could not be read: not JSON, or a JSONP wrapper without its markers.
    DecodingError(String),
    /// The provider adapter deliberately has no implementation of this step.
    UnimplementedProviderStep,
}

} // verus!
