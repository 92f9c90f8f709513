use vstd::prelude::*;

use crate::aws::{Ec2Response, SsmResponse, STSResponse};

verus! {

/// What can go wrong while a provider answers a query.
#[derive(Debug)]
pub enum ProviderError {
    ConfigurationError,
    ConnectionError,
    AuthenticationError,
    ResourceNotFound,
    TimeoutError,
    PermissionError,
    GeneralError(String),
}

/// The queries that every cloud provider answers. Each implementation turns
/// its backend's failures into a `ProviderError`.
pub trait ProviderActions {
    /// The identity behind the current credentials.
    fn who_am_i(&self) -> Result<STSResponse, ProviderError>;

    /// The instances, in the order the backend lists them.
    fn list_instances(&self) -> Result<Ec2Response, ProviderError>;

    /// The parameters under `path` (the root when absent), searched
    /// recursively; secure values are decrypted only when `decrypt` is set.
    fn list_parameters(&self, path: Option<String>, decrypt: bool) -> Result<
        SsmResponse,
        ProviderError,
    >;
}

} // verus!
