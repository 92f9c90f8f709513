pub mod actions;
pub mod app;
pub mod aws;
pub mod cli;
pub mod table;

pub use actions::{ProviderActions, ProviderError};
pub use app::{ask, present, query_of, run_command, AppError, CommandOutput, Query};
pub use aws::{
    AwsProvider, Ec2Instance, Ec2Response, InstanceTag, SdkFailure, SsmParameter, SsmResponse,
    STSResponse,
};
pub use cli::{CloudProviders, Commands, CLI};
pub use table::{Table, TableColumnFormat, TableError};
