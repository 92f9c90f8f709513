use vstd::prelude::*;
use vstd::string::*;

use crate::actions::{ProviderActions, ProviderError};
use crate::aws::{Ec2Response, SsmResponse, STSResponse};
use crate::cli::Commands;
use crate::table::{
    identity_model, instances_model, parameters_model, Table, TableError,
};

verus! {

/// The errors reported to the user.
#[derive(Debug)]
pub enum AppError {
    AuthenticationError(String),
    ConnectionError,
    TimeoutError,
    PermissionError,
    GeneralError(String),
    OutputTableError(TableError),
}

/// What a provider answered to one command.
#[derive(Debug)]
pub enum CommandOutput {
    Identity(STSResponse),
    Instances(Ec2Response),
    Parameters(SsmResponse),
}

impl From<TableError> for AppError {
    fn from(error: TableError) -> (r: AppError) {
        AppError::OutputTableError(error)
    }
}

impl vstd::std_specs::convert::FromSpecImpl<TableError> for AppError {
    open spec fn obeys_from_spec() -> bool {
        true
    }

    open spec fn from_spec(error: TableError) -> AppError {
        AppError::OutputTableError(error)
    }
}

/// The application error that a provider error becomes.
pub open spec fn maps_to(e: ProviderError, a: AppError) -> bool {
    match e {
        ProviderError::ConfigurationError => a is GeneralError && a->GeneralError_0@
            == "Configuration error"@,
        ProviderError::ConnectionError => a is ConnectionError,
        ProviderError::AuthenticationError => a is AuthenticationError && a->AuthenticationError_0@
            == "Authentication failed"@,
        ProviderError::ResourceNotFound => a is GeneralError && a->GeneralError_0@
            == "Resource not found"@,
        ProviderError::TimeoutError => a is TimeoutError,
        ProviderError::PermissionError => a is PermissionError,
        ProviderError::GeneralError(m) => a is GeneralError && a->GeneralError_0@ == m@,
    }
}

/// The one-line message of a table error, as far as it is fixed.
pub open spec fn table_message_ok(e: TableError, m: Seq<char>) -> bool {
    match e {
        TableError::IncorrectRowLength => m
            == "Incorrect row length: row length must be equal to header length"@,
        TableError::IOError(_) => m.len() >= 10 && m.subrange(0, 10) == "IO Error: "@,
    }
}

/// The one-line message of an application error, as far as it is fixed.
pub open spec fn app_message_ok(a: AppError, m: Seq<char>) -> bool {
    match a {
        AppError::AuthenticationError(s) => m == "Authentication error occurred: "@ + s@,
        AppError::ConnectionError => m == "Connection error occurred"@,
        AppError::TimeoutError => m == "Operation timed out"@,
        AppError::PermissionError => m == "Permission denied"@,
        AppError::GeneralError(s) => m == "General error: "@ + s@,
        AppError::OutputTableError(e) => m.len() >= 14 && m.subrange(0, 14) == "Output error: "@
            && table_message_ok(e, m.subrange(14, m.len() as int)),
    }
}

/// Which of the six kinds an application error is.
pub open spec fn kind_of(a: AppError) -> int {
    match a {
        AppError::AuthenticationError(_) => 0,
        AppError::ConnectionError => 1,
        AppError::TimeoutError => 2,
        AppError::PermissionError => 3,
        AppError::GeneralError(_) => 4,
        AppError::OutputTableError(_) => 5,
    }
}

/// The first two characters of the message of each kind of application error.
pub open spec fn message_head(a: AppError) -> Seq<char> {
    match a {
        AppError::AuthenticationError(_) => seq!['A', 'u'],
        AppError::ConnectionError => seq!['C', 'o'],
        AppError::TimeoutError => seq!['O', 'p'],
        AppError::PermissionError => seq!['P', 'e'],
        AppError::GeneralError(_) => seq!['G', 'e'],
        AppError::OutputTableError(_) => seq!['O', 'u'],
    }
}

proof fn lemma_message_head(a: AppError, m: Seq<char>)
    requires
        app_message_ok(a, m),
    ensures
        m.len() >= 2,
        m.subrange(0, 2) == message_head(a),
{
    reveal_strlit("Authentication error occurred: ");
    reveal_strlit("Connection error occurred");
    reveal_strlit("Operation timed out");
    reveal_strlit("Permission denied");
    reveal_strlit("General error: ");
    reveal_strlit("Output error: ");
    match a {
        AppError::AuthenticationError(s) => {
            assert(m.subrange(0, 2) =~= seq!['A', 'u']);
        },
        AppError::ConnectionError => {
            assert(m.subrange(0, 2) =~= seq!['C', 'o']);
        },
        AppError::TimeoutError => {
            assert(m.subrange(0, 2) =~= seq!['O', 'p']);
        },
        AppError::PermissionError => {
            assert(m.subrange(0, 2) =~= seq!['P', 'e']);
        },
        AppError::GeneralError(s) => {
            assert(m.subrange(0, 2) =~= seq!['G', 'e']);
        },
        AppError::OutputTableError(_) => {
            assert(m.subrange(0, 14)[0] == 'O');
            assert(m.subrange(0, 14)[1] == 'u');
            assert(m.subrange(0, 2) =~= seq!['O', 'u']);
        },
    }
}

/// Errors of different kinds never share a message.
pub proof fn lemma_messages_distinct(a: AppError, b: AppError, ma: Seq<char>, mb: Seq<char>)
    requires
        app_message_ok(a, ma),
        app_message_ok(b, mb),
        kind_of(a) != kind_of(b),
    ensures
        ma != mb,
{
    lemma_message_head(a, ma);
    lemma_message_head(b, mb);
    if ma == mb {
        assert(message_head(a) == message_head(b));
        assert(message_head(a)[0] == message_head(b)[0]);
        assert(message_head(a)[1] == message_head(b)[1]);
    }
}

impl TableError {
    /// A one-line description of the error.
    pub fn message(&self) -> (r: String)
        ensures
            table_message_ok(*self, r@),
    {
        match self {
            TableError::IncorrectRowLength => String::from_str(
                "Incorrect row length: row length must be equal to header length",
            ),
            TableError::IOError(err) => {
                let mut s = String::from_str("IO Error: ");
                let detail = err.to_string();
                proof {
                    reveal_strlit("IO Error: ");
                }
                let ghost head = s@;
                s.append(detail.as_str());
                assert(s@.subrange(0, 10) =~= head);
                s
            },
        }
    }
}

impl AppError {
    /// The application error for a provider error; every provider error has
    /// one.
    pub fn from_provider(error: ProviderError) -> (r: AppError)
        ensures
            maps_to(error, r),
            !(r is OutputTableError),
    {
        match error {
            ProviderError::ConfigurationError => AppError::GeneralError(
                String::from_str("Configuration error"),
            ),
            ProviderError::AuthenticationError => AppError::AuthenticationError(
                String::from_str("Authentication failed"),
            ),
            ProviderError::ResourceNotFound => AppError::GeneralError(
                String::from_str("Resource not found"),
            ),
            ProviderError::GeneralError(msg) => AppError::GeneralError(msg),
            ProviderError::TimeoutError => AppError::TimeoutError,
            ProviderError::ConnectionError => AppError::ConnectionError,
            ProviderError::PermissionError => AppError::PermissionError,
        }
    }

    /// A table failure, reported as an output error.
    pub fn from_table(error: TableError) -> (r: AppError)
        ensures
            r == AppError::OutputTableError(error),
    {
        AppError::OutputTableError(error)
    }

    /// A one-line description of the error.
    pub fn message(&self) -> (r: String)
        ensures
            app_message_ok(*self, r@),
    {
        match self {
            AppError::AuthenticationError(err) => {
                let mut s = String::from_str("Authentication error occurred: ");
                s.append(err.as_str());
                s
            },
            AppError::ConnectionError => String::from_str("Connection error occurred"),
            AppError::TimeoutError => String::from_str("Operation timed out"),
            AppError::PermissionError => String::from_str("Permission denied"),
            AppError::GeneralError(msg) => {
                let mut s = String::from_str("General error: ");
                s.append(msg.as_str());
                s
            },
            AppError::OutputTableError(e) => {
                let mut s = String::from_str("Output error: ");
                proof {
                    reveal_strlit("Output error: ");
                }
                let ghost head = s@;
                let detail = e.message();
                s.append(detail.as_str());
                assert(s@.subrange(0, 14) =~= head);
                assert(s@.subrange(14, s@.len() as int) =~= detail@);
                s
            },
        }
    }
}

/// The table for a provider's answer, or the application error for its
/// failure.
pub fn present(outcome: Result<CommandOutput, ProviderError>) -> (r: Result<Table, AppError>)
    ensures
        match outcome {
            Ok(CommandOutput::Identity(i)) => r is Ok && r->Ok_0@ == identity_model(i),
            Ok(CommandOutput::Instances(l)) => r is Ok && r->Ok_0@ == instances_model(l),
            Ok(CommandOutput::Parameters(p)) => r is Ok && r->Ok_0@ == parameters_model(p),
            Err(e) => r is Err && maps_to(e, r->Err_0),
        },
        r is Ok ==> r->Ok_0.wf(),
{
    match outcome {
        Ok(CommandOutput::Identity(i)) => Ok(Table::from_identity(i)),
        Ok(CommandOutput::Instances(l)) => Ok(Table::from_instances(l)),
        Ok(CommandOutput::Parameters(p)) => Ok(Table::from_parameters(p)),
        Err(e) => Err(AppError::from_provider(e)),
    }
}

/// The provider query a command needs.
#[derive(Debug)]
pub enum Query {
    Identity,
    Instances,
    Parameters { path: Option<String>, decrypt: bool },
}

/// The query for a command: the parameters command hands on its path and
/// its decryption flag unchanged.
pub fn query_of(command: Commands) -> (q: Query)
    ensures
        match command {
            Commands::Whoami => q is Identity,
            Commands::Instances => q is Instances,
            Commands::Params { path, decrypt } => q is Parameters && q->path == path && q->decrypt
                == decrypt,
        },
{
    match command {
        Commands::Whoami => Query::Identity,
        Commands::Instances => Query::Instances,
        Commands::Params { path, decrypt } => Query::Parameters { path, decrypt },
    }
}

/// Makes the one provider call that answers the query, handing it the
/// query's path and flag as they are.
pub fn ask<P: ProviderActions>(provider: &P, query: Query) -> (r: Result<
    CommandOutput,
    ProviderError,
>)
    ensures
        r is Ok ==> (match query {
            Query::Identity => r->Ok_0 is Identity,
            Query::Instances => r->Ok_0 is Instances,
            Query::Parameters { .. } => r->Ok_0 is Parameters,
        }),
{
    match query {
        Query::Identity => match provider.who_am_i() {
            Ok(i) => Ok(CommandOutput::Identity(i)),
            Err(e) => Err(e),
        },
        Query::Instances => match provider.list_instances() {
            Ok(l) => Ok(CommandOutput::Instances(l)),
            Err(e) => Err(e),
        },
        Query::Parameters { path, decrypt } => match provider.list_parameters(path, decrypt) {
            Ok(p) => Ok(CommandOutput::Parameters(p)),
            Err(e) => Err(e),
        },
    }
}

/// Asks the provider what the command needs and lays the answer out as a
/// table. Whatever the provider answers, a table that comes back is the
/// table of some answer of the kind the command asks for, and an error is the
/// application error of some provider error.
pub fn run_command<P: ProviderActions>(provider: &P, command: Commands) -> (r: Result<
    Table,
    AppError,
>)
    ensures
        r is Ok ==> r->Ok_0.wf(),
        r is Ok ==> (match command {
            Commands::Whoami => exists|i: STSResponse| r->Ok_0@ == #[trigger] identity_model(i),
            Commands::Instances => exists|l: Ec2Response| r->Ok_0@ == #[trigger] instances_model(l),
            Commands::Params { .. } => exists|p: SsmResponse| r->Ok_0@ == #[trigger] parameters_model(
                p,
            ),
        }),
        r is Err ==> exists|e: ProviderError| #[trigger] maps_to(e, r->Err_0),
{
    let query = query_of(command);
    let outcome = ask(provider, query);
    let ghost answered = outcome;
    let r = present(outcome);
    proof {
        match answered {
            Ok(CommandOutput::Identity(i)) => {
                assert(r->Ok_0@ == identity_model(i));
            },
            Ok(CommandOutput::Instances(l)) => {
                assert(r->Ok_0@ == instances_model(l));
            },
            Ok(CommandOutput::Parameters(p)) => {
                assert(r->Ok_0@ == parameters_model(p));
            },
            Err(e) => {
                assert(maps_to(e, r->Err_0));
            },
        }
    }
    r
}

} // verus!
