use ctk::{
    ask, present, query_of, run_command, Query, AppError, AwsProvider, CloudProviders, CommandOutput, Commands,
    Ec2Response, InstanceTag, ProviderActions, ProviderError, SdkFailure, SsmResponse,
    STSResponse, TableError, CLI,
};

fn some(s: &str) -> Option<String> {
    Some(s.to_string())
}

fn general_text(e: &ProviderError) -> String {
    match e {
        ProviderError::GeneralError(m) => m.clone(),
        _ => panic!("not a general error: {:?}", e),
    }
}

#[test]
fn every_provider_error_maps_to_an_app_error() {
    let cases = vec![
        ProviderError::ConfigurationError,
        ProviderError::ConnectionError,
        ProviderError::AuthenticationError,
        ProviderError::ResourceNotFound,
        ProviderError::TimeoutError,
        ProviderError::PermissionError,
        ProviderError::GeneralError("boom".to_string()),
    ];
    let mapped: Vec<AppError> = cases.into_iter().map(AppError::from_provider).collect();
    assert!(matches!(&mapped[0], AppError::GeneralError(m) if m == "Configuration error"));
    assert!(matches!(&mapped[1], AppError::ConnectionError));
    assert!(matches!(&mapped[2], AppError::AuthenticationError(m) if m == "Authentication failed"));
    assert!(matches!(&mapped[3], AppError::GeneralError(m) if m == "Resource not found"));
    assert!(matches!(&mapped[4], AppError::TimeoutError));
    assert!(matches!(&mapped[5], AppError::PermissionError));
    assert!(matches!(&mapped[6], AppError::GeneralError(m) if m == "boom"));
}

#[test]
fn app_error_messages_are_distinct() {
    let errors = vec![
        AppError::AuthenticationError("Authentication failed".to_string()),
        AppError::ConnectionError,
        AppError::TimeoutError,
        AppError::PermissionError,
        AppError::GeneralError("x".to_string()),
        AppError::from_table(TableError::IncorrectRowLength),
    ];
    let messages: Vec<String> = errors.iter().map(|e| e.message()).collect();
    assert_eq!(messages[0], "Authentication error occurred: Authentication failed");
    assert_eq!(messages[1], "Connection error occurred");
    assert_eq!(messages[2], "Operation timed out");
    assert_eq!(messages[3], "Permission denied");
    assert_eq!(messages[4], "General error: x");
    assert_eq!(
        messages[5],
        "Output error: Incorrect row length: row length must be equal to header length"
    );
    for i in 0..messages.len() {
        for j in (i + 1)..messages.len() {
            assert_ne!(messages[i], messages[j]);
        }
    }
}

#[test]
fn io_error_message_carries_platform_text() {
    let e = TableError::IOError(std::io::Error::new(std::io::ErrorKind::Other, "disk gone"));
    assert_eq!(e.message(), "IO Error: disk gone");
    let a = AppError::from_table(e);
    assert_eq!(a.message(), "Output error: IO Error: disk gone");
}

#[test]
fn secure_parameter_is_hidden_unless_decrypted() {
    let p = AwsProvider::new();
    let hidden = p.parameter(some("/db/pass"), some("SecureString"), some("s3cr3t"), false);
    assert_eq!(hidden.value, "<encrypted>");
    assert_eq!(hidden.param_type, "SecureString");
    let shown = p.parameter(some("/db/pass"), some("SecureString"), some("s3cr3t"), true);
    assert_eq!(shown.value, "s3cr3t");
}

#[test]
fn plain_parameter_passes_through() {
    let p = AwsProvider::new();
    let plain = p.parameter(some("/app/port"), some("String"), some("8080"), false);
    assert_eq!(plain.value, "8080");
    let decrypted = p.parameter(some("/app/port"), some("String"), some("8080"), true);
    assert_eq!(decrypted.value, "8080");
    let bare = p.parameter(None, None, None, false);
    assert_eq!(bare.name, "<unknown>");
    assert_eq!(bare.param_type, "<unknown>");
    assert_eq!(bare.value, "<unknown>");
}

#[test]
fn identity_fills_missing_fields() {
    let id = AwsProvider::new().identity(None, some("arn"), None);
    assert_eq!(id.account, "<unknown>");
    assert_eq!(id.arn, "arn");
    assert_eq!(id.user_id, "<unknown>");
}

#[test]
fn instance_name_comes_from_first_name_tag() {
    let p = AwsProvider::new();
    let tags = vec![
        InstanceTag { key: some("env"), value: some("prod") },
        InstanceTag { key: None, value: some("x") },
        InstanceTag { key: some("Name"), value: some("web-1") },
        InstanceTag { key: some("Name"), value: some("web-2") },
    ];
    let i = p.instance(&tags, some("i-abc"), some("running"), None);
    assert_eq!(i.name, "web-1");
    assert_eq!(i.instance_id, "i-abc");
    assert_eq!(i.state, "running");
    assert_eq!(i.private_ip, "<unknown>");
}

#[test]
fn instance_without_name_tag_is_unknown() {
    let p = AwsProvider::new();
    let i = p.instance(&vec![InstanceTag { key: some("env"), value: some("x") }], None, None, None);
    assert_eq!(i.name, "<unknown>");
    let valueless = vec![InstanceTag { key: some("Name"), value: None }];
    assert_eq!(p.instance(&valueless, None, None, None).name, "<unknown>");
    assert_eq!(p.instance(&Vec::new(), None, None, None).instance_id, "<unknown>");
}

#[test]
fn parameters_path_defaults_to_root() {
    let p = AwsProvider::new();
    assert_eq!(p.parameters_path(None), "/");
    assert_eq!(p.parameters_path(some("/app")), "/app");
}

#[test]
fn sdk_failures_are_classified() {
    let p = AwsProvider::new();
    assert!(matches!(p.identity_error(SdkFailure::Rejected("no".to_string())), ProviderError::AuthenticationError));
    assert!(matches!(p.identity_error(SdkFailure::Dispatch("d".to_string())), ProviderError::ConnectionError));
    assert!(matches!(p.identity_error(SdkFailure::Timeout("t".to_string())), ProviderError::TimeoutError));
    assert_eq!(
        general_text(&p.identity_error(SdkFailure::Other("odd".to_string()))),
        "Failed to get caller identity: odd"
    );
    assert_eq!(
        general_text(&p.instances_error(SdkFailure::Timeout("late".to_string()))),
        "Failed to describe instances: late"
    );
    assert!(matches!(p.parameters_error(SdkFailure::Dispatch("d".to_string())), ProviderError::ConnectionError));
    assert!(matches!(p.parameters_error(SdkFailure::Timeout("t".to_string())), ProviderError::TimeoutError));
    assert_eq!(
        general_text(&p.parameters_error(SdkFailure::Rejected("denied".to_string()))),
        "Failed to get SSM parameters: denied"
    );
    assert_eq!(SdkFailure::Other("z".to_string()).text(), "z");
}

#[test]
fn log_level_follows_verbosity() {
    let levels: Vec<&str> = (0u8..5)
        .map(|v| CLI { provider: CloudProviders::Aws, verbose: v, command: Commands::Whoami }.log_level())
        .collect();
    assert_eq!(levels, vec!["warn", "info", "debug", "trace", "trace"]);
}

#[test]
fn present_maps_failure_and_success() {
    let err = present(Err(ProviderError::TimeoutError));
    assert!(matches!(err, Err(AppError::TimeoutError)));
    let ok = present(Ok(CommandOutput::Instances(Ec2Response::new()))).unwrap();
    assert_eq!(ok.render(1), "Name Instance ID State Private IP\n");
}

struct FixedProvider;

impl ProviderActions for FixedProvider {
    fn who_am_i(&self) -> Result<STSResponse, ProviderError> {
        Ok(STSResponse { account: "1".to_string(), arn: "a".to_string(), user_id: "u".to_string() })
    }

    fn list_instances(&self) -> Result<Ec2Response, ProviderError> {
        Err(ProviderError::GeneralError("down".to_string()))
    }

    fn list_parameters(&self, path: Option<String>, _decrypt: bool) -> Result<SsmResponse, ProviderError> {
        match path {
            Some(_) => Ok(SsmResponse::new()),
            None => Err(ProviderError::ResourceNotFound),
        }
    }
}

#[test]
fn run_command_dispatches_to_provider() {
    let p = FixedProvider;
    let who = run_command(&p, Commands::Whoami).unwrap();
    assert_eq!(who.render(1), "AWS ARN: a    \nUser ID: u    \nAccount: 1    \n");
    let inst = run_command(&p, Commands::Instances);
    assert!(matches!(inst, Err(AppError::GeneralError(m)) if m == "down"));
    let params = run_command(&p, Commands::Params { path: Some("/x".to_string()), decrypt: false }).unwrap();
    assert_eq!(params.render(1), "Name Type Value\n");
    let missing = run_command(&p, Commands::Params { path: None, decrypt: true });
    assert!(matches!(missing, Err(AppError::GeneralError(m)) if m == "Resource not found"));
}

#[test]
fn query_of_hands_on_path_and_flag() {
    assert!(matches!(query_of(Commands::Whoami), Query::Identity));
    assert!(matches!(query_of(Commands::Instances), Query::Instances));
    let q = query_of(Commands::Params { path: Some("/a/b".to_string()), decrypt: true });
    assert!(matches!(q, Query::Parameters { path: Some(ref p), decrypt: true } if p == "/a/b"));
    let q = query_of(Commands::Params { path: None, decrypt: false });
    assert!(matches!(q, Query::Parameters { path: None, decrypt: false }));
}

#[test]
fn ask_makes_the_matching_call() {
    let p = FixedProvider;
    assert!(matches!(ask(&p, Query::Identity), Ok(CommandOutput::Identity(_))));
    assert!(matches!(ask(&p, Query::Instances), Err(ProviderError::GeneralError(_))));
    let with_path = ask(&p, Query::Parameters { path: Some("/x".to_string()), decrypt: false });
    assert!(matches!(with_path, Ok(CommandOutput::Parameters(_))));
    let without = ask(&p, Query::Parameters { path: None, decrypt: false });
    assert!(matches!(without, Err(ProviderError::ResourceNotFound)));
}
