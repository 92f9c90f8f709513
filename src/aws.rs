use vstd::prelude::*;
use vstd::string::*;

use crate::actions::ProviderError;

verus! {

/// The identity behind the current credentials.
#[derive(Debug)]
pub struct STSResponse {
    pub account: String,
    pub arn: String,
    pub user_id: String,
}

/// One instance, every field filled in (`<unknown>` where the backend gave
/// nothing).
#[derive(Debug)]
pub struct Ec2Instance {
    pub name: String,
    pub instance_id: String,
    pub state: String,
    pub private_ip: String,
}

/// The instances, in the order the backend listed them.
#[derive(Debug)]
pub struct Ec2Response {
    pub instances: Vec<Ec2Instance>,
}

/// One parameter; `value` is `<encrypted>` for a secure parameter that was
/// not decrypted.
#[derive(Debug)]
pub struct SsmParameter {
    pub name: String,
    pub param_type: String,
    pub value: String,
}

/// The parameters, in the order the backend listed them.
#[derive(Debug)]
pub struct SsmResponse {
    pub parameters: Vec<SsmParameter>,
}

/// The AWS provider: it turns what the AWS services answer into the
/// provider's records and errors.
#[derive(Debug)]
pub struct AwsProvider {}

/// A tag of an instance as the backend gives it.
#[derive(Debug)]
pub struct InstanceTag {
    pub key: Option<String>,
    pub value: Option<String>,
}

/// How a call to an AWS service failed, with the error's text.
#[derive(Debug)]
pub enum SdkFailure {
    /// The request could not be sent.
    Dispatch(String),
    /// No answer came in time.
    Timeout(String),
    /// The service answered and refused the request.
    Rejected(String),
    /// Any other failure.
    Other(String),
}

/// The text an SDK failure carries.
pub open spec fn failure_text(f: SdkFailure) -> Seq<char> {
    match f {
        SdkFailure::Dispatch(m) => m@,
        SdkFailure::Timeout(m) => m@,
        SdkFailure::Rejected(m) => m@,
        SdkFailure::Other(m) => m@,
    }
}

/// A field as shown: its text, or `<unknown>` when it is absent.
pub open spec fn or_unknown(o: Option<String>) -> Seq<char> {
    match o {
        Some(s) => s@,
        None => "<unknown>"@,
    }
}

/// The value of the first tag keyed `Name`, `<unknown>` when there is none or
/// it has no value.
pub open spec fn name_tag(tags: Seq<InstanceTag>) -> Seq<char>
    decreases tags.len(),
{
    if tags.len() == 0 {
        "<unknown>"@
    } else if tags[0].key is Some && tags[0].key->Some_0@ == "Name"@ {
        or_unknown(tags[0].value)
    } else {
        name_tag(tags.drop_first())
    }
}

/// The value shown for a parameter: `<encrypted>` for a secure one that was
/// not decrypted, else its content (`<unknown>` when absent).
pub open spec fn shown_value(param_type: Option<String>, value: Option<String>, decrypt: bool) -> Seq<
    char,
> {
    if param_type is Some && param_type->Some_0@ == "SecureString"@ && !decrypt {
        "<encrypted>"@
    } else {
        or_unknown(value)
    }
}

/// The text of an optional field, `<unknown>` when absent.
fn unknown_if_none(o: Option<String>) -> (r: String)
    ensures
        r@ == or_unknown(o),
{
    match o {
        Some(s) => s,
        None => String::from_str("<unknown>"),
    }
}

/// `prefix` followed by `text`.
fn prefixed(prefix: &str, text: &String) -> (r: String)
    ensures
        r@ == prefix@ + text@,
{
    let mut s = String::from_str(prefix);
    s.append(text.as_str());
    s
}

impl SdkFailure {
    /// The text this failure carries.
    pub fn text(&self) -> (r: &String)
        ensures
            r@ == failure_text(*self),
    {
        match self {
            SdkFailure::Dispatch(m) => m,
            SdkFailure::Timeout(m) => m,
            SdkFailure::Rejected(m) => m,
            SdkFailure::Other(m) => m,
        }
    }
}

impl Ec2Response {
    pub fn new() -> (r: Ec2Response)
        ensures
            r.instances@.len() == 0,
    {
        Ec2Response { instances: Vec::new() }
    }

    /// Appends an instance after those already listed.
    pub fn push(&mut self, instance: Ec2Instance)
        ensures
            final(self).instances@ == old(self).instances@.push(instance),
    {
        self.instances.push(instance);
    }
}

impl SsmResponse {
    pub fn new() -> (r: SsmResponse)
        ensures
            r.parameters@.len() == 0,
    {
        SsmResponse { parameters: Vec::new() }
    }

    /// Appends a parameter after those already listed.
    pub fn push(&mut self, parameter: SsmParameter)
        ensures
            final(self).parameters@ == old(self).parameters@.push(parameter),
    {
        self.parameters.push(parameter);
    }
}

impl AwsProvider {
    pub fn new() -> (r: AwsProvider) {
        AwsProvider {  }
    }

    /// The identity record from the caller-identity answer.
    pub fn identity(&self, account: Option<String>, arn: Option<String>, user_id: Option<String>) -> (r:
        STSResponse)
        ensures
            r.account@ == or_unknown(account),
            r.arn@ == or_unknown(arn),
            r.user_id@ == or_unknown(user_id),
    {
        STSResponse {
            account: unknown_if_none(account),
            arn: unknown_if_none(arn),
            user_id: unknown_if_none(user_id),
        }
    }

    /// The instance record from one described instance: its name is the
    /// value of its `Name` tag.
    pub fn instance(
        &self,
        tags: &Vec<InstanceTag>,
        instance_id: Option<String>,
        state: Option<String>,
        private_ip: Option<String>,
    ) -> (r: Ec2Instance)
        ensures
            r.name@ == name_tag(tags@),
            r.instance_id@ == or_unknown(instance_id),
            r.state@ == or_unknown(state),
            r.private_ip@ == or_unknown(private_ip),
    {
        let key = String::from_str("Name");
        let mut k: usize = 0;
        let mut name = String::from_str("<unknown>");
        let mut found = false;
        assert(tags@.subrange(0, tags@.len() as int) =~= tags@);
        while k < tags.len() && !found
            invariant
                k <= tags@.len(),
                key@ == "Name"@,
                found ==> name@ == name_tag(tags@),
                !found ==> name_tag(tags@) == name_tag(tags@.subrange(k as int, tags@.len() as int)),
                !found ==> name@ == "<unknown>"@,
            decreases tags.len() - k + (if found {
                0usize
            } else {
                1usize
            }),
        {
            let ghost rest = tags@.subrange(k as int, tags@.len() as int);
            assert(rest.drop_first() =~= tags@.subrange(k + 1, tags@.len() as int));
            assert(rest[0] == tags@[k as int]);
            let tag = &tags[k];
            match &tag.key {
                Some(tag_key) => {
                    if *tag_key == key {
                        match &tag.value {
                            Some(v) => {
                                name = v.clone();
                            },
                            None => {},
                        }
                        found = true;
                    } else {
                        k = k + 1;
                    }
                },
                None => {
                    k = k + 1;
                },
            }
        }
        if !found {
            assert(tags@.subrange(k as int, tags@.len() as int).len() == 0);
        }
        Ec2Instance {
            name,
            instance_id: unknown_if_none(instance_id),
            state: unknown_if_none(state),
            private_ip: unknown_if_none(private_ip),
        }
    }

    /// The parameter record from one listed parameter. A secure parameter
    /// shows `<encrypted>` unless decryption was asked for, and then its
    /// decrypted content.
    pub fn parameter(
        &self,
        name: Option<String>,
        param_type: Option<String>,
        value: Option<String>,
        decrypt: bool,
    ) -> (r: SsmParameter)
        ensures
            r.name@ == or_unknown(name),
            r.param_type@ == or_unknown(param_type),
            r.value@ == shown_value(param_type, value, decrypt),
            param_type is Some && param_type->Some_0@ == "SecureString"@ && !decrypt ==> r.value@
                == "<encrypted>"@,
            param_type is Some && param_type->Some_0@ == "SecureString"@ && decrypt ==> r.value@
                == or_unknown(value),
    {
        let secure_name = String::from_str("SecureString");
        let secure = match &param_type {
            Some(t) => *t == secure_name,
            None => false,
        };
        let shown = if secure && !decrypt {
            String::from_str("<encrypted>")
        } else {
            unknown_if_none(value)
        };
        SsmParameter {
            name: unknown_if_none(name),
            param_type: unknown_if_none(param_type),
            value: shown,
        }
    }

    /// The path searched for parameters: the root when none is given.
    pub fn parameters_path(&self, path: Option<String>) -> (r: String)
        ensures
            r@ == (match path {
                Some(p) => p@,
                None => "/"@,
            }),
    {
        match path {
            Some(p) => p,
            None => String::from_str("/"),
        }
    }

    /// The error of a failed identity query: a refused request is an
    /// authentication failure, a transport failure keeps its kind.
    pub fn identity_error(&self, failure: SdkFailure) -> (r: ProviderError)
        ensures
            failure is Dispatch ==> r is ConnectionError,
            failure is Timeout ==> r is TimeoutError,
            failure is Rejected ==> r is AuthenticationError,
            failure is Other ==> r is GeneralError && r->GeneralError_0@ == "Failed to get caller identity: "@
                + failure_text(failure),
    {
        match failure {
            SdkFailure::Dispatch(_) => ProviderError::ConnectionError,
            SdkFailure::Timeout(_) => ProviderError::TimeoutError,
            SdkFailure::Rejected(_) => ProviderError::AuthenticationError,
            SdkFailure::Other(m) => ProviderError::GeneralError(
                prefixed("Failed to get caller identity: ", &m),
            ),
        }
    }

    /// The error of a failed instance listing: always general, with the text.
    pub fn instances_error(&self, failure: SdkFailure) -> (r: ProviderError)
        ensures
            r is GeneralError,
            r->GeneralError_0@ == "Failed to describe instances: "@ + failure_text(failure),
    {
        ProviderError::GeneralError(prefixed("Failed to describe instances: ", failure.text()))
    }

    /// The error of a failed parameter listing: a request that could not be
    /// sent is a connection error, a late answer a timeout.
    pub fn parameters_error(&self, failure: SdkFailure) -> (r: ProviderError)
        ensures
            failure is Dispatch ==> r is ConnectionError,
            failure is Timeout ==> r is TimeoutError,
            !(failure is Dispatch) && !(failure is Timeout) ==> r is GeneralError
                && r->GeneralError_0@ == "Failed to get SSM parameters: "@ + failure_text(failure),
    {
        match failure {
            SdkFailure::Dispatch(_) => ProviderError::ConnectionError,
            SdkFailure::Timeout(_) => ProviderError::TimeoutError,
            _ => ProviderError::GeneralError(
                prefixed("Failed to get SSM parameters: ", failure.text()),
            ),
        }
    }
}

} // verus!
