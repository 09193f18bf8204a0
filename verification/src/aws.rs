//! What the `aws` command line tool is asked and what it answers: the
//! records it returns, and how a call is put together and its outcome read.

use crate::cfg::{copy_text, text_of};
use crate::text::{followed_by, glue, join_words, joined, push_word, text_pairs, texts};
use rand::Rng;
use vstd::prelude::*;

verus! {

/// Why a call of `aws` failed.
#[derive(Debug, Clone)]
pub enum AwsError {
    /// The answer could not be read as the record that was expected.
    ResponseDeserialization { cmd: Vec<String> },
    Io,
    /// The command ran and failed.
    CommandFailed { stderr: String },
    WrongResponse,
    InvalidPath,
}

/// Why a call of `aws` failed, with the text of what it names.
pub enum AwsFault {
    ResponseDeserialization { cmd: Seq<Seq<char>> },
    Io,
    CommandFailed { stderr: Seq<char> },
    WrongResponse,
    InvalidPath,
}

impl View for AwsError {
    type V = AwsFault;

    open spec fn view(&self) -> AwsFault {
        match *self {
            AwsError::ResponseDeserialization { cmd } => AwsFault::ResponseDeserialization {
                cmd: texts(cmd@),
            },
            AwsError::Io => AwsFault::Io,
            AwsError::CommandFailed { stderr } => AwsFault::CommandFailed { stderr: stderr@ },
            AwsError::WrongResponse => AwsFault::WrongResponse,
            AwsError::InvalidPath => AwsFault::InvalidPath,
        }
    }
}

/// What a failed call says of itself.
pub open spec fn aws_message_of(fault: AwsFault) -> Seq<char> {
    match fault {
        AwsFault::ResponseDeserialization { cmd } => "Response deserialization failed for `aws "@
            + joined(cmd, " "@) + "`"@,
        AwsFault::Io => "IO Error"@,
        AwsFault::CommandFailed { stderr } => "`aws` command failed with:\n"@ + stderr,
        AwsFault::WrongResponse => "Wrong response"@,
        AwsFault::InvalidPath => "Invalid path"@,
    }
}

impl AwsError {
    /// What the error says of itself.
    pub fn message(&self) -> (text: String)
        ensures
            text@ == aws_message_of(self@),
    {
        match self {
            AwsError::ResponseDeserialization { cmd } => glue(
                "Response deserialization failed for `aws ",
                join_words(cmd, " ").as_str(),
                "`",
            ),
            AwsError::Io => "IO Error".to_owned(),
            AwsError::CommandFailed { stderr } => followed_by(
                "`aws` command failed with:\n",
                stderr.as_str(),
            ),
            AwsError::WrongResponse => "Wrong response".to_owned(),
            AwsError::InvalidPath => "Invalid path".to_owned(),
        }
    }
}

pub type AwsResult<T> = Result<T, AwsError>;

/// Who a call is made as.
#[derive(Debug, Clone)]
pub struct CallerIdentity {
    pub user_id: String,
    pub arn: String,
    pub account: String,
}

/// The credentials of an assumed role.
#[derive(Debug, Clone)]
pub struct Credentials {
    pub session_token: String,
    pub access_key_id: String,
    pub secret_access_key: String,
}

/// The text of a set of credentials.
pub struct CredentialsText {
    pub session_token: Seq<char>,
    pub access_key_id: Seq<char>,
    pub secret_access_key: Seq<char>,
}

impl View for Credentials {
    type V = CredentialsText;

    open spec fn view(&self) -> CredentialsText {
        CredentialsText {
            session_token: self.session_token@,
            access_key_id: self.access_key_id@,
            secret_access_key: self.secret_access_key@,
        }
    }
}

/// The user that an assumed role makes of its caller.
#[derive(Debug, Clone)]
pub struct AssumedRoleUser {
    pub assumed_role_id: String,
    pub arn: String,
}

/// A role that was assumed, with the credentials to act under it.
#[derive(Debug, Clone)]
pub struct AssumedRole {
    pub credentials: Credentials,
    pub assumed_role_user: AssumedRoleUser,
}

/// The state of an account of the organisation.
#[derive(Debug, Clone, Copy, PartialEq, Eq, Structural)]
pub enum Status {
    Active,
    InProgress,
    Other,
}

/// An account of the organisation.
#[derive(Debug, Clone)]
pub struct Account {
    pub id: String,
    pub arn: String,
    pub email: String,
    pub name: String,
    pub status: Status,
}

/// The organisation that the accounts belong to.
#[derive(Debug, Clone)]
pub struct Organization {
    pub id: String,
    pub arn: String,
}

/// The accounts of the organisation, as `aws` lists them.
#[derive(Debug, Clone)]
pub struct AccountList {
    pub accounts: Vec<Account>,
}

/// What `aws` tells of the organisation.
#[derive(Debug, Clone)]
pub struct OrganizationDetails {
    pub organization: Organization,
}

/// A zone of the name service.
#[derive(Debug, Clone)]
pub struct HostedZone {
    pub id: String,
    pub name: String,
}

/// The zones of the name service, as `aws` lists them.
#[derive(Debug, Clone)]
pub struct ListHostedZones {
    pub hosted_zones: Vec<HostedZone>,
}

/// The name servers that a zone is delegated to.
#[derive(Debug, Clone)]
pub struct DelegationSet {
    pub name_servers: Vec<String>,
}

/// What `aws` tells of one zone.
#[derive(Debug, Clone)]
pub struct GetHostedZone {
    pub hosted_zone: HostedZone,
    pub delegation_set: DelegationSet,
}

/// Who calls `aws`: under a profile, or with the credentials of an assumed
/// role, in a region.
#[derive(Debug, Clone)]
pub struct Aws {
    profile: Option<String>,
    region: String,
    credentials: Option<Credentials>,
}

/// What a caller of `aws` holds.
pub struct AwsCaller {
    pub profile: Option<Seq<char>>,
    pub region: Seq<char>,
    pub credentials: Option<CredentialsText>,
}

impl View for Aws {
    type V = AwsCaller;

    closed spec fn view(&self) -> AwsCaller {
        AwsCaller {
            profile: text_of(self.profile),
            region: self.region@,
            credentials: match self.credentials {
                Some(credentials) => Some(credentials@),
                None => None,
            },
        }
    }
}

impl Aws {
    /// A caller under `profile`, if one is given, in `region`, without credentials.
    pub fn new(profile: Option<String>, region: String) -> (aws: Self)
        ensures
            aws@ == (AwsCaller { profile: text_of(profile), region: region@, credentials: None }),
    {
        Self { profile, region, credentials: None }
    }

    /// The same caller, with the credentials `cred`.
    pub fn with_creds(&self, cred: Credentials) -> (aws: Self)
        ensures
            aws@ == (AwsCaller { credentials: Some(cred@), ..self@ }),
    {
        Self {
            profile: copy_text(&self.profile),
            region: self.region.clone(),
            credentials: Some(cred),
        }
    }
}

/// How to run `aws`: the variables to set, those to unset, and the arguments.
#[derive(Debug, Clone)]
pub struct AwsCommand {
    pub envs: Vec<(String, String)>,
    pub removed_envs: Vec<String>,
    pub args: Vec<String>,
}

/// How to run `aws`, as text.
pub struct CommandText {
    pub envs: Seq<(Seq<char>, Seq<char>)>,
    pub removed_envs: Seq<Seq<char>>,
    pub args: Seq<Seq<char>>,
}

impl View for AwsCommand {
    type V = CommandText;

    open spec fn view(&self) -> CommandText {
        CommandText {
            envs: text_pairs(self.envs@),
            removed_envs: texts(self.removed_envs@),
            args: texts(self.args@),
        }
    }
}

/// How `caller` runs `aws` with `args`. The tool is never wrapped again and
/// is told the region. With credentials, they go into the variables and no
/// profile is named in any way; without, the profile goes before `args`.
pub open spec fn command_of(caller: AwsCaller, args: Seq<Seq<char>>) -> CommandText {
    let base = seq![("RUSTSHOP_NO_BIN_WRAP"@, "true"@), ("AWS_REGION"@, caller.region)];
    match caller.credentials {
        Some(credentials) => CommandText {
            envs: base + seq![
                ("AWS_SESSION_TOKEN"@, credentials.session_token),
                ("AWS_ACCESS_KEY_ID"@, credentials.access_key_id),
                ("AWS_SECRET_ACCESS_KEY"@, credentials.secret_access_key),
            ],
            removed_envs: seq!["AWS_PROFILE"@],
            args,
        },
        None => CommandText {
            envs: base,
            removed_envs: Seq::empty(),
            args: match caller.profile {
                Some(profile) => seq!["--profile"@, profile] + args,
                None => args,
            },
        },
    }
}

/// What a run of `aws` gave, given its exit code, whether it succeeded and
/// what it wrote. With `ignore_254`, the exit code 254 means that there is
/// nothing to report; any other failure is an error that carries what the
/// tool wrote to its standard error.
pub open spec fn outcome_of(
    code: Option<i32>,
    success: bool,
    stdout: Seq<u8>,
    stderr: Seq<char>,
    ignore_254: bool,
) -> Result<Option<Seq<u8>>, Seq<char>> {
    if ignore_254 && code == Some(254i32) {
        Ok(None)
    } else if !success {
        Err(stderr)
    } else {
        Ok(Some(stdout))
    }
}

/// Whether `c` is a letter or a digit of ASCII.
pub open spec fn is_alphanumeric(c: char) -> bool {
    let code = c as u32;
    (48 <= code <= 57) || (65 <= code <= 90) || (97 <= code <= 122)
}

/// A string of `len` random characters, each a letter or a digit of ASCII.
///
/// Calls `Rng::sample_iter` of the crate `rand` on the thread's generator
/// with the distribution `Alphanumeric`, which draws from the 62 letters
/// and digits of ASCII, and takes `len` of them. Nothing is claimed of
/// which characters come.
#[verifier::external_body]
fn random_alphanumeric(len: usize) -> (text: String)
    ensures
        text@.len() == len,
        forall|i: int| 0 <= i < len ==> is_alphanumeric(#[trigger] text@[i]),
{
    rand::thread_rng().sample_iter(&rand::distributions::Alphanumeric).take(len).map(
        char::from,
    ).collect()
}

impl Aws {
    /// How to run `aws` with `args` as this caller.
    pub fn command(&self, args: &Vec<String>) -> (command: AwsCommand)
        ensures
            command@ == command_of(self@, texts(args@)),
    {
        let mut envs: Vec<(String, String)> = Vec::new();
        envs.push(("RUSTSHOP_NO_BIN_WRAP".to_owned(), "true".to_owned()));
        envs.push(("AWS_REGION".to_owned(), self.region.clone()));
        let mut removed_envs: Vec<String> = Vec::new();
        let mut all_args: Vec<String> = Vec::new();
        match &self.credentials {
            Some(credentials) => {
                envs.push(("AWS_SESSION_TOKEN".to_owned(), credentials.session_token.clone()));
                envs.push(("AWS_ACCESS_KEY_ID".to_owned(), credentials.access_key_id.clone()));
                envs.push(
                    ("AWS_SECRET_ACCESS_KEY".to_owned(), credentials.secret_access_key.clone()),
                );
                removed_envs.push("AWS_PROFILE".to_owned());
            },
            None => {
                if let Some(profile) = &self.profile {
                    all_args.push("--profile".to_owned());
                    all_args.push(profile.clone());
                }
            },
        }
        let ghost prefix = texts(all_args@);
        let mut i: usize = 0;
        while i < args.len()
            invariant
                i <= args@.len(),
                texts(all_args@) == prefix + texts(args@).take(i as int),
            decreases args@.len() - i,
        {
            let ghost before = all_args@;
            all_args.push(args[i].clone());
            proof {
                assert(texts(all_args@) =~= texts(before).push(args@[i as int]@));
                assert(texts(args@).take(i + 1) =~= texts(args@).take(i as int).push(
                    args@[i as int]@,
                ));
                assert(texts(all_args@) =~= prefix + texts(args@).take(i + 1));
            }
            i += 1;
        }
        let command = AwsCommand { envs, removed_envs, args: all_args };
        proof {
            assert(texts(args@).take(args@.len() as int) =~= texts(args@));
            assert(command@.envs =~= command_of(self@, texts(args@)).envs);
            assert(command@.removed_envs =~= command_of(self@, texts(args@)).removed_envs);
            assert(command@.args =~= command_of(self@, texts(args@)).args);
        }
        command
    }

    /// Reads what a run of `aws` gave.
    pub fn outcome(
        code: Option<i32>,
        success: bool,
        stdout: Vec<u8>,
        stderr: String,
        ignore_254: bool,
    ) -> (read: AwsResult<Option<Vec<u8>>>)
        ensures
            match outcome_of(code, success, stdout@, stderr@, ignore_254) {
                Ok(Some(bytes)) => read is Ok && read->Ok_0 is Some && read->Ok_0->0@ == bytes,
                Ok(None) => read is Ok && read->Ok_0 is None,
                Err(text) => read is Err && read->Err_0@ == (AwsFault::CommandFailed {
                    stderr: text,
                }),
            },
    {
        let is_254 = match code {
            Some(code) => code == 254,
            None => false,
        };
        if ignore_254 && is_254 {
            Ok(None)
        } else if !success {
            Err(AwsError::CommandFailed { stderr })
        } else {
            Ok(Some(stdout))
        }
    }

    /// A fresh reference for a call that must not be carried out twice: 30
    /// random letters and digits.
    pub fn random_caller_id() -> (id: String)
        ensures
            id@.len() == 30,
            forall|i: int| 0 <= i < 30 ==> is_alphanumeric(#[trigger] id@[i]),
    {
        random_alphanumeric(30)
    }
}

/// The role through which the organisation reaches into the account `account_id`.
pub open spec fn access_role_arn_of(account_id: Seq<char>) -> Seq<char> {
    "arn:aws:iam::"@ + account_id + ":role/OrganizationAccountAccessRole"@
}

/// The role through which the organisation reaches into the account `account_id`.
pub fn access_role_arn(account_id: &str) -> (arn: String)
    ensures
        arn@ == access_role_arn_of(account_id@),
{
    glue("arn:aws:iam::", account_id, ":role/OrganizationAccountAccessRole")
}

/// One thing that `aws` is asked to do.
#[derive(Debug, Clone)]
pub enum AwsCall {
    CreateOrganization,
    DescribeOrganization,
    ListAccounts,
    CreateAccount { account_name: String, email: String },
    GetCallerIdentity,
    AssumeAccountRootRole { account_name: String, account_id: String },
    DeployCf { stack_name: String, template_path: String },
    ConfigureSet { name: String, value: String },
    ListHostedZones,
    GetHostedZone { id: String },
    CreateHostedZone { domain: String, caller_id: String },
}

/// One thing that `aws` is asked to do, as text.
pub enum Call {
    CreateOrganization,
    DescribeOrganization,
    ListAccounts,
    CreateAccount { account_name: Seq<char>, email: Seq<char> },
    GetCallerIdentity,
    AssumeAccountRootRole { account_name: Seq<char>, account_id: Seq<char> },
    DeployCf { stack_name: Seq<char>, template_path: Seq<char> },
    ConfigureSet { name: Seq<char>, value: Seq<char> },
    ListHostedZones,
    GetHostedZone { id: Seq<char> },
    CreateHostedZone { domain: Seq<char>, caller_id: Seq<char> },
}

impl View for AwsCall {
    type V = Call;

    open spec fn view(&self) -> Call {
        match *self {
            AwsCall::CreateOrganization => Call::CreateOrganization,
            AwsCall::DescribeOrganization => Call::DescribeOrganization,
            AwsCall::ListAccounts => Call::ListAccounts,
            AwsCall::CreateAccount { account_name, email } => Call::CreateAccount {
                account_name: account_name@,
                email: email@,
            },
            AwsCall::GetCallerIdentity => Call::GetCallerIdentity,
            AwsCall::AssumeAccountRootRole { account_name, account_id } =>
                Call::AssumeAccountRootRole { account_name: account_name@, account_id: account_id@ },
            AwsCall::DeployCf { stack_name, template_path } => Call::DeployCf {
                stack_name: stack_name@,
                template_path: template_path@,
            },
            AwsCall::ConfigureSet { name, value } => Call::ConfigureSet {
                name: name@,
                value: value@,
            },
            AwsCall::ListHostedZones => Call::ListHostedZones,
            AwsCall::GetHostedZone { id } => Call::GetHostedZone { id: id@ },
            AwsCall::CreateHostedZone { domain, caller_id } => Call::CreateHostedZone {
                domain: domain@,
                caller_id: caller_id@,
            },
        }
    }
}

/// The arguments that ask `aws` for `call`.
pub open spec fn call_args(call: Call) -> Seq<Seq<char>> {
    match call {
        Call::CreateOrganization => seq![
            "organizations"@,
            "create-organization"@,
            "--feature-set"@,
            "ALL"@,
        ],
        Call::DescribeOrganization => seq!["organizations"@, "describe-organization"@],
        Call::ListAccounts => seq!["organizations"@, "list-accounts"@],
        Call::CreateAccount { account_name, email } => seq![
            "organizations"@,
            "create-account"@,
            "--email"@,
            email,
            "--account-name"@,
            account_name,
        ],
        Call::GetCallerIdentity => seq!["sts"@, "get-caller-identity"@],
        Call::AssumeAccountRootRole { account_name, account_id } => seq![
            "sts"@,
            "assume-role"@,
            "--role-session-name"@,
            account_name,
            "--role-arn"@,
            access_role_arn_of(account_id),
        ],
        Call::DeployCf { stack_name, template_path } => seq![
            "cloudformation"@,
            "deploy"@,
            "--template-file"@,
            template_path,
            "--stack-name"@,
            stack_name,
            "--capabilities"@,
            "CAPABILITY_NAMED_IAM"@,
        ],
        Call::ConfigureSet { name, value } => seq!["configure"@, "set"@, name, value],
        Call::ListHostedZones => seq!["route53"@, "list-hosted-zones"@],
        Call::GetHostedZone { id } => seq!["route53"@, "get-hosted-zone"@, "--id"@, id],
        Call::CreateHostedZone { domain, caller_id } => seq![
            "route53"@,
            "create-hosted-zone"@,
            "--name"@,
            domain,
            "--caller-reference"@,
            caller_id,
        ],
    }
}

/// Whether the exit code 254 of `aws` counts, for `call`, as nothing to
/// report rather than as a failure.
pub open spec fn call_ignores_254(call: Call) -> bool {
    match call {
        Call::CreateOrganization => true,
        Call::DescribeOrganization => true,
        Call::CreateAccount { .. } => true,
        Call::ConfigureSet { .. } => true,
        _ => false,
    }
}

impl AwsCall {
    /// The arguments that ask `aws` for this.
    pub fn args(&self) -> (args: Vec<String>)
        ensures
            texts(args@) == call_args(self@),
    {
        let mut args: Vec<String> = Vec::new();
        assert(texts(args@) =~= Seq::<Seq<char>>::empty());
        match self {
            AwsCall::CreateOrganization => {
                push_word(&mut args, "organizations");
                push_word(&mut args, "create-organization");
                push_word(&mut args, "--feature-set");
                push_word(&mut args, "ALL");
            },
            AwsCall::DescribeOrganization => {
                push_word(&mut args, "organizations");
                push_word(&mut args, "describe-organization");
            },
            AwsCall::ListAccounts => {
                push_word(&mut args, "organizations");
                push_word(&mut args, "list-accounts");
            },
            AwsCall::CreateAccount { account_name, email } => {
                push_word(&mut args, "organizations");
                push_word(&mut args, "create-account");
                push_word(&mut args, "--email");
                push_word(&mut args, email.as_str());
                push_word(&mut args, "--account-name");
                push_word(&mut args, account_name.as_str());
            },
            AwsCall::GetCallerIdentity => {
                push_word(&mut args, "sts");
                push_word(&mut args, "get-caller-identity");
            },
            AwsCall::AssumeAccountRootRole { account_name, account_id } => {
                push_word(&mut args, "sts");
                push_word(&mut args, "assume-role");
                push_word(&mut args, "--role-session-name");
                push_word(&mut args, account_name.as_str());
                push_word(&mut args, "--role-arn");
                push_word(&mut args, access_role_arn(account_id.as_str()).as_str());
            },
            AwsCall::DeployCf { stack_name, template_path } => {
                push_word(&mut args, "cloudformation");
                push_word(&mut args, "deploy");
                push_word(&mut args, "--template-file");
                push_word(&mut args, template_path.as_str());
                push_word(&mut args, "--stack-name");
                push_word(&mut args, stack_name.as_str());
                push_word(&mut args, "--capabilities");
                push_word(&mut args, "CAPABILITY_NAMED_IAM");
            },
            AwsCall::ConfigureSet { name, value } => {
                push_word(&mut args, "configure");
                push_word(&mut args, "set");
                push_word(&mut args, name.as_str());
                push_word(&mut args, value.as_str());
            },
            AwsCall::ListHostedZones => {
                push_word(&mut args, "route53");
                push_word(&mut args, "list-hosted-zones");
            },
            AwsCall::GetHostedZone { id } => {
                push_word(&mut args, "route53");
                push_word(&mut args, "get-hosted-zone");
                push_word(&mut args, "--id");
                push_word(&mut args, id.as_str());
            },
            AwsCall::CreateHostedZone { domain, caller_id } => {
                push_word(&mut args, "route53");
                push_word(&mut args, "create-hosted-zone");
                push_word(&mut args, "--name");
                push_word(&mut args, domain.as_str());
                push_word(&mut args, "--caller-reference");
                push_word(&mut args, caller_id.as_str());
            },
        }
        assert(texts(args@) =~= call_args(self@));
        args
    }

    /// Whether the exit code 254 counts as nothing to report.
    pub fn ignore_254(&self) -> (ignore: bool)
        ensures
            ignore == call_ignores_254(self@),
    {
        match self {
            AwsCall::CreateOrganization => true,
            AwsCall::DescribeOrganization => true,
            AwsCall::CreateAccount { .. } => true,
            AwsCall::ConfigureSet { .. } => true,
            _ => false,
        }
    }

    /// Asks for a hosted zone for `domain` under the reference
    /// `caller_id` or, where none is given, under a fresh random one.
    pub fn create_hosted_zone(domain: &str, caller_id: Option<String>) -> (call: AwsCall)
        ensures
            call@ matches Call::CreateHostedZone { domain: d, caller_id: id } && d == domain@ && (
            match caller_id {
                Some(given) => id == given@,
                None => id.len() == 30 && forall|i: int|
                    0 <= i < 30 ==> is_alphanumeric(#[trigger] id[i]),
            }),
    {
        let caller_id = match caller_id {
            Some(given) => given,
            None => Aws::random_caller_id(),
        };
        AwsCall::CreateHostedZone { domain: domain.to_owned(), caller_id }
    }
}

} // verus!
