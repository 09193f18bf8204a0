use rustshop::aws::{access_role_arn, Aws, AwsCall, AwsError, Credentials};

fn words(list: &[&str]) -> Vec<String> {
    list.iter().map(|w| w.to_string()).collect()
}

fn pairs(list: &[(&str, &str)]) -> Vec<(String, String)> {
    list.iter().map(|(n, v)| (n.to_string(), v.to_string())).collect()
}

#[test]
fn a_profile_goes_before_the_arguments() {
    let aws = Aws::new(Some("acme-root".to_string()), "us-east-1".to_string());
    let command = aws.command(&words(&["sts", "get-caller-identity"]));
    assert_eq!(command.envs, pairs(&[("RUSTSHOP_NO_BIN_WRAP", "true"), ("AWS_REGION", "us-east-1")]));
    assert!(command.removed_envs.is_empty());
    assert_eq!(command.args, words(&["--profile", "acme-root", "sts", "get-caller-identity"]));
}

#[test]
fn without_profile_only_the_arguments_are_passed() {
    let aws = Aws::new(None, "eu-west-1".to_string());
    let command = aws.command(&words(&["route53", "list-hosted-zones"]));
    assert_eq!(command.envs, pairs(&[("RUSTSHOP_NO_BIN_WRAP", "true"), ("AWS_REGION", "eu-west-1")]));
    assert_eq!(command.args, words(&["route53", "list-hosted-zones"]));
    assert!(aws.command(&Vec::new()).args.is_empty());
}

#[test]
fn credentials_replace_the_profile() {
    let aws = Aws::new(Some("acme-root".to_string()), "us-east-1".to_string()).with_creds(Credentials {
        session_token: "token".to_string(),
        access_key_id: "key-id".to_string(),
        secret_access_key: "key".to_string(),
    });
    let command = aws.command(&words(&["sts", "get-caller-identity"]));
    assert_eq!(
        command.envs,
        pairs(&[
            ("RUSTSHOP_NO_BIN_WRAP", "true"),
            ("AWS_REGION", "us-east-1"),
            ("AWS_SESSION_TOKEN", "token"),
            ("AWS_ACCESS_KEY_ID", "key-id"),
            ("AWS_SECRET_ACCESS_KEY", "key"),
        ])
    );
    assert_eq!(command.removed_envs, words(&["AWS_PROFILE"]));
    assert_eq!(command.args, words(&["sts", "get-caller-identity"]));
}

#[test]
fn exit_code_254_can_mean_nothing_to_report() {
    let read = Aws::outcome(Some(254), false, b"out".to_vec(), "err".to_string(), true);
    assert_eq!(read.unwrap(), None);
    let read = Aws::outcome(Some(254), false, b"out".to_vec(), "err".to_string(), false);
    assert!(matches!(read, Err(AwsError::CommandFailed { stderr }) if stderr == "err"));
    let read = Aws::outcome(Some(1), false, Vec::new(), "denied".to_string(), true);
    assert!(matches!(read, Err(AwsError::CommandFailed { stderr }) if stderr == "denied"));
    let read = Aws::outcome(None, false, Vec::new(), "killed".to_string(), true);
    assert!(matches!(read, Err(AwsError::CommandFailed { stderr }) if stderr == "killed"));
    let read = Aws::outcome(Some(0), true, b"{}".to_vec(), String::new(), true);
    assert_eq!(read.unwrap(), Some(b"{}".to_vec()));
}

#[test]
fn calls_have_their_arguments() {
    assert_eq!(
        AwsCall::CreateOrganization.args(),
        words(&["organizations", "create-organization", "--feature-set", "ALL"])
    );
    assert_eq!(AwsCall::DescribeOrganization.args(), words(&["organizations", "describe-organization"]));
    assert_eq!(AwsCall::ListAccounts.args(), words(&["organizations", "list-accounts"]));
    assert_eq!(
        AwsCall::CreateAccount { account_name: "acme-dev".to_string(), email: "a+dev@b.c".to_string() }
            .args(),
        words(&["organizations", "create-account", "--email", "a+dev@b.c", "--account-name", "acme-dev"])
    );
    assert_eq!(AwsCall::GetCallerIdentity.args(), words(&["sts", "get-caller-identity"]));
    assert_eq!(
        AwsCall::AssumeAccountRootRole {
            account_name: "acme-dev".to_string(),
            account_id: "123456789012".to_string()
        }
        .args(),
        words(&[
            "sts",
            "assume-role",
            "--role-session-name",
            "acme-dev",
            "--role-arn",
            "arn:aws:iam::123456789012:role/OrganizationAccountAccessRole",
        ])
    );
    assert_eq!(
        AwsCall::DeployCf { stack_name: "s".to_string(), template_path: "/tmp/t".to_string() }.args(),
        words(&[
            "cloudformation",
            "deploy",
            "--template-file",
            "/tmp/t",
            "--stack-name",
            "s",
            "--capabilities",
            "CAPABILITY_NAMED_IAM",
        ])
    );
    assert_eq!(
        AwsCall::ConfigureSet { name: "role_arn".to_string(), value: "v".to_string() }.args(),
        words(&["configure", "set", "role_arn", "v"])
    );
    assert_eq!(AwsCall::ListHostedZones.args(), words(&["route53", "list-hosted-zones"]));
    assert_eq!(
        AwsCall::GetHostedZone { id: "Z1".to_string() }.args(),
        words(&["route53", "get-hosted-zone", "--id", "Z1"])
    );
    assert_eq!(
        AwsCall::create_hosted_zone("k.acme.io", Some("ref".to_string())).args(),
        words(&["route53", "create-hosted-zone", "--name", "k.acme.io", "--caller-reference", "ref"])
    );
}

#[test]
fn some_calls_tolerate_exit_code_254() {
    assert!(AwsCall::CreateOrganization.ignore_254());
    assert!(AwsCall::DescribeOrganization.ignore_254());
    assert!(AwsCall::CreateAccount { account_name: String::new(), email: String::new() }.ignore_254());
    assert!(AwsCall::ConfigureSet { name: String::new(), value: String::new() }.ignore_254());
    assert!(!AwsCall::ListAccounts.ignore_254());
    assert!(!AwsCall::GetCallerIdentity.ignore_254());
    assert!(!AwsCall::ListHostedZones.ignore_254());
    assert!(!AwsCall::GetHostedZone { id: String::new() }.ignore_254());
    assert!(!AwsCall::DeployCf { stack_name: String::new(), template_path: String::new() }.ignore_254());
}

#[test]
fn a_caller_reference_is_thirty_letters_and_digits() {
    let id = Aws::random_caller_id();
    assert_eq!(id.chars().count(), 30);
    assert!(id.chars().all(|c| c.is_ascii_alphanumeric()));
    let other = Aws::random_caller_id();
    assert_ne!(id, other);
    match AwsCall::create_hosted_zone("k.acme.io", None) {
        AwsCall::CreateHostedZone { domain, caller_id } => {
            assert_eq!(domain, "k.acme.io");
            assert_eq!(caller_id.len(), 30);
            assert!(caller_id.chars().all(|c| c.is_ascii_alphanumeric()));
        },
        other => panic!("unexpected: {:?}", other),
    }
}

#[test]
fn access_role_names_the_account() {
    assert_eq!(access_role_arn("42"), "arn:aws:iam::42:role/OrganizationAccountAccessRole");
}

#[test]
fn aws_errors_say_what_went_wrong() {
    assert_eq!(
        AwsError::ResponseDeserialization { cmd: words(&["sts", "get-caller-identity"]) }.message(),
        "Response deserialization failed for `aws sts get-caller-identity`"
    );
    assert_eq!(
        AwsError::ResponseDeserialization { cmd: Vec::new() }.message(),
        "Response deserialization failed for `aws `"
    );
    assert_eq!(AwsError::Io.message(), "IO Error");
    assert_eq!(
        AwsError::CommandFailed { stderr: "boom".to_string() }.message(),
        "`aws` command failed with:\nboom"
    );
    assert_eq!(AwsError::WrongResponse.message(), "Wrong response");
    assert_eq!(AwsError::InvalidPath.message(), "Invalid path");
}
