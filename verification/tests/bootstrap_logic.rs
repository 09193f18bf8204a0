use rustshop::aws::{Account, AwsError, HostedZone, Status};
use rustshop::bootstrap::{
    check_existing_account, find_account, find_zone, full_account_name, full_stack_name,
    get_kops_state_store_url, kops_create_cluster_args, parse_email, profile_for_account,
    readiness, ExistingAccount, Readiness,
};
use rustshop::cfg::{ShopAccountCfg, ShopCfg, ShopClusterCfg, ShopYaml};
use rustshop::env::Env;
use rustshop::error::EnvError;
use rustshop::names::NameMap;
use rustshop::opts::EmailBootstrapOpts;

fn account(name: &str, id: &str, status: Status) -> Account {
    Account {
        id: id.to_string(),
        arn: format!("arn:{id}"),
        email: format!("{name}@example.org"),
        name: name.to_string(),
        status,
    }
}

fn zone(id: &str, name: &str) -> HostedZone {
    HostedZone { id: id.to_string(), name: name.to_string() }
}

#[test]
fn an_email_is_split_at_its_first_at() {
    let parts = parse_email("ops@example.org").unwrap();
    assert_eq!(parts.user, "ops");
    assert_eq!(parts.domain, "example.org");
    let parts = parse_email("a@b@c").unwrap();
    assert_eq!(parts.user, "a");
    assert_eq!(parts.domain, "b@c");
    let parts = parse_email("@").unwrap();
    assert_eq!(parts.user, "");
    assert_eq!(parts.domain, "");
    assert!(matches!(parse_email("no-at-sign"), Err(AwsError::Io)));
    assert!(matches!(parse_email(""), Err(AwsError::Io)));
    let parts = parse_email("ünï@çödé.org").unwrap();
    assert_eq!(parts.user, "ünï");
    assert_eq!(parts.domain, "çödé.org");
}

#[test]
fn an_account_email_carries_the_label() {
    let parts = parse_email("ops@example.org").unwrap();
    let opts = EmailBootstrapOpts {
        email: "ops@example.org".to_string(),
        email_label_prefix: "aws-".to_string(),
        email_label_suffix: "-x".to_string(),
    };
    assert_eq!(parts.generate_account_email("dev", &opts), "ops+aws-dev-x@example.org");
    let plain = EmailBootstrapOpts {
        email: "ops@example.org".to_string(),
        email_label_prefix: String::new(),
        email_label_suffix: String::new(),
    };
    assert_eq!(parts.generate_account_email("dev", &plain), "ops+dev@example.org");
}

#[test]
fn names_are_derived_from_the_shop() {
    assert_eq!(full_account_name("acme", "dev"), "acme-dev");
    assert_eq!(full_stack_name("acme-dev", "kops"), "acme-dev-bootstrap-kops");
    let cfg = ShopAccountCfg {
        bootstrap_name: "acme-dev".to_string(),
        bootstrap_aws_region: "eu-west-1".to_string(),
        clusters: NameMap::new(),
    };
    assert_eq!(get_kops_state_store_url(&cfg), "s3://acme-dev-bootstrap-kops-state");
}

#[test]
fn the_first_account_of_a_name_is_found() {
    let accounts = vec![
        account("acme-root", "1", Status::Active),
        account("acme-dev", "2", Status::Active),
        account("acme-dev", "3", Status::Active),
    ];
    assert_eq!(find_account(&accounts, "acme-dev"), Some(1));
    assert_eq!(find_account(&accounts, "acme-root"), Some(0));
    assert_eq!(find_account(&accounts, "acme-prod"), None);
    assert_eq!(find_account(&Vec::new(), "acme-dev"), None);
}

#[test]
fn accounts_are_ready_when_all_are_active() {
    assert_eq!(readiness(&Vec::new()), Readiness::Ready);
    let accounts = vec![account("a", "1", Status::Active), account("b", "2", Status::Active)];
    assert_eq!(readiness(&accounts), Readiness::Ready);
    let accounts = vec![
        account("a", "1", Status::InProgress),
        account("b", "2", Status::Active),
        account("c", "3", Status::InProgress),
    ];
    assert_eq!(readiness(&accounts), Readiness::Pending { creating: 2 });
    let accounts = vec![
        account("a", "1", Status::InProgress),
        account("b", "2", Status::Other),
        account("c", "3", Status::Other),
    ];
    assert_eq!(readiness(&accounts), Readiness::Unknown { index: 1 });
}

#[test]
fn a_zone_serves_a_domain_with_or_without_the_final_dot() {
    let zones = vec![
        zone("Z0", "other.acme.io."),
        zone("Z1", "dev.k8s.acme.io."),
        zone("Z2", "dev.k8s.acme.io"),
    ];
    assert_eq!(find_zone(&zones, "dev.k8s.acme.io"), Some(1));
    assert_eq!(find_zone(&zones[2..].to_vec(), "dev.k8s.acme.io"), Some(0));
    assert_eq!(find_zone(&zones, "k8s.acme.io"), None);
    assert_eq!(find_zone(&zones, "dev.k8s.acme.io."), Some(1));
    assert_eq!(find_zone(&Vec::new(), "dev.k8s.acme.io"), None);
}

#[test]
fn kops_is_told_the_zone_and_the_discovery_store() {
    let account = ShopAccountCfg {
        bootstrap_name: "acme-dev".to_string(),
        bootstrap_aws_region: "eu-west-1".to_string(),
        clusters: NameMap::new(),
    };
    let cluster = ShopClusterCfg { domain: "dev.k8s.acme.io".to_string() };
    let args = kops_create_cluster_args(&account, &cluster, false);
    assert_eq!(
        args,
        vec![
            "create",
            "cluster",
            "--cloud",
            "aws",
            "--zones",
            "eu-west-1a",
            "--discovery-store=s3://acme-dev-bootstrap-kops-oidc-public/dev.k8s.acme.io/discovery",
        ]
    );
    let minimal = kops_create_cluster_args(&account, &cluster, true);
    assert_eq!(minimal[..7], args[..]);
    assert_eq!(
        minimal[7..],
        [
            "--master-count",
            "1",
            "--master-size",
            "t3a.small",
            "--master-volume-size",
            "8",
            "--node-count",
            "1",
            "--node-size",
            "t3a.small",
            "--node-volume-size",
            "8",
        ]
    );
}

#[test]
fn an_existing_account_must_match() {
    let shop = ShopYaml {
        shop: ShopCfg::new("acme".to_string(), "acme.io".to_string()),
        accounts: NameMap::new(),
    };
    let mut env = Env::load(Some(shop), None, None).unwrap();
    assert_eq!(check_existing_account(&env, "dev", "eu-west-1").unwrap(), ExistingAccount::Absent);
    env.add_account("dev", "eu-west-1").unwrap();
    match check_existing_account(&env, "dev", "eu-west-1") {
        Err(EnvError::AccountNotConfigured { name }) => assert_eq!(name, "dev"),
        other => panic!("unexpected: {:?}", other),
    }
    env.configure_account("dev", "p").unwrap();
    assert_eq!(check_existing_account(&env, "dev", "eu-west-1").unwrap(), ExistingAccount::Matches);
    assert_eq!(
        check_existing_account(&env, "dev", "us-east-1").unwrap(),
        ExistingAccount::RegionDiffers
    );
}

#[test]
fn an_account_bootstrapped_under_another_name_is_told_apart() {
    let mut accounts = NameMap::new();
    accounts.insert(
        "dev",
        ShopAccountCfg {
            bootstrap_name: "old-dev".to_string(),
            bootstrap_aws_region: "eu-west-1".to_string(),
            clusters: NameMap::new(),
        },
    );
    let shop = ShopYaml { shop: ShopCfg::new("acme".to_string(), "acme.io".to_string()), accounts };
    let mut env = Env::load(Some(shop), None, None).unwrap();
    env.configure_account("dev", "p").unwrap();
    assert_eq!(check_existing_account(&env, "dev", "eu-west-1").unwrap(), ExistingAccount::NameDiffers);
    assert_eq!(
        check_existing_account(&env, "dev", "us-east-1").unwrap(),
        ExistingAccount::RegionDiffers
    );
}

#[test]
fn the_root_account_keeps_the_bootstrapping_profile() {
    assert_eq!(profile_for_account("1", "1", "acme-root", "boss"), ("boss".to_string(), false));
    assert_eq!(profile_for_account("2", "1", "acme-dev", "boss"), ("acme-dev".to_string(), true));
}
