use rustshop::cfg::{ShopCfg, ShopYaml};
use rustshop::env::Env;
use rustshop::error::EnvError;
use rustshop::names::NameMap;
use rustshop::wrap::{
    begins, first_plain_arg, is_kubectl_switch, is_terraform_init, kube_args, set_aws_envs_on,
    set_kops_envs_on, set_tf_aws_envs_on, terraform_backend_args, wrapped_command, WrapError,
    Wrapped,
};

fn args(list: &[&str]) -> Vec<Option<String>> {
    list.iter().map(|a| Some(a.to_string())).collect()
}

fn pairs(list: &[(&str, &str)]) -> Vec<(String, String)> {
    list.iter().map(|(n, v)| (n.to_string(), v.to_string())).collect()
}

fn configured_env() -> Env {
    let shop = ShopYaml {
        shop: ShopCfg::new("acme".to_string(), "acme.io".to_string()),
        accounts: NameMap::new(),
    };
    let mut env = Env::load(Some(shop), None, None).unwrap();
    env.add_account("dev", "eu-west-1").unwrap();
    env.add_cluster("dev", "blue").unwrap();
    env.configure_account("dev", "dev-profile").unwrap();
    env.configure_cluster(Some("dev"), "blue", "blue-ctx").unwrap();
    env
}

#[test]
fn the_first_plain_argument_skips_flags() {
    assert_eq!(first_plain_arg(&args(&["-v", "--x=1", "init", "plan"])).unwrap(), "init");
    assert_eq!(first_plain_arg(&args(&["plan"])).unwrap(), "plan");
    assert_eq!(first_plain_arg(&args(&[""])).unwrap(), "");
    assert!(first_plain_arg(&args(&["-v", "-w"])).is_none());
    assert!(first_plain_arg(&Vec::new()).is_none());
    let mixed = vec![Some("-v".to_string()), None, Some("init".to_string())];
    assert!(first_plain_arg(&mixed).is_none());
}

#[test]
fn terraform_init_is_recognised() {
    assert!(is_terraform_init(Some("terraform"), &args(&["init"])));
    assert!(is_terraform_init(Some("terraform"), &args(&["-chdir=x", "init", "-upgrade"])));
    assert!(!is_terraform_init(Some("terraform"), &args(&["plan", "init"])));
    assert!(!is_terraform_init(Some("terraform"), &args(&[])));
    assert!(!is_terraform_init(Some("tofu"), &args(&["init"])));
    assert!(!is_terraform_init(None, &args(&["init"])));
}

#[test]
fn a_word_begins_with_its_prefixes() {
    assert!(begins("switch", ""));
    assert!(begins("switch", "s"));
    assert!(begins("switch", "swi"));
    assert!(begins("switch", "switch"));
    assert!(!begins("switch", "switches"));
    assert!(!begins("switch", "w"));
    assert!(!begins("switch", "swa"));
}

#[test]
fn kubectl_switch_is_recognised() {
    assert!(is_kubectl_switch(Some("kubectl"), &args(&["switch", "cluster", "blue"])));
    assert!(is_kubectl_switch(Some("kubectl"), &args(&["sw", "ns", "web"])));
    assert!(is_kubectl_switch(Some("kubectl"), &args(&["-v", "s"])));
    assert!(!is_kubectl_switch(Some("kubectl"), &args(&["get", "pods"])));
    assert!(!is_kubectl_switch(Some("kubectl"), &args(&["describe-everything"])));
    assert!(!is_kubectl_switch(Some("kubectl"), &args(&[])));
    assert!(!is_kubectl_switch(Some("helm"), &args(&["switch"])));
    assert!(!is_kubectl_switch(None, &args(&["switch"])));
    assert!(!is_kubectl_switch(Some("kubectl"), &args(&["switch", "1", "2", "3", "4", "5", "6"])));
    assert!(is_kubectl_switch(Some("kubectl"), &args(&["switch", "1", "2", "3", "4", "5"])));
}

#[test]
fn variables_and_arguments_name_the_account() {
    let env = configured_env();
    let account = env.get_account_ref("dev").unwrap().to_cfg();
    let mut cmd = pairs(&[("HOME", "/home/op")]);
    set_aws_envs_on(&account, &mut cmd);
    assert_eq!(cmd, pairs(&[("HOME", "/home/op"), ("AWS_PROFILE", "dev-profile")]));
    let mut cmd = Vec::new();
    set_tf_aws_envs_on(&env, &account, &mut cmd);
    assert_eq!(
        cmd,
        pairs(&[
            ("TF_VAR_SHOPNAME", "acme"),
            ("TF_VAR_ACCOUNT_BOOTSTRAP_NAME", "acme-dev"),
            ("TF_VAR_ACCOUNT_BOOTSTRAP_AWS_REGION", "eu-west-1"),
            ("TF_VAR_AWS_PROFILE", "dev-profile"),
            ("TF_VAR_AWS_REGION", "eu-west-1"),
        ])
    );
    assert_eq!(
        terraform_backend_args(&account),
        vec![
            "-backend-config=bucket=acme-dev-bootstrap-terraform-state",
            "-backend-config=key=acme-dev.tfstate",
            "-backend-config=dynamodb_table=acme-dev-bootstrap-terraform",
            "-backend-config=profile=dev-profile",
            "-backend-config=region=eu-west-1",
        ]
    );
    let cluster = account.shop.clusters.get("blue").unwrap();
    let mut cmd = Vec::new();
    set_kops_envs_on(&account.shop, cluster, &mut cmd);
    assert_eq!(
        cmd,
        pairs(&[
            ("KOPS_STATE_STORE", "s3://acme-dev-bootstrap-kops-state"),
            ("KOPS_CLUSTER_NAME", "blue.k8s.acme.io"),
        ])
    );
}

#[test]
fn kubectl_and_helm_are_pointed_at_the_cluster() {
    let mut env = configured_env();
    let context = env.get_context().unwrap();
    assert_eq!(kube_args(false, &context), vec!["--context", "blue-ctx"]);
    assert_eq!(kube_args(true, &context), vec!["--kube-context", "blue-ctx"]);
    env.switch_namespace("web").unwrap();
    let context = env.get_context().unwrap();
    assert_eq!(kube_args(false, &context), vec!["--context", "blue-ctx", "--namespace", "web"]);
    let shop = ShopYaml {
        shop: ShopCfg::new("acme".to_string(), "acme.io".to_string()),
        accounts: NameMap::new(),
    };
    let empty = Env::load(Some(shop), None, None).unwrap();
    assert!(kube_args(false, &empty.get_context().unwrap()).is_empty());
}

#[test]
fn every_tool_gets_the_profile() {
    let env = configured_env();
    match wrapped_command(&env, Some("aws"), &args(&["s3", "ls"])).unwrap() {
        Wrapped::Run { envs, args } => {
            assert_eq!(envs, pairs(&[("AWS_PROFILE", "dev-profile")]));
            assert!(args.is_empty());
        },
        other => panic!("unexpected: {:?}", other),
    }
    match wrapped_command(&env, None, &args(&[])).unwrap() {
        Wrapped::Run { envs, args } => {
            assert_eq!(envs, pairs(&[("AWS_PROFILE", "dev-profile")]));
            assert!(args.is_empty());
        },
        other => panic!("unexpected: {:?}", other),
    }
}

#[test]
fn terraform_gets_variables_and_for_init_its_backend() {
    let env = configured_env();
    match wrapped_command(&env, Some("terraform"), &args(&["plan"])).unwrap() {
        Wrapped::Run { envs, args } => {
            assert_eq!(envs.len(), 6);
            assert_eq!(envs[0], ("AWS_PROFILE".to_string(), "dev-profile".to_string()));
            assert_eq!(envs[1], ("TF_VAR_SHOPNAME".to_string(), "acme".to_string()));
            assert!(args.is_empty());
        },
        other => panic!("unexpected: {:?}", other),
    }
    match wrapped_command(&env, Some("terraform"), &args(&["init"])).unwrap() {
        Wrapped::Run { envs, args } => {
            assert_eq!(envs.len(), 6);
            assert_eq!(args.len(), 5);
            assert_eq!(args[0], "-backend-config=bucket=acme-dev-bootstrap-terraform-state");
        },
        other => panic!("unexpected: {:?}", other),
    }
}

#[test]
fn kops_needs_a_cluster() {
    let env = configured_env();
    match wrapped_command(&env, Some("kops"), &args(&["get"])).unwrap() {
        Wrapped::Run { envs, args } => {
            assert_eq!(
                envs,
                pairs(&[
                    ("AWS_PROFILE", "dev-profile"),
                    ("KOPS_STATE_STORE", "s3://acme-dev-bootstrap-kops-state"),
                    ("KOPS_CLUSTER_NAME", "blue.k8s.acme.io"),
                ])
            );
            assert!(args.is_empty());
        },
        other => panic!("unexpected: {:?}", other),
    }
    let shop = ShopYaml {
        shop: ShopCfg::new("acme".to_string(), "acme.io".to_string()),
        accounts: NameMap::new(),
    };
    let mut bare = Env::load(Some(shop), None, None).unwrap();
    assert!(matches!(wrapped_command(&bare, Some("kops"), &args(&[])), Err(EnvError::AccountNotSet)));
    bare.add_account("dev", "eu-west-1").unwrap();
    bare.configure_account("dev", "p").unwrap();
    assert!(matches!(wrapped_command(&bare, Some("kops"), &args(&[])), Err(EnvError::ClusterNotSet)));
}

#[test]
fn kubectl_switch_is_handed_back() {
    let env = configured_env();
    assert!(matches!(
        wrapped_command(&env, Some("kubectl"), &args(&["switch", "ns", "web"])).unwrap(),
        Wrapped::Redirect
    ));
    match wrapped_command(&env, Some("kubectl"), &args(&["get", "pods"])).unwrap() {
        Wrapped::Run { envs, args } => {
            assert_eq!(envs, pairs(&[("AWS_PROFILE", "dev-profile")]));
            assert_eq!(args, vec!["--context", "blue-ctx"]);
        },
        other => panic!("unexpected: {:?}", other),
    }
    match wrapped_command(&env, Some("helm"), &args(&["switch"])).unwrap() {
        Wrapped::Run { args, .. } => assert_eq!(args, vec!["--kube-context", "blue-ctx"]),
        other => panic!("unexpected: {:?}", other),
    }
}

#[test]
fn wrap_errors_say_what_went_wrong() {
    assert_eq!(WrapError::InvalidBin { bin: "..".to_string() }.message(), "Invalid binary: ..");
    assert_eq!(WrapError::ExecFailed.message(), "Exec failed");
    assert_eq!(WrapError::EnvFailure.message(), "Loading rustshop env failed");
}
