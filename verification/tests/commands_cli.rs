use rustshop::cfg::{ShopCfg, ShopYaml};
use rustshop::commands::{add, configure, get, switch, AppError};
use rustshop::env::{Env, Store};
use rustshop::error::EnvError;
use rustshop::names::NameMap;
use rustshop::opts::{AddCommands, ConfigureCommands, GetCommands, SwitchCommands};

fn new_env() -> Env {
    let shop = ShopYaml {
        shop: ShopCfg::new("acme".to_string(), "acme.io".to_string()),
        accounts: NameMap::new(),
    };
    Env::load(Some(shop), None, None).unwrap()
}

fn s(text: &str) -> String {
    text.to_string()
}

#[test]
fn a_new_shop_starts_with_its_root_account_and_cluster() {
    let mut env = new_env();
    add(&mut env, &AddCommands::Shop { name: s("acme"), domain: s("acme.io"), aws_region: s("us-east-1") })
        .unwrap();
    let root = env.get_shop_account_ref("root").unwrap();
    assert_eq!(root.bootstrap_name, "acme-root");
    assert_eq!(root.bootstrap_aws_region, "us-east-1");
    assert_eq!(root.clusters.get("root").unwrap().domain, "root.k8s.acme.io");
    assert_eq!(env.pending_write(), Some(Store::Shop));
}

#[test]
fn a_new_account_gets_a_cluster_of_its_name() {
    let mut env = new_env();
    add(&mut env, &AddCommands::Account { name: s("dev"), aws_region: s("eu-west-1") }).unwrap();
    let dev = env.get_shop_account_ref("dev").unwrap();
    assert_eq!(dev.clusters.len(), 1);
    assert_eq!(dev.clusters.get("dev").unwrap().domain, "dev.k8s.acme.io");
    let again = add(&mut env, &AddCommands::Account { name: s("dev"), aws_region: s("eu-west-1") });
    assert!(matches!(again, Err(EnvError::AccountExists { name }) if name == "dev"));
}

#[test]
fn a_cluster_is_added_to_the_given_or_the_selected_account() {
    let mut env = new_env();
    let none = add(&mut env, &AddCommands::Cluster { name: s("blue"), account: None });
    assert!(matches!(none, Err(EnvError::AccountNotSet)));
    add(&mut env, &AddCommands::Account { name: s("dev"), aws_region: s("eu-west-1") }).unwrap();
    add(&mut env, &AddCommands::Cluster { name: s("blue"), account: Some(s("dev")) }).unwrap();
    assert_eq!(env.get_shop_account_ref("dev").unwrap().clusters.len(), 2);
    configure(&mut env, &ConfigureCommands::Account { name: s("dev"), profile: s("p") }).unwrap();
    add(&mut env, &AddCommands::Cluster { name: s("green"), account: None }).unwrap();
    assert!(env.get_shop_account_ref("dev").unwrap().clusters.contains_key("green"));
    let missing = add(&mut env, &AddCommands::Cluster { name: s("x"), account: Some(s("nope")) });
    assert!(matches!(missing, Err(EnvError::AccountDoesNotExist { name }) if name == "nope"));
}

#[test]
fn configure_commands_reach_the_user_store() {
    let mut env = new_env();
    add(&mut env, &AddCommands::Account { name: s("dev"), aws_region: s("eu-west-1") }).unwrap();
    configure(&mut env, &ConfigureCommands::Account { name: s("dev"), profile: s("p") }).unwrap();
    configure(&mut env, &ConfigureCommands::Cluster { name: s("dev"), account: None, ctx: s("ctx") })
        .unwrap();
    let user = env.user_yaml().accounts.get("dev").unwrap();
    assert_eq!(user.aws_profile, "p");
    assert_eq!(user.clusters.get("dev").unwrap().kube_ctx, "ctx");
    let missing = configure(&mut env, &ConfigureCommands::Account { name: s("nope"), profile: s("p") });
    assert!(matches!(missing, Err(EnvError::AccountDoesNotExist { name }) if name == "nope"));
}

#[test]
fn switching_tells_the_new_context() {
    let mut env = new_env();
    add(&mut env, &AddCommands::Account { name: s("dev"), aws_region: s("eu-west-1") }).unwrap();
    add(&mut env, &AddCommands::Account { name: s("prod"), aws_region: s("eu-west-1") }).unwrap();
    configure(&mut env, &ConfigureCommands::Account { name: s("prod"), profile: s("pp") }).unwrap();
    configure(
        &mut env,
        &ConfigureCommands::Cluster { name: s("prod"), account: Some(s("prod")), ctx: s("pc") },
    )
    .unwrap();
    let line = switch(&mut env, &SwitchCommands::Account { name: s("prod") }).unwrap();
    assert_eq!(line, "Context: shop=acme (acme.io); account=prod (pp); cluster=prod (pc)\n");
    assert_eq!(env.context_yaml().account.as_deref(), Some("prod"));
    assert_eq!(env.context_yaml().cluster, None);
    let line = switch(&mut env, &SwitchCommands::Namespace { name: s("web") }).unwrap();
    assert_eq!(line, "Context: shop=acme (acme.io); account=prod (pp); cluster=prod (pc); namespace=web\n");
    let line = switch(&mut env, &SwitchCommands::Cluster { name: s("ghost") }).unwrap();
    assert_eq!(line, "Context: shop=acme (acme.io); account=prod (pp); cluster=prod (pc); namespace=web\n");
    assert_eq!(env.context_yaml().cluster.as_deref(), Some("ghost"));
}

#[test]
fn get_prints_one_value() {
    let mut env = new_env();
    assert_eq!(get(&env, GetCommands::Account { profile: false }).unwrap(), "");
    assert_eq!(get(&env, GetCommands::Cluster).unwrap(), "");
    assert_eq!(get(&env, GetCommands::Namespace).unwrap(), "");
    assert_eq!(get(&env, GetCommands::Context).unwrap(), "Context: shop=acme (acme.io)\n");
    add(&mut env, &AddCommands::Account { name: s("dev"), aws_region: s("eu-west-1") }).unwrap();
    configure(&mut env, &ConfigureCommands::Account { name: s("dev"), profile: s("p") }).unwrap();
    configure(&mut env, &ConfigureCommands::Cluster { name: s("dev"), account: None, ctx: s("c") })
        .unwrap();
    switch(&mut env, &SwitchCommands::Namespace { name: s("web") }).unwrap();
    assert_eq!(get(&env, GetCommands::Account { profile: false }).unwrap(), "dev\n");
    assert_eq!(get(&env, GetCommands::Account { profile: true }).unwrap(), "p\n");
    assert_eq!(get(&env, GetCommands::Cluster).unwrap(), "dev\n");
    assert_eq!(get(&env, GetCommands::Namespace).unwrap(), "web\n");
}

#[test]
fn app_errors_say_what_went_wrong() {
    assert_eq!(AppError::Other.message(), "Application error");
    assert_eq!(AppError::CommandFailed { stderr: s("boom") }.message(), "Command failed: boom");
}
