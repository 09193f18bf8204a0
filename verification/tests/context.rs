use rustshop::cfg::{ContextYaml, ShopCfg, ShopYaml};
use rustshop::env::{Env, Store};
use rustshop::error::EnvError;
use rustshop::names::NameMap;

fn new_env() -> Env {
    let shop = ShopYaml {
        shop: ShopCfg::new("acme".to_string(), "acme.io".to_string()),
        accounts: NameMap::new(),
    };
    Env::load(Some(shop), None, None).unwrap()
}

fn pointer(account: Option<&str>, cluster: Option<&str>, namespace: Option<&str>) -> ContextYaml {
    ContextYaml {
        account: account.map(str::to_string),
        cluster: cluster.map(str::to_string),
        namespace: namespace.map(str::to_string),
    }
}

fn fields(p: &ContextYaml) -> (Option<&str>, Option<&str>, Option<&str>) {
    (p.account.as_deref(), p.cluster.as_deref(), p.namespace.as_deref())
}

#[test]
fn widen_adopts_the_single_account() {
    let mut env = new_env();
    env.add_account("solo", "us-east-1").unwrap();
    let normal = env.normalize_context_path(Some(pointer(None, None, None)), true).unwrap();
    assert_eq!(fields(&normal), (Some("solo"), None, None));
    let normal = env.normalize_context_path(None, true).unwrap();
    assert_eq!(fields(&normal), (Some("solo"), None, None));
}

#[test]
fn widen_does_not_choose_between_two_accounts() {
    let mut env = new_env();
    env.add_account("one", "us-east-1").unwrap();
    env.add_account("two", "us-east-1").unwrap();
    let normal = env.normalize_context_path(Some(pointer(None, Some("x"), Some("ns"))), true).unwrap();
    assert_eq!(fields(&normal), (None, None, None));
}

#[test]
fn widen_finds_nothing_in_an_empty_shop() {
    let env = new_env();
    let normal = env.normalize_context_path(Some(pointer(None, None, Some("ns"))), true).unwrap();
    assert_eq!(fields(&normal), (None, None, None));
}

#[test]
fn without_widen_an_open_account_stays_open() {
    let mut env = new_env();
    env.add_account("solo", "us-east-1").unwrap();
    let normal = env.normalize_context_path(Some(pointer(None, None, None)), false).unwrap();
    assert_eq!(fields(&normal), (None, None, None));
}

#[test]
fn narrow_clears_descendants_of_a_missing_account() {
    let mut env = new_env();
    env.add_account("real", "us-east-1").unwrap();
    env.add_cluster("real", "x").unwrap();
    let normal =
        env.normalize_context_path(Some(pointer(Some("ghost"), Some("x"), Some("ns"))), false).unwrap();
    assert_eq!(fields(&normal), (None, None, None));
}

#[test]
fn a_stale_account_is_replaced_by_the_single_candidate_when_widening() {
    let mut env = new_env();
    env.add_account("real", "us-east-1").unwrap();
    env.add_cluster("real", "x").unwrap();
    let normal =
        env.normalize_context_path(Some(pointer(Some("ghost"), Some("x"), Some("ns"))), true).unwrap();
    assert_eq!(fields(&normal), (Some("real"), Some("x"), Some("ns")));
}

#[test]
fn narrow_clears_namespace_of_a_missing_cluster() {
    let mut env = new_env();
    env.add_account("real", "us-east-1").unwrap();
    env.add_cluster("real", "a").unwrap();
    env.add_cluster("real", "b").unwrap();
    let normal =
        env.normalize_context_path(Some(pointer(Some("real"), Some("ghost"), Some("ns"))), true).unwrap();
    assert_eq!(fields(&normal), (Some("real"), None, None));
    let normal =
        env.normalize_context_path(Some(pointer(Some("real"), None, Some("ns"))), false).unwrap();
    assert_eq!(fields(&normal), (Some("real"), None, None));
}

#[test]
fn the_namespace_is_kept_unchecked() {
    let mut env = new_env();
    env.add_account("real", "us-east-1").unwrap();
    env.add_cluster("real", "a").unwrap();
    let normal = env
        .normalize_context_path(Some(pointer(Some("real"), Some("a"), Some("anything at all"))), false)
        .unwrap();
    assert_eq!(fields(&normal), (Some("real"), Some("a"), Some("anything at all")));
}

#[test]
fn widen_counts_accounts_of_the_shop_store_not_configured_ones() {
    let mut env = new_env();
    env.add_account("one", "us-east-1").unwrap();
    env.add_account("two", "us-east-1").unwrap();
    env.configure_account("one", "profile").unwrap();
    let normal = env.normalize_context_path(None, true).unwrap();
    assert_eq!(fields(&normal), (None, None, None));
}

#[test]
fn widen_adopts_an_account_that_is_not_configured() {
    let mut env = new_env();
    env.add_account("solo", "us-east-1").unwrap();
    env.add_cluster("solo", "main").unwrap();
    let normal = env.normalize_context_path(None, true).unwrap();
    assert_eq!(fields(&normal), (Some("solo"), Some("main"), None));
    let context = env.get_context().unwrap();
    assert!(context.account.is_none());
    assert!(context.cluster.is_none());
    assert!(context.namespace.is_none());
}

#[test]
fn resolve_joins_both_stores() {
    let mut env = new_env();
    env.add_account("dev", "eu-west-1").unwrap();
    env.add_cluster("dev", "blue").unwrap();
    env.configure_account("dev", "dev-profile").unwrap();

    let context = env.resolve_context_path(&pointer(Some("dev"), Some("blue"), Some("ns"))).unwrap();
    let (name, account) = context.account.unwrap();
    assert_eq!(name, "dev");
    assert_eq!(account.shop.bootstrap_name, "acme-dev");
    assert_eq!(account.user.aws_profile, "dev-profile");
    assert!(context.cluster.is_none());
    assert_eq!(context.namespace, None);

    env.configure_cluster(Some("dev"), "blue", "blue-ctx").unwrap();
    let context = env.resolve_context_path(&pointer(Some("dev"), Some("blue"), Some("ns"))).unwrap();
    let (name, cluster) = context.cluster.clone().unwrap();
    assert_eq!(name, "blue");
    assert_eq!(cluster.shop.domain, "blue.k8s.acme.io");
    assert_eq!(cluster.user.kube_ctx, "blue-ctx");
    assert_eq!(context.namespace.as_deref(), Some("ns"));
    let back = context.to_pointer();
    assert_eq!(fields(&back), (Some("dev"), Some("blue"), Some("ns")));
    let moved: ContextYaml = context.into();
    assert_eq!(fields(&moved), (Some("dev"), Some("blue"), Some("ns")));
    let nothing = ContextYaml::from(env.resolve_context_path(&pointer(None, None, Some("ns"))).unwrap());
    assert_eq!(fields(&nothing), (None, None, None));
}

#[test]
fn resolve_stops_at_a_missing_account() {
    let env = new_env();
    let context = env.resolve_context_path(&pointer(Some("ghost"), Some("x"), Some("ns"))).unwrap();
    assert!(context.account.is_none());
    assert!(context.cluster.is_none());
    assert!(context.namespace.is_none());
    let context = env.resolve_context_path(&pointer(None, Some("x"), Some("ns"))).unwrap();
    assert!(context.account.is_none() && context.cluster.is_none() && context.namespace.is_none());
}

#[test]
fn switch_stores_the_pointer_and_marks_the_context() {
    let mut env = new_env();
    env.add_account("one", "us-east-1").unwrap();
    env.add_account("two", "us-east-1").unwrap();
    env.add_cluster("two", "main").unwrap();
    env.configure_account("two", "two-profile").unwrap();
    env.mark_written(Store::Shop);
    env.mark_written(Store::User);

    let context = env.switch_account("two").unwrap();
    assert_eq!(context.account.unwrap().0, "two");
    assert!(context.cluster.is_none());
    assert_eq!(fields(env.context_yaml()), (Some("two"), None, None));
    assert_eq!(env.pending_write(), Some(Store::Context));

    env.switch_cluster("main").unwrap();
    assert_eq!(fields(env.context_yaml()), (Some("two"), Some("main"), None));
    env.switch_namespace("web").unwrap();
    assert_eq!(fields(env.context_yaml()), (Some("two"), Some("main"), Some("web")));

    env.configure_cluster(None, "main", "ctx").unwrap();
    let context = env.get_context().unwrap();
    assert_eq!(context.cluster.unwrap().1.user.kube_ctx, "ctx");
    assert_eq!(context.namespace.as_deref(), Some("web"));
}

#[test]
fn switch_to_what_does_not_exist_is_stored_and_resolves_to_nothing() {
    let mut env = new_env();
    env.add_account("one", "us-east-1").unwrap();
    env.add_account("two", "us-east-1").unwrap();
    let context = env.switch_account("ghost").unwrap();
    assert!(context.account.is_none());
    assert_eq!(fields(env.context_yaml()), (Some("ghost"), None, None));
    assert_eq!(env.pending_write(), Some(Store::Shop));
    env.mark_written(Store::Shop);
    assert_eq!(env.pending_write(), Some(Store::Context));
    let context = env.get_context().unwrap();
    assert!(context.account.is_none());
}

#[test]
fn switch_cluster_works_with_a_single_unselected_account() {
    let mut env = new_env();
    env.add_account("solo", "us-east-1").unwrap();
    env.add_cluster("solo", "a").unwrap();
    env.add_cluster("solo", "b").unwrap();
    env.configure_account("solo", "p").unwrap();
    env.configure_cluster(Some("solo"), "b", "ctx-b").unwrap();
    let context = env.switch_cluster("b").unwrap();
    assert_eq!(context.account.unwrap().0, "solo");
    assert_eq!(context.cluster.unwrap().0, "b");
    assert_eq!(fields(env.context_yaml()), (Some("solo"), Some("b"), None));
}

#[test]
fn requiring_variants_fail_fast() {
    let mut env = new_env();
    assert!(matches!(env.get_context_account(), Err(EnvError::AccountNotSet)));
    assert!(matches!(env.get_context_cluster(), Err(EnvError::ClusterNotSet)));

    env.add_account("solo", "us-east-1").unwrap();
    match env.get_context_account() {
        Err(EnvError::AccountNotConfigured { name }) => assert_eq!(name, "solo"),
        other => panic!("unexpected: {:?}", other),
    }
    assert!(matches!(env.get_context_cluster(), Err(EnvError::ClusterNotSet)));

    env.configure_account("solo", "p").unwrap();
    let context = env.get_context_account().unwrap();
    assert_eq!(context.account.unwrap().0, "solo");
    assert!(matches!(env.get_context_cluster(), Err(EnvError::ClusterNotSet)));

    env.add_cluster("solo", "main").unwrap();
    match env.get_context_cluster() {
        Err(EnvError::ClusterNotConfigured { name }) => assert_eq!(name, "main"),
        other => panic!("unexpected: {:?}", other),
    }
    env.configure_cluster(None, "main", "ctx").unwrap();
    let context = env.get_context_cluster().unwrap();
    assert_eq!(context.cluster.unwrap().0, "main");
}

#[test]
fn context_line_lists_the_levels_that_are_set() {
    let mut env = new_env();
    let mut out = String::new();
    env.write_ctx_info_to(env.get_context().unwrap(), &mut out);
    assert_eq!(out, "Context: shop=acme (acme.io)\n");

    env.add_account("prod", "us-east-1").unwrap();
    env.configure_account("prod", "acme-prod").unwrap();
    let mut out = String::from("> ");
    env.write_ctx_info_to(env.get_context().unwrap(), &mut out);
    assert_eq!(out, "> Context: shop=acme (acme.io); account=prod (acme-prod)\n");

    env.add_cluster("prod", "main").unwrap();
    env.configure_cluster(None, "main", "main-ctx").unwrap();
    let mut out = String::new();
    env.write_ctx_info_to(env.get_context().unwrap(), &mut out);
    assert_eq!(out, "Context: shop=acme (acme.io); account=prod (acme-prod); cluster=main (main-ctx)\n");

    env.switch_namespace("web").unwrap();
    let mut out = String::new();
    env.write_ctx_info_to(env.get_context().unwrap(), &mut out);
    assert_eq!(
        out,
        "Context: shop=acme (acme.io); account=prod (acme-prod); cluster=main (main-ctx); namespace=web\n"
    );
}
