//! The records of the shop store, the user store and the context store.

use crate::names::{Fact, NameMap};
use vstd::prelude::*;

verus! {

/// The name of an account.
pub type AccountName = String;

/// The name of a cluster.
pub type ClusterName = String;

/// The text of an optional string.
pub open spec fn text_of(s: Option<String>) -> Option<Seq<char>> {
    match s {
        Some(s) => Some(s@),
        None => None,
    }
}

/// A copy of an optional string.
pub fn copy_text(s: &Option<String>) -> (copy: Option<String>)
    ensures
        text_of(copy) == text_of(*s),
{
    match s {
        Some(s) => Some(s.clone()),
        None => None,
    }
}

/// The identity of the shop: created once, never changed.
#[derive(Debug, Clone)]
pub struct ShopCfg {
    pub name: String,
    pub domain: String,
}

/// The identity of the shop, as text.
pub struct ShopIdentity {
    pub name: Seq<char>,
    pub domain: Seq<char>,
}

impl View for ShopCfg {
    type V = ShopIdentity;

    open spec fn view(&self) -> ShopIdentity {
        ShopIdentity { name: self.name@, domain: self.domain@ }
    }
}

impl ShopCfg {
    /// The identity of the shop `name` with the domain `domain`.
    pub fn new(name: String, domain: String) -> (shop: Self)
        ensures
            shop@ == (ShopIdentity { name: name@, domain: domain@ }),
    {
        Self { name, domain }
    }

    /// Whether two identities agree in name and domain.
    pub fn same_as(&self, other: &ShopCfg) -> (same: bool)
        ensures
            same == (self@ == other@),
    {
        self.name == other.name && self.domain == other.domain
    }
}

impl Fact for ShopCfg {
    fn duplicate(&self) -> (copy: Self) {
        ShopCfg { name: self.name.clone(), domain: self.domain.clone() }
    }
}

/// What the shop knows about a cluster.
#[derive(Debug, Clone)]
pub struct ShopClusterCfg {
    pub domain: String,
}

/// What the shop knows about a cluster, as text.
pub struct ShopClusterFact {
    pub domain: Seq<char>,
}

impl View for ShopClusterCfg {
    type V = ShopClusterFact;

    open spec fn view(&self) -> ShopClusterFact {
        ShopClusterFact { domain: self.domain@ }
    }
}

impl Fact for ShopClusterCfg {
    fn duplicate(&self) -> (copy: Self) {
        ShopClusterCfg { domain: self.domain.clone() }
    }
}

/// What an operator has configured for a cluster.
#[derive(Debug, Clone)]
pub struct UserClusterCfg {
    pub kube_ctx: String,
}

/// What an operator has configured for a cluster, as text.
pub struct UserClusterFact {
    pub kube_ctx: Seq<char>,
}

impl View for UserClusterCfg {
    type V = UserClusterFact;

    open spec fn view(&self) -> UserClusterFact {
        UserClusterFact { kube_ctx: self.kube_ctx@ }
    }
}

impl Fact for UserClusterCfg {
    fn duplicate(&self) -> (copy: Self) {
        UserClusterCfg { kube_ctx: self.kube_ctx.clone() }
    }
}

/// A cluster as both stores describe it.
#[derive(Debug, Clone)]
pub struct ClusterCfg {
    pub shop: ShopClusterCfg,
    pub user: UserClusterCfg,
}

/// A cluster as both stores describe it, as text.
pub struct ClusterFacts {
    pub shop: ShopClusterFact,
    pub user: UserClusterFact,
}

impl View for ClusterCfg {
    type V = ClusterFacts;

    open spec fn view(&self) -> ClusterFacts {
        ClusterFacts { shop: self.shop@, user: self.user@ }
    }
}

impl Fact for ClusterCfg {
    fn duplicate(&self) -> (copy: Self) {
        ClusterCfg { shop: self.shop.duplicate(), user: self.user.duplicate() }
    }
}

/// What the shop knows about an account, with its clusters.
#[derive(Debug, Clone)]
pub struct ShopAccountCfg {
    /// The full account name used when the account was bootstrapped.
    pub bootstrap_name: String,
    /// The region the account was bootstrapped in.
    pub bootstrap_aws_region: String,
    pub clusters: NameMap<ShopClusterCfg>,
}

/// What the shop knows about an account, as text, with its clusters by name.
pub struct ShopAccountFact {
    pub bootstrap_name: Seq<char>,
    pub bootstrap_aws_region: Seq<char>,
    pub clusters: Map<Seq<char>, ShopClusterFact>,
}

impl View for ShopAccountCfg {
    type V = ShopAccountFact;

    open spec fn view(&self) -> ShopAccountFact {
        ShopAccountFact {
            bootstrap_name: self.bootstrap_name@,
            bootstrap_aws_region: self.bootstrap_aws_region@,
            clusters: self.clusters@,
        }
    }
}

impl Fact for ShopAccountCfg {
    fn duplicate(&self) -> (copy: Self) {
        ShopAccountCfg {
            bootstrap_name: self.bootstrap_name.clone(),
            bootstrap_aws_region: self.bootstrap_aws_region.clone(),
            clusters: self.clusters.duplicate(),
        }
    }
}

/// What an operator has configured for an account, with its clusters.
#[derive(Debug, Clone)]
pub struct UserAccountCfg {
    pub aws_profile: String,
    pub clusters: NameMap<UserClusterCfg>,
}

/// What an operator has configured for an account, as text, with its clusters by name.
pub struct UserAccountFact {
    pub aws_profile: Seq<char>,
    pub clusters: Map<Seq<char>, UserClusterFact>,
}

impl View for UserAccountCfg {
    type V = UserAccountFact;

    open spec fn view(&self) -> UserAccountFact {
        UserAccountFact { aws_profile: self.aws_profile@, clusters: self.clusters@ }
    }
}

impl Fact for UserAccountCfg {
    fn duplicate(&self) -> (copy: Self) {
        UserAccountCfg {
            aws_profile: self.aws_profile.clone(),
            clusters: self.clusters.duplicate(),
        }
    }
}

/// An account as both stores describe it.
#[derive(Debug, Clone)]
pub struct AccountCfg {
    pub shop: ShopAccountCfg,
    pub user: UserAccountCfg,
}

/// An account as both stores describe it, as text.
pub struct AccountFacts {
    pub shop: ShopAccountFact,
    pub user: UserAccountFact,
}

impl View for AccountCfg {
    type V = AccountFacts;

    open spec fn view(&self) -> AccountFacts {
        AccountFacts { shop: self.shop@, user: self.user@ }
    }
}

impl Fact for AccountCfg {
    fn duplicate(&self) -> (copy: Self) {
        AccountCfg { shop: self.shop.duplicate(), user: self.user.duplicate() }
    }
}

/// The user store: one record per configured account.
#[derive(Debug, Clone)]
pub struct UserYaml {
    pub accounts: NameMap<UserAccountCfg>,
}

/// The user store: what is configured for each account, by its name.
pub struct UserStore {
    pub accounts: Map<Seq<char>, UserAccountFact>,
}

impl View for UserYaml {
    type V = UserStore;

    open spec fn view(&self) -> UserStore {
        UserStore { accounts: self.accounts@ }
    }
}

impl Default for UserYaml {
    fn default() -> (store: Self)
        ensures
            store@.accounts == Map::<Seq<char>, UserAccountFact>::empty(),
    {
        UserYaml { accounts: NameMap::new() }
    }
}

impl Fact for UserYaml {
    fn duplicate(&self) -> (copy: Self) {
        UserYaml { accounts: self.accounts.duplicate() }
    }
}

/// The shop store: the shop's identity and one record per account.
#[derive(Debug, Clone)]
pub struct ShopYaml {
    pub shop: ShopCfg,
    pub accounts: NameMap<ShopAccountCfg>,
}

/// The shop store: the identity of the shop and its accounts by name.
pub struct ShopStore {
    pub shop: ShopIdentity,
    pub accounts: Map<Seq<char>, ShopAccountFact>,
}

impl View for ShopYaml {
    type V = ShopStore;

    open spec fn view(&self) -> ShopStore {
        ShopStore { shop: self.shop@, accounts: self.accounts@ }
    }
}

impl Fact for ShopYaml {
    fn duplicate(&self) -> (copy: Self) {
        ShopYaml { shop: self.shop.duplicate(), accounts: self.accounts.duplicate() }
    }
}

/// The context pointer: the account, cluster and namespace now selected.
/// Nothing guarantees that what it names exists.
#[derive(Debug, Clone)]
pub struct ContextYaml {
    pub account: Option<String>,
    pub cluster: Option<String>,
    pub namespace: Option<String>,
}

/// A context pointer, as text.
pub struct ContextPointer {
    pub account: Option<Seq<char>>,
    pub cluster: Option<Seq<char>>,
    pub namespace: Option<Seq<char>>,
}

impl View for ContextYaml {
    type V = ContextPointer;

    open spec fn view(&self) -> ContextPointer {
        ContextPointer {
            account: text_of(self.account),
            cluster: text_of(self.cluster),
            namespace: text_of(self.namespace),
        }
    }
}

/// The pointer that selects nothing.
pub open spec fn empty_pointer() -> ContextPointer {
    ContextPointer { account: None, cluster: None, namespace: None }
}

impl Default for ContextYaml {
    fn default() -> (pointer: Self)
        ensures
            pointer@ == empty_pointer(),
    {
        ContextYaml { account: None, cluster: None, namespace: None }
    }
}

impl Fact for ContextYaml {
    fn duplicate(&self) -> (copy: Self) {
        ContextYaml {
            account: copy_text(&self.account),
            cluster: copy_text(&self.cluster),
            namespace: copy_text(&self.namespace),
        }
    }
}

} // verus!
