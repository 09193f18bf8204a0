//! Looking a name up in both stores at once. The account level and the
//! cluster level are the same join, made once here.

use crate::cfg::{AccountCfg, ClusterCfg, ShopAccountCfg, ShopClusterCfg, UserAccountCfg, UserClusterCfg};
use crate::cfg::{AccountFacts, ClusterFacts};
use crate::error::{EnvError, EnvFault, EnvResult};
use crate::model::{pairing, Pairing};
use crate::names::{Fact, NameMap};
use vstd::prelude::*;

verus! {

/// What the two stores hold under one name.
pub enum Joined<'a, S, U> {
    Missing,
    ShopOnly(&'a S),
    UserOnly(&'a U),
    Both(&'a S, &'a U),
}

impl<'a, S, U> Joined<'a, S, U> {
    /// Which of the four cases this is.
    pub open spec fn case(&self) -> Pairing {
        match *self {
            Joined::Missing => Pairing::Missing,
            Joined::ShopOnly(_) => Pairing::ShopOnly,
            Joined::UserOnly(_) => Pairing::UserOnly,
            Joined::Both(_, _) => Pairing::Both,
        }
    }
}

/// Looks `key` up in a map of the shop store and in the map of the user
/// store at the same level.
pub fn join<'a, S: Fact, U: Fact>(shop: &'a NameMap<S>, user: &'a NameMap<U>, key: &str) -> (found:
    Joined<'a, S, U>)
    ensures
        found.case() == pairing(shop@, user@, key@),
        match found {
            Joined::Missing => true,
            Joined::ShopOnly(s) => s@ == shop@[key@],
            Joined::UserOnly(u) => u@ == user@[key@],
            Joined::Both(s, u) => s@ == shop@[key@] && u@ == user@[key@],
        },
{
    match (shop.get(key), user.get(key)) {
        (Some(s), Some(u)) => Joined::Both(s, u),
        (Some(s), None) => Joined::ShopOnly(s),
        (None, Some(u)) => Joined::UserOnly(u),
        (None, None) => Joined::Missing,
    }
}

/// A configured cluster, by reference into both stores.
#[derive(Debug, Clone, Copy)]
pub struct EnvClusterRef<'env> {
    pub shop: &'env ShopClusterCfg,
    pub user: &'env UserClusterCfg,
}

impl<'env> View for EnvClusterRef<'env> {
    type V = ClusterFacts;

    open spec fn view(&self) -> ClusterFacts {
        ClusterFacts { shop: (*self.shop)@, user: (*self.user)@ }
    }
}

impl<'env> EnvClusterRef<'env> {
    /// The cluster's facts, copied out of the stores.
    pub fn to_cfg(&self) -> (cfg: ClusterCfg)
        ensures
            cfg@ == self@,
    {
        ClusterCfg { shop: self.shop.duplicate(), user: self.user.duplicate() }
    }
}

/// A configured account, by reference into both stores.
#[derive(Debug, Clone, Copy)]
pub struct EnvAccountRef<'env> {
    pub shop: &'env ShopAccountCfg,
    pub user: &'env UserAccountCfg,
}

impl<'env> View for EnvAccountRef<'env> {
    type V = AccountFacts;

    open spec fn view(&self) -> AccountFacts {
        AccountFacts { shop: (*self.shop)@, user: (*self.user)@ }
    }
}

/// What looking up the cluster `name` of an account gives: the cluster if it
/// is configured, nothing if it is missing or not configured, an error if
/// only the user store has it.
pub open spec fn cluster_lookup(account: AccountFacts, name: Seq<char>) -> Result<
    Option<ClusterFacts>,
    EnvFault,
> {
    match pairing(account.shop.clusters, account.user.clusters, name) {
        Pairing::Both => Ok(
            Some(
                ClusterFacts { shop: account.shop.clusters[name], user: account.user.clusters[name] },
            ),
        ),
        Pairing::UserOnly => Err(EnvFault::InconsistentClusterData { name }),
        Pairing::Missing | Pairing::ShopOnly => Ok(None),
    }
}

/// The cluster `name` of an account for a caller that needs it: an error
/// tells a cluster that is missing from one that is not configured.
pub open spec fn demanded_cluster(account: AccountFacts, name: Seq<char>) -> Result<
    ClusterFacts,
    EnvFault,
> {
    match pairing(account.shop.clusters, account.user.clusters, name) {
        Pairing::Both => Ok(
            ClusterFacts { shop: account.shop.clusters[name], user: account.user.clusters[name] },
        ),
        Pairing::UserOnly => Err(EnvFault::InconsistentClusterData { name }),
        Pairing::ShopOnly => Err(EnvFault::ClusterNotConfigured { name }),
        Pairing::Missing => Err(EnvFault::ClusterDoesNotExist { name }),
    }
}

/// The view of the result of a lookup.
pub open spec fn lookup_view<R: View>(found: EnvResult<Option<R>>) -> Result<Option<R::V>, EnvFault> {
    match found {
        Ok(Some(r)) => Ok(Some(r@)),
        Ok(None) => Ok(None),
        Err(e) => Err(e@),
    }
}

/// The view of a result that on success holds a value with a view.
pub open spec fn result_view<R: View>(result: EnvResult<R>) -> Result<R::V, EnvFault> {
    match result {
        Ok(r) => Ok(r@),
        Err(e) => Err(e@),
    }
}

impl<'env> EnvAccountRef<'env> {
    /// The account's facts, copied out of the stores.
    pub fn to_cfg(&self) -> (cfg: AccountCfg)
        ensures
            cfg@ == self@,
    {
        AccountCfg { shop: self.shop.duplicate(), user: self.user.duplicate() }
    }

    /// The cluster `name` of this account, if it is configured.
    pub fn get_cluster_ref_opt(&self, name: &str) -> (found: EnvResult<Option<EnvClusterRef<'env>>>)
        ensures
            lookup_view(found) == cluster_lookup(self@, name@),
    {
        match join(&self.shop.clusters, &self.user.clusters, name) {
            Joined::Both(shop, user) => Ok(Some(EnvClusterRef { shop, user })),
            Joined::UserOnly(_) => Err(EnvError::InconsistentClusterData { name: name.to_owned() }),
            Joined::Missing => Ok(None),
            Joined::ShopOnly(_) => Ok(None),
        }
    }

    /// The cluster `name` of this account, which must be configured.
    pub fn get_cluster_ref(&self, name: &str) -> (found: EnvResult<EnvClusterRef<'env>>)
        ensures
            result_view(found) == demanded_cluster(self@, name@),
    {
        match join(&self.shop.clusters, &self.user.clusters, name) {
            Joined::Both(shop, user) => Ok(EnvClusterRef { shop, user }),
            Joined::UserOnly(_) => Err(EnvError::InconsistentClusterData { name: name.to_owned() }),
            Joined::ShopOnly(_) => Err(EnvError::ClusterNotConfigured { name: name.to_owned() }),
            Joined::Missing => Err(EnvError::ClusterDoesNotExist { name: name.to_owned() }),
        }
    }
}

impl<'env> From<EnvAccountRef<'env>> for AccountCfg {
    /// The account's facts, copied out of the stores.
    fn from(account: EnvAccountRef<'env>) -> (cfg: AccountCfg)
        ensures
            cfg@ == account@,
    {
        account.to_cfg()
    }
}

impl<'env> vstd::std_specs::convert::FromSpecImpl<EnvAccountRef<'env>> for AccountCfg {
    /// The copy agrees with the account in its view; nothing more is promised of it.
    open spec fn obeys_from_spec() -> bool {
        false
    }

    open spec fn from_spec(account: EnvAccountRef<'env>) -> AccountCfg {
        AccountCfg { shop: *account.shop, user: *account.user }
    }
}

impl<'env> From<EnvClusterRef<'env>> for ClusterCfg {
    /// The cluster's facts, copied out of the stores.
    fn from(cluster: EnvClusterRef<'env>) -> (cfg: ClusterCfg)
        ensures
            cfg@ == cluster@,
    {
        cluster.to_cfg()
    }
}

impl<'env> vstd::std_specs::convert::FromSpecImpl<EnvClusterRef<'env>> for ClusterCfg {
    /// The copy agrees with the cluster in its view; nothing more is promised of it.
    open spec fn obeys_from_spec() -> bool {
        false
    }

    open spec fn from_spec(cluster: EnvClusterRef<'env>) -> ClusterCfg {
        ClusterCfg { shop: *cluster.shop, user: *cluster.user }
    }
}

} // verus!
