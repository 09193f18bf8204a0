//! The mathematics of the environment: what normalising and resolving a
//! context pointer mean, what each mutation does to the two stores, and when
//! the stores are consistent with each other.

use crate::cfg::{
    AccountFacts, ClusterFacts, ContextPointer, ShopAccountFact, ShopClusterFact, ShopStore,
    UserAccountFact, UserClusterFact, UserStore, empty_pointer,
};
use crate::error::EnvFault;
use vstd::prelude::*;

verus! {

/// How a name stands in the two stores at one level.
pub enum Pairing {
    /// Neither store has it.
    Missing,
    /// The shop store has it, the user store has not: it exists and is not configured.
    ShopOnly,
    /// The user store has it, the shop store has not: the stores are inconsistent.
    UserOnly,
    /// Both stores have it: it is configured.
    Both,
}

/// The pairing of `key` between a map of the shop store and the map of the
/// user store at the same level.
pub open spec fn pairing<S, U>(
    shop: Map<Seq<char>, S>,
    user: Map<Seq<char>, U>,
    key: Seq<char>,
) -> Pairing {
    if shop.contains_key(key) {
        if user.contains_key(key) {
            Pairing::Both
        } else {
            Pairing::ShopOnly
        }
    } else {
        if user.contains_key(key) {
            Pairing::UserOnly
        } else {
            Pairing::Missing
        }
    }
}

/// Whether `candidates` has exactly one name.
pub open spec fn has_single<T>(candidates: Map<Seq<char>, T>) -> bool {
    candidates.dom().finite() && candidates.len() == 1
}

/// The name that one level of a pointer settles on: the wanted name if it
/// exists; else, when widening, the single candidate if there is exactly
/// one; else none.
pub open spec fn pick<T>(
    candidates: Map<Seq<char>, T>,
    wanted: Option<Seq<char>>,
    widen: bool,
) -> Option<Seq<char>> {
    if wanted is Some && candidates.contains_key(wanted->0) {
        wanted
    } else if widen && has_single(candidates) {
        Some(candidates.dom().choose())
    } else {
        None
    }
}

/// The pointer narrowed to what exists in the shop store, and widened where
/// `widen` is set and only one candidate exists. A level that stays open
/// clears every level below it; the namespace is never looked up.
pub open spec fn normalize_pointer(
    shop: ShopStore,
    pointer: ContextPointer,
    widen: bool,
) -> ContextPointer {
    match pick(shop.accounts, pointer.account, widen) {
        None => empty_pointer(),
        Some(account) => match pick(shop.accounts[account].clusters, pointer.cluster, widen) {
            None => ContextPointer { account: Some(account), cluster: None, namespace: None },
            Some(cluster) => ContextPointer {
                account: Some(account),
                cluster: Some(cluster),
                namespace: pointer.namespace,
            },
        },
    }
}

/// A context in which every level that is set carries the facts of both stores.
pub struct ResolvedContext {
    pub account: Option<(Seq<char>, AccountFacts)>,
    pub cluster: Option<(Seq<char>, ClusterFacts)>,
    pub namespace: Option<Seq<char>>,
}

/// The context in which nothing is set.
pub open spec fn empty_context() -> ResolvedContext {
    ResolvedContext { account: None, cluster: None, namespace: None }
}

/// The pointer that names what a resolved context holds.
pub open spec fn pointer_of(context: ResolvedContext) -> ContextPointer {
    ContextPointer {
        account: match context.account {
            Some(account) => Some(account.0),
            None => None,
        },
        cluster: match context.cluster {
            Some(cluster) => Some(cluster.0),
            None => None,
        },
        namespace: context.namespace,
    }
}

/// The facts of both stores for the levels that the pointer names. A level
/// that is missing or not configured stays unset, and so does everything
/// below it. A name that only the user store has is an error.
pub open spec fn resolve_pointer(
    shop: ShopStore,
    user: UserStore,
    pointer: ContextPointer,
) -> Result<ResolvedContext, EnvFault> {
    match pointer.account {
        None => Ok(empty_context()),
        Some(account) => match pairing(shop.accounts, user.accounts, account) {
            Pairing::UserOnly => Err(EnvFault::InconsistentAccountData { name: account }),
            Pairing::Missing | Pairing::ShopOnly => Ok(empty_context()),
            Pairing::Both => {
                let facts = AccountFacts {
                    shop: shop.accounts[account],
                    user: user.accounts[account],
                };
                let account_only = ResolvedContext {
                    account: Some((account, facts)),
                    cluster: None,
                    namespace: None,
                };
                match pointer.cluster {
                    None => Ok(account_only),
                    Some(cluster) => match pairing(
                        facts.shop.clusters,
                        facts.user.clusters,
                        cluster,
                    ) {
                        Pairing::UserOnly => Err(
                            EnvFault::InconsistentClusterData { name: cluster },
                        ),
                        Pairing::Missing | Pairing::ShopOnly => Ok(account_only),
                        Pairing::Both => Ok(
                            ResolvedContext {
                                account: Some((account, facts)),
                                cluster: Some(
                                    (
                                        cluster,
                                        ClusterFacts {
                                            shop: facts.shop.clusters[cluster],
                                            user: facts.user.clusters[cluster],
                                        },
                                    ),
                                ),
                                namespace: pointer.namespace,
                            },
                        ),
                    },
                }
            },
        },
    }
}

/// The stores are consistent: whatever the user store has, account or
/// cluster, the shop store has too.
pub open spec fn paired(shop: ShopStore, user: UserStore) -> bool {
    forall|account: Seq<char>| #[trigger]
        user.accounts.contains_key(account) ==> {
            &&& shop.accounts.contains_key(account)
            &&& forall|cluster: Seq<char>| #[trigger]
                user.accounts[account].clusters.contains_key(cluster)
                    ==> shop.accounts[account].clusters.contains_key(cluster)
        }
}

/// The name under which an account is bootstrapped: the shop's name, a
/// hyphen, the account's name.
pub open spec fn bootstrap_name(shop_name: Seq<char>, account: Seq<char>) -> Seq<char> {
    shop_name + seq!['-'] + account
}

/// The domain of a cluster: the cluster's name, `.k8s.`, the shop's domain.
pub open spec fn cluster_domain(cluster: Seq<char>, shop_domain: Seq<char>) -> Seq<char> {
    cluster + seq!['.', 'k', '8', 's', '.'] + shop_domain
}

/// The record of a newly added account: no clusters yet.
pub open spec fn new_account(
    shop_name: Seq<char>,
    account: Seq<char>,
    region: Seq<char>,
) -> ShopAccountFact {
    ShopAccountFact {
        bootstrap_name: bootstrap_name(shop_name, account),
        bootstrap_aws_region: region,
        clusters: Map::empty(),
    }
}

/// The shop store after `account` was added in `region`.
pub open spec fn with_account(shop: ShopStore, account: Seq<char>, region: Seq<char>) -> ShopStore {
    ShopStore {
        shop: shop.shop,
        accounts: shop.accounts.insert(account, new_account(shop.shop.name, account, region)),
    }
}

/// The shop store after `cluster` was added to `account`.
pub open spec fn with_cluster(shop: ShopStore, account: Seq<char>, cluster: Seq<char>) -> ShopStore {
    let before = shop.accounts[account];
    let fact = ShopClusterFact { domain: cluster_domain(cluster, shop.shop.domain) };
    ShopStore {
        shop: shop.shop,
        accounts: shop.accounts.insert(
            account,
            ShopAccountFact { clusters: before.clusters.insert(cluster, fact), ..before },
        ),
    }
}

/// The user's record of an account once `profile` is configured for it:
/// the profile is set, the clusters stay as they were.
pub open spec fn configured_account(
    user: UserStore,
    account: Seq<char>,
    profile: Seq<char>,
) -> UserAccountFact {
    UserAccountFact {
        aws_profile: profile,
        clusters: if user.accounts.contains_key(account) {
            user.accounts[account].clusters
        } else {
            Map::empty()
        },
    }
}

/// The user store after `profile` was configured for `account`.
pub open spec fn with_profile(user: UserStore, account: Seq<char>, profile: Seq<char>) -> UserStore {
    UserStore { accounts: user.accounts.insert(account, configured_account(user, account, profile)) }
}

/// The user store after `kube_ctx` was configured for `cluster` of `account`.
pub open spec fn with_kube_ctx(
    user: UserStore,
    account: Seq<char>,
    cluster: Seq<char>,
    kube_ctx: Seq<char>,
) -> UserStore {
    let before = user.accounts[account];
    UserStore {
        accounts: user.accounts.insert(
            account,
            UserAccountFact {
                clusters: before.clusters.insert(cluster, UserClusterFact { kube_ctx }),
                ..before
            },
        ),
    }
}

/// The context that a stored pointer selects: the pointer normalised with
/// widening, then resolved.
pub open spec fn selected_context(
    shop: ShopStore,
    user: UserStore,
    pointer: ContextPointer,
) -> Result<ResolvedContext, EnvFault> {
    resolve_pointer(shop, user, normalize_pointer(shop, pointer, true))
}

/// The selected context, for a caller that needs an account: without an
/// account after normalising it is `AccountNotSet`; with an account that is
/// not configured it is `AccountNotConfigured`.
pub open spec fn selected_account(
    shop: ShopStore,
    user: UserStore,
    pointer: ContextPointer,
) -> Result<ResolvedContext, EnvFault> {
    let normal = normalize_pointer(shop, pointer, true);
    match resolve_pointer(shop, user, normal) {
        Err(e) => Err(e),
        Ok(context) => if normal.account is None {
            Err(EnvFault::AccountNotSet)
        } else if context.account is None {
            Err(EnvFault::AccountNotConfigured { name: normal.account->0 })
        } else {
            Ok(context)
        },
    }
}

/// The selected context, for a caller that needs a cluster: without a
/// cluster after normalising it is `ClusterNotSet`; with an account or a
/// cluster that is not configured it is `AccountNotConfigured` or
/// `ClusterNotConfigured`.
pub open spec fn selected_cluster(
    shop: ShopStore,
    user: UserStore,
    pointer: ContextPointer,
) -> Result<ResolvedContext, EnvFault> {
    let normal = normalize_pointer(shop, pointer, true);
    match resolve_pointer(shop, user, normal) {
        Err(e) => Err(e),
        Ok(context) => if normal.cluster is None {
            Err(EnvFault::ClusterNotSet)
        } else if context.account is None {
            Err(EnvFault::AccountNotConfigured { name: normal.account->0 })
        } else if context.cluster is None {
            Err(EnvFault::ClusterNotConfigured { name: normal.cluster->0 })
        } else {
            Ok(context)
        },
    }
}

/// The level of a pointer that a switch sets.
pub enum Level {
    Account,
    Cluster,
    Namespace,
}

/// The pointer after a switch: the stored pointer normalised with widening,
/// then `name` written over the one level, whether or not it exists.
pub open spec fn switched_pointer(
    shop: ShopStore,
    pointer: ContextPointer,
    level: Level,
    name: Seq<char>,
) -> ContextPointer {
    let normal = normalize_pointer(shop, pointer, true);
    match level {
        Level::Account => ContextPointer { account: Some(name), ..normal },
        Level::Cluster => ContextPointer { cluster: Some(name), ..normal },
        Level::Namespace => ContextPointer { namespace: Some(name), ..normal },
    }
}

/// Why an account cannot be added, if it cannot: the shop store has it
/// already, or the user store has it though the shop store has not.
pub open spec fn add_account_fault(shop: ShopStore, user: UserStore, account: Seq<char>) -> Option<
    EnvFault,
> {
    match pairing(shop.accounts, user.accounts, account) {
        Pairing::Both | Pairing::ShopOnly => Some(EnvFault::AccountExists { name: account }),
        Pairing::UserOnly => Some(EnvFault::InconsistentAccountData { name: account }),
        Pairing::Missing => None,
    }
}

/// Why a cluster cannot be added, if it cannot: the shop store lacks the
/// account, or the account has the cluster already.
pub open spec fn add_cluster_fault(shop: ShopStore, account: Seq<char>, cluster: Seq<char>) -> Option<
    EnvFault,
> {
    if !shop.accounts.contains_key(account) {
        Some(EnvFault::AccountDoesNotExist { name: account })
    } else if shop.accounts[account].clusters.contains_key(cluster) {
        Some(EnvFault::ClusterExists { name: cluster })
    } else {
        None
    }
}

/// Why an account cannot be configured, if it cannot: the shop store lacks it.
pub open spec fn configure_account_fault(shop: ShopStore, account: Seq<char>) -> Option<EnvFault> {
    if !shop.accounts.contains_key(account) {
        Some(EnvFault::AccountDoesNotExist { name: account })
    } else {
        None
    }
}

/// Why a cluster cannot be configured, if it cannot: the account is
/// inconsistent, not configured or missing, or the shop store lacks the
/// cluster.
pub open spec fn configure_cluster_fault(
    shop: ShopStore,
    user: UserStore,
    account: Seq<char>,
    cluster: Seq<char>,
) -> Option<EnvFault> {
    match pairing(shop.accounts, user.accounts, account) {
        Pairing::UserOnly => Some(EnvFault::InconsistentAccountData { name: account }),
        Pairing::ShopOnly => Some(EnvFault::AccountNotConfigured { name: account }),
        Pairing::Missing => Some(EnvFault::AccountDoesNotExist { name: account }),
        Pairing::Both => if !shop.accounts[account].clusters.contains_key(cluster) {
            Some(EnvFault::ClusterDoesNotExist { name: cluster })
        } else {
            None
        },
    }
}

/// The account that an operation works on: the one given, or else the one
/// that the stored context selects.
pub open spec fn target_account(
    shop: ShopStore,
    user: UserStore,
    pointer: ContextPointer,
    given: Option<Seq<char>>,
) -> Result<Seq<char>, EnvFault> {
    match given {
        Some(account) => Ok(account),
        None => match selected_account(shop, user, pointer) {
            Ok(context) => Ok((context.account->0).0),
            Err(e) => Err(e),
        },
    }
}

} // verus!
