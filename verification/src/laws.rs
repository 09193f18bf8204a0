//! What holds of the environment whatever the stores contain.

use crate::cfg::{ContextPointer, ShopIdentity, ShopStore, UserStore, empty_pointer};
use crate::env::account_lookup;
use crate::error::EnvFault;
use crate::model::{
    add_account_fault, add_cluster_fault, configure_account_fault, configure_cluster_fault,
    has_single, normalize_pointer, paired, pick, resolve_pointer, with_account, with_cluster,
    with_kube_ctx, with_profile,
};
use vstd::prelude::*;

verus! {

/// A change that an operator can ask for.
pub enum Operation {
    AddAccount { name: Seq<char>, region: Seq<char> },
    AddCluster { account: Seq<char>, name: Seq<char> },
    ConfigureAccount { name: Seq<char>, profile: Seq<char> },
    ConfigureCluster { account: Seq<char>, name: Seq<char>, kube_ctx: Seq<char> },
}

/// The two stores.
pub struct Stores {
    pub shop: ShopStore,
    pub user: UserStore,
}

/// The stores after one operation: changed as the operation says where it
/// is allowed, and as they were where it is refused.
pub open spec fn apply(stores: Stores, operation: Operation) -> Stores {
    let Stores { shop, user } = stores;
    match operation {
        Operation::AddAccount { name, region } => if add_account_fault(shop, user, name) is None {
            Stores { shop: with_account(shop, name, region), user }
        } else {
            stores
        },
        Operation::AddCluster { account, name } => if add_cluster_fault(shop, account, name)
            is None {
            Stores { shop: with_cluster(shop, account, name), user }
        } else {
            stores
        },
        Operation::ConfigureAccount { name, profile } => if configure_account_fault(shop, name)
            is None {
            Stores { shop, user: with_profile(user, name, profile) }
        } else {
            stores
        },
        Operation::ConfigureCluster { account, name, kube_ctx } => if configure_cluster_fault(
            shop,
            user,
            account,
            name,
        ) is None {
            Stores { shop, user: with_kube_ctx(user, account, name, kube_ctx) }
        } else {
            stores
        },
    }
}

/// The stores after a sequence of operations, applied in order.
pub open spec fn run(stores: Stores, operations: Seq<Operation>) -> Stores
    decreases operations.len(),
{
    if operations.len() == 0 {
        stores
    } else {
        apply(run(stores, operations.drop_last()), operations.last())
    }
}

/// A shop that was just created: no account in either store.
pub open spec fn fresh(shop: ShopIdentity) -> Stores {
    Stores {
        shop: ShopStore { shop, accounts: Map::empty() },
        user: UserStore { accounts: Map::empty() },
    }
}

/// A freshly created shop is consistent.
pub proof fn lemma_fresh_is_paired(shop: ShopIdentity)
    ensures
        paired(fresh(shop).shop, fresh(shop).user),
{
}

/// No single operation makes consistent stores inconsistent.
pub proof fn lemma_apply_keeps_pairing(stores: Stores, operation: Operation)
    requires
        paired(stores.shop, stores.user),
    ensures
        paired(apply(stores, operation).shop, apply(stores, operation).user),
{
    let after = apply(stores, operation);
    assert forall|account: Seq<char>| #[trigger]
        after.user.accounts.contains_key(account) implies {
        &&& after.shop.accounts.contains_key(account)
        &&& forall|cluster: Seq<char>| #[trigger]
            after.user.accounts[account].clusters.contains_key(cluster)
                ==> after.shop.accounts[account].clusters.contains_key(cluster)
    } by {
        if stores.user.accounts.contains_key(account) {
            assert(stores.shop.accounts.contains_key(account));
        }
    }
}

/// The pairing invariant: starting from consistent stores, no sequence of
/// operations reaches a state in which the user store has an account, or a
/// cluster, that the shop store lacks.
pub proof fn lemma_pairing_invariant(stores: Stores, operations: Seq<Operation>)
    requires
        paired(stores.shop, stores.user),
    ensures
        paired(run(stores, operations).shop, run(stores, operations).user),
    decreases operations.len(),
{
    if operations.len() > 0 {
        lemma_pairing_invariant(stores, operations.drop_last());
        lemma_apply_keeps_pairing(run(stores, operations.drop_last()), operations.last());
    }
}

/// An inconsistency is detected when it is read: an account that the user
/// store has and the shop store lacks, however it got there, makes every
/// lookup of it, and every resolution of a pointer to it, fail with
/// `InconsistentAccountData`.
pub proof fn lemma_inconsistent_account_detected(
    shop: ShopStore,
    user: UserStore,
    pointer: ContextPointer,
    name: Seq<char>,
)
    requires
        user.accounts.contains_key(name),
        !shop.accounts.contains_key(name),
        pointer.account == Some(name),
    ensures
        !paired(shop, user),
        account_lookup(shop, user, name) is Err,
        account_lookup(shop, user, name)->Err_0 == (EnvFault::InconsistentAccountData { name }),
        resolve_pointer(shop, user, pointer) is Err,
        resolve_pointer(shop, user, pointer)->Err_0 == (EnvFault::InconsistentAccountData {
            name,
        }),
{
}

/// Between consistent stores no lookup and no resolution ever reports an
/// inconsistency.
pub proof fn lemma_paired_never_inconsistent(
    shop: ShopStore,
    user: UserStore,
    pointer: ContextPointer,
    name: Seq<char>,
)
    requires
        paired(shop, user),
    ensures
        account_lookup(shop, user, name) is Err ==> account_lookup(shop, user, name)->Err_0 == (
        EnvFault::AccountNotConfigured { name }),
        resolve_pointer(shop, user, pointer) is Ok,
{
    if pointer.account is Some {
        let account = pointer.account->0;
        if user.accounts.contains_key(account) {
            assert(shop.accounts.contains_key(account));
            if pointer.cluster is Some {
                let cluster = pointer.cluster->0;
                if user.accounts[account].clusters.contains_key(cluster) {
                    assert(shop.accounts[account].clusters.contains_key(cluster));
                }
            }
        }
    }
}

/// Configuring an account twice is configuring it once with the second
/// profile: one record under the name, holding the second profile, and no
/// trace of the first.
pub proof fn lemma_configure_twice(
    user: UserStore,
    name: Seq<char>,
    first: Seq<char>,
    second: Seq<char>,
)
    ensures
        with_profile(with_profile(user, name, first), name, second) == with_profile(
            user,
            name,
            second,
        ),
        with_profile(with_profile(user, name, first), name, second).accounts.dom()
            == user.accounts.dom().insert(name),
        with_profile(with_profile(user, name, first), name, second).accounts[name].aws_profile
            == second,
{
    let once = with_profile(user, name, second);
    let twice = with_profile(with_profile(user, name, first), name, second);
    assert(twice.accounts =~= once.accounts);
    assert(twice.accounts.dom() =~= user.accounts.dom().insert(name));
}

/// Configuring an account changes nothing for any other account, and keeps
/// what was configured for the account's clusters.
pub proof fn lemma_configure_is_local(
    user: UserStore,
    name: Seq<char>,
    profile: Seq<char>,
    other: Seq<char>,
)
    requires
        other != name,
    ensures
        with_profile(user, name, profile).accounts.contains_key(other)
            == user.accounts.contains_key(other),
        user.accounts.contains_key(other) ==> with_profile(user, name, profile).accounts[other]
            == user.accounts[other],
        user.accounts.contains_key(name) ==> with_profile(user, name, profile).accounts[name].clusters
            == user.accounts[name].clusters,
{
}

/// Widening adopts the only account: with exactly one account in the shop
/// store, a pointer without an account normalises, with widening, to that
/// account.
pub proof fn lemma_widen_single_account(shop: ShopStore, pointer: ContextPointer, solo: Seq<char>)
    requires
        has_single(shop.accounts),
        shop.accounts.contains_key(solo),
        pointer.account is None,
    ensures
        normalize_pointer(shop, pointer, true).account == Some(solo),
{
    Set::lemma_is_singleton(shop.accounts.dom());
    assert(shop.accounts.dom().contains(shop.accounts.dom().choose()));
}

/// Widening needs exactly one candidate: with no account or more than one
/// in the shop store, a pointer without an account normalises to the empty
/// pointer, widening or not.
pub proof fn lemma_widen_needs_single_account(shop: ShopStore, pointer: ContextPointer, widen: bool)
    requires
        !has_single(shop.accounts),
        pointer.account is None,
    ensures
        normalize_pointer(shop, pointer, widen) == empty_pointer(),
{
}

/// Narrowing clears what lies below: without widening, a pointer whose
/// account the shop store lacks normalises to the empty pointer, whatever
/// cluster and namespace it names.
pub proof fn lemma_narrow_clears_descendants(shop: ShopStore, pointer: ContextPointer)
    requires
        pointer.account is None || !shop.accounts.contains_key(pointer.account->0),
    ensures
        normalize_pointer(shop, pointer, false) == empty_pointer(),
{
}

/// What a normalised pointer names exists: its account in the shop store,
/// its cluster under that account; and no level is set below one that is
/// not.
pub proof fn lemma_normalized_exists(shop: ShopStore, pointer: ContextPointer, widen: bool)
    ensures
        ({
            let normal = normalize_pointer(shop, pointer, widen);
            &&& normal.account is Some ==> shop.accounts.contains_key(normal.account->0)
            &&& normal.cluster is Some ==> normal.account is Some
                && shop.accounts[normal.account->0].clusters.contains_key(normal.cluster->0)
            &&& normal.namespace is Some ==> normal.cluster is Some && normal.namespace
                == pointer.namespace
        }),
{
    lemma_pick_exists(shop.accounts, pointer.account, widen);
    let account = pick(shop.accounts, pointer.account, widen);
    if account is Some {
        lemma_pick_exists(shop.accounts[account->0].clusters, pointer.cluster, widen);
    }
}

/// The name that a level settles on is one of the candidates.
pub proof fn lemma_pick_exists<T>(
    candidates: Map<Seq<char>, T>,
    wanted: Option<Seq<char>>,
    widen: bool,
)
    ensures
        pick(candidates, wanted, widen) is Some ==> candidates.contains_key(
            pick(candidates, wanted, widen)->0,
        ),
{
    if !(wanted is Some && candidates.contains_key(wanted->0)) && widen && has_single(candidates) {
        assert(candidates.dom().contains(candidates.dom().choose()));
    }
}

/// Normalising a normalised pointer changes nothing.
pub proof fn lemma_normalize_twice(shop: ShopStore, pointer: ContextPointer, widen: bool)
    ensures
        normalize_pointer(shop, normalize_pointer(shop, pointer, widen), widen)
            == normalize_pointer(shop, pointer, widen),
{
    lemma_normalized_exists(shop, pointer, widen);
}

} // verus!
