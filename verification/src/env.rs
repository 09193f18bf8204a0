//! The environment: the shop store, the user store and the context pointer
//! held together, with the operations that read and change them.

use crate::cfg::{
    copy_text, text_of, AccountCfg, AccountFacts, ClusterCfg, ClusterFacts, ContextPointer,
    ContextYaml, ShopAccountCfg, ShopCfg, ShopClusterCfg, ShopClusterFact, ShopIdentity, ShopStore,
    ShopYaml, UserAccountCfg, UserClusterCfg, UserClusterFact, UserStore, UserYaml,
};
use crate::error::{EnvError, EnvFault, EnvResult};
use crate::join::{join, lookup_view, result_view, EnvAccountRef, Joined};
use crate::model::{
    add_account_fault, add_cluster_fault, cluster_domain, configure_account_fault,
    configure_cluster_fault, configured_account, has_single, new_account, normalize_pointer,
    pairing, pick, pointer_of, resolve_pointer, selected_account, selected_cluster,
    selected_context, switched_pointer, target_account, with_account, with_cluster,
    with_kube_ctx, with_profile, Level, Pairing, ResolvedContext,
};
use crate::names::{Fact, NameMap};
use crate::text::{followed_by, glue};
use vstd::prelude::*;

verus! {

/// A context in which every level that is set carries the facts of both stores.
#[derive(Debug, Clone)]
pub struct EnvContext {
    pub account: Option<(String, AccountCfg)>,
    pub cluster: Option<(String, ClusterCfg)>,
    pub namespace: Option<String>,
}

impl View for EnvContext {
    type V = ResolvedContext;

    open spec fn view(&self) -> ResolvedContext {
        ResolvedContext {
            account: match self.account {
                Some(account) => Some((account.0@, account.1@)),
                None => None,
            },
            cluster: match self.cluster {
                Some(cluster) => Some((cluster.0@, cluster.1@)),
                None => None,
            },
            namespace: text_of(self.namespace),
        }
    }
}

impl Default for EnvContext {
    fn default() -> (context: Self)
        ensures
            context@ == crate::model::empty_context(),
    {
        EnvContext { account: None, cluster: None, namespace: None }
    }
}

impl EnvContext {
    /// The pointer that names what this context holds.
    pub fn to_pointer(&self) -> (pointer: ContextYaml)
        ensures
            pointer@ == pointer_of(self@),
    {
        ContextYaml {
            account: match &self.account {
                Some(account) => Some(account.0.clone()),
                None => None,
            },
            cluster: match &self.cluster {
                Some(cluster) => Some(cluster.0.clone()),
                None => None,
            },
            namespace: copy_text(&self.namespace),
        }
    }
}

impl From<EnvContext> for ContextYaml {
    fn from(context: EnvContext) -> (pointer: ContextYaml) {
        ContextYaml {
            account: match context.account {
                Some(account) => Some(account.0),
                None => None,
            },
            cluster: match context.cluster {
                Some(cluster) => Some(cluster.0),
                None => None,
            },
            namespace: context.namespace,
        }
    }
}

impl vstd::std_specs::convert::FromSpecImpl<EnvContext> for ContextYaml {
    open spec fn obeys_from_spec() -> bool {
        true
    }

    open spec fn from_spec(context: EnvContext) -> ContextYaml {
        ContextYaml {
            account: match context.account {
                Some(account) => Some(account.0),
                None => None,
            },
            cluster: match context.cluster {
                Some(cluster) => Some(cluster.0),
                None => None,
            },
            namespace: context.namespace,
        }
    }
}

/// One of the three stores.
#[derive(Debug, Clone, Copy, PartialEq, Eq, Structural)]
pub enum Store {
    Shop,
    User,
    Context,
}

/// The environment. Each store has a flag that says whether it was changed
/// since it was last written.
pub struct Env {
    shop: ShopYaml,
    shop_dirty: bool,
    user: UserYaml,
    user_dirty: bool,
    context_path: ContextYaml,
    context_dirty: bool,
}

/// What an environment holds.
pub struct EnvState {
    pub shop: ShopStore,
    pub user: UserStore,
    pub context: ContextPointer,
    pub shop_dirty: bool,
    pub user_dirty: bool,
    pub context_dirty: bool,
}

impl View for Env {
    type V = EnvState;

    closed spec fn view(&self) -> EnvState {
        EnvState {
            shop: self.shop@,
            user: self.user@,
            context: self.context_path@,
            shop_dirty: self.shop_dirty,
            user_dirty: self.user_dirty,
            context_dirty: self.context_dirty,
        }
    }
}

/// What looking up the account `name` gives: the account if it is
/// configured, nothing if neither store has it, an error if only one has.
pub open spec fn account_lookup(shop: ShopStore, user: UserStore, name: Seq<char>) -> Result<
    Option<AccountFacts>,
    EnvFault,
> {
    match pairing(shop.accounts, user.accounts, name) {
        Pairing::Both => Ok(Some(AccountFacts { shop: shop.accounts[name], user: user.accounts[name] })),
        Pairing::Missing => Ok(None),
        Pairing::UserOnly => Err(EnvFault::InconsistentAccountData { name }),
        Pairing::ShopOnly => Err(EnvFault::AccountNotConfigured { name }),
    }
}

/// A map with a single name has that name as its only candidate.
proof fn lemma_single_candidate<T>(candidates: Map<Seq<char>, T>, name: Seq<char>)
    requires
        has_single(candidates),
        candidates.contains_key(name),
    ensures
        candidates.dom().choose() == name,
{
    Set::lemma_is_singleton(candidates.dom());
    assert(candidates.dom().contains(candidates.dom().choose()));
}

/// The name that one level of a pointer settles on, with what is stored
/// under it.
fn pick_entry<'a, V: Fact>(candidates: &'a NameMap<V>, wanted: &Option<String>, widen: bool) -> (picked:
    Option<(String, &'a V)>)
    ensures
        match picked {
            Some((name, value)) => pick(candidates@, text_of(*wanted), widen) == Some(name@)
                && candidates@.contains_key(name@) && value@ == candidates@[name@],
            None => pick(candidates@, text_of(*wanted), widen) is None,
        },
{
    if let Some(name) = wanted {
        if let Some(value) = candidates.get(name.as_str()) {
            return Some((name.clone(), value));
        }
    }
    if widen {
        match candidates.only() {
            Some((name, value)) => {
                proof {
                    lemma_single_candidate(candidates@, name@);
                }
                Some((name.clone(), value))
            },
            None => None,
        }
    } else {
        None
    }
}

/// The part of the context line that tells the namespace.
pub open spec fn namespace_part(context: ResolvedContext) -> Seq<char> {
    match context.namespace {
        Some(namespace) => "; namespace="@ + namespace,
        None => Seq::empty(),
    }
}

/// The part of the context line that tells the cluster and what is below it.
pub open spec fn cluster_part(context: ResolvedContext) -> Seq<char> {
    match context.cluster {
        Some((name, facts)) => "; cluster="@ + name + " ("@ + facts.user.kube_ctx + ")"@
            + namespace_part(context),
        None => Seq::empty(),
    }
}

/// The part of the context line that tells the account and what is below it.
pub open spec fn account_part(context: ResolvedContext) -> Seq<char> {
    match context.account {
        Some((name, facts)) => "; account="@ + name + " ("@ + facts.user.aws_profile + ")"@
            + cluster_part(context),
        None => Seq::empty(),
    }
}

/// The line that tells an operator the context: the shop, then each level
/// that is set, as long as the level above it is set too.
pub open spec fn context_line(shop: ShopIdentity, context: ResolvedContext) -> Seq<char> {
    "Context: shop="@ + shop.name + " ("@ + shop.domain + ")"@ + account_part(context) + "\n"@
}

impl Env {
    /// The name of the variable that switches the wrapping of binaries off.
    pub const NO_BIN_WRAP_ENV_NAME: &'static str = "RUSTSHOP_NO_BIN_WRAP";

    /// The environment made of what was found under the root. Without a
    /// shop store there is no environment; a user store or a context that
    /// was not found starts empty.
    pub fn load(shop: Option<ShopYaml>, user: Option<UserYaml>, context: Option<ContextYaml>) -> (env:
        EnvResult<Env>)
        ensures
            shop is None ==> env is Err && env->Err_0@ == EnvFault::ShopDoesNotExist,
            shop is Some ==> env is Ok && env->Ok_0@ == (EnvState {
                shop: shop->0@,
                user: match user {
                    Some(user) => user@,
                    None => UserStore { accounts: Map::empty() },
                },
                context: match context {
                    Some(context) => context@,
                    None => crate::cfg::empty_pointer(),
                },
                shop_dirty: false,
                user_dirty: false,
                context_dirty: false,
            }),
    {
        match shop {
            None => Err(EnvError::ShopDoesNotExist),
            Some(shop) => Ok(
                Env {
                    shop,
                    shop_dirty: false,
                    user: match user {
                        Some(user) => user,
                        None => UserYaml::default(),
                    },
                    user_dirty: false,
                    context_path: match context {
                        Some(context) => context,
                        None => ContextYaml::default(),
                    },
                    context_dirty: false,
                },
            ),
        }
    }

    /// The shop store as it stands.
    pub fn shop_yaml(&self) -> (store: &ShopYaml)
        ensures
            store@ == self@.shop,
    {
        &self.shop
    }

    /// The user store as it stands.
    pub fn user_yaml(&self) -> (store: &UserYaml)
        ensures
            store@ == self@.user,
    {
        &self.user
    }

    /// The context pointer as it stands.
    pub fn context_yaml(&self) -> (pointer: &ContextYaml)
        ensures
            pointer@ == self@.context,
    {
        &self.context_path
    }

    /// The store that has to be written next: the first, in the order shop,
    /// user, context, that was changed since it was last written.
    pub fn pending_write(&self) -> (store: Option<Store>)
        ensures
            store == if self@.shop_dirty {
                Some(Store::Shop)
            } else if self@.user_dirty {
                Some(Store::User)
            } else if self@.context_dirty {
                Some(Store::Context)
            } else {
                None
            },
    {
        if self.shop_dirty {
            Some(Store::Shop)
        } else if self.user_dirty {
            Some(Store::User)
        } else if self.context_dirty {
            Some(Store::Context)
        } else {
            None
        }
    }

    /// Records that `store` was written as it stands.
    pub fn mark_written(&mut self, store: Store)
        ensures
            final(self)@ == (EnvState {
                shop_dirty: old(self)@.shop_dirty && store != Store::Shop,
                user_dirty: old(self)@.user_dirty && store != Store::User,
                context_dirty: old(self)@.context_dirty && store != Store::Context,
                ..old(self)@
            }),
    {
        match store {
            Store::Shop => {
                self.shop_dirty = false;
            },
            Store::User => {
                self.user_dirty = false;
            },
            Store::Context => {
                self.context_dirty = false;
            },
        }
    }

    /// The identity of the shop.
    pub fn get_shop_ref(&self) -> (shop: &ShopCfg)
        ensures
            shop@ == self@.shop.shop,
    {
        &self.shop.shop
    }

    /// The identity of the shop.
    pub fn shop_cfg(&self) -> (shop: &ShopCfg)
        ensures
            shop@ == self@.shop.shop,
    {
        &self.shop.shop
    }

    /// What the shop store holds for the account `name`, if anything.
    pub fn get_shop_account_ref_opt(&self, name: &str) -> (account: Option<&ShopAccountCfg>)
        ensures
            account is Some <==> self@.shop.accounts.contains_key(name@),
            account is Some ==> account->0@ == self@.shop.accounts[name@],
    {
        self.shop.accounts.get(name)
    }

    /// What the shop store holds for the account `name`, which must exist.
    pub fn get_shop_account_ref(&self, name: &str) -> (account: EnvResult<&ShopAccountCfg>)
        ensures
            account is Ok <==> self@.shop.accounts.contains_key(name@),
            account is Ok ==> account->Ok_0@ == self@.shop.accounts[name@],
            account is Err ==> account->Err_0@ == (EnvFault::AccountDoesNotExist { name: name@ }),
    {
        match self.shop.accounts.get(name) {
            Some(account) => Ok(account),
            None => Err(EnvError::AccountDoesNotExist { name: name.to_owned() }),
        }
    }

    /// The account `name` as both stores describe it, if it is configured.
    pub fn get_account_ref_opt<'env>(&'env self, name: &str) -> (found: EnvResult<
        Option<EnvAccountRef<'env>>,
    >)
        ensures
            lookup_view(found) == account_lookup(self@.shop, self@.user, name@),
    {
        match join(&self.shop.accounts, &self.user.accounts, name) {
            Joined::Both(shop, user) => Ok(Some(EnvAccountRef { shop, user })),
            Joined::Missing => Ok(None),
            Joined::UserOnly(_) => Err(EnvError::InconsistentAccountData { name: name.to_owned() }),
            Joined::ShopOnly(_) => Err(EnvError::AccountNotConfigured { name: name.to_owned() }),
        }
    }

    /// The account `name` as both stores describe it; it must be configured.
    pub fn get_account_ref<'env>(&'env self, name: &str) -> (found: EnvResult<EnvAccountRef<'env>>)
        ensures
            result_view(found) == match account_lookup(self@.shop, self@.user, name@) {
                Ok(Some(account)) => Ok(account),
                Ok(None) => Err(EnvFault::AccountDoesNotExist { name: name@ }),
                Err(e) => Err(e),
            },
    {
        match self.get_account_ref_opt(name) {
            Ok(Some(account)) => Ok(account),
            Ok(None) => Err(EnvError::AccountDoesNotExist { name: name.to_owned() }),
            Err(e) => Err(e),
        }
    }

    /// Narrows the pointer to what exists in the shop store and, where
    /// `widen` is set, fills a level that is open with the only candidate.
    /// No pointer at all counts as the empty pointer.
    pub fn normalize_context_path(&self, context_path: Option<ContextYaml>, widen: bool) -> (normal:
        EnvResult<ContextYaml>)
        ensures
            normal is Ok,
            normal->Ok_0@ == normalize_pointer(
                self@.shop,
                match context_path {
                    Some(pointer) => pointer@,
                    None => crate::cfg::empty_pointer(),
                },
                widen,
            ),
    {
        let pointer = match context_path {
            Some(pointer) => pointer,
            None => ContextYaml::default(),
        };
        let (account, fact) = match pick_entry(&self.shop.accounts, &pointer.account, widen) {
            Some(picked) => picked,
            None => {
                return Ok(ContextYaml { account: None, cluster: None, namespace: None });
            },
        };
        match pick_entry(&fact.clusters, &pointer.cluster, widen) {
            Some((cluster, _)) => Ok(
                ContextYaml {
                    account: Some(account),
                    cluster: Some(cluster),
                    namespace: pointer.namespace,
                },
            ),
            None => Ok(ContextYaml { account: Some(account), cluster: None, namespace: None }),
        }
    }

    /// Joins the facts of both stores for the levels that the pointer
    /// names. A level that is missing or not configured stays unset, with
    /// everything below it.
    pub fn resolve_context_path(&self, context_path: &ContextYaml) -> (context: EnvResult<
        EnvContext,
    >)
        ensures
            result_view(context) == resolve_pointer(self@.shop, self@.user, context_path@),
    {
        let account_name = match &context_path.account {
            Some(name) => name,
            None => {
                return Ok(EnvContext::default());
            },
        };
        let account = match join(&self.shop.accounts, &self.user.accounts, account_name.as_str()) {
            Joined::Both(shop, user) => EnvAccountRef { shop, user },
            Joined::UserOnly(_) => {
                return Err(EnvError::InconsistentAccountData { name: account_name.clone() });
            },
            Joined::Missing => {
                return Ok(EnvContext::default());
            },
            Joined::ShopOnly(_) => {
                return Ok(EnvContext::default());
            },
        };
        let cluster_name = match &context_path.cluster {
            Some(name) => name,
            None => {
                return Ok(
                    EnvContext {
                        account: Some((account_name.clone(), account.to_cfg())),
                        cluster: None,
                        namespace: None,
                    },
                );
            },
        };
        match account.get_cluster_ref_opt(cluster_name.as_str()) {
            Ok(Some(cluster)) => Ok(
                EnvContext {
                    account: Some((account_name.clone(), account.to_cfg())),
                    cluster: Some((cluster_name.clone(), cluster.to_cfg())),
                    namespace: copy_text(&context_path.namespace),
                },
            ),
            Ok(None) => Ok(
                EnvContext {
                    account: Some((account_name.clone(), account.to_cfg())),
                    cluster: None,
                    namespace: None,
                },
            ),
            Err(e) => Err(e),
        }
    }

    /// The context now selected: the stored pointer, normalised with
    /// widening, then resolved.
    pub fn get_context(&self) -> (context: EnvResult<EnvContext>)
        ensures
            result_view(context) == selected_context(self@.shop, self@.user, self@.context),
    {
        let pointer = match self.normalize_context_path(Some(self.context_path.duplicate()), true) {
            Ok(pointer) => pointer,
            Err(e) => {
                return Err(e);
            },
        };
        self.resolve_context_path(&pointer)
    }

    /// Like `get_context`, for a caller that cannot go on without an account.
    pub fn get_context_account(&self) -> (context: EnvResult<EnvContext>)
        ensures
            result_view(context) == selected_account(self@.shop, self@.user, self@.context),
    {
        let pointer = match self.normalize_context_path(Some(self.context_path.duplicate()), true) {
            Ok(pointer) => pointer,
            Err(e) => {
                return Err(e);
            },
        };
        let context = match self.resolve_context_path(&pointer) {
            Ok(context) => context,
            Err(e) => {
                return Err(e);
            },
        };
        match pointer.account {
            None => Err(EnvError::AccountNotSet),
            Some(name) => if context.account.is_none() {
                Err(EnvError::AccountNotConfigured { name })
            } else {
                Ok(context)
            },
        }
    }

    /// Like `get_context`, for a caller that cannot go on without a cluster.
    pub fn get_context_cluster(&self) -> (context: EnvResult<EnvContext>)
        ensures
            result_view(context) == selected_cluster(self@.shop, self@.user, self@.context),
    {
        let pointer = match self.normalize_context_path(Some(self.context_path.duplicate()), true) {
            Ok(pointer) => pointer,
            Err(e) => {
                return Err(e);
            },
        };
        let context = match self.resolve_context_path(&pointer) {
            Ok(context) => context,
            Err(e) => {
                return Err(e);
            },
        };
        match (pointer.account, pointer.cluster) {
            (_, None) => Err(EnvError::ClusterNotSet),
            (None, Some(_)) => Err(EnvError::ClusterNotSet),
            (Some(account), Some(cluster)) => if context.account.is_none() {
                Err(EnvError::AccountNotConfigured { name: account })
            } else if context.cluster.is_none() {
                Err(EnvError::ClusterNotConfigured { name: cluster })
            } else {
                Ok(context)
            },
        }
    }

    /// Stores `pointer` as the new context and says what it resolves to.
    fn switch_to(&mut self, pointer: ContextYaml) -> (context: EnvResult<EnvContext>)
        ensures
            final(self)@ == (EnvState { context: pointer@, context_dirty: true, ..old(self)@ }),
            result_view(context) == resolve_pointer(old(self)@.shop, old(self)@.user, pointer@),
    {
        let context = self.resolve_context_path(&pointer);
        self.context_path = pointer;
        self.context_dirty = true;
        context
    }

    /// Selects the account `name`. The stored pointer is normalised with
    /// widening, the account is written over it and the result is stored,
    /// whether or not it resolves; what it resolves to is returned.
    pub fn switch_account(&mut self, name: &str) -> (context: EnvResult<EnvContext>)
        ensures
            final(self)@ == (EnvState {
                context: switched_pointer(old(self)@.shop, old(self)@.context, Level::Account, name@),
                context_dirty: true,
                ..old(self)@
            }),
            result_view(context) == resolve_pointer(
                old(self)@.shop,
                old(self)@.user,
                final(self)@.context,
            ),
    {
        let normal = match self.normalize_context_path(Some(self.context_path.duplicate()), true) {
            Ok(pointer) => pointer,
            Err(e) => {
                return Err(e);
            },
        };
        self.switch_to(
            ContextYaml {
                account: Some(name.to_owned()),
                cluster: normal.cluster,
                namespace: normal.namespace,
            },
        )
    }

    /// Selects the cluster `name`, as `switch_account` selects an account.
    pub fn switch_cluster(&mut self, name: &str) -> (context: EnvResult<EnvContext>)
        ensures
            final(self)@ == (EnvState {
                context: switched_pointer(old(self)@.shop, old(self)@.context, Level::Cluster, name@),
                context_dirty: true,
                ..old(self)@
            }),
            result_view(context) == resolve_pointer(
                old(self)@.shop,
                old(self)@.user,
                final(self)@.context,
            ),
    {
        let normal = match self.normalize_context_path(Some(self.context_path.duplicate()), true) {
            Ok(pointer) => pointer,
            Err(e) => {
                return Err(e);
            },
        };
        self.switch_to(
            ContextYaml {
                account: normal.account,
                cluster: Some(name.to_owned()),
                namespace: normal.namespace,
            },
        )
    }

    /// Selects the namespace `name`, as `switch_account` selects an account.
    pub fn switch_namespace(&mut self, name: &str) -> (context: EnvResult<EnvContext>)
        ensures
            final(self)@ == (EnvState {
                context: switched_pointer(
                    old(self)@.shop,
                    old(self)@.context,
                    Level::Namespace,
                    name@,
                ),
                context_dirty: true,
                ..old(self)@
            }),
            result_view(context) == resolve_pointer(
                old(self)@.shop,
                old(self)@.user,
                final(self)@.context,
            ),
    {
        let normal = match self.normalize_context_path(Some(self.context_path.duplicate()), true) {
            Ok(pointer) => pointer,
            Err(e) => {
                return Err(e);
            },
        };
        self.switch_to(
            ContextYaml {
                account: normal.account,
                cluster: normal.cluster,
                namespace: Some(name.to_owned()),
            },
        )
    }

    /// Adds the account `name`, bootstrapped in `aws_region`, to the shop
    /// store. Its bootstrap name is the shop's name, a hyphen and `name`; it
    /// has no clusters yet.
    pub fn add_account(&mut self, name: &str, aws_region: &str) -> (added: EnvResult<ShopAccountCfg>)
        ensures
            match add_account_fault(old(self)@.shop, old(self)@.user, name@) {
                Some(fault) => added is Err && added->Err_0@ == fault && final(self)@ == old(self)@,
                None => added is Ok && added->Ok_0@ == new_account(
                    old(self)@.shop.shop.name,
                    name@,
                    aws_region@,
                ) && final(self)@ == (EnvState {
                    shop: with_account(old(self)@.shop, name@, aws_region@),
                    shop_dirty: true,
                    ..old(self)@
                }),
            },
    {
        match join(&self.shop.accounts, &self.user.accounts, name) {
            Joined::Both(_, _) => {
                return Err(EnvError::AccountExists { name: name.to_owned() });
            },
            Joined::ShopOnly(_) => {
                return Err(EnvError::AccountExists { name: name.to_owned() });
            },
            Joined::UserOnly(_) => {
                return Err(EnvError::InconsistentAccountData { name: name.to_owned() });
            },
            Joined::Missing => {},
        }
        proof {
            reveal_strlit("-");
            assert("-"@ =~= seq!['-']);
        }
        let account = ShopAccountCfg {
            bootstrap_name: glue(self.shop.shop.name.as_str(), "-", name),
            bootstrap_aws_region: aws_region.to_owned(),
            clusters: NameMap::new(),
        };
        self.shop.accounts.insert(name, account.duplicate());
        self.shop_dirty = true;
        Ok(account)
    }

    /// Adds the cluster `cluster_name` to the account `account_name` of the
    /// shop store. Its domain is `cluster_name`, `.k8s.` and the shop's
    /// domain, fixed from now on.
    pub fn add_cluster(&mut self, account_name: &str, cluster_name: &str) -> (added: EnvResult<
        ShopClusterCfg,
    >)
        ensures
            match add_cluster_fault(old(self)@.shop, account_name@, cluster_name@) {
                Some(fault) => added is Err && added->Err_0@ == fault && final(self)@ == old(self)@,
                None => added is Ok && added->Ok_0@ == (ShopClusterFact {
                    domain: cluster_domain(cluster_name@, old(self)@.shop.shop.domain),
                }) && final(self)@ == (EnvState {
                    shop: with_cluster(old(self)@.shop, account_name@, cluster_name@),
                    shop_dirty: true,
                    ..old(self)@
                }),
            },
    {
        let mut account = match self.shop.accounts.get(account_name) {
            Some(account) => account.duplicate(),
            None => {
                return Err(EnvError::AccountDoesNotExist { name: account_name.to_owned() });
            },
        };
        if account.clusters.contains_key(cluster_name) {
            return Err(EnvError::ClusterExists { name: cluster_name.to_owned() });
        }
        proof {
            reveal_strlit(".k8s.");
            assert(".k8s."@ =~= seq!['.', 'k', '8', 's', '.']);
        }
        let cluster = ShopClusterCfg {
            domain: glue(cluster_name, ".k8s.", self.shop.shop.domain.as_str()),
        };
        account.clusters.insert(cluster_name, cluster.duplicate());
        self.shop.accounts.insert(account_name, account);
        self.shop_dirty = true;
        Ok(cluster)
    }

    /// Configures `profile` for the account `name`, which the shop store
    /// must have. What was configured for its clusters stays.
    pub fn configure_account(&mut self, name: &str, profile: &str) -> (configured: EnvResult<
        AccountCfg,
    >)
        ensures
            match configure_account_fault(old(self)@.shop, name@) {
                Some(fault) => configured is Err && configured->Err_0@ == fault && final(self)@
                    == old(self)@,
                None => configured is Ok && configured->Ok_0@ == (AccountFacts {
                    shop: old(self)@.shop.accounts[name@],
                    user: configured_account(old(self)@.user, name@, profile@),
                }) && final(self)@ == (EnvState {
                    user: with_profile(old(self)@.user, name@, profile@),
                    user_dirty: true,
                    ..old(self)@
                }),
            },
    {
        let shop = match self.shop.accounts.get(name) {
            Some(shop) => shop.duplicate(),
            None => {
                return Err(EnvError::AccountDoesNotExist { name: name.to_owned() });
            },
        };
        let user = UserAccountCfg {
            aws_profile: profile.to_owned(),
            clusters: match self.user.accounts.get(name) {
                Some(before) => before.clusters.duplicate(),
                None => NameMap::new(),
            },
        };
        self.user.accounts.insert(name, user.duplicate());
        self.user_dirty = true;
        Ok(AccountCfg { shop, user })
    }

    /// Configures `ctx` as the kube context of the cluster `name`. The
    /// cluster belongs to `account_name` or, where none is given, to the
    /// account that the stored context selects. The account must be
    /// configured and the shop store must have the cluster.
    pub fn configure_cluster(&mut self, account_name: Option<&str>, name: &str, ctx: &str) -> (configured:
        EnvResult<ClusterCfg>)
        ensures
            match target_account(
                old(self)@.shop,
                old(self)@.user,
                old(self)@.context,
                match account_name {
                    Some(account) => Some(account@),
                    None => None,
                },
            ) {
                Err(fault) => configured is Err && configured->Err_0@ == fault && final(self)@
                    == old(self)@,
                Ok(account) => match configure_cluster_fault(
                    old(self)@.shop,
                    old(self)@.user,
                    account,
                    name@,
                ) {
                    Some(fault) => configured is Err && configured->Err_0@ == fault && final(self)@
                        == old(self)@,
                    None => configured is Ok && configured->Ok_0@ == (ClusterFacts {
                        shop: old(self)@.shop.accounts[account].clusters[name@],
                        user: UserClusterFact { kube_ctx: ctx@ },
                    }) && final(self)@ == (EnvState {
                        user: with_kube_ctx(old(self)@.user, account, name@, ctx@),
                        user_dirty: true,
                        ..old(self)@
                    }),
                },
            },
    {
        let account_name = match account_name {
            Some(account) => account.to_owned(),
            None => match self.get_context_account() {
                Ok(context) => match context.account {
                    Some(account) => account.0,
                    None => {
                        return Err(EnvError::AccountNotSet);
                    },
                },
                Err(e) => {
                    return Err(e);
                },
            },
        };
        let (shop, mut user) = match join(
            &self.shop.accounts,
            &self.user.accounts,
            account_name.as_str(),
        ) {
            Joined::Both(shop, user) => (shop, user.duplicate()),
            Joined::UserOnly(_) => {
                return Err(EnvError::InconsistentAccountData { name: account_name });
            },
            Joined::ShopOnly(_) => {
                return Err(EnvError::AccountNotConfigured { name: account_name });
            },
            Joined::Missing => {
                return Err(EnvError::AccountDoesNotExist { name: account_name });
            },
        };
        let shop_cluster = match shop.clusters.get(name) {
            Some(cluster) => cluster.duplicate(),
            None => {
                return Err(EnvError::ClusterDoesNotExist { name: name.to_owned() });
            },
        };
        let user_cluster = UserClusterCfg { kube_ctx: ctx.to_owned() };
        user.clusters.insert(name, user_cluster.duplicate());
        self.user.accounts.insert(account_name.as_str(), user);
        self.user_dirty = true;
        Ok(ClusterCfg { shop: shop_cluster, user: user_cluster })
    }

    /// Appends to `w` the line that tells an operator the context.
    pub fn write_ctx_info_to(&self, context: EnvContext, w: &mut String)
        ensures
            final(w)@ == old(w)@ + context_line(self@.shop.shop, context@),
    {
        let namespace_text = match &context.namespace {
            Some(namespace) => followed_by("; namespace=", namespace.as_str()),
            None => String::new(),
        };
        let cluster_text = match &context.cluster {
            Some(cluster) => {
                let mut text = glue("; cluster=", cluster.0.as_str(), " (");
                text.append(cluster.1.user.kube_ctx.as_str());
                text.append(")");
                text.append(namespace_text.as_str());
                text
            },
            None => String::new(),
        };
        let account_text = match &context.account {
            Some(account) => {
                let mut text = glue("; account=", account.0.as_str(), " (");
                text.append(account.1.user.aws_profile.as_str());
                text.append(")");
                text.append(cluster_text.as_str());
                text
            },
            None => String::new(),
        };
        let mut line = glue("Context: shop=", self.shop.shop.name.as_str(), " (");
        line.append(self.shop.shop.domain.as_str());
        line.append(")");
        line.append(account_text.as_str());
        line.append("\n");
        w.append(line.as_str());
    }
}

} // verus!
