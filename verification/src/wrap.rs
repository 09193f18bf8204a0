//! Running a tool for the context that is selected: the variables and the
//! arguments that are put before what the operator wrote.

use crate::bootstrap::get_kops_state_store_url;
use crate::cfg::{AccountCfg, AccountFacts, ShopAccountCfg, ShopAccountFact, ShopClusterCfg};
use crate::env::{Env, EnvContext, EnvState};
use crate::error::{EnvError, EnvFault, EnvResult};
use crate::model::{selected_account, selected_cluster, selected_context, ResolvedContext};
use crate::text::{followed_by, push_pair, push_word, text_pairs, texts};
use vstd::prelude::*;

verus! {

/// Why a tool could not be run.
#[derive(Debug, Clone)]
pub enum WrapError {
    InvalidBin { bin: String },
    ExecFailed,
    EnvFailure,
}

pub type WrapResult<T> = Result<T, WrapError>;

impl WrapError {
    /// What the error says of itself.
    pub fn message(&self) -> (text: String)
        ensures
            text@ == match *self {
                WrapError::InvalidBin { bin } => "Invalid binary: "@ + bin@,
                WrapError::ExecFailed => "Exec failed"@,
                WrapError::EnvFailure => "Loading rustshop env failed"@,
            },
    {
        match self {
            WrapError::InvalidBin { bin } => followed_by("Invalid binary: ", bin.as_str()),
            WrapError::ExecFailed => "Exec failed".to_owned(),
            WrapError::EnvFailure => "Loading rustshop env failed".to_owned(),
        }
    }
}

/// The text of each argument; an argument that is not Unicode has none.
pub open spec fn arg_texts(args: Seq<Option<String>>) -> Seq<Option<Seq<char>>> {
    Seq::new(
        args.len(),
        |i: int|
            match args[i] {
                Some(arg) => Some(arg@),
                None => None,
            },
    )
}

/// Whether an argument is a flag: text that begins with a hyphen.
pub open spec fn is_flag(arg: Option<Seq<char>>) -> bool {
    arg is Some && arg->0.len() > 0 && arg->0[0] == '-'
}

/// Whether `index` is the place of the first argument that is not a flag.
pub open spec fn is_first_plain(args: Seq<Option<Seq<char>>>, index: int) -> bool {
    &&& 0 <= index < args.len()
    &&& !is_flag(args[index])
    &&& forall|j: int| 0 <= j < index ==> is_flag(#[trigger] args[j])
}

/// The first argument that is not a flag, if there is one and it is Unicode.
pub open spec fn first_plain(args: Seq<Option<Seq<char>>>) -> Option<Seq<char>> {
    if exists|i: int| is_first_plain(args, i) {
        args[choose|i: int| is_first_plain(args, i)]
    } else {
        None
    }
}

/// The first argument that is not a flag, if there is one and it is Unicode.
pub fn first_plain_arg(args: &Vec<Option<String>>) -> (found: Option<&String>)
    ensures
        match found {
            Some(arg) => first_plain(arg_texts(args@)) == Some(arg@),
            None => first_plain(arg_texts(args@)) is None,
        },
{
    let mut i: usize = 0;
    while i < args.len()
        invariant
            i <= args@.len(),
            forall|j: int| 0 <= j < i ==> is_flag(#[trigger] arg_texts(args@)[j]),
        decreases args@.len() - i,
    {
        let flag = match &args[i] {
            Some(arg) => arg.as_str().unicode_len() > 0 && arg.as_str().get_char(0) == '-',
            None => false,
        };
        if !flag {
            proof {
                let texts = arg_texts(args@);
                assert(is_first_plain(texts, i as int));
                let chosen = choose|k: int| is_first_plain(texts, k);
                assert(chosen == i) by {
                    if chosen < i {
                        assert(is_flag(texts[chosen]));
                    }
                    if chosen > i {
                        assert(is_flag(texts[i as int]));
                    }
                }
            }
            return match &args[i] {
                Some(arg) => Some(arg),
                None => None,
            };
        }
        i += 1;
    }
    proof {
        let texts = arg_texts(args@);
        assert forall|k: int| !is_first_plain(texts, k) by {
            if 0 <= k < texts.len() {
                assert(is_flag(texts[k]));
            }
        }
    }
    None
}

/// Whether the tool is `terraform` and its first argument that is not a
/// flag is `init`.
pub fn is_terraform_init(base_bin: Option<&str>, args: &Vec<Option<String>>) -> (init: bool)
    ensures
        init == (base_bin is Some && base_bin->0@ == "terraform"@ && first_plain(arg_texts(args@))
            == Some("init"@)),
{
    match base_bin {
        Some(bin) => {
            if bin.to_owned() != "terraform".to_owned() {
                return false;
            }
        },
        None => {
            return false;
        },
    }
    match first_plain_arg(args) {
        Some(arg) => *arg == "init".to_owned(),
        None => false,
    }
}

/// Whether `arg` begins the word `word`.
pub fn begins(word: &str, arg: &str) -> (prefix: bool)
    ensures
        prefix == arg@.is_prefix_of(word@),
{
    let n = arg.unicode_len();
    if n > word.unicode_len() {
        return false;
    }
    let mut i: usize = 0;
    while i < n
        invariant
            n == arg@.len(),
            n <= word@.len(),
            i <= n,
            forall|j: int| 0 <= j < i ==> arg@[j] == word@[j],
        decreases n - i,
    {
        if arg.get_char(i) != word.get_char(i) {
            assert(arg@[i as int] != word@.subrange(0, arg@.len() as int)[i as int]);
            return false;
        }
        i += 1;
    }
    assert(arg@ =~= word@.subrange(0, arg@.len() as int));
    true
}

/// Whether the tool is `kubectl`, called with at most six arguments, the
/// first of which that is not a flag begins the word `switch`: such a call
/// is meant for this program, not for `kubectl`.
pub fn is_kubectl_switch(base_bin: Option<&str>, args: &Vec<Option<String>>) -> (switch: bool)
    ensures
        switch == (base_bin is Some && base_bin->0@ == "kubectl"@ && args@.len() <= 6 && (
        match first_plain(arg_texts(args@)) {
            Some(arg) => arg.is_prefix_of("switch"@),
            None => false,
        })),
{
    match base_bin {
        Some(bin) => {
            if bin.to_owned() != "kubectl".to_owned() {
                return false;
            }
        },
        None => {
            return false;
        },
    }
    match first_plain_arg(args) {
        Some(arg) => args.len() <= 6 && begins("switch", arg.as_str()),
        None => false,
    }
}

/// Where `terraform init` is to keep the state of an account.
pub open spec fn terraform_backend(account: AccountFacts) -> Seq<Seq<char>> {
    seq![
        "-backend-config=bucket="@ + account.shop.bootstrap_name + "-bootstrap-terraform-state"@,
        "-backend-config=key="@ + account.shop.bootstrap_name + ".tfstate"@,
        "-backend-config=dynamodb_table="@ + account.shop.bootstrap_name
            + "-bootstrap-terraform"@,
        "-backend-config=profile="@ + account.user.aws_profile,
        "-backend-config=region="@ + account.shop.bootstrap_aws_region,
    ]
}

/// The arguments that tell `terraform init` where to keep the state of `account`.
pub fn terraform_backend_args(account: &AccountCfg) -> (args: Vec<String>)
    ensures
        texts(args@) == terraform_backend(account@),
{
    let name = account.shop.bootstrap_name.as_str();
    let mut args: Vec<String> = Vec::new();
    assert(texts(args@) =~= Seq::<Seq<char>>::empty());
    push_word(
        &mut args,
        crate::text::glue("-backend-config=bucket=", name, "-bootstrap-terraform-state").as_str(),
    );
    push_word(&mut args, crate::text::glue("-backend-config=key=", name, ".tfstate").as_str());
    push_word(
        &mut args,
        crate::text::glue("-backend-config=dynamodb_table=", name, "-bootstrap-terraform").as_str(),
    );
    push_word(
        &mut args,
        followed_by("-backend-config=profile=", account.user.aws_profile.as_str()).as_str(),
    );
    push_word(
        &mut args,
        followed_by("-backend-config=region=", account.shop.bootstrap_aws_region.as_str()).as_str(),
    );
    assert(texts(args@) =~= terraform_backend(account@));
    args
}

/// The variables that `aws`, and every tool that calls it, expects, for an account.
pub open spec fn aws_variables(account: AccountFacts) -> Seq<(Seq<char>, Seq<char>)> {
    seq![("AWS_PROFILE"@, account.user.aws_profile)]
}

/// Sets on `cmd`, the variables of a command, those that `aws` expects.
pub fn set_aws_envs_on(account_cfg: &AccountCfg, cmd: &mut Vec<(String, String)>)
    ensures
        text_pairs(final(cmd)@) == text_pairs(old(cmd)@) + aws_variables(account_cfg@),
{
    push_pair(cmd, "AWS_PROFILE", account_cfg.user.aws_profile.as_str());
    assert(text_pairs(cmd@) =~= text_pairs(old(cmd)@) + aws_variables(account_cfg@));
}

/// The variables through which `terraform` sees the shop and the account.
pub open spec fn terraform_variables(shop_name: Seq<char>, account: AccountFacts) -> Seq<
    (Seq<char>, Seq<char>),
> {
    seq![
        ("TF_VAR_SHOPNAME"@, shop_name),
        ("TF_VAR_ACCOUNT_BOOTSTRAP_NAME"@, account.shop.bootstrap_name),
        ("TF_VAR_ACCOUNT_BOOTSTRAP_AWS_REGION"@, account.shop.bootstrap_aws_region),
        ("TF_VAR_AWS_PROFILE"@, account.user.aws_profile),
        ("TF_VAR_AWS_REGION"@, account.shop.bootstrap_aws_region),
    ]
}

/// Sets on `cmd`, the variables of a command, those through which
/// `terraform` sees the shop and the account.
pub fn set_tf_aws_envs_on(env: &Env, account_cfg: &AccountCfg, cmd: &mut Vec<(String, String)>)
    ensures
        text_pairs(final(cmd)@) == text_pairs(old(cmd)@) + terraform_variables(
            env@.shop.shop.name,
            account_cfg@,
        ),
{
    push_pair(cmd, "TF_VAR_SHOPNAME", env.shop_cfg().name.as_str());
    push_pair(cmd, "TF_VAR_ACCOUNT_BOOTSTRAP_NAME", account_cfg.shop.bootstrap_name.as_str());
    push_pair(
        cmd,
        "TF_VAR_ACCOUNT_BOOTSTRAP_AWS_REGION",
        account_cfg.shop.bootstrap_aws_region.as_str(),
    );
    push_pair(cmd, "TF_VAR_AWS_PROFILE", account_cfg.user.aws_profile.as_str());
    push_pair(cmd, "TF_VAR_AWS_REGION", account_cfg.shop.bootstrap_aws_region.as_str());
    assert(text_pairs(cmd@) =~= text_pairs(old(cmd)@) + terraform_variables(
        env@.shop.shop.name,
        account_cfg@,
    ));
}

/// The variables that tell `kops` where its state is and which cluster is meant.
pub open spec fn kops_variables(account: ShopAccountFact, cluster_domain: Seq<char>) -> Seq<
    (Seq<char>, Seq<char>),
> {
    seq![
        ("KOPS_STATE_STORE"@, "s3://"@ + account.bootstrap_name + "-bootstrap-kops-state"@),
        ("KOPS_CLUSTER_NAME"@, cluster_domain),
    ]
}

/// Sets on `cmd`, the variables of a command, those that tell `kops` where
/// its state is and which cluster is meant.
pub fn set_kops_envs_on(
    account_cfg: &ShopAccountCfg,
    cluster_cfg: &ShopClusterCfg,
    cmd: &mut Vec<(String, String)>,
)
    ensures
        text_pairs(final(cmd)@) == text_pairs(old(cmd)@) + kops_variables(
            account_cfg@,
            cluster_cfg.domain@,
        ),
{
    push_pair(cmd, "KOPS_STATE_STORE", get_kops_state_store_url(account_cfg).as_str());
    push_pair(cmd, "KOPS_CLUSTER_NAME", cluster_cfg.domain.as_str());
    assert(text_pairs(cmd@) =~= text_pairs(old(cmd)@) + kops_variables(
        account_cfg@,
        cluster_cfg.domain@,
    ));
}

/// The arguments that point `kubectl`, or `helm`, at the cluster and the
/// namespace of a context. A later argument of the operator overrides them.
pub open spec fn kube_defaults(helm: bool, context: ResolvedContext) -> Seq<Seq<char>> {
    match context.cluster {
        None => Seq::empty(),
        Some((name, facts)) => {
            let flag = if helm {
                "--kube-context"@
            } else {
                "--context"@
            };
            let cluster = seq![flag, facts.user.kube_ctx];
            match context.namespace {
                Some(namespace) => cluster + seq!["--namespace"@, namespace],
                None => cluster,
            }
        },
    }
}

/// The arguments that point `kubectl`, or with `helm` set `helm`, at the
/// cluster and the namespace of `context`.
pub fn kube_args(helm: bool, context: &EnvContext) -> (args: Vec<String>)
    ensures
        texts(args@) == kube_defaults(helm, context@),
{
    let mut args: Vec<String> = Vec::new();
    assert(texts(args@) =~= Seq::<Seq<char>>::empty());
    if let Some(cluster) = &context.cluster {
        if helm {
            push_word(&mut args, "--kube-context");
        } else {
            push_word(&mut args, "--context");
        }
        push_word(&mut args, cluster.1.user.kube_ctx.as_str());
        if let Some(namespace) = &context.namespace {
            push_word(&mut args, "--namespace");
            push_word(&mut args, namespace.as_str());
        }
    }
    assert(texts(args@) =~= kube_defaults(helm, context@));
    args
}

/// How a tool is run for the selected context.
#[derive(Debug, Clone)]
pub enum Wrapped {
    /// Run the tool with these variables set, and with these arguments
    /// before those of the operator.
    Run { envs: Vec<(String, String)>, args: Vec<String> },
    /// The call is meant for this program: hand it the operator's arguments.
    Redirect,
}

/// How a tool is run for the selected context, as text.
pub enum Wrapping {
    Run { envs: Seq<(Seq<char>, Seq<char>)>, args: Seq<Seq<char>> },
    Redirect,
}

impl View for Wrapped {
    type V = Wrapping;

    open spec fn view(&self) -> Wrapping {
        match *self {
            Wrapped::Run { envs, args } => Wrapping::Run {
                envs: text_pairs(envs@),
                args: texts(args@),
            },
            Wrapped::Redirect => Wrapping::Redirect,
        }
    }
}

/// Whether the tool is called `name`.
pub open spec fn named(base_bin: Option<Seq<char>>, name: Seq<char>) -> bool {
    base_bin == Some(name)
}

/// How the tool `base_bin` is run with `args` in an environment. An
/// account must be selected and configured: its profile is set for every
/// tool. `terraform` also gets its variables and, for `init`, the place of
/// its state; `kops` needs a configured cluster and gets its variables;
/// `kubectl` and `helm` are pointed at the selected cluster and namespace,
/// unless the call is a `switch` meant for this program.
pub open spec fn wrapping_of(
    state: EnvState,
    base_bin: Option<Seq<char>>,
    args: Seq<Option<Seq<char>>>,
) -> Result<Wrapping, EnvFault> {
    match selected_account(state.shop, state.user, state.context) {
        Err(fault) => Err(fault),
        Ok(context) => {
            let account = (context.account->0).1;
            let profile = aws_variables(account);
            if named(base_bin, "terraform"@) {
                Ok(
                    Wrapping::Run {
                        envs: profile + terraform_variables(state.shop.shop.name, account),
                        args: if first_plain(args) == Some("init"@) {
                            terraform_backend(account)
                        } else {
                            Seq::empty()
                        },
                    },
                )
            } else if named(base_bin, "kops"@) {
                match selected_cluster(state.shop, state.user, state.context) {
                    Err(fault) => Err(fault),
                    Ok(with_cluster) => Ok(
                        Wrapping::Run {
                            envs: profile + kops_variables(
                                account.shop,
                                (with_cluster.cluster->0).1.shop.domain,
                            ),
                            args: Seq::empty(),
                        },
                    ),
                }
            } else if named(base_bin, "kubectl"@) || named(base_bin, "helm"@) {
                match selected_context(state.shop, state.user, state.context) {
                    Err(fault) => Err(fault),
                    Ok(selected) => if named(base_bin, "kubectl"@) && args.len() <= 6 && (
                    match first_plain(args) {
                        Some(arg) => arg.is_prefix_of("switch"@),
                        None => false,
                    }) {
                        Ok(Wrapping::Redirect)
                    } else {
                        Ok(
                            Wrapping::Run {
                                envs: profile,
                                args: kube_defaults(named(base_bin, "helm"@), selected),
                            },
                        )
                    },
                }
            } else {
                Ok(Wrapping::Run { envs: profile, args: Seq::empty() })
            }
        },
    }
}

/// Whether the tool is called `name`.
fn is_named(base_bin: Option<&str>, name: &str) -> (same: bool)
    ensures
        same == named(
            match base_bin {
                Some(bin) => Some(bin@),
                None => None,
            },
            name@,
        ),
{
    match base_bin {
        Some(bin) => bin.to_owned() == name.to_owned(),
        None => false,
    }
}

/// Says how the tool `base_bin` is to be run with `args` for the context
/// that is selected in `env`.
pub fn wrapped_command(env: &Env, base_bin: Option<&str>, args: &Vec<Option<String>>) -> (wrapped:
    EnvResult<Wrapped>)
    ensures
        match wrapping_of(
            env@,
            match base_bin {
                Some(bin) => Some(bin@),
                None => None,
            },
            arg_texts(args@),
        ) {
            Ok(wrapping) => wrapped is Ok && wrapped->Ok_0@ == wrapping,
            Err(fault) => wrapped is Err && wrapped->Err_0@ == fault,
        },
{
    let context = match env.get_context_account() {
        Ok(context) => context,
        Err(e) => {
            return Err(e);
        },
    };
    let account = match &context.account {
        Some(account) => &account.1,
        None => {
            return Err(EnvError::AccountNotSet);
        },
    };
    let mut envs: Vec<(String, String)> = Vec::new();
    assert(text_pairs(envs@) =~= Seq::<(Seq<char>, Seq<char>)>::empty());
    set_aws_envs_on(account, &mut envs);
    assert(text_pairs(envs@) =~= aws_variables(account@));
    if is_named(base_bin, "terraform") {
        set_tf_aws_envs_on(env, account, &mut envs);
        let args = if is_terraform_init(base_bin, args) {
            terraform_backend_args(account)
        } else {
            let none: Vec<String> = Vec::new();
            assert(texts(none@) =~= Seq::<Seq<char>>::empty());
            none
        };
        Ok(Wrapped::Run { envs, args })
    } else if is_named(base_bin, "kops") {
        let with_cluster = match env.get_context_cluster() {
            Ok(context) => context,
            Err(e) => {
                return Err(e);
            },
        };
        let cluster = match &with_cluster.cluster {
            Some(cluster) => &cluster.1,
            None => {
                return Err(EnvError::ClusterNotSet);
            },
        };
        set_kops_envs_on(&account.shop, &cluster.shop, &mut envs);
        let none: Vec<String> = Vec::new();
        assert(texts(none@) =~= Seq::<Seq<char>>::empty());
        Ok(Wrapped::Run { envs, args: none })
    } else if is_named(base_bin, "kubectl") || is_named(base_bin, "helm") {
        let selected = match env.get_context() {
            Ok(context) => context,
            Err(e) => {
                return Err(e);
            },
        };
        if is_kubectl_switch(base_bin, args) {
            Ok(Wrapped::Redirect)
        } else {
            let args = kube_args(is_named(base_bin, "helm"), &selected);
            Ok(Wrapped::Run { envs, args })
        }
    } else {
        let none: Vec<String> = Vec::new();
        assert(texts(none@) =~= Seq::<Seq<char>>::empty());
        Ok(Wrapped::Run { envs, args: none })
    }
}

} // verus!
