//! The operator's commands, carried out on the environment. Each command is
//! one operation of the environment, or two: a new account gets a cluster
//! of its own name right away.

use crate::cfg::{text_of, ShopStore};
use crate::env::{context_line, Env, EnvState};
use crate::error::{EnvError, EnvFault, EnvResult};
use crate::model::{
    add_account_fault, add_cluster_fault, configure_account_fault, configure_cluster_fault,
    resolve_pointer, selected_context, switched_pointer, target_account, with_account,
    with_cluster, with_kube_ctx, with_profile, Level, ResolvedContext,
};
use crate::opts::{AddCommands, ConfigureCommands, GetCommands, SwitchCommands};
use crate::text::followed_by;
use vstd::prelude::*;

verus! {

/// Why the program failed.
#[derive(Debug, Clone)]
pub enum AppError {
    Other,
    /// A command that the program ran failed.
    CommandFailed { stderr: String },
}

pub type AppResult<T> = Result<T, AppError>;

impl AppError {
    /// What the error says of itself.
    pub fn message(&self) -> (text: String)
        ensures
            text@ == match *self {
                AppError::Other => "Application error"@,
                AppError::CommandFailed { stderr } => "Command failed: "@ + stderr@,
            },
    {
        match self {
            AppError::Other => "Application error".to_owned(),
            AppError::CommandFailed { stderr } => followed_by("Command failed: ", stderr.as_str()),
        }
    }
}

/// The name of the account, and of its cluster, that a new shop starts with.
pub open spec fn root_name() -> Seq<char> {
    "root"@
}

/// The shop store after an account was added together with the cluster of
/// its own name.
pub open spec fn with_account_and_cluster(
    shop: ShopStore,
    name: Seq<char>,
    region: Seq<char>,
) -> ShopStore {
    with_cluster(with_account(shop, name, region), name, name)
}

/// What an `add` command leaves of the environment, or why it is refused.
pub open spec fn added(state: EnvState, command: AddCommands) -> Result<EnvState, EnvFault> {
    match command {
        AddCommands::Shop { name, domain, aws_region } => added_account(
            state,
            root_name(),
            aws_region@,
        ),
        AddCommands::Account { name, aws_region } => added_account(state, name@, aws_region@),
        AddCommands::Cluster { name, account } => match target_account(
            state.shop,
            state.user,
            state.context,
            text_of(account),
        ) {
            Err(fault) => Err(fault),
            Ok(account) => match add_cluster_fault(state.shop, account, name@) {
                Some(fault) => Err(fault),
                None => Ok(
                    EnvState {
                        shop: with_cluster(state.shop, account, name@),
                        shop_dirty: true,
                        ..state
                    },
                ),
            },
        },
    }
}

/// What adding an account, with the cluster of its own name, leaves of the
/// environment, or why it is refused.
pub open spec fn added_account(state: EnvState, name: Seq<char>, region: Seq<char>) -> Result<
    EnvState,
    EnvFault,
> {
    match add_account_fault(state.shop, state.user, name) {
        Some(fault) => Err(fault),
        None => Ok(
            EnvState {
                shop: with_account_and_cluster(state.shop, name, region),
                shop_dirty: true,
                ..state
            },
        ),
    }
}

/// Adds an account together with the cluster of its own name.
fn add_account_with_cluster(env: &mut Env, name: &str, region: &str) -> (done: EnvResult<()>)
    ensures
        match added_account(old(env)@, name@, region@) {
            Ok(state) => done is Ok && final(env)@ == state,
            Err(fault) => done is Err && done->Err_0@ == fault && final(env)@ == old(env)@,
        },
{
    match env.add_account(name, region) {
        Ok(_) => {},
        Err(e) => {
            return Err(e);
        },
    }
    match env.add_cluster(name, name) {
        Ok(_) => Ok(()),
        Err(e) => Err(e),
    }
}

/// Carries out an `add` command. For a shop, the environment is that of the
/// shop just created, and what is added is its account `root` with the
/// cluster `root`.
pub fn add(env: &mut Env, command: &AddCommands) -> (done: EnvResult<()>)
    ensures
        match added(old(env)@, *command) {
            Ok(state) => done is Ok && final(env)@ == state,
            Err(fault) => done is Err && done->Err_0@ == fault && final(env)@ == old(env)@,
        },
{
    match command {
        AddCommands::Shop { name: _, domain: _, aws_region } => {
            proof {
                reveal_strlit("root");
            }
            add_account_with_cluster(env, "root", aws_region.as_str())
        },
        AddCommands::Account { name, aws_region } => add_account_with_cluster(
            env,
            name.as_str(),
            aws_region.as_str(),
        ),
        AddCommands::Cluster { name, account } => {
            let account = match account {
                Some(account) => account.clone(),
                None => match env.get_context_account() {
                    Ok(context) => match context.account {
                        Some(account) => account.0,
                        None => {
                            return Err(EnvError::AccountNotSet);
                        },
                    },
                    Err(e) => {
                        return Err(e);
                    },
                },
            };
            match env.add_cluster(account.as_str(), name.as_str()) {
                Ok(_) => Ok(()),
                Err(e) => Err(e),
            }
        },
    }
}

/// What a `configure` command leaves of the environment, or why it is refused.
pub open spec fn configured(state: EnvState, command: ConfigureCommands) -> Result<
    EnvState,
    EnvFault,
> {
    match command {
        ConfigureCommands::Account { name, profile } => match configure_account_fault(
            state.shop,
            name@,
        ) {
            Some(fault) => Err(fault),
            None => Ok(
                EnvState { user: with_profile(state.user, name@, profile@), user_dirty: true, ..state },
            ),
        },
        ConfigureCommands::Cluster { name, account, ctx } => match target_account(
            state.shop,
            state.user,
            state.context,
            text_of(account),
        ) {
            Err(fault) => Err(fault),
            Ok(account) => match configure_cluster_fault(state.shop, state.user, account, name@) {
                Some(fault) => Err(fault),
                None => Ok(
                    EnvState {
                        user: with_kube_ctx(state.user, account, name@, ctx@),
                        user_dirty: true,
                        ..state
                    },
                ),
            },
        },
    }
}

/// Carries out a `configure` command.
pub fn configure(env: &mut Env, command: &ConfigureCommands) -> (done: EnvResult<()>)
    ensures
        match configured(old(env)@, *command) {
            Ok(state) => done is Ok && final(env)@ == state,
            Err(fault) => done is Err && done->Err_0@ == fault && final(env)@ == old(env)@,
        },
{
    match command {
        ConfigureCommands::Account { name, profile } => match env.configure_account(
            name.as_str(),
            profile.as_str(),
        ) {
            Ok(_) => Ok(()),
            Err(e) => Err(e),
        },
        ConfigureCommands::Cluster { name, account, ctx } => {
            let account = match account {
                Some(account) => Some(account.as_str()),
                None => None,
            };
            match env.configure_cluster(account, name.as_str(), ctx.as_str()) {
                Ok(_) => Ok(()),
                Err(e) => Err(e),
            }
        },
    }
}

/// The level that a `switch` command sets, and the name it sets it to.
pub open spec fn switch_target(command: SwitchCommands) -> (Level, Seq<char>) {
    match command {
        SwitchCommands::Account { name } => (Level::Account, name@),
        SwitchCommands::Cluster { name } => (Level::Cluster, name@),
        SwitchCommands::Namespace { name } => (Level::Namespace, name@),
    }
}

/// Carries out a `switch` command. The new pointer is stored whatever it
/// resolves to. What comes back is the line that tells the operator the
/// context that is selected after the switch.
pub fn switch(env: &mut Env, command: &SwitchCommands) -> (line: EnvResult<String>)
    ensures
        final(env)@ == (EnvState {
            context: switched_pointer(
                old(env)@.shop,
                old(env)@.context,
                switch_target(*command).0,
                switch_target(*command).1,
            ),
            context_dirty: true,
            ..old(env)@
        }),
        match resolve_pointer(final(env)@.shop, final(env)@.user, final(env)@.context) {
            Err(fault) => line is Err && line->Err_0@ == fault,
            Ok(_) => match selected_context(
                final(env)@.shop,
                final(env)@.user,
                final(env)@.context,
            ) {
                Err(fault) => line is Err && line->Err_0@ == fault,
                Ok(context) => line is Ok && line->Ok_0@ == context_line(
                    final(env)@.shop.shop,
                    context,
                ),
            },
        },
{
    let switched = match command {
        SwitchCommands::Account { name } => env.switch_account(name.as_str()),
        SwitchCommands::Cluster { name } => env.switch_cluster(name.as_str()),
        SwitchCommands::Namespace { name } => env.switch_namespace(name.as_str()),
    };
    match switched {
        Ok(_) => {},
        Err(e) => {
            return Err(e);
        },
    }
    match env.get_context() {
        Ok(context) => {
            let mut line = String::new();
            env.write_ctx_info_to(context, &mut line);
            assert(line@ =~= context_line(env@.shop.shop, context@));
            Ok(line)
        },
        Err(e) => Err(e),
    }
}

/// What a `get` command prints for a context: the whole line, or the one
/// value asked for and a line end, or nothing where the value is not set.
pub open spec fn shown(shop: ShopStore, context: ResolvedContext, command: GetCommands) -> Seq<
    char,
> {
    match command {
        GetCommands::Context => context_line(shop.shop, context),
        GetCommands::Account { profile } => match context.account {
            Some((name, facts)) => if profile {
                facts.user.aws_profile + "\n"@
            } else {
                name + "\n"@
            },
            None => Seq::empty(),
        },
        GetCommands::Cluster => match context.cluster {
            Some((name, facts)) => name + "\n"@,
            None => Seq::empty(),
        },
        GetCommands::Namespace => match context.namespace {
            Some(namespace) => namespace + "\n"@,
            None => Seq::empty(),
        },
    }
}

/// Carries out a `get` command: what to print for the context now selected.
pub fn get(env: &Env, command: GetCommands) -> (text: EnvResult<String>)
    ensures
        match selected_context(env@.shop, env@.user, env@.context) {
            Err(fault) => text is Err && text->Err_0@ == fault,
            Ok(context) => text is Ok && text->Ok_0@ == shown(env@.shop, context, command),
        },
{
    let context = match env.get_context() {
        Ok(context) => context,
        Err(e) => {
            return Err(e);
        },
    };
    match command {
        GetCommands::Context => {
            let mut line = String::new();
            env.write_ctx_info_to(context, &mut line);
            assert(line@ =~= context_line(env@.shop.shop, context@));
            Ok(line)
        },
        GetCommands::Account { profile } => match &context.account {
            Some(account) => if profile {
                Ok(followed_by(account.1.user.aws_profile.as_str(), "\n"))
            } else {
                Ok(followed_by(account.0.as_str(), "\n"))
            },
            None => Ok(String::new()),
        },
        GetCommands::Cluster => match &context.cluster {
            Some(cluster) => Ok(followed_by(cluster.0.as_str(), "\n")),
            None => Ok(String::new()),
        },
        GetCommands::Namespace => match &context.namespace {
            Some(namespace) => Ok(followed_by(namespace.as_str(), "\n")),
            None => Ok(String::new()),
        },
    }
}

} // verus!
