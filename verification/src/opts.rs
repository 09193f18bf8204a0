//! The commands that an operator can give, as values.

use vstd::prelude::*;

verus! {

/// How the email address of a new account is derived from a base address.
#[derive(Debug, Clone)]
pub struct EmailBootstrapOpts {
    /// The base address, `<user>@<domain>`.
    pub email: String,
    /// What goes before the account's name in the label.
    pub email_label_prefix: String,
    /// What goes after the account's name in the label.
    pub email_label_suffix: String,
}

/// Adding a shop, an account or a cluster to the shop store.
#[derive(Debug, Clone)]
pub enum AddCommands {
    Shop { name: String, domain: String, aws_region: String },
    Account { name: String, aws_region: String },
    Cluster { name: String, account: Option<String> },
}

/// Configuring an account or a cluster in the user store.
#[derive(Debug, Clone)]
pub enum ConfigureCommands {
    Account { name: String, profile: String },
    Cluster { name: String, account: Option<String>, ctx: String },
}

/// Switching one level of the context.
#[derive(Debug, Clone)]
pub enum SwitchCommands {
    Account { name: String },
    Cluster { name: String },
    Namespace { name: String },
}

/// Showing one value of the context.
#[derive(Debug, Clone, Copy, PartialEq, Eq, Structural)]
pub enum GetCommands {
    Context,
    Account { profile: bool },
    Cluster,
    Namespace,
}

} // verus!
