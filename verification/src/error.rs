//! What can go wrong in the environment.

use crate::text::followed_by;
use vstd::prelude::*;

verus! {

/// An error of the environment. Each carries what a caller needs to tell the
/// operator how to mend it.
#[derive(Debug, Clone)]
pub enum EnvError {
    /// The environment could not be loaded.
    Load,
    /// No shop store exists under the root.
    ShopDoesNotExist,
    /// A store exists but could not be read.
    FileLoadFile,
    /// A store that must be created once exists already.
    FileExists { path: String },
    /// A store could not be written.
    FileUpdateFailed { path: String },
    /// The context selects no account.
    AccountNotSet,
    /// The shop store already has an account of this name.
    AccountExists { name: String },
    /// The shop store has no account of this name.
    AccountDoesNotExist { name: String },
    /// The user store has an account that the shop store lacks.
    InconsistentAccountData { name: String },
    /// The shop store has the account, the user store has not.
    AccountNotConfigured { name: String },
    /// The context selects no cluster.
    ClusterNotSet,
    /// The account already has a cluster of this name.
    ClusterExists { name: String },
    /// The account has no cluster of this name.
    ClusterDoesNotExist { name: String },
    /// The user store has a cluster that the shop store lacks.
    InconsistentClusterData { name: String },
    /// The shop store has the cluster, the user store has not.
    ClusterNotConfigured { name: String },
}

/// An error of the environment, with the text of what it names.
pub enum EnvFault {
    Load,
    ShopDoesNotExist,
    FileLoadFile,
    FileExists { path: Seq<char> },
    FileUpdateFailed { path: Seq<char> },
    AccountNotSet,
    AccountExists { name: Seq<char> },
    AccountDoesNotExist { name: Seq<char> },
    InconsistentAccountData { name: Seq<char> },
    AccountNotConfigured { name: Seq<char> },
    ClusterNotSet,
    ClusterExists { name: Seq<char> },
    ClusterDoesNotExist { name: Seq<char> },
    InconsistentClusterData { name: Seq<char> },
    ClusterNotConfigured { name: Seq<char> },
}

impl View for EnvError {
    type V = EnvFault;

    open spec fn view(&self) -> EnvFault {
        match *self {
            EnvError::Load => EnvFault::Load,
            EnvError::ShopDoesNotExist => EnvFault::ShopDoesNotExist,
            EnvError::FileLoadFile => EnvFault::FileLoadFile,
            EnvError::FileExists { path } => EnvFault::FileExists { path: path@ },
            EnvError::FileUpdateFailed { path } => EnvFault::FileUpdateFailed { path: path@ },
            EnvError::AccountNotSet => EnvFault::AccountNotSet,
            EnvError::AccountExists { name } => EnvFault::AccountExists { name: name@ },
            EnvError::AccountDoesNotExist { name } => EnvFault::AccountDoesNotExist { name: name@ },
            EnvError::InconsistentAccountData { name } => EnvFault::InconsistentAccountData {
                name: name@,
            },
            EnvError::AccountNotConfigured { name } => EnvFault::AccountNotConfigured {
                name: name@,
            },
            EnvError::ClusterNotSet => EnvFault::ClusterNotSet,
            EnvError::ClusterExists { name } => EnvFault::ClusterExists { name: name@ },
            EnvError::ClusterDoesNotExist { name } => EnvFault::ClusterDoesNotExist { name: name@ },
            EnvError::InconsistentClusterData { name } => EnvFault::InconsistentClusterData {
                name: name@,
            },
            EnvError::ClusterNotConfigured { name } => EnvFault::ClusterNotConfigured {
                name: name@,
            },
        }
    }
}

pub type EnvResult<T> = Result<T, EnvError>;

/// What an error says of itself.
pub open spec fn message_of(fault: EnvFault) -> Seq<char> {
    match fault {
        EnvFault::Load => "Could not load rustshop environment"@,
        EnvFault::ShopDoesNotExist => "Shop does not exist"@,
        EnvFault::FileLoadFile => "Could not load a file"@,
        EnvFault::FileExists { path } => "File already exist: "@ + path,
        EnvFault::FileUpdateFailed { path } => "Update failed: "@ + path,
        EnvFault::AccountNotSet => "Account not set"@,
        EnvFault::AccountExists { name } => "Account exists: "@ + name,
        EnvFault::AccountDoesNotExist { name } => "Account does not exist: "@ + name,
        EnvFault::InconsistentAccountData { name } =>
            "Account data inconsistent between shop and user config: "@ + name,
        EnvFault::AccountNotConfigured { name } => "Account user data missing: "@ + name,
        EnvFault::ClusterNotSet => "Cluster not set"@,
        EnvFault::ClusterExists { name } => "Cluster exists: "@ + name,
        EnvFault::ClusterDoesNotExist { name } => "Cluster does not exist: "@ + name,
        EnvFault::InconsistentClusterData { name } =>
            "Cluster data inconsistent between shop and user config: "@ + name,
        EnvFault::ClusterNotConfigured { name } => "Cluster user data missing: "@ + name,
    }
}

/// A hint at what the operator can do about an error.
#[derive(Debug, Clone, Copy)]
pub struct Suggestion(&'static str);

impl View for Suggestion {
    type V = Seq<char>;

    closed spec fn view(&self) -> Seq<char> {
        self.0@
    }
}

impl Suggestion {
    /// The hint, as text.
    pub fn text(&self) -> (text: String)
        ensures
            text@ == self@,
    {
        self.0.to_owned()
    }
}

/// The hint that goes with an error, where there is one: an account or a
/// cluster that is not configured is mended by configuring it.
pub open spec fn suggestion_of(fault: EnvFault) -> Option<Seq<char>> {
    match fault {
        EnvFault::AccountNotConfigured { name } => Some("Use `rustshop configure account`"@),
        EnvFault::ClusterNotConfigured { name } => Some("Use `rustshop configure cluster`"@),
        _ => None,
    }
}

impl EnvError {
    /// What the error says of itself.
    pub fn message(&self) -> (text: String)
        ensures
            text@ == message_of(self@),
    {
        match self {
            EnvError::Load => "Could not load rustshop environment".to_owned(),
            EnvError::ShopDoesNotExist => "Shop does not exist".to_owned(),
            EnvError::FileLoadFile => "Could not load a file".to_owned(),
            EnvError::FileExists { path } => followed_by("File already exist: ", path.as_str()),
            EnvError::FileUpdateFailed { path } => followed_by("Update failed: ", path.as_str()),
            EnvError::AccountNotSet => "Account not set".to_owned(),
            EnvError::AccountExists { name } => followed_by("Account exists: ", name.as_str()),
            EnvError::AccountDoesNotExist { name } => followed_by(
                "Account does not exist: ",
                name.as_str(),
            ),
            EnvError::InconsistentAccountData { name } => followed_by(
                "Account data inconsistent between shop and user config: ",
                name.as_str(),
            ),
            EnvError::AccountNotConfigured { name } => followed_by(
                "Account user data missing: ",
                name.as_str(),
            ),
            EnvError::ClusterNotSet => "Cluster not set".to_owned(),
            EnvError::ClusterExists { name } => followed_by("Cluster exists: ", name.as_str()),
            EnvError::ClusterDoesNotExist { name } => followed_by(
                "Cluster does not exist: ",
                name.as_str(),
            ),
            EnvError::InconsistentClusterData { name } => followed_by(
                "Cluster data inconsistent between shop and user config: ",
                name.as_str(),
            ),
            EnvError::ClusterNotConfigured { name } => followed_by(
                "Cluster user data missing: ",
                name.as_str(),
            ),
        }
    }

    /// The hint that goes with the error, where there is one.
    pub fn suggestion(&self) -> (hint: Option<Suggestion>)
        ensures
            match hint {
                Some(hint) => suggestion_of(self@) == Some(hint@),
                None => suggestion_of(self@) is None,
            },
    {
        match self {
            EnvError::AccountNotConfigured { .. } => Some(
                Suggestion("Use `rustshop configure account`"),
            ),
            EnvError::ClusterNotConfigured { .. } => Some(
                Suggestion("Use `rustshop configure cluster`"),
            ),
            _ => None,
        }
    }
}

} // verus!
