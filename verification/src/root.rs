//! The root directory of a shop and the places of the three stores under it.

use crate::cfg::{ShopCfg, ShopIdentity, ShopStore, ShopYaml, UserStore, UserYaml};
use crate::env::Store;
use crate::text::glue;
use crate::error::{EnvError, EnvFault, EnvResult};
use crate::ioutil::CfgFileIOResult;
use crate::names::NameMap;
use vstd::prelude::*;

verus! {

/// Why the root directory could not be found.
#[derive(Debug, Clone, Copy, PartialEq, Eq, Structural)]
pub enum RootError {
    /// No root directory is named.
    NotSet,
    /// The directory that is named does not exist.
    DoesntExist,
}

pub type RootResult<T> = Result<T, RootError>;

/// Why a variable of the process environment could not be used.
#[derive(Debug, Clone)]
pub enum EnvVarError {
    Missing { name: String },
    Empty { name: String },
}

/// Why a variable could not be used, with the text of its name.
pub enum EnvVarFault {
    Missing { name: Seq<char> },
    Empty { name: Seq<char> },
}

impl View for EnvVarError {
    type V = EnvVarFault;

    open spec fn view(&self) -> EnvVarFault {
        match *self {
            EnvVarError::Missing { name } => EnvVarFault::Missing { name: name@ },
            EnvVarError::Empty { name } => EnvVarFault::Empty { name: name@ },
        }
    }
}

pub type EnvVarResult<T> = Result<T, EnvVarError>;

/// The value of an optional variable `name`, given what the process
/// environment holds for it. A variable that is set must not be empty.
pub fn load_env_var_opt(name: &str, value: Option<String>) -> (loaded: EnvVarResult<Option<String>>)
    ensures
        match value {
            None => loaded == Ok::<Option<String>, EnvVarError>(None),
            Some(v) => if v@.len() == 0 {
                loaded is Err && loaded->Err_0@ == (EnvVarFault::Empty { name: name@ })
            } else {
                loaded == Ok::<Option<String>, EnvVarError>(Some(v))
            },
        },
{
    match value {
        Some(v) => {
            if v.as_str().is_empty() {
                Err(EnvVarError::Empty { name: name.to_owned() })
            } else {
                Ok(Some(v))
            }
        },
        None => Ok(None),
    }
}

/// The value of the variable `name`, which must be set and not empty, given
/// what the process environment holds for it.
pub fn load_env_var(name: &str, value: Option<String>) -> (loaded: EnvVarResult<String>)
    ensures
        match value {
            None => loaded is Err && loaded->Err_0@ == (EnvVarFault::Missing { name: name@ }),
            Some(v) => if v@.len() == 0 {
                loaded is Err && loaded->Err_0@ == (EnvVarFault::Empty { name: name@ })
            } else {
                loaded == Ok::<String, EnvVarError>(v)
            },
        },
{
    match value {
        None => Err(EnvVarError::Missing { name: name.to_owned() }),
        Some(v) => {
            if v.as_str().is_empty() {
                Err(EnvVarError::Empty { name: name.to_owned() })
            } else {
                Ok(v)
            }
        },
    }
}

/// The root directory of a shop.
#[derive(Debug, Clone)]
pub struct EnvRoot {
    path: String,
}

impl View for EnvRoot {
    type V = Seq<char>;

    closed spec fn view(&self) -> Seq<char> {
        self.path@
    }
}

/// The directory of the stores under the root `root`.
pub open spec fn cfg_dir_of(root: Seq<char>) -> Seq<char> {
    root + "/"@ + ".config"@
}

/// The file of `store` under the root `root`.
pub open spec fn store_path_of(root: Seq<char>, store: Store) -> Seq<char> {
    match store {
        Store::Shop => cfg_dir_of(root) + "/"@ + "shop.yaml"@,
        Store::User => cfg_dir_of(root) + "/"@ + "user.yaml"@,
        Store::Context => cfg_dir_of(root) + "/"@ + "state"@ + "/"@ + "context.yaml"@,
    }
}

impl EnvRoot {
    /// The name of the variable that names the root directory.
    pub const ROOT_ENV_NAME: &'static str = "RUSTSHOP_ROOT";

    /// The directory under the root that holds the stores.
    pub const ROOT_SUBDIR: &'static str = ".config";

    /// The root directory, given the value of the variable that names it
    /// and whether a directory of that name exists.
    pub fn load_path(value: Option<String>, exists: bool) -> (path: RootResult<String>)
        ensures
            match value {
                Some(v) => if v@.len() == 0 {
                    path == Err::<String, RootError>(RootError::NotSet)
                } else if !exists {
                    path == Err::<String, RootError>(RootError::DoesntExist)
                } else {
                    path == Ok::<String, RootError>(v)
                },
                None => path == Err::<String, RootError>(RootError::NotSet),
            },
    {
        match load_env_var(Self::ROOT_ENV_NAME, value) {
            Err(_) => Err(RootError::NotSet),
            Ok(path) => if exists {
                Ok(path)
            } else {
                Err(RootError::DoesntExist)
            },
        }
    }

    /// The root, given the value of the variable that names it and whether
    /// a directory of that name exists.
    pub fn load(value: Option<String>, exists: bool) -> (root: EnvResult<Self>)
        ensures
            match value {
                Some(v) => if v@.len() == 0 || !exists {
                    root is Err && root->Err_0@ == EnvFault::Load
                } else {
                    root is Ok && root->Ok_0@ == v@
                },
                None => root is Err && root->Err_0@ == EnvFault::Load,
            },
    {
        match Self::load_path(value, exists) {
            Ok(path) => Ok(EnvRoot { path }),
            Err(_) => Err(EnvError::Load),
        }
    }

    /// The directory that holds the stores.
    pub fn root_cfg_dir(&self) -> (dir: String)
        ensures
            dir@ == cfg_dir_of(self@),
    {
        glue(self.path.as_str(), "/", Self::ROOT_SUBDIR)
    }

    /// The file of the shop store.
    pub fn shop_yaml_path(&self) -> (path: String)
        ensures
            path@ == store_path_of(self@, Store::Shop),
    {
        glue(self.root_cfg_dir().as_str(), "/", "shop.yaml")
    }

    /// The file of the user store.
    pub fn user_yaml_path(&self) -> (path: String)
        ensures
            path@ == store_path_of(self@, Store::User),
    {
        glue(self.root_cfg_dir().as_str(), "/", "user.yaml")
    }

    /// The file of the context store.
    pub fn context_yaml_path(&self) -> (path: String)
        ensures
            path@ == store_path_of(self@, Store::Context),
    {
        let state = glue(self.root_cfg_dir().as_str(), "/", "state");
        glue(state.as_str(), "/", "context.yaml")
    }

    /// The file of `store`.
    pub fn store_path(&self, store: Store) -> (path: String)
        ensures
            path@ == store_path_of(self@, store),
    {
        match store {
            Store::Shop => self.shop_yaml_path(),
            Store::User => self.user_yaml_path(),
            Store::Context => self.context_yaml_path(),
        }
    }

    /// Creates the shop, once: the stores to write for a new shop `name`
    /// with the domain `domain`, given the shop store and the user store
    /// found under the root. A shop store that exists is never overwritten;
    /// a user store that exists is kept.
    pub fn add_shop(
        &self,
        name: String,
        domain: String,
        shop_found: Option<ShopYaml>,
        user_found: Option<UserYaml>,
    ) -> (stores: EnvResult<(ShopYaml, UserYaml)>)
        ensures
            shop_found is Some ==> stores is Err && stores->Err_0@ == (EnvFault::FileExists {
                path: store_path_of(self@, Store::Shop),
            }),
            shop_found is None ==> stores is Ok && (stores->Ok_0).0@ == (ShopStore {
                shop: ShopIdentity { name: name@, domain: domain@ },
                accounts: Map::empty(),
            }) && (stores->Ok_0).1@ == match user_found {
                Some(user) => user@,
                None => UserStore { accounts: Map::empty() },
            },
    {
        if shop_found.is_some() {
            return Err(EnvError::FileExists { path: self.shop_yaml_path() });
        }
        let shop = ShopYaml { shop: ShopCfg { name, domain }, accounts: NameMap::new() };
        let user = match user_found {
            Some(user) => user,
            None => UserYaml::default(),
        };
        Ok((shop, user))
    }

    /// Makes sure the shop `name` with the domain `domain` exists, given the
    /// stores found under the root. Without a shop store, it is created as
    /// by `add_shop`. A shop store with the same identity is left as it is
    /// and nothing is to be written. One with another name or domain is
    /// never replaced: the identity of a shop does not change.
    pub fn ensure_shop(
        &self,
        name: String,
        domain: String,
        shop_found: Option<ShopYaml>,
        user_found: Option<UserYaml>,
    ) -> (stores: EnvResult<Option<(ShopYaml, UserYaml)>>)
        ensures
            match shop_found {
                Some(found) => if found@.shop == (ShopIdentity { name: name@, domain: domain@ }) {
                    stores is Ok && stores->Ok_0 is None
                } else {
                    stores is Err && stores->Err_0@ == (EnvFault::FileExists {
                        path: store_path_of(self@, Store::Shop),
                    })
                },
                None => stores is Ok && stores->Ok_0 is Some && (stores->Ok_0->0).0@ == (ShopStore {
                    shop: ShopIdentity { name: name@, domain: domain@ },
                    accounts: Map::empty(),
                }) && (stores->Ok_0->0).1@ == match user_found {
                    Some(user) => user@,
                    None => UserStore { accounts: Map::empty() },
                },
            },
    {
        match shop_found {
            Some(found) => {
                if found.shop.same_as(&ShopCfg { name, domain }) {
                    Ok(None)
                } else {
                    Err(EnvError::FileExists { path: self.shop_yaml_path() })
                }
            },
            None => match self.add_shop(name, domain, None, user_found) {
                Ok(stores) => Ok(Some(stores)),
                Err(e) => Err(e),
            },
        }
    }

    /// The error of a store that could not be written: it names the store's file.
    pub fn update_failed(&self, store: Store) -> (error: EnvError)
        ensures
            error@ == (EnvFault::FileUpdateFailed { path: store_path_of(self@, store) }),
    {
        EnvError::FileUpdateFailed { path: self.store_path(store) }
    }
}

/// What loading a store gives, given what reading its file gave, if the
/// file exists. A store without a file is absent, which is no error; a file
/// that cannot be read as the store is one.
pub fn loaded<T>(read: Option<CfgFileIOResult<T>>) -> (store: EnvResult<Option<T>>)
    ensures
        match read {
            None => store == Ok::<Option<T>, EnvError>(None),
            Some(Ok(found)) => store == Ok::<Option<T>, EnvError>(Some(found)),
            Some(Err(_)) => store is Err && store->Err_0@ == EnvFault::FileLoadFile,
        },
{
    match read {
        None => Ok(None),
        Some(Ok(found)) => Ok(Some(found)),
        Some(Err(_)) => Err(EnvError::FileLoadFile),
    }
}

} // verus!
