//! Bringing an account or a cluster into being: what is decided and
//! computed on the way, apart from the calls that do it.

use crate::aws::{Account, AwsError, AwsFault, AwsResult, HostedZone, Status};
use crate::cfg::{ShopAccountCfg, ShopClusterCfg};
use crate::env::{account_lookup, Env, EnvState};
use crate::error::{EnvError, EnvFault, EnvResult};
use crate::model::bootstrap_name;
use crate::opts::EmailBootstrapOpts;
use crate::text::{followed_by, glue, push_word, texts};
use vstd::prelude::*;

verus! {

/// An email address, split at its first `@`.
#[derive(Debug, Clone)]
pub struct EmailParts {
    pub user: String,
    pub domain: String,
}

/// The address of the account `account_name`: the user, `+`, the label
/// prefix, the account's name, the label suffix, `@`, the domain.
pub open spec fn account_email_of(
    user: Seq<char>,
    domain: Seq<char>,
    prefix: Seq<char>,
    account_name: Seq<char>,
    suffix: Seq<char>,
) -> Seq<char> {
    user + "+"@ + prefix + account_name + suffix + "@"@ + domain
}

impl EmailParts {
    /// The address under which the account `account_name` is registered.
    pub fn generate_account_email(&self, account_name: &str, email_opts: &EmailBootstrapOpts) -> (email:
        String)
        ensures
            email@ == account_email_of(
                self.user@,
                self.domain@,
                email_opts.email_label_prefix@,
                account_name@,
                email_opts.email_label_suffix@,
            ),
    {
        let mut email = glue(self.user.as_str(), "+", email_opts.email_label_prefix.as_str());
        email.append(account_name);
        email.append(email_opts.email_label_suffix.as_str());
        email.append("@");
        email.append(self.domain.as_str());
        email
    }
}

/// Splits an address at its first `@`. An address without `@` is refused.
pub fn parse_email(email: &str) -> (parts: AwsResult<EmailParts>)
    ensures
        parts is Err <==> !email@.contains('@'),
        parts is Err ==> parts->Err_0@ == AwsFault::Io,
        parts is Ok ==> email@ == parts->Ok_0.user@ + seq!['@'] + parts->Ok_0.domain@
            && !parts->Ok_0.user@.contains('@'),
{
    let len = email.unicode_len();
    let mut i: usize = 0;
    while i < len
        invariant
            len == email@.len(),
            i <= len,
            forall|j: int| 0 <= j < i ==> email@[j] != '@',
        decreases len - i,
    {
        if email.get_char(i) == '@' {
            let user = email.substring_char(0, i).to_owned();
            let domain = email.substring_char(i + 1, len).to_owned();
            assert(email@ =~= user@ + seq!['@'] + domain@);
            return Ok(EmailParts { user, domain });
        }
        i += 1;
    }
    Err(AwsError::Io)
}

/// The name of the stack `stack_name` of an account: the account's full
/// name, then `-bootstrap-`, so that names of buckets differ between shops.
pub fn full_stack_name(full_account_name: &str, stack_name: &str) -> (name: String)
    ensures
        name@ == full_account_name@ + "-bootstrap-"@ + stack_name@,
{
    glue(full_account_name, "-bootstrap-", stack_name)
}

/// The full name of the account `account_suffix` of the shop `shop_name`.
pub fn full_account_name(shop_name: &str, account_suffix: &str) -> (name: String)
    ensures
        name@ == bootstrap_name(shop_name@, account_suffix@),
{
    proof {
        reveal_strlit("-");
        assert("-"@ =~= seq!['-']);
    }
    glue(shop_name, "-", account_suffix)
}

/// Where `kops` keeps the state of an account's clusters.
pub fn get_kops_state_store_url(account_cfg: &ShopAccountCfg) -> (url: String)
    ensures
        url@ == "s3://"@ + account_cfg.bootstrap_name@ + "-bootstrap-kops-state"@,
{
    glue("s3://", account_cfg.bootstrap_name.as_str(), "-bootstrap-kops-state")
}

/// Whether `index` is the first account of `accounts` named `name`.
pub open spec fn is_first_named(accounts: Seq<Account>, name: Seq<char>, index: int) -> bool {
    &&& 0 <= index < accounts.len()
    &&& accounts[index].name@ == name
    &&& forall|j: int| 0 <= j < index ==> (#[trigger] accounts[j]).name@ != name
}

/// The place of the first account named `name`, if there is one.
pub fn find_account(accounts: &Vec<Account>, name: &str) -> (found: Option<usize>)
    ensures
        match found {
            Some(index) => is_first_named(accounts@, name@, index as int),
            None => forall|j: int| 0 <= j < accounts@.len() ==> (#[trigger] accounts@[j]).name@
                != name@,
        },
{
    let wanted = name.to_owned();
    let mut i: usize = 0;
    while i < accounts.len()
        invariant
            i <= accounts@.len(),
            wanted@ == name@,
            forall|j: int| 0 <= j < i ==> (#[trigger] accounts@[j]).name@ != name@,
        decreases accounts@.len() - i,
    {
        if accounts[i].name == wanted {
            return Some(i);
        }
        i += 1;
    }
    None
}

/// What the states of the accounts of the organisation ask for.
#[derive(Debug, Clone, Copy, PartialEq, Eq, Structural)]
pub enum Readiness {
    /// Every account is active.
    Ready,
    /// No account is in an unknown state, and this many are still being created.
    Pending { creating: usize },
    /// The account at this place is in an unknown state: someone has to look.
    Unknown { index: usize },
}

/// The number of the first `n` accounts that are still being created.
pub open spec fn creating_among(accounts: Seq<Account>, n: int) -> int
    decreases n,
{
    if n <= 0 {
        0
    } else {
        creating_among(accounts, n - 1) + if accounts[n - 1].status == Status::InProgress {
            1int
        } else {
            0int
        }
    }
}

/// Whether the accounts are ready to go on with.
pub fn readiness(accounts: &Vec<Account>) -> (ready: Readiness)
    ensures
        match ready {
            Readiness::Unknown { index } => index < accounts@.len() && accounts@[index as int].status
                == Status::Other && forall|j: int|
                0 <= j < index ==> (#[trigger] accounts@[j]).status != Status::Other,
            Readiness::Pending { creating } => creating > 0 && creating == creating_among(
                accounts@,
                accounts@.len() as int,
            ) && forall|j: int|
                0 <= j < accounts@.len() ==> (#[trigger] accounts@[j]).status != Status::Other,
            Readiness::Ready => forall|j: int|
                0 <= j < accounts@.len() ==> (#[trigger] accounts@[j]).status == Status::Active,
        },
{
    let mut creating: usize = 0;
    let mut i: usize = 0;
    while i < accounts.len()
        invariant
            i <= accounts@.len(),
            creating <= i,
            creating == creating_among(accounts@, i as int),
            forall|j: int| 0 <= j < i ==> (#[trigger] accounts@[j]).status != Status::Other,
            creating == 0 ==> forall|j: int|
                0 <= j < i ==> (#[trigger] accounts@[j]).status == Status::Active,
        decreases accounts@.len() - i,
    {
        match accounts[i].status {
            Status::Active => {},
            Status::InProgress => {
                creating += 1;
            },
            Status::Other => {
                return Readiness::Unknown { index: i };
            },
        }
        i += 1;
    }
    if creating == 0 {
        Readiness::Ready
    } else {
        Readiness::Pending { creating }
    }
}

/// Whether a hosted zone named `zone_name` serves `domain`: it bears the
/// domain's name, with or without the dot that ends a full name.
pub open spec fn serves(zone_name: Seq<char>, domain: Seq<char>) -> bool {
    zone_name == domain || zone_name == domain + "."@
}

/// The place of the first hosted zone that serves `domain`, if there is one.
pub fn find_zone(zones: &Vec<HostedZone>, domain: &str) -> (found: Option<usize>)
    ensures
        match found {
            Some(index) => index < zones@.len() && serves(zones@[index as int].name@, domain@)
                && forall|j: int| 0 <= j < index ==> !serves((#[trigger] zones@[j]).name@, domain@),
            None => forall|j: int|
                0 <= j < zones@.len() ==> !serves((#[trigger] zones@[j]).name@, domain@),
        },
{
    let plain = domain.to_owned();
    let dotted = followed_by(domain, ".");
    let mut i: usize = 0;
    while i < zones.len()
        invariant
            i <= zones@.len(),
            plain@ == domain@,
            dotted@ == domain@ + "."@,
            forall|j: int| 0 <= j < i ==> !serves((#[trigger] zones@[j]).name@, domain@),
        decreases zones@.len() - i,
    {
        if zones[i].name == plain || zones[i].name == dotted {
            return Some(i);
        }
        i += 1;
    }
    None
}

/// The arguments with which `kops` creates a cluster, before those that the
/// operator adds.
pub open spec fn kops_create_args(
    region: Seq<char>,
    account_bootstrap_name: Seq<char>,
    cluster_domain: Seq<char>,
    minimal: bool,
) -> Seq<Seq<char>> {
    let base = seq![
        "create"@,
        "cluster"@,
        "--cloud"@,
        "aws"@,
        "--zones"@,
        region + "a"@,
        "--discovery-store=s3://"@ + account_bootstrap_name + "-bootstrap-kops-oidc-public/"@
            + cluster_domain + "/discovery"@,
    ];
    if minimal {
        base + seq![
            "--master-count"@,
            "1"@,
            "--master-size"@,
            "t3a.small"@,
            "--master-volume-size"@,
            "8"@,
            "--node-count"@,
            "1"@,
            "--node-size"@,
            "t3a.small"@,
            "--node-volume-size"@,
            "8"@,
        ]
    } else {
        base
    }
}

/// The arguments with which `kops` creates the cluster `cluster` of
/// `account`; with `minimal`, the smallest cluster that works.
pub fn kops_create_cluster_args(account: &ShopAccountCfg, cluster: &ShopClusterCfg, minimal: bool) -> (args:
    Vec<String>)
    ensures
        texts(args@) == kops_create_args(
            account.bootstrap_aws_region@,
            account.bootstrap_name@,
            cluster.domain@,
            minimal,
        ),
{
    let mut args: Vec<String> = Vec::new();
    assert(texts(args@) =~= Seq::<Seq<char>>::empty());
    push_word(&mut args, "create");
    push_word(&mut args, "cluster");
    push_word(&mut args, "--cloud");
    push_word(&mut args, "aws");
    push_word(&mut args, "--zones");
    push_word(&mut args, followed_by(account.bootstrap_aws_region.as_str(), "a").as_str());
    let mut store = glue(
        "--discovery-store=s3://",
        account.bootstrap_name.as_str(),
        "-bootstrap-kops-oidc-public/",
    );
    store.append(cluster.domain.as_str());
    store.append("/discovery");
    push_word(&mut args, store.as_str());
    if minimal {
        push_word(&mut args, "--master-count");
        push_word(&mut args, "1");
        push_word(&mut args, "--master-size");
        push_word(&mut args, "t3a.small");
        push_word(&mut args, "--master-volume-size");
        push_word(&mut args, "8");
        push_word(&mut args, "--node-count");
        push_word(&mut args, "1");
        push_word(&mut args, "--node-size");
        push_word(&mut args, "t3a.small");
        push_word(&mut args, "--node-volume-size");
        push_word(&mut args, "8");
    }
    assert(texts(args@) =~= kops_create_args(
        account.bootstrap_aws_region@,
        account.bootstrap_name@,
        cluster.domain@,
        minimal,
    ));
    args
}

/// How an account that is to be bootstrapped stands in the stores.
#[derive(Debug, Clone, Copy, PartialEq, Eq, Structural)]
pub enum ExistingAccount {
    /// Neither store has it: it is added once it is bootstrapped.
    Absent,
    /// It is there, bootstrapped in the same region under the same name.
    Matches,
    /// It is there, bootstrapped in another region.
    RegionDiffers,
    /// It is there, bootstrapped under another full name.
    NameDiffers,
}

/// How the account `name`, to be bootstrapped in `region`, stands in the stores.
pub open spec fn existing_account(state: EnvState, name: Seq<char>, region: Seq<char>) -> Result<
    ExistingAccount,
    EnvFault,
> {
    match account_lookup(state.shop, state.user, name) {
        Err(fault) => Err(fault),
        Ok(None) => Ok(ExistingAccount::Absent),
        Ok(Some(account)) => if account.shop.bootstrap_aws_region != region {
            Ok(ExistingAccount::RegionDiffers)
        } else if account.shop.bootstrap_name != bootstrap_name(state.shop.shop.name, name) {
            Ok(ExistingAccount::NameDiffers)
        } else {
            Ok(ExistingAccount::Matches)
        },
    }
}

/// Holds the account `name`, to be bootstrapped in `aws_region`, against
/// what the stores know of it.
pub fn check_existing_account(env: &Env, name: &str, aws_region: &str) -> (found: EnvResult<
    ExistingAccount,
>)
    ensures
        match existing_account(env@, name@, aws_region@) {
            Ok(existing) => found == Ok::<ExistingAccount, EnvError>(existing),
            Err(fault) => found is Err && found->Err_0@ == fault,
        },
{
    let expected = full_account_name(env.get_shop_ref().name.as_str(), name);
    let region = aws_region.to_owned();
    match env.get_account_ref_opt(name) {
        Err(e) => Err(e),
        Ok(None) => Ok(ExistingAccount::Absent),
        Ok(Some(account)) => {
            if account.shop.bootstrap_aws_region != region {
                Ok(ExistingAccount::RegionDiffers)
            } else if account.shop.bootstrap_name != expected {
                Ok(ExistingAccount::NameDiffers)
            } else {
                Ok(ExistingAccount::Matches)
            }
        },
    }
}

/// The profile to configure for an account that was bootstrapped. The
/// root account of the organisation is reached with the profile that
/// bootstrapped it. Any other account gets a profile of its own, named by
/// its full name, that assumes the access role from that profile.
pub fn profile_for_account(
    account_id: &str,
    root_account_id: &str,
    account_full_name: &str,
    profile: &str,
) -> (chosen: (String, bool))
    ensures
        chosen.1 == (account_id@ != root_account_id@),
        chosen.0@ == if account_id@ != root_account_id@ {
            account_full_name@
        } else {
            profile@
        },
{
    if account_id.to_owned() != root_account_id.to_owned() {
        (account_full_name.to_owned(), true)
    } else {
        (profile.to_owned(), false)
    }
}

} // verus!
