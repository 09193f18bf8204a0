//! Writing a store so that a reader never finds it half written: the text
//! goes to a temporary file beside the store, is forced to stable storage,
//! and the temporary file is renamed over the store.
//!
//! The library plans the steps; whoever holds the file system carries them
//! out in order and stops at the first that fails.

use crate::text::followed_by;
use vstd::prelude::*;

verus! {

/// Why a store could not be read or written.
#[derive(Debug, Clone, Copy, PartialEq, Eq, Structural)]
pub enum CfgFileIOError {
    /// The file system refused.
    Io,
    /// The text is not what the store holds, or the store cannot be put in text.
    Serde,
    /// The path has no parent directory: a store is never written there.
    RootPath,
}

pub type CfgFileIOResult<T> = Result<T, CfgFileIOError>;

impl CfgFileIOError {
    /// What the error says of itself.
    pub fn message(&self) -> (text: String)
        ensures
            text@ == match *self {
                CfgFileIOError::Io => "IO Error"@,
                CfgFileIOError::Serde => "Serialization error"@,
                CfgFileIOError::RootPath => "Can't write to `/`"@,
            },
    {
        match self {
            CfgFileIOError::Io => "IO Error".to_owned(),
            CfgFileIOError::Serde => "Serialization error".to_owned(),
            CfgFileIOError::RootPath => "Can't write to `/`".to_owned(),
        }
    }
}

/// One step of writing a store.
#[derive(Debug, Clone)]
pub enum SaveStep {
    /// Create the directory, and those above it, unless they exist.
    CreateDirs { dir: String },
    /// Create the file empty, or empty it.
    Create { path: String },
    /// Write the text to the file and flush it.
    Write { path: String, text: String },
    /// Force the file's data to stable storage.
    Sync { path: String },
    /// Rename the file, replacing the target in one step.
    Rename { from: String, to: String },
}

/// One step of writing a store, with the text of what it names.
pub enum Step {
    CreateDirs { dir: Seq<char> },
    Create { path: Seq<char> },
    Write { path: Seq<char>, text: Seq<char> },
    Sync { path: Seq<char> },
    Rename { from: Seq<char>, to: Seq<char> },
}

impl View for SaveStep {
    type V = Step;

    open spec fn view(&self) -> Step {
        match *self {
            SaveStep::CreateDirs { dir } => Step::CreateDirs { dir: dir@ },
            SaveStep::Create { path } => Step::Create { path: path@ },
            SaveStep::Write { path, text } => Step::Write { path: path@, text: text@ },
            SaveStep::Sync { path } => Step::Sync { path: path@ },
            SaveStep::Rename { from, to } => Step::Rename { from: from@, to: to@ },
        }
    }
}

/// The temporary file beside the store at `path`.
pub open spec fn temporary_of(path: Seq<char>) -> Seq<char> {
    path + ".tmp"@
}

/// The steps that write `text` to the store at `path`, whose parent
/// directory is `dir`.
pub open spec fn save_steps(path: Seq<char>, dir: Seq<char>, text: Seq<char>) -> Seq<Step> {
    seq![
        Step::CreateDirs { dir },
        Step::Create { path: temporary_of(path) },
        Step::Write { path: temporary_of(path), text },
        Step::Sync { path: temporary_of(path) },
        Step::Rename { from: temporary_of(path), to: path },
    ]
}

/// The steps of a plan, each by its view.
pub open spec fn steps_of(plan: Seq<SaveStep>) -> Seq<Step> {
    Seq::new(plan.len(), |i: int| plan[i]@)
}

/// Plans the writing of `s` to the store at `path`, given the parent
/// directory of `path`. A path without a parent is refused.
pub fn store_str_to_file(path: &str, parent: Option<String>, s: &str) -> (plan: CfgFileIOResult<
    Vec<SaveStep>,
>)
    ensures
        parent is None ==> plan == Err::<Vec<SaveStep>, CfgFileIOError>(CfgFileIOError::RootPath),
        parent is Some ==> plan is Ok && steps_of(plan->Ok_0@) == save_steps(
            path@,
            parent->0@,
            s@,
        ),
{
    let dir = match parent {
        Some(dir) => dir,
        None => {
            return Err(CfgFileIOError::RootPath);
        },
    };
    let mut plan: Vec<SaveStep> = Vec::new();
    plan.push(SaveStep::CreateDirs { dir });
    plan.push(SaveStep::Create { path: followed_by(path, ".tmp") });
    plan.push(SaveStep::Write { path: followed_by(path, ".tmp"), text: s.to_owned() });
    plan.push(SaveStep::Sync { path: followed_by(path, ".tmp") });
    plan.push(SaveStep::Rename { from: followed_by(path, ".tmp"), to: path.to_owned() });
    assert(steps_of(plan@) =~= save_steps(path@, dir@, s@));
    Ok(plan)
}

/// The files of a file system: the text of each, by its path.
pub type Disk = Map<Seq<char>, Seq<char>>;

/// The files after `step` was carried out.
pub open spec fn after_step(disk: Disk, step: Step) -> Disk {
    match step {
        Step::CreateDirs { dir } => disk,
        Step::Create { path } => disk.insert(path, Seq::empty()),
        Step::Write { path, text } => disk.insert(path, text),
        Step::Sync { path } => disk,
        Step::Rename { from, to } => if disk.contains_key(from) {
            disk.remove(from).insert(to, disk[from])
        } else {
            disk
        },
    }
}

/// The files after the first `n` steps of `steps` were carried out.
pub open spec fn after_steps(disk: Disk, steps: Seq<Step>, n: nat) -> Disk
    decreases n,
{
    if n == 0 || n > steps.len() {
        disk
    } else {
        after_step(after_steps(disk, steps, (n - 1) as nat), steps[n - 1])
    }
}

/// Writing is atomic: if the writing of a store stops before its last step,
/// the rename, was carried out, then the store is as it was: absent if it
/// was absent, and with the text it had otherwise.
pub proof fn lemma_interrupted_save(
    disk: Disk,
    path: Seq<char>,
    dir: Seq<char>,
    text: Seq<char>,
    n: nat,
)
    requires
        n < save_steps(path, dir, text).len(),
    ensures
        after_steps(disk, save_steps(path, dir, text), n).contains_key(path) == disk.contains_key(
            path,
        ),
        disk.contains_key(path) ==> after_steps(disk, save_steps(path, dir, text), n)[path]
            == disk[path],
{
    let steps = save_steps(path, dir, text);
    lemma_temporary_differs(path);
    reveal_with_fuel(after_steps, 6);
    assert(steps[0] == Step::CreateDirs { dir });
    assert(steps[1] == Step::Create { path: temporary_of(path) });
    assert(steps[2] == Step::Write { path: temporary_of(path), text });
    assert(steps[3] == Step::Sync { path: temporary_of(path) });
}

/// The temporary file is never the store itself.
pub proof fn lemma_temporary_differs(path: Seq<char>)
    ensures
        temporary_of(path) != path,
{
    reveal_strlit(".tmp");
    assert(temporary_of(path).len() == path.len() + 4);
}

/// A save that was carried out to its end leaves the store with the text,
/// and no temporary file.
pub proof fn lemma_completed_save(disk: Disk, path: Seq<char>, dir: Seq<char>, text: Seq<char>)
    ensures
        ({
            let after = after_steps(disk, save_steps(path, dir, text), 5);
            &&& after.contains_key(path)
            &&& after[path] == text
            &&& !after.contains_key(temporary_of(path))
            &&& forall|other: Seq<char>|
                other != path && other != temporary_of(path) ==> after.contains_key(other)
                    == disk.contains_key(other) && (disk.contains_key(other) ==> after[other]
                    == disk[other])
        }),
{
    let steps = save_steps(path, dir, text);
    lemma_temporary_differs(path);
    reveal_with_fuel(after_steps, 6);
    assert(steps[0] == Step::CreateDirs { dir });
    assert(steps[1] == Step::Create { path: temporary_of(path) });
    assert(steps[2] == Step::Write { path: temporary_of(path), text });
    assert(steps[3] == Step::Sync { path: temporary_of(path) });
    assert(steps[4] == Step::Rename { from: temporary_of(path), to: path });
}

} // verus!
