//! The removal engine: which paths may go, and how each one goes.
use vstd::prelude::*;
use crate::config::Config;
use crate::entry::{EntryType, Listing};

verus! {

/// The options and operands of a removal.
pub struct Args {
    /// `-d`: an empty directory may be removed.
    pub allow_dir: bool,
    /// `-f`: a missing path is no failure.
    pub force: bool,
    /// `-r`: a directory is removed with all it holds.
    pub recursive: bool,
    pub path: Vec<Vec<u8>>,
}

/// The options and the configuration of one removal run.
pub struct ProcessContext {
    pub args: Args,
    pub config: Config,
}

impl ProcessContext {
    pub fn new(args: Args, config: Config) -> (r: Self)
        ensures
            r.args == args,
            r.config == config,
    {
        ProcessContext { args, config }
    }
}

/// How a path is to be removed.
#[derive(PartialEq, Eq, Structural, Debug, Clone, Copy)]
pub enum RemovalKind {
    File,
    RecursiveDirectory,
    EmptyDirectory,
    DirectoryError,
    NonExistentFile,
}

/// Why a path was not removed.
#[derive(PartialEq, Eq, Structural, Debug, Clone, Copy)]
pub enum RmError {
    /// The path lies outside the authorised scope.
    ScopeViolation,
    /// The path does not exist and `-f` was not given.
    NotFound,
    /// A directory, and neither `-r` nor `-d` was given.
    IsADirectory,
    /// `-d` on a directory that holds entries.
    DirectoryNotEmpty,
    /// The directory could not be read.
    CannotAccess,
}

impl RmError {
    /// The reason, as the error message gives it.
    pub fn reason(&self) -> (r: &'static str)
        ensures
            r@ == match self {
                RmError::ScopeViolation => "path is outside allowed scope"@,
                RmError::NotFound => "No such file or directory"@,
                RmError::IsADirectory => "is a directory"@,
                RmError::DirectoryNotEmpty => "Directory not empty"@,
                RmError::CannotAccess => "cannot access"@,
            },
    {
        match self {
            RmError::ScopeViolation => "path is outside allowed scope",
            RmError::NotFound => "No such file or directory",
            RmError::IsADirectory => "is a directory",
            RmError::DirectoryNotEmpty => "Directory not empty",
            RmError::CannotAccess => "cannot access",
        }
    }
}

/// What the filesystem says about one operand.
#[derive(PartialEq, Eq, Structural, Debug, Clone, Copy)]
pub struct PathFacts {
    /// The path lies in the authorised scope.
    pub allowed: bool,
    /// The entry's type from a stat that does not follow a final link;
    /// `None` when nothing is there.
    pub entry: Option<EntryType>,
    /// What listing the entry as a directory showed.
    pub listing: Listing,
}

/// The kind of removal for an entry of type `entry` (`None`: missing).
pub open spec fn handler_spec(entry: Option<EntryType>, recursive: bool, allow_dir: bool, force: bool) -> Result<
    RemovalKind,
    RmError,
> {
    match entry {
        Some(EntryType::Directory) => if recursive {
            Ok(RemovalKind::RecursiveDirectory)
        } else if allow_dir {
            Ok(RemovalKind::EmptyDirectory)
        } else {
            Ok(RemovalKind::DirectoryError)
        },
        Some(_) => Ok(RemovalKind::File),
        None => if force {
            Ok(RemovalKind::NonExistentFile)
        } else {
            Err(RmError::NotFound)
        },
    }
}

/// Whether a removal of this kind may go ahead, given the directory listing.
pub open spec fn validate_spec(kind: RemovalKind, listing: Listing) -> Result<(), RmError> {
    match kind {
        RemovalKind::EmptyDirectory => match listing {
            Listing::Empty => Ok(()),
            Listing::NonEmpty => Err(RmError::DirectoryNotEmpty),
            Listing::Unreadable => Err(RmError::CannotAccess),
        },
        RemovalKind::DirectoryError => Err(RmError::IsADirectory),
        _ => Ok(()),
    }
}

/// The decision for one operand: refused outside the scope, then
/// classified, then validated.
pub open spec fn process_spec(facts: PathFacts, args: &Args) -> Result<RemovalKind, RmError> {
    if !facts.allowed {
        Err(RmError::ScopeViolation)
    } else {
        match handler_spec(facts.entry, args.recursive, args.allow_dir, args.force) {
            Err(e) => Err(e),
            Ok(kind) => match validate_spec(kind, facts.listing) {
                Err(e) => Err(e),
                Ok(()) => Ok(kind),
            },
        }
    }
}

/// Kinds whose entry is handed to the trash.
pub open spec fn removes_spec(kind: RemovalKind) -> bool {
    kind == RemovalKind::File || kind == RemovalKind::RecursiveDirectory || kind
        == RemovalKind::EmptyDirectory
}

/// Classifies an entry. A symbolic link is a `File` whatever it points to,
/// also under `-r`, so that removal never descends through a link.
pub fn determine_handler(entry: Option<EntryType>, args: &Args) -> (r: Result<RemovalKind, RmError>)
    ensures
        r == handler_spec(entry, args.recursive, args.allow_dir, args.force),
{
    match entry {
        Some(EntryType::Directory) => {
            if args.recursive {
                Ok(RemovalKind::RecursiveDirectory)
            } else if args.allow_dir {
                Ok(RemovalKind::EmptyDirectory)
            } else {
                Ok(RemovalKind::DirectoryError)
            }
        },
        Some(_) => Ok(RemovalKind::File),
        None => {
            if args.force {
                Ok(RemovalKind::NonExistentFile)
            } else {
                Err(RmError::NotFound)
            }
        },
    }
}

/// Checks what a kind of removal needs: an `EmptyDirectory` must hold no
/// entry, a `DirectoryError` always fails.
pub fn validate(kind: RemovalKind, listing: Listing) -> (r: Result<(), RmError>)
    ensures
        r == validate_spec(kind, listing),
{
    match kind {
        RemovalKind::EmptyDirectory => match listing {
            Listing::Empty => Ok(()),
            Listing::NonEmpty => Err(RmError::DirectoryNotEmpty),
            Listing::Unreadable => Err(RmError::CannotAccess),
        },
        RemovalKind::DirectoryError => Err(RmError::IsADirectory),
        _ => Ok(()),
    }
}

/// Whether the entry of a removal of this kind goes to the trash; a
/// `NonExistentFile` needs nothing done.
pub fn removes(kind: RemovalKind) -> (r: bool)
    ensures
        r == removes_spec(kind),
{
    match kind {
        RemovalKind::File | RemovalKind::RecursiveDirectory | RemovalKind::EmptyDirectory => true,
        _ => false,
    }
}

/// The decision for one operand.
pub fn process_path(facts: PathFacts, args: &Args) -> (r: Result<RemovalKind, RmError>)
    ensures
        r == process_spec(facts, args),
{
    if !facts.allowed {
        return Err(RmError::ScopeViolation);
    }
    let kind = match determine_handler(facts.entry, args) {
        Ok(k) => k,
        Err(e) => return Err(e),
    };
    match validate(kind, facts.listing) {
        Ok(()) => Ok(kind),
        Err(e) => Err(e),
    }
}

/// The decisions for a batch of operands, in the order given; a failure
/// on one leaves the others undisturbed.
pub fn plan_removals(facts: &Vec<PathFacts>, args: &Args) -> (r: Vec<Result<RemovalKind, RmError>>)
    ensures
        r@.len() == facts@.len(),
        forall|i: int| 0 <= i < facts@.len() ==> #[trigger] r@[i] == process_spec(facts@[i], args),
{
    let mut r: Vec<Result<RemovalKind, RmError>> = Vec::new();
    let mut i: usize = 0;
    while i < facts.len()
        invariant
            i <= facts@.len(),
            r@.len() == i,
            forall|k: int| 0 <= k < i ==> #[trigger] r@[k] == process_spec(facts@[k], args),
        decreases facts@.len() - i,
    {
        r.push(process_path(facts[i], args));
        i += 1;
    }
    r
}

/// 0 when every operation succeeded, 1 otherwise.
pub fn exit_code<T, E>(results: &Vec<Result<T, E>>) -> (r: i32)
    ensures
        r == 0 <==> forall|i: int| 0 <= i < results@.len() ==> #[trigger] results@[i] is Ok,
        r == 0 || r == 1,
{
    let mut i: usize = 0;
    while i < results.len()
        invariant
            i <= results@.len(),
            forall|k: int| 0 <= k < i ==> #[trigger] results@[k] is Ok,
        decreases results@.len() - i,
    {
        if results[i].is_err() {
            return 1;
        }
        i += 1;
    }
    0
}

/// In a batch, each operand outside the scope fails with a scope violation
/// and blocks nothing else: every operand inside it that is an existing
/// file goes to the trash. When any operand lies outside the scope the run
/// fails; exactly the operands inside it are removed, and each one outside
/// reports the violation.
pub proof fn lemma_batch_isolates_scope_violations(facts: Seq<PathFacts>, args: &Args, r: Seq<Result<RemovalKind, RmError>>)
    requires
        r.len() == facts.len(),
        forall|i: int| 0 <= i < facts.len() ==> #[trigger] r[i] == process_spec(facts[i], args),
        forall|i: int| 0 <= i < facts.len() ==> (#[trigger] facts[i]).allowed ==> facts[i].entry == Some(EntryType::File),
    ensures
        forall|i: int| 0 <= i < facts.len() ==> !(#[trigger] facts[i]).allowed ==> r[i] == Err::<RemovalKind, RmError>(RmError::ScopeViolation),
        forall|i: int| 0 <= i < facts.len() ==> (#[trigger] facts[i]).allowed ==> r[i] == Ok::<RemovalKind, RmError>(RemovalKind::File) && removes_spec(RemovalKind::File),
        (exists|i: int| 0 <= i < facts.len() && !(#[trigger] facts[i]).allowed) ==> exists|i: int| 0 <= i < r.len() && !(#[trigger] r[i] is Ok),
{
    if exists|i: int| 0 <= i < facts.len() && !(#[trigger] facts[i]).allowed {
        let i = choose|i: int| 0 <= i < facts.len() && !(#[trigger] facts[i]).allowed;
        assert(!(r[i] is Ok));
    }
}

} // verus!
