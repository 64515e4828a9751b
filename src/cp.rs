//! The copy engine: what a source is, where it goes, and what happens to
//! each destination path before anything is written to it.
use vstd::prelude::*;
use crate::config::Config;
use crate::entry::EntryType;
use crate::mv::{final_target_spec, resolve_final_target};

verus! {

/// The options and operands of a copy; the last operand is the destination.
pub struct Args {
    /// `-r` / `-R`: directories are copied with all they hold.
    pub recursive: bool,
    /// `-f`: accepted; the safe behaviour does not change.
    pub force: bool,
    /// `-n`: an existing plain file at the destination is left alone.
    pub no_clobber: bool,
    pub files: Vec<String>,
}

/// The options and the configuration of one copy run.
pub struct ProcessContext {
    pub recursive: bool,
    pub no_clobber: bool,
    pub config: Config,
}

impl ProcessContext {
    pub fn new(recursive: bool, no_clobber: bool, config: Config) -> (r: Self)
        ensures
            r.recursive == recursive,
            r.no_clobber == no_clobber,
            r.config == config,
    {
        ProcessContext { recursive, no_clobber, config }
    }
}

/// What a source is to the copy.
#[derive(PartialEq, Eq, Structural, Debug, Clone, Copy)]
pub enum CopyKind {
    File,
    RecursiveDirectory,
    DirectoryWithoutRecursive,
    UnsupportedType,
}

/// A validated copy of one source.
pub struct CopyTask {
    pub kind: CopyKind,
    pub source: Vec<u8>,
    /// The source as the caller wrote it, for messages.
    pub source_label: String,
    pub final_target: Vec<u8>,
}

/// Why a source, or an entry below it, was not copied.
#[derive(PartialEq, Eq, Structural, Debug, Clone, Copy)]
pub enum CpError {
    NotFound,
    /// The path could not be resolved.
    CannotAccess,
    SourceOutsideScope,
    TargetOutsideScope,
    /// The source has no file name to carry into a destination directory.
    InvalidSource,
    /// A directory without `-r`.
    OmittingDirectory,
    /// Neither a file nor a directory.
    NotARegularFile,
    /// With `-n`, something other than a plain file stands where a file goes.
    DestinationNotAFile,
    /// The destination path is a symbolic link.
    WriteThroughSymlink,
    /// Several sources, and the destination is not a directory.
    TargetNotADirectory,
}

impl CpError {
    /// The reason, as the error message gives it.
    pub fn reason(&self) -> (r: &'static str)
        ensures
            r@ == match self {
                CpError::NotFound => "No such file or directory"@,
                CpError::CannotAccess => "Permission denied"@,
                CpError::SourceOutsideScope => "path is outside allowed scope"@,
                CpError::TargetOutsideScope => "path is outside allowed scope"@,
                CpError::InvalidSource => "invalid source path"@,
                CpError::OmittingDirectory => "omitting directory"@,
                CpError::NotARegularFile => "Not a regular file"@,
                CpError::DestinationNotAFile => "destination is not a file"@,
                CpError::WriteThroughSymlink => "path is outside allowed scope"@,
                CpError::TargetNotADirectory => "is not a directory"@,
            },
    {
        match self {
            CpError::NotFound => "No such file or directory",
            CpError::CannotAccess => "Permission denied",
            CpError::SourceOutsideScope => "path is outside allowed scope",
            CpError::TargetOutsideScope => "path is outside allowed scope",
            CpError::InvalidSource => "invalid source path",
            CpError::OmittingDirectory => "omitting directory",
            CpError::NotARegularFile => "Not a regular file",
            CpError::DestinationNotAFile => "destination is not a file",
            CpError::WriteThroughSymlink => "path is outside allowed scope",
            CpError::TargetNotADirectory => "is not a directory",
        }
    }
}

/// What the filesystem says for the validation of one source.
#[derive(PartialEq, Eq, Structural, Debug, Clone, Copy)]
pub struct SourceFacts {
    /// Whether the canonical source lies in the scope; `None` when it
    /// could not be resolved.
    pub source_allowed: Option<bool>,
    /// The destination operand is a directory.
    pub target_is_dir: bool,
    /// Whether the final destination lies in the scope (resolved when it
    /// exists, as written otherwise); `None` when it could not be resolved.
    pub target_allowed: Option<bool>,
}

/// What a single file, or link, copy does at its destination.
#[derive(PartialEq, Eq, Structural, Debug, Clone, Copy)]
pub enum FileCopyStep {
    Copy,
    /// What is there goes to the trash first.
    EvictThenCopy,
    /// `-n` and a plain file is there: nothing is done.
    Skip,
}

/// What a directory copy does at its destination.
#[derive(PartialEq, Eq, Structural, Debug, Clone, Copy)]
pub enum DirectoryCopyStep {
    Create,
    /// What is there goes to the trash first, so the copy replaces it.
    EvictThenCreate,
    /// `-n` and something is there: entries are added to it one by one.
    Merge,
}

/// What the filesystem says about one entry of a directory being copied.
#[derive(PartialEq, Eq, Structural, Debug, Clone, Copy)]
pub struct EntryFacts {
    /// Whether the entry's canonical path lies in the scope; `None` when
    /// it could not be resolved.
    pub entry_allowed: Option<bool>,
    /// The entry's type, a link counting as a link.
    pub entry: EntryType,
    /// The destination path is a symbolic link.
    pub target_is_symlink: bool,
    /// The destination path lies in the scope.
    pub target_allowed: bool,
    /// The type at the destination path; `None` when nothing is there.
    pub target: Option<EntryType>,
}

/// What happens to one entry of a directory being copied.
#[derive(PartialEq, Eq, Structural, Debug, Clone, Copy)]
pub enum EntryStep {
    File(FileCopyStep),
    /// The link is reproduced as a link, never followed.
    Link(FileCopyStep),
    /// A subdirectory: copied the same way.
    Recurse,
    /// Neither file, link nor directory: left out.
    Ignore,
}

pub open spec fn classify_spec(entry: Option<EntryType>, recursive: bool) -> Result<CopyKind, CpError> {
    match entry {
        None => Err(CpError::NotFound),
        Some(EntryType::Directory) => if recursive {
            Ok(CopyKind::RecursiveDirectory)
        } else {
            Ok(CopyKind::DirectoryWithoutRecursive)
        },
        Some(EntryType::Other) => Ok(CopyKind::UnsupportedType),
        Some(_) => Ok(CopyKind::File),
    }
}

/// The outcome of validating one source: the source must resolve and lie
/// in the scope, then the final destination must.
pub open spec fn validate_spec(source: Seq<u8>, target: Seq<u8>, f: SourceFacts) -> Result<
    Seq<u8>,
    CpError,
> {
    match f.source_allowed {
        None => Err(CpError::CannotAccess),
        Some(false) => Err(CpError::SourceOutsideScope),
        Some(true) => match final_target_spec(source, target, f.target_is_dir) {
            Err(_) => Err(CpError::InvalidSource),
            Ok(t) => match f.target_allowed {
                None => Err(CpError::CannotAccess),
                Some(false) => Err(CpError::TargetOutsideScope),
                Some(true) => Ok(t),
            },
        },
    }
}

/// No-clobber skips only where a plain file stands; any other entry in the
/// way is an error under `-n`, and goes to the trash without it.
pub open spec fn file_step_spec(target: Option<EntryType>, no_clobber: bool) -> Result<
    FileCopyStep,
    CpError,
> {
    match target {
        None => Ok(FileCopyStep::Copy),
        Some(t) => if !no_clobber {
            Ok(FileCopyStep::EvictThenCopy)
        } else if t == EntryType::File {
            Ok(FileCopyStep::Skip)
        } else {
            Err(CpError::DestinationNotAFile)
        },
    }
}

pub open spec fn write_check_spec(target_is_symlink: bool, target_allowed: bool) -> Result<(), CpError> {
    if target_is_symlink {
        Err(CpError::WriteThroughSymlink)
    } else if !target_allowed {
        Err(CpError::TargetOutsideScope)
    } else {
        Ok(())
    }
}

pub open spec fn entry_step_spec(f: EntryFacts, no_clobber: bool) -> Result<EntryStep, CpError> {
    match f.entry_allowed {
        None => Err(CpError::CannotAccess),
        Some(false) => Err(CpError::SourceOutsideScope),
        Some(true) => if f.entry == EntryType::Other {
            Ok(EntryStep::Ignore)
        } else {
            match write_check_spec(f.target_is_symlink, f.target_allowed) {
                Err(e) => Err(e),
                Ok(()) => match f.entry {
                    EntryType::Directory => Ok(EntryStep::Recurse),
                    EntryType::Symlink => match file_step_spec(f.target, no_clobber) {
                        Err(e) => Err(e),
                        Ok(s) => Ok(EntryStep::Link(s)),
                    },
                    _ => match file_step_spec(f.target, no_clobber) {
                        Err(e) => Err(e),
                        Ok(s) => Ok(EntryStep::File(s)),
                    },
                },
            }
        },
    }
}

/// Several sources need a directory as destination.
pub fn check_operands(n_sources: usize, target_is_dir: bool) -> (r: Result<(), CpError>)
    ensures
        r is Err <==> n_sources > 1 && !target_is_dir,
        r is Err ==> r == Err::<(), CpError>(CpError::TargetNotADirectory),
{
    if n_sources > 1 && !target_is_dir {
        Err(CpError::TargetNotADirectory)
    } else {
        Ok(())
    }
}

/// What a source is: `entry` is its type from a stat that follows links,
/// `None` when nothing is there.
pub fn classify(entry: Option<EntryType>, recursive: bool) -> (r: Result<CopyKind, CpError>)
    ensures
        r == classify_spec(entry, recursive),
{
    match entry {
        None => Err(CpError::NotFound),
        Some(EntryType::Directory) => {
            if recursive {
                Ok(CopyKind::RecursiveDirectory)
            } else {
                Ok(CopyKind::DirectoryWithoutRecursive)
            }
        },
        Some(EntryType::Other) => Ok(CopyKind::UnsupportedType),
        Some(_) => Ok(CopyKind::File),
    }
}

/// Checks the scope of a source and of its final destination, and builds
/// the task.
pub fn validate(kind: CopyKind, source_label: &String, source: &Vec<u8>, target: &Vec<u8>, facts: SourceFacts) -> (r:
    Result<CopyTask, CpError>)
    ensures
        match r {
            Ok(task) => validate_spec(source@, target@, facts) == Ok::<Seq<u8>, CpError>(
                task.final_target@,
            ) && task.kind == kind && task.source@ == source@ && task.source_label@
                == source_label@,
            Err(e) => validate_spec(source@, target@, facts) == Err::<Seq<u8>, CpError>(e),
        },
{
    match facts.source_allowed {
        None => return Err(CpError::CannotAccess),
        Some(false) => return Err(CpError::SourceOutsideScope),
        Some(true) => {},
    }
    let final_target = match resolve_final_target(source, target, facts.target_is_dir) {
        Ok(t) => t,
        Err(_) => return Err(CpError::InvalidSource),
    };
    match facts.target_allowed {
        None => Err(CpError::CannotAccess),
        Some(false) => Err(CpError::TargetOutsideScope),
        Some(true) => Ok(
            CopyTask {
                kind,
                source: crate::paths::copy_bytes(source),
                source_label: source_label.clone(),
                final_target,
            },
        ),
    }
}

/// A source that is no file and no directory to copy fails here.
pub fn check_kind(kind: CopyKind) -> (r: Result<(), CpError>)
    ensures
        r == (match kind {
            CopyKind::DirectoryWithoutRecursive => Err(CpError::OmittingDirectory),
            CopyKind::UnsupportedType => Err(CpError::NotARegularFile),
            _ => Ok::<(), CpError>(()),
        }),
{
    match kind {
        CopyKind::DirectoryWithoutRecursive => Err(CpError::OmittingDirectory),
        CopyKind::UnsupportedType => Err(CpError::NotARegularFile),
        _ => Ok(()),
    }
}

/// What copying a file does at its destination; `target` is the type
/// there, `None` when nothing is there.
pub fn plan_file_copy(target: Option<EntryType>, no_clobber: bool) -> (r: Result<FileCopyStep, CpError>)
    ensures
        r == file_step_spec(target, no_clobber),
{
    match target {
        None => Ok(FileCopyStep::Copy),
        Some(t) => {
            if !no_clobber {
                Ok(FileCopyStep::EvictThenCopy)
            } else if t == EntryType::File {
                Ok(FileCopyStep::Skip)
            } else {
                Err(CpError::DestinationNotAFile)
            }
        },
    }
}

/// What copying a directory does at its destination. Without `-n` an
/// existing destination is replaced, not merged into, so nothing stale
/// survives the copy.
pub fn plan_directory_copy(target_exists: bool, no_clobber: bool) -> (r: DirectoryCopyStep)
    ensures
        r == (if !target_exists {
            DirectoryCopyStep::Create
        } else if no_clobber {
            DirectoryCopyStep::Merge
        } else {
            DirectoryCopyStep::EvictThenCreate
        }),
{
    if !target_exists {
        DirectoryCopyStep::Create
    } else if no_clobber {
        DirectoryCopyStep::Merge
    } else {
        DirectoryCopyStep::EvictThenCreate
    }
}

/// Nothing is written to a destination path that is a symbolic link or
/// lies outside the scope.
pub fn ensure_target_path_allowed_for_write(target_is_symlink: bool, target_allowed: bool) -> (r: Result<
    (),
    CpError,
>)
    ensures
        r == write_check_spec(target_is_symlink, target_allowed),
{
    if target_is_symlink {
        Err(CpError::WriteThroughSymlink)
    } else if !target_allowed {
        Err(CpError::TargetOutsideScope)
    } else {
        Ok(())
    }
}

/// What happens to one entry of a directory being copied. Every entry is
/// authorised on its own canonical path, so a link anywhere in the tree
/// that points out of the scope stops the copy.
pub fn plan_entry(facts: EntryFacts, no_clobber: bool) -> (r: Result<EntryStep, CpError>)
    ensures
        r == entry_step_spec(facts, no_clobber),
{
    match facts.entry_allowed {
        None => return Err(CpError::CannotAccess),
        Some(false) => return Err(CpError::SourceOutsideScope),
        Some(true) => {},
    }
    if facts.entry == EntryType::Other {
        return Ok(EntryStep::Ignore);
    }
    match ensure_target_path_allowed_for_write(facts.target_is_symlink, facts.target_allowed) {
        Err(e) => return Err(e),
        Ok(()) => {},
    }
    match facts.entry {
        EntryType::Directory => Ok(EntryStep::Recurse),
        EntryType::Symlink => match plan_file_copy(facts.target, no_clobber) {
            Err(e) => Err(e),
            Ok(s) => Ok(EntryStep::Link(s)),
        },
        _ => match plan_file_copy(facts.target, no_clobber) {
            Err(e) => Err(e),
            Ok(s) => Ok(EntryStep::File(s)),
        },
    }
}

/// What a probe of one path found, for a copy.
#[derive(PartialEq, Eq, Structural, Debug, Clone, Copy)]
pub struct CopyInfo {
    /// The type there, links followed; `None` when nothing is there.
    pub entry: Option<EntryType>,
    /// Whether the canonical path lies in the scope; `None` when the path
    /// could not be canonicalised.
    pub canonical_allowed: Option<bool>,
    /// Whether the path as written lies in the scope.
    pub allowed: bool,
}

/// The probe found `info` at the path `s`.
pub open spec fn found_copy<F: Fn(&Vec<u8>) -> CopyInfo>(probe: F, s: Seq<u8>, info: CopyInfo) -> bool {
    exists|v: Vec<u8>| v@ == s && probe.ensures((&v,), info)
}

/// What the scope check of a destination uses: its canonical form when it
/// exists, the path as written otherwise.
pub open spec fn destination_allowed(ti: CopyInfo) -> Option<bool> {
    if ti.entry is Some {
        ti.canonical_allowed
    } else {
        Some(ti.allowed)
    }
}

/// The decision for one source: classified, validated, and refused when it
/// is a directory without `-r` or of a type that cannot be copied.
pub open spec fn copy_outcome(
    source: Seq<u8>,
    target: Seq<u8>,
    target_is_dir: bool,
    recursive: bool,
    si: CopyInfo,
    ti: CopyInfo,
) -> Result<(CopyKind, Seq<u8>), CpError> {
    match classify_spec(si.entry, recursive) {
        Err(e) => Err(e),
        Ok(kind) => match validate_spec(
            source,
            target,
            SourceFacts {
                source_allowed: si.canonical_allowed,
                target_is_dir,
                target_allowed: destination_allowed(ti),
            },
        ) {
            Err(e) => Err(e),
            Ok(fin) => if kind == CopyKind::DirectoryWithoutRecursive {
                Err(CpError::OmittingDirectory)
            } else if kind == CopyKind::UnsupportedType {
                Err(CpError::NotARegularFile)
            } else {
                Ok((kind, fin))
            },
        },
    }
}

/// Prepares the copy of one source onto `target` (a directory when
/// `target_is_dir`). The filesystem is asked through `probe`, at the
/// source and at its final destination.
pub fn copy_item<F: Fn(&Vec<u8>) -> CopyInfo>(
    source_label: &String,
    source: &Vec<u8>,
    target: &Vec<u8>,
    target_is_dir: bool,
    recursive: bool,
    probe: &F,
) -> (r: Result<CopyTask, CpError>)
    requires
        forall|p: &Vec<u8>| probe.requires((p,)),
    ensures
        exists|si: CopyInfo, ti: CopyInfo|
            found_copy(*probe, source@, si) && ((classify_spec(si.entry, recursive) is Ok
                && final_target_spec(source@, target@, target_is_dir) is Ok) ==> found_copy(
                *probe,
                final_target_spec(source@, target@, target_is_dir)->Ok_0,
                ti,
            )) && match #[trigger] copy_outcome(
                source@,
                target@,
                target_is_dir,
                recursive,
                si,
                ti,
            ) {
                Ok((kind, fin)) => (r matches Ok(task) && task.kind == kind && task.final_target@
                    == fin && task.source@ == source@ && task.source_label@ == source_label@),
                Err(e) => r matches Err(e2) && e2 == e,
            },
{
    let si = probe(source);
    assert(found_copy(*probe, source@, si));
    let kind = match classify(si.entry, recursive) {
        Ok(k) => k,
        Err(e) => {
            assert(copy_outcome(source@, target@, target_is_dir, recursive, si, si) == Err::<
                (CopyKind, Seq<u8>),
                CpError,
            >(e));
            return Err(e);
        },
    };
    let fin = resolve_final_target(source, target, target_is_dir);
    let ti = match &fin {
        Ok(f) => {
            let t = probe(f);
            assert(found_copy(*probe, f@, t));
            t
        },
        Err(_) => si,
    };
    let target_allowed = if ti.entry.is_some() {
        ti.canonical_allowed
    } else {
        Some(ti.allowed)
    };
    let facts = SourceFacts { source_allowed: si.canonical_allowed, target_is_dir, target_allowed };
    let task = match validate(kind, source_label, source, target, facts) {
        Ok(t) => t,
        Err(e) => {
            assert(copy_outcome(source@, target@, target_is_dir, recursive, si, ti) == Err::<
                (CopyKind, Seq<u8>),
                CpError,
            >(e));
            return Err(e);
        },
    };
    match check_kind(task.kind) {
        Ok(()) => {
            assert(copy_outcome(source@, target@, target_is_dir, recursive, si, ti) == Ok::<
                (CopyKind, Seq<u8>),
                CpError,
            >((kind, task.final_target@)));
            Ok(task)
        },
        Err(e) => {
            assert(copy_outcome(source@, target@, target_is_dir, recursive, si, ti) == Err::<
                (CopyKind, Seq<u8>),
                CpError,
            >(e));
            Err(e)
        },
    }
}

} // verus!
