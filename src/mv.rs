//! The move engine: where a source goes, what happens to what stands
//! there, and the staged rename that can be undone.
use vstd::prelude::*;
use vstd::string::StringSliceAdditionalSpecFns;
use crate::entry::{answered, found, EntryType, FileId, Listing, PathInfo};
use crate::paths::{bytes_equal, lexical_normal, normalize_lexically, copy_bytes, file_name, file_name_spec, join_path, join_path_spec, parent, parent_spec};
use crate::text::{decimal, decimal_spec, push_bytes, push_str};

verus! {

/// The highest staging attempt tried.
pub const MAX_STAGING_ATTEMPT: u32 = 255;

/// The options and operands of a move; the last operand is the destination.
pub struct Args {
    /// `-f`: accepted; the safe behaviour does not change.
    pub force: bool,
    /// `-n`: an existing destination is left alone.
    pub no_clobber: bool,
    pub files: Vec<String>,
}

/// What is done at the final destination before the staged source is
/// renamed onto it.
#[derive(PartialEq, Eq, Structural, Debug, Clone, Copy)]
pub enum DestinationAction {
    /// Nothing is there.
    RenameDirectly,
    /// An empty directory is there, and the source is a directory: it is removed.
    ReplaceEmptyDirectory,
    /// A non-directory is there: it goes to the trash first.
    EvictThenRename,
}

/// What a move of one source comes to.
#[derive(PartialEq, Eq, Structural, Debug, Clone, Copy)]
pub enum MovePlan {
    /// `-n` and something exists at the destination: nothing is done.
    Skip,
    Move(DestinationAction),
}

/// Why a source was not moved.
#[derive(PartialEq, Eq, Structural, Debug, Clone, Copy)]
pub enum MvError {
    NotFound,
    CannotAccess,
    SourceOutsideScope,
    TargetOutsideScope,
    /// The source has no file name to carry into a destination directory.
    InvalidSource,
    /// The destination has no parent to stage in.
    InvalidDestination,
    SameFile,
    OverwriteNonDirectoryWithDirectory,
    DestinationIsDirectory,
    DirectoryNotEmpty,
    StagingExhausted,
    /// Several sources, and the destination is not a directory.
    TargetNotADirectory,
}

impl MvError {
    /// The reason, as the error message gives it.
    pub fn reason(&self) -> (r: &'static str)
        ensures
            r@ == match self {
                MvError::NotFound => "No such file or directory"@,
                MvError::CannotAccess => "cannot access"@,
                MvError::SourceOutsideScope => "path is outside allowed scope"@,
                MvError::TargetOutsideScope => "path is outside allowed scope"@,
                MvError::InvalidSource => "invalid source path"@,
                MvError::InvalidDestination => "invalid destination path"@,
                MvError::SameFile => "are the same file"@,
                MvError::OverwriteNonDirectoryWithDirectory => "cannot overwrite non-directory with directory"@,
                MvError::DestinationIsDirectory => "destination is a directory"@,
                MvError::DirectoryNotEmpty => "Directory not empty"@,
                MvError::StagingExhausted => "failed to allocate staging path"@,
                MvError::TargetNotADirectory => "is not a directory"@,
            },
    {
        match self {
            MvError::NotFound => "No such file or directory",
            MvError::CannotAccess => "cannot access",
            MvError::SourceOutsideScope => "path is outside allowed scope",
            MvError::TargetOutsideScope => "path is outside allowed scope",
            MvError::InvalidSource => "invalid source path",
            MvError::InvalidDestination => "invalid destination path",
            MvError::SameFile => "are the same file",
            MvError::OverwriteNonDirectoryWithDirectory => "cannot overwrite non-directory with directory",
            MvError::DestinationIsDirectory => "destination is a directory",
            MvError::DirectoryNotEmpty => "Directory not empty",
            MvError::StagingExhausted => "failed to allocate staging path",
            MvError::TargetNotADirectory => "is not a directory",
        }
    }
}

/// What the filesystem says about the final destination of one source.
#[derive(PartialEq, Eq, Structural, Debug, Clone, Copy)]
pub struct DestinationFacts {
    /// The source is a directory (not a link to one).
    pub source_is_dir: bool,
    /// The source's identity, where a stat gave it.
    pub source_id: Option<FileId>,
    /// The type at the destination, from a stat that does not follow a
    /// final link; `None` when nothing is there.
    pub target: Option<EntryType>,
    /// The destination's identity, where a stat gave it.
    pub target_id: Option<FileId>,
    /// What listing the destination as a directory showed.
    pub target_listing: Listing,
    /// Source and destination are the same path once normalised lexically.
    pub same_path: bool,
}

/// Where a source goes: into the destination when that is a directory,
/// under the source's own name; otherwise to the destination itself.
pub open spec fn final_target_spec(source: Seq<u8>, target: Seq<u8>, target_is_dir: bool) -> Result<
    Seq<u8>,
    MvError,
> {
    if target_is_dir {
        match file_name_spec(source) {
            Some(n) => Ok(join_path_spec(target, n)),
            None => Err(MvError::InvalidSource),
        }
    } else {
        Ok(target)
    }
}

/// Source and destination are one entity: the same device and inode where
/// the source's identity is known, the same normalised path otherwise.
pub open spec fn same_file_spec(source_id: Option<FileId>, target_id: Option<FileId>, same_path: bool) -> Result<
    (),
    MvError,
> {
    match target_id {
        None => Ok(()),
        Some(t) => match source_id {
            None => if same_path {
                Err(MvError::SameFile)
            } else {
                Ok(())
            },
            Some(s) => if s == t {
                Err(MvError::SameFile)
            } else {
                Ok(())
            },
        },
    }
}

pub open spec fn action_spec(source_is_dir: bool, target: Option<EntryType>, listing: Listing) -> Result<
    DestinationAction,
    MvError,
> {
    match target {
        None => Ok(DestinationAction::RenameDirectly),
        Some(EntryType::Directory) => if !source_is_dir {
            Err(MvError::DestinationIsDirectory)
        } else {
            match listing {
                Listing::Empty => Ok(DestinationAction::ReplaceEmptyDirectory),
                Listing::NonEmpty => Err(MvError::DirectoryNotEmpty),
                Listing::Unreadable => Err(MvError::CannotAccess),
            }
        },
        Some(_) => if source_is_dir {
            Err(MvError::OverwriteNonDirectoryWithDirectory)
        } else {
            Ok(DestinationAction::EvictThenRename)
        },
    }
}

/// The decision at the destination: `-n` with something there skips;
/// then the same-file check; then the action.
pub open spec fn plan_spec(no_clobber: bool, f: DestinationFacts) -> Result<MovePlan, MvError> {
    if no_clobber && f.target is Some {
        Ok(MovePlan::Skip)
    } else {
        match same_file_spec(f.source_id, f.target_id, f.same_path) {
            Err(e) => Err(e),
            Ok(()) => match action_spec(f.source_is_dir, f.target, f.target_listing) {
                Err(e) => Err(e),
                Ok(a) => Ok(MovePlan::Move(a)),
            },
        }
    }
}

/// Several sources need a directory as destination.
pub fn check_operands(n_sources: usize, target_is_dir: bool) -> (r: Result<(), MvError>)
    ensures
        r is Err <==> n_sources > 1 && !target_is_dir,
        r is Err ==> r == Err::<(), MvError>(MvError::TargetNotADirectory),
{
    if n_sources > 1 && !target_is_dir {
        Err(MvError::TargetNotADirectory)
    } else {
        Ok(())
    }
}

/// The source must exist (a dangling link does) and lie in the scope.
pub fn check_source(entry: Option<EntryType>, allowed: bool) -> (r: Result<(), MvError>)
    ensures
        r == (if entry is None {
            Err(MvError::NotFound)
        } else if !allowed {
            Err(MvError::SourceOutsideScope)
        } else {
            Ok::<(), MvError>(())
        }),
{
    if entry.is_none() {
        Err(MvError::NotFound)
    } else if !allowed {
        Err(MvError::SourceOutsideScope)
    } else {
        Ok(())
    }
}

/// The final destination of `source`.
pub fn resolve_final_target(source: &Vec<u8>, target: &Vec<u8>, target_is_dir: bool) -> (r: Result<
    Vec<u8>,
    MvError,
>)
    ensures
        match r {
            Ok(p) => final_target_spec(source@, target@, target_is_dir) == Ok::<Seq<u8>, MvError>(p@),
            Err(e) => final_target_spec(source@, target@, target_is_dir) == Err::<Seq<u8>, MvError>(e),
        },
{
    if target_is_dir {
        match file_name(source) {
            Some(n) => Ok(join_path(target, &n)),
            None => Err(MvError::InvalidSource),
        }
    } else {
        Ok(copy_bytes(target))
    }
}

/// The final destination must lie in the scope.
pub fn validate_target_scope(allowed: bool) -> (r: Result<(), MvError>)
    ensures
        r == (if allowed { Ok::<(), MvError>(()) } else { Err(MvError::TargetOutsideScope) }),
{
    if allowed {
        Ok(())
    } else {
        Err(MvError::TargetOutsideScope)
    }
}

/// Source and destination must not be one entity (same device and inode;
/// where the source has no identity, the same normalised path).
pub fn ensure_not_same_file(source_id: Option<FileId>, target_id: Option<FileId>, same_path: bool) -> (r: Result<
    (),
    MvError,
>)
    ensures
        r == same_file_spec(source_id, target_id, same_path),
{
    match target_id {
        None => Ok(()),
        Some(t) => match source_id {
            None => {
                if same_path {
                    Err(MvError::SameFile)
                } else {
                    Ok(())
                }
            },
            Some(s) => {
                if s.dev == t.dev && s.ino == t.ino {
                    Err(MvError::SameFile)
                } else {
                    Ok(())
                }
            },
        },
    }
}

/// What to do with what stands at the destination.
pub fn handle_existing_target(source_is_dir: bool, target: Option<EntryType>, listing: Listing) -> (r:
    Result<DestinationAction, MvError>)
    ensures
        r == action_spec(source_is_dir, target, listing),
{
    match target {
        None => Ok(DestinationAction::RenameDirectly),
        Some(EntryType::Directory) => {
            if !source_is_dir {
                Err(MvError::DestinationIsDirectory)
            } else {
                match listing {
                    Listing::Empty => Ok(DestinationAction::ReplaceEmptyDirectory),
                    Listing::NonEmpty => Err(MvError::DirectoryNotEmpty),
                    Listing::Unreadable => Err(MvError::CannotAccess),
                }
            }
        },
        Some(_) => {
            if source_is_dir {
                Err(MvError::OverwriteNonDirectoryWithDirectory)
            } else {
                Ok(DestinationAction::EvictThenRename)
            }
        },
    }
}

/// The decision at the destination.
pub fn plan_destination(no_clobber: bool, facts: DestinationFacts) -> (r: Result<MovePlan, MvError>)
    ensures
        r == plan_spec(no_clobber, facts),
{
    if no_clobber && facts.target.is_some() {
        return Ok(MovePlan::Skip);
    }
    match ensure_not_same_file(facts.source_id, facts.target_id, facts.same_path) {
        Err(e) => return Err(e),
        Ok(()) => {},
    }
    match handle_existing_target(facts.source_is_dir, facts.target, facts.target_listing) {
        Err(e) => Err(e),
        Ok(a) => Ok(MovePlan::Move(a)),
    }
}

/// The decision for one source, from what the probe found at the source
/// and at its final destination: the source must exist and lie in the
/// scope, then its final destination must, then `plan_spec` decides.
pub open spec fn move_outcome(
    source: Seq<u8>,
    target: Seq<u8>,
    target_is_dir: bool,
    no_clobber: bool,
    si: PathInfo,
    ti: PathInfo,
) -> Result<(Seq<u8>, MovePlan), MvError> {
    if si.entry is None {
        Err(MvError::NotFound)
    } else if !si.allowed {
        Err(MvError::SourceOutsideScope)
    } else {
        match final_target_spec(source, target, target_is_dir) {
            Err(e) => Err(e),
            Ok(fin) => if !ti.allowed {
                Err(MvError::TargetOutsideScope)
            } else {
                match plan_spec(
                    no_clobber,
                    DestinationFacts {
                        source_is_dir: si.entry == Some(EntryType::Directory),
                        source_id: si.id,
                        target: ti.entry,
                        target_id: ti.id,
                        target_listing: ti.listing,
                        same_path: lexical_normal(source) == lexical_normal(fin),
                    },
                ) {
                    Err(e) => Err(e),
                    Ok(p) => Ok((fin, p)),
                }
            },
        }
    }
}

/// Decides the move of one source onto `target` (a directory when
/// `target_is_dir`): the final destination and what to do there. The
/// filesystem is asked through `probe`, at the source first and then at
/// the final destination.
pub fn process_source<F: Fn(&Vec<u8>) -> PathInfo>(
    source: &Vec<u8>,
    target: &Vec<u8>,
    target_is_dir: bool,
    no_clobber: bool,
    probe: &F,
) -> (r: Result<(Vec<u8>, MovePlan), MvError>)
    requires
        forall|p: &Vec<u8>| probe.requires((p,)),
    ensures
        exists|si: PathInfo, ti: PathInfo|
            found(*probe, source@, si) && ((si.entry is Some && si.allowed && final_target_spec(
                source@,
                target@,
                target_is_dir,
            ) is Ok) ==> found(
                *probe,
                final_target_spec(source@, target@, target_is_dir)->Ok_0,
                ti,
            )) && match #[trigger] move_outcome(
                source@,
                target@,
                target_is_dir,
                no_clobber,
                si,
                ti,
            ) {
                Ok((fin, plan)) => (r matches Ok((f, p)) && f@ == fin && p == plan),
                Err(e) => r == Err::<(Vec<u8>, MovePlan), MvError>(e),
            },
{
    let si = probe(source);
    assert(found(*probe, source@, si));
    if let Err(e) = check_source(si.entry, si.allowed) {
        assert(move_outcome(source@, target@, target_is_dir, no_clobber, si, si) == Err::<
            (Seq<u8>, MovePlan),
            MvError,
        >(e));
        return Err(e);
    }
    let fin = match resolve_final_target(source, target, target_is_dir) {
        Ok(f) => f,
        Err(e) => {
            assert(move_outcome(source@, target@, target_is_dir, no_clobber, si, si) == Err::<
                (Seq<u8>, MovePlan),
                MvError,
            >(e));
            return Err(e);
        },
    };
    let ti = probe(&fin);
    assert(found(*probe, fin@, ti));
    if let Err(e) = validate_target_scope(ti.allowed) {
        assert(move_outcome(source@, target@, target_is_dir, no_clobber, si, ti) == Err::<
            (Seq<u8>, MovePlan),
            MvError,
        >(e));
        return Err(e);
    }
    let same_path = bytes_equal(&normalize_lexically(source), &normalize_lexically(&fin));
    let facts = DestinationFacts {
        source_is_dir: si.entry == Some(EntryType::Directory),
        source_id: si.id,
        target: ti.entry,
        target_id: ti.id,
        target_listing: ti.listing,
        same_path,
    };
    match plan_destination(no_clobber, facts) {
        Ok(p) => Ok((fin, p)),
        Err(e) => Err(e),
    }
}

/// The staging name for a process and attempt: `.safecmd-mv-stage-<pid>-<attempt>`.
pub open spec fn staging_name_spec(pid: u32, attempt: u32) -> Seq<u8> {
    ".safecmd-mv-stage-".spec_bytes() + decimal_spec(pid as nat) + "-".spec_bytes() + decimal_spec(
        attempt as nat,
    )
}

pub fn staging_name(pid: u32, attempt: u32) -> (r: Vec<u8>)
    ensures
        r@ == staging_name_spec(pid, attempt),
{
    let mut r: Vec<u8> = Vec::new();
    push_str(&mut r, ".safecmd-mv-stage-");
    let p = decimal(pid as u64);
    push_bytes(&mut r, &p);
    push_str(&mut r, "-");
    let a = decimal(attempt as u64);
    push_bytes(&mut r, &a);
    r
}

/// A free staging path beside the final destination, in its parent
/// directory: the first attempt from 0 to 255 whose name the probe
/// reports free.
pub fn build_staging_path<F: Fn(&Vec<u8>) -> bool>(final_target: &Vec<u8>, pid: u32, is_occupied: F) -> (r:
    Result<Vec<u8>, MvError>)
    requires
        forall|p: &Vec<u8>| is_occupied.requires((p,)),
    ensures
        parent_spec(final_target@) is None ==> r == Err::<Vec<u8>, MvError>(
            MvError::InvalidDestination,
        ),
        parent_spec(final_target@) matches Some(dir) ==> match r {
            Ok(p) => exists|a: u32|
                a <= MAX_STAGING_ATTEMPT && p@ == join_path_spec(dir, staging_name_spec(pid, a))
                    && answered(is_occupied, p@, false) && forall|b: u32|
                    b < a ==> answered(
                        is_occupied,
                        #[trigger] join_path_spec(dir, staging_name_spec(pid, b)),
                        true,
                    ),
            Err(e) => e == MvError::StagingExhausted && forall|b: u32|
                b <= MAX_STAGING_ATTEMPT ==> answered(
                    is_occupied,
                    #[trigger] join_path_spec(dir, staging_name_spec(pid, b)),
                    true,
                ),
        },
{
    let dir = match parent(final_target) {
        Some(d) => d,
        None => return Err(MvError::InvalidDestination),
    };
    let mut a: u32 = 0;
    while a <= MAX_STAGING_ATTEMPT
        invariant
            a <= MAX_STAGING_ATTEMPT + 1,
            parent_spec(final_target@) == Some(dir@),
            forall|p: &Vec<u8>| is_occupied.requires((p,)),
            forall|b: u32|
                b < a ==> answered(
                    is_occupied,
                    #[trigger] join_path_spec(dir@, staging_name_spec(pid, b)),
                    true,
                ),
        decreases MAX_STAGING_ATTEMPT + 1 - a,
    {
        let name = staging_name(pid, a);
        let c = join_path(&dir, &name);
        if !is_occupied(&c) {
            assert(answered(is_occupied, c@, false));
            return Ok(c);
        }
        assert(answered(is_occupied, c@, true));
        a += 1;
        assert forall|b: u32| b < a implies answered(
            is_occupied,
            #[trigger] join_path_spec(dir@, staging_name_spec(pid, b)),
            true,
        ) by {
            if b == a - 1 {
                assert(join_path_spec(dir@, staging_name_spec(pid, b)) == c@);
            }
        }
    }
    Err(MvError::StagingExhausted)
}

/// Where a staged move stands.
#[derive(PartialEq, Eq, Structural, Debug, Clone, Copy)]
pub enum MoveState {
    /// Decided, nothing touched yet.
    Planned,
    /// The source sits at its staging path.
    Staged,
    /// The source sits at its final destination.
    Committed,
    /// Staging failed; nothing was touched.
    Failed,
    /// The final step failed; the source was renamed back.
    RolledBack,
}

/// What to do next.
#[derive(PartialEq, Eq, Structural, Debug, Clone, Copy)]
pub enum MoveAction {
    /// Rename the source to its staging path.
    Stage,
    /// Do the destination action's first step, then rename the staged
    /// source to the final destination.
    Commit,
    /// Rename the staged source back to where it came from.
    Compensate,
    /// Nothing is left to do.
    Stop,
}

pub open spec fn move_step_spec(state: MoveState, succeeded: bool) -> (MoveState, MoveAction) {
    match state {
        MoveState::Planned => if succeeded {
            (MoveState::Staged, MoveAction::Commit)
        } else {
            (MoveState::Failed, MoveAction::Stop)
        },
        MoveState::Staged => if succeeded {
            (MoveState::Committed, MoveAction::Stop)
        } else {
            (MoveState::RolledBack, MoveAction::Compensate)
        },
        _ => (state, MoveAction::Stop),
    }
}

/// The first action of a planned move.
pub fn first_move_action() -> (r: (MoveState, MoveAction))
    ensures
        r == (MoveState::Planned, MoveAction::Stage),
{
    (MoveState::Planned, MoveAction::Stage)
}

/// The next state and action, once the last action has succeeded or
/// failed. A failure after staging always leads to renaming the source
/// back; a failure before it leaves nothing to undo.
pub fn move_step(state: MoveState, succeeded: bool) -> (r: (MoveState, MoveAction))
    ensures
        r == move_step_spec(state, succeeded),
{
    match state {
        MoveState::Planned => {
            if succeeded {
                (MoveState::Staged, MoveAction::Commit)
            } else {
                (MoveState::Failed, MoveAction::Stop)
            }
        },
        MoveState::Staged => {
            if succeeded {
                (MoveState::Committed, MoveAction::Stop)
            } else {
                (MoveState::RolledBack, MoveAction::Compensate)
            }
        },
        _ => (state, MoveAction::Stop),
    }
}

/// Whatever the outcomes, a staged move ends committed or rolled back,
/// never with the source left at its staging path: after two steps from
/// `Planned` the state is `Committed`, `RolledBack` or `Failed`, and
/// `Staged` is only ever left through the commit or the compensation.
pub proof fn lemma_staged_move_never_strands_source(first: bool, second: bool)
    ensures
        ({
            let (s1, a1) = move_step_spec(MoveState::Planned, first);
            let (s2, a2) = move_step_spec(s1, second);
            (s2 == MoveState::Committed || s2 == MoveState::RolledBack || s2 == MoveState::Failed)
                && (s1 == MoveState::Staged && !second ==> a2 == MoveAction::Compensate)
                && (s1 == MoveState::Failed ==> a2 == MoveAction::Stop)
        }),
{
}

} // verus!
