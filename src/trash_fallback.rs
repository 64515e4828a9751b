//! Relocation into a fallback trash directory when the system trash fails.
use vstd::prelude::*;
use vstd::string::StringSliceAdditionalSpecFns;
use crate::entry::{answered, EntryType};
use crate::paths::{
    file_name, file_name_spec, is_cur_dir, is_parent_dir, join_path, join_path_spec, SEP, DOT,
};
use crate::text::{decimal, decimal_spec, push_bytes, push_str};

verus! {

/// The byte `\`.
pub const BACKSLASH: u8 = 92;

/// The byte `_`.
pub const UNDERSCORE: u8 = 95;

/// The highest collision counter tried in the fallback directory.
pub const MAX_SLOT: u64 = 9999;

/// Why an entry could not be moved aside.
#[derive(PartialEq, Eq, Debug)]
pub enum TrashError {
    /// The home directory, and with it the fallback directory, is unknown.
    HomeNotFound,
    /// The entry's path has no file name.
    InvalidFileName,
    /// Every slot up to `MAX_SLOT` is taken.
    TooManyCollisions,
    /// The system trash failed, and so did the fallback; both causes, chained.
    Failed { message: String },
}

/// A file name with separators replaced by `_`.
pub open spec fn underscored(name: Seq<u8>) -> Seq<u8> {
    name.map_values(|b: u8| if b == SEP || b == BACKSLASH { UNDERSCORE } else { b })
}

/// A file name that is safe to use in the fallback directory; names that
/// would denote a directory itself become `unnamed`.
pub open spec fn sanitize_spec(name: Seq<u8>) -> Seq<u8> {
    let m = underscored(name);
    if m.len() == 0 || is_cur_dir(m) || is_parent_dir(m) {
        "unnamed".spec_bytes()
    } else {
        m
    }
}

/// The name tried at counter `k`: the name itself, then `name.1`, `name.2`, ...
pub open spec fn slot_name(name: Seq<u8>, k: nat) -> Seq<u8> {
    if k == 0 {
        name
    } else {
        name + seq![DOT] + decimal_spec(k)
    }
}

pub open spec fn slot_spec(dir: Seq<u8>, name: Seq<u8>, k: nat) -> Seq<u8> {
    join_path_spec(dir, slot_name(name, k))
}

/// `p` is the first slot below `dir` that the probe reported free.
pub open spec fn first_free_slot<F: Fn(&Vec<u8>) -> bool>(
    is_occupied: F,
    dir: Seq<u8>,
    name: Seq<u8>,
    p: Seq<u8>,
) -> bool {
    exists|k: nat|
        k <= MAX_SLOT && p == slot_spec(dir, name, k) && answered(is_occupied, p, false) && forall|j: nat|
            j < k ==> answered(is_occupied, #[trigger] slot_spec(dir, name, j), true)
}

/// The fallback trash directory below a home directory.
pub open spec fn fallback_dir_spec(home: Seq<u8>, on_macos: bool) -> Seq<u8> {
    if on_macos {
        join_path_spec(home, ".Trash".spec_bytes())
    } else {
        join_path_spec(home, ".local/share/Trash/files".spec_bytes())
    }
}

/// `name` with `/` and `\` replaced by `_`; a name that is empty, `.` or
/// `..` becomes `unnamed`.
pub fn sanitize_file_name(name: &Vec<u8>) -> (r: Vec<u8>)
    ensures
        r@ == sanitize_spec(name@),
{
    let mut m: Vec<u8> = Vec::new();
    let mut i: usize = 0;
    while i < name.len()
        invariant
            i <= name@.len(),
            m@ == underscored(name@.subrange(0, i as int)),
        decreases name@.len() - i,
    {
        let b = name[i];
        if b == SEP || b == BACKSLASH {
            m.push(UNDERSCORE);
        } else {
            m.push(b);
        }
        i += 1;
        assert(m@ =~= underscored(name@.subrange(0, i as int)));
    }
    assert(name@.subrange(0, name@.len() as int) =~= name@);
    let is_dot = m.len() == 1 && m[0] == DOT;
    let is_dot_dot = m.len() == 2 && m[0] == DOT && m[1] == DOT;
    assert(is_cur_dir(m@) == is_dot) by {
        if is_dot {
            assert(m@ =~= seq![DOT]);
        }
    }
    assert(is_parent_dir(m@) == is_dot_dot) by {
        if is_dot_dot {
            assert(m@ =~= seq![DOT, DOT]);
        }
    }
    if m.len() == 0 || is_dot || is_dot_dot {
        let mut u: Vec<u8> = Vec::new();
        push_str(&mut u, "unnamed");
        assert(u@ =~= "unnamed".spec_bytes());
        u
    } else {
        m
    }
}

/// The candidate path at counter `k`.
pub fn fallback_slot(dir: &Vec<u8>, name: &Vec<u8>, k: u64) -> (r: Vec<u8>)
    ensures
        r@ == slot_spec(dir@, name@, k as nat),
{
    let mut n: Vec<u8> = Vec::new();
    push_bytes(&mut n, name);
    if k > 0 {
        n.push(DOT);
        let d = decimal(k);
        push_bytes(&mut n, &d);
    }
    assert(n@ =~= slot_name(name@, k as nat));
    join_path(dir, &n)
}

/// The first free slot for `target` in `fallback_dir`: its sanitised name,
/// then that name with `.1` up to `.9999` appended. A dangling link
/// occupies its slot; that is for the probe to report.
pub fn build_unique_fallback_path<F: Fn(&Vec<u8>) -> bool>(
    fallback_dir: &Vec<u8>,
    target: &Vec<u8>,
    is_occupied: F,
) -> (r: Result<Vec<u8>, TrashError>)
    requires
        forall|p: &Vec<u8>| is_occupied.requires((p,)),
    ensures
        file_name_spec(target@) is None ==> r == Err::<Vec<u8>, TrashError>(
            TrashError::InvalidFileName,
        ),
        file_name_spec(target@) matches Some(n) ==> match r {
            Ok(p) => first_free_slot(is_occupied, fallback_dir@, sanitize_spec(n), p@),
            Err(e) => e == TrashError::TooManyCollisions && forall|j: nat|
                j <= MAX_SLOT ==> answered(
                    is_occupied,
                    #[trigger] slot_spec(fallback_dir@, sanitize_spec(n), j),
                    true,
                ),
        },
{
    let name = match file_name(target) {
        Some(n) => n,
        None => return Err(TrashError::InvalidFileName),
    };
    let safe = sanitize_file_name(&name);
    let ghost s = safe@;
    let mut k: u64 = 0;
    while k <= MAX_SLOT
        invariant
            k <= MAX_SLOT + 1,
            s == safe@,
            file_name_spec(target@) == Some(name@),
            s == sanitize_spec(name@),
            forall|p: &Vec<u8>| is_occupied.requires((p,)),
            forall|j: nat| j < k ==> answered(is_occupied, #[trigger] slot_spec(fallback_dir@, s, j), true),
        decreases MAX_SLOT + 1 - k,
    {
        let c = fallback_slot(fallback_dir, &safe, k);
        let taken = is_occupied(&c);
        if !taken {
            assert(answered(is_occupied, c@, false));
            assert(first_free_slot(is_occupied, fallback_dir@, s, c@));
            return Ok(c);
        }
        assert(answered(is_occupied, c@, true));
        k += 1;
        assert forall|j: nat| j < k implies answered(is_occupied, #[trigger] slot_spec(fallback_dir@, s, j), true) by {
            if j == k - 1 {
                assert(slot_spec(fallback_dir@, s, j) == c@);
            }
        }
    }
    Err(TrashError::TooManyCollisions)
}

/// The fallback directory below `home`: `~/.Trash` on macOS,
/// `~/.local/share/Trash/files` elsewhere.
pub fn fallback_trash_dir(home: &Vec<u8>, on_macos: bool) -> (r: Vec<u8>)
    ensures
        r@ == fallback_dir_spec(home@, on_macos),
{
    let mut rel: Vec<u8> = Vec::new();
    if on_macos {
        push_str(&mut rel, ".Trash");
    } else {
        push_str(&mut rel, ".local/share/Trash/files");
    }
    assert(rel@ =~= if on_macos { ".Trash".spec_bytes() } else { ".local/share/Trash/files".spec_bytes() });
    join_path(home, &rel)
}

/// Relies on `dirs::home_dir`: the current user's home directory, where one
/// can be determined. It depends on the environment, so nothing is stated.
#[verifier::external_body]
fn home_dir() -> (r: Option<Vec<u8>>) {
    dirs::home_dir().map(|p| p.into_os_string().into_encoded_bytes())
}

/// The fallback directory of the current user.
pub fn resolve_fallback_trash_dir(on_macos: bool) -> (r: Result<Vec<u8>, TrashError>)
    ensures
        r matches Ok(p) ==> exists|h: Seq<u8>| p@ == fallback_dir_spec(h, on_macos),
        r matches Err(e) ==> e == TrashError::HomeNotFound,
{
    match home_dir() {
        Some(h) => Ok(fallback_trash_dir(&h, on_macos)),
        None => Err(TrashError::HomeNotFound),
    }
}

/// How an entry is carried across devices once a rename has failed with a
/// cross-device error: links as links, directories by their structure.
#[derive(PartialEq, Eq, Structural, Debug, Clone, Copy)]
pub enum CrossDeviceCopy {
    CopyLink,
    CopyFile,
    CopyTree,
}

/// The way to carry an entry across devices; `None` for a type that
/// cannot be carried.
pub fn cross_device_copy(entry: EntryType) -> (r: Option<CrossDeviceCopy>)
    ensures
        r == match entry {
            EntryType::Symlink => Some(CrossDeviceCopy::CopyLink),
            EntryType::File => Some(CrossDeviceCopy::CopyFile),
            EntryType::Directory => Some(CrossDeviceCopy::CopyTree),
            EntryType::Other => None::<CrossDeviceCopy>,
        },
{
    match entry {
        EntryType::Symlink => Some(CrossDeviceCopy::CopyLink),
        EntryType::File => Some(CrossDeviceCopy::CopyFile),
        EntryType::Directory => Some(CrossDeviceCopy::CopyTree),
        EntryType::Other => None,
    }
}

/// How a rename into the fallback directory ended.
#[derive(PartialEq, Eq, Structural, Debug, Clone, Copy)]
pub enum RenameOutcome {
    Renamed,
    /// The rename failed because source and slot are on different devices.
    CrossDevice,
    /// The rename failed for another reason.
    Failed,
}

/// What follows a rename into the fallback directory.
#[derive(PartialEq, Eq, Structural, Debug, Clone, Copy)]
pub enum RelocationStep {
    Done,
    /// Copy the entry across (see `cross_device_copy`), then remove the original.
    CopyThenRemove,
    /// Report the rename's error.
    Fail,
}

/// Only a cross-device failure falls back to copying; any other failure
/// of the rename is reported.
pub fn after_rename(outcome: RenameOutcome) -> (r: RelocationStep)
    ensures
        r == match outcome {
            RenameOutcome::Renamed => RelocationStep::Done,
            RenameOutcome::CrossDevice => RelocationStep::CopyThenRemove,
            RenameOutcome::Failed => RelocationStep::Fail,
        },
{
    match outcome {
        RenameOutcome::Renamed => RelocationStep::Done,
        RenameOutcome::CrossDevice => RelocationStep::CopyThenRemove,
        RenameOutcome::Failed => RelocationStep::Fail,
    }
}

/// The two causes of a failure, the first one first.
pub fn chain_errors(primary: &String, fallback: &String) -> (r: String)
    ensures
        r@ == primary@ + "; "@ + fallback@,
{
    let mut r = primary.clone();
    r.append("; ");
    r.append(fallback.as_str());
    r
}

/// `r` is the failure whose message chains the system trash's error `e`
/// and the fallback's error `f`.
pub open spec fn failed_with(r: Result<(), TrashError>, e: Seq<char>, f: Seq<char>) -> bool {
    r matches Err(TrashError::Failed { message }) && message@ == e + "; "@ + f
}

/// The outcome once the entry is handed to `move_to` at slot `p`.
pub open spec fn moved_outcome<M: Fn(&Vec<u8>, &Vec<u8>) -> Result<(), String>>(
    move_to: M,
    target: &Vec<u8>,
    p: Vec<u8>,
    r: Result<(), TrashError>,
    e: Seq<char>,
) -> bool {
    exists|m: Result<(), String>|
        move_to.ensures((target, &p), m) && match m {
            Ok(_) => r is Ok,
            Err(f) => failed_with(r, e, f@),
        }
}

/// The outcome once the fallback directory `d` is prepared: the entry
/// goes to the first free slot; without a file name, or with every slot
/// taken, the copy fails with a fixed cause.
pub open spec fn slot_outcome<O, M>(
    is_occupied: O,
    move_to: M,
    target: &Vec<u8>,
    d: Seq<u8>,
    r: Result<(), TrashError>,
    e: Seq<char>,
) -> bool where O: Fn(&Vec<u8>) -> bool, M: Fn(&Vec<u8>, &Vec<u8>) -> Result<(), String> {
    match file_name_spec(target@) {
        None => failed_with(r, e, "invalid file name"@),
        Some(n) => ((forall|j: nat|
            j <= MAX_SLOT ==> answered(is_occupied, #[trigger] slot_spec(d, sanitize_spec(n), j), true))
            && failed_with(r, e, "too many name collisions"@)) || exists|p: Vec<u8>|
            first_free_slot(is_occupied, d, sanitize_spec(n), p@) && moved_outcome(
                move_to,
                target,
                p,
                r,
                e,
            ),
    }
}

/// The outcome of the fallback after the system trash failed with `e`:
/// the directory is resolved, then prepared, then the entry moved to a
/// slot in it; the first step to fail gives the second cause.
pub open spec fn fallback_outcome<D, C, O, M>(
    fallback_dir_resolver: D,
    prepare_dir: C,
    is_occupied: O,
    move_to: M,
    target: &Vec<u8>,
    r: Result<(), TrashError>,
    e: Seq<char>,
) -> bool where
    D: Fn() -> Result<Vec<u8>, String>,
    C: Fn(&Vec<u8>) -> Result<(), String>,
    O: Fn(&Vec<u8>) -> bool,
    M: Fn(&Vec<u8>, &Vec<u8>) -> Result<(), String>,
 {
    exists|rd: Result<Vec<u8>, String>|
        fallback_dir_resolver.ensures((), rd) && match rd {
            Err(f) => failed_with(r, e, f@),
            Ok(d) => exists|pd: Result<(), String>|
                prepare_dir.ensures((&d,), pd) && match pd {
                    Err(f) => failed_with(r, e, f@),
                    Ok(_) => slot_outcome(is_occupied, move_to, target, d@, r, e),
                },
        }
}

/// Moves an entry that stands in the way to the trash. When the system
/// trash fails, the entry goes to the first free slot of the fallback
/// directory instead; when that fails too, the error names both causes,
/// the system trash's first.
pub fn move_existing_file_to_trash_with_fallback<P, D, C, O, M>(
    target: &Vec<u8>,
    primary_delete: P,
    fallback_dir_resolver: D,
    prepare_dir: C,
    is_occupied: O,
    move_to: M,
) -> (r: Result<(), TrashError>) where
    P: Fn(&Vec<u8>) -> Result<(), String>,
    D: Fn() -> Result<Vec<u8>, String>,
    C: Fn(&Vec<u8>) -> Result<(), String>,
    O: Fn(&Vec<u8>) -> bool,
    M: Fn(&Vec<u8>, &Vec<u8>) -> Result<(), String>,

    requires
        primary_delete.requires((target,)),
        fallback_dir_resolver.requires(()),
        forall|d: &Vec<u8>| prepare_dir.requires((d,)),
        forall|p: &Vec<u8>| is_occupied.requires((p,)),
        forall|p: &Vec<u8>| move_to.requires((target, p)),
    ensures
        exists|pr: Result<(), String>|
            primary_delete.ensures((target,), pr) && match pr {
                Ok(_) => r is Ok,
                Err(e) => fallback_outcome(
                    fallback_dir_resolver,
                    prepare_dir,
                    is_occupied,
                    move_to,
                    target,
                    r,
                    e@,
                ),
            },
{
    let primary = primary_delete(target);
    assert(primary_delete.ensures((target,), primary));
    let primary_err = match primary {
        Ok(_) => return Ok(()),
        Err(e) => e,
    };
    let resolved = fallback_dir_resolver();
    assert(fallback_dir_resolver.ensures((), resolved));
    let fallback_err: String = match resolved {
        Err(e) => e,
        Ok(dir) => {
            let prepared = prepare_dir(&dir);
            assert(prepare_dir.ensures((&dir,), prepared));
            match prepared {
                Err(e) => e,
                Ok(_) => {
                    match build_unique_fallback_path(&dir, target, is_occupied) {
                        Err(TrashError::InvalidFileName) => {
                            let f = "invalid file name".to_owned();
                            let message = chain_errors(&primary_err, &f);
                            let r = Err(TrashError::Failed { message });
                            assert(slot_outcome(is_occupied, move_to, target, dir@, r, primary_err@));
                            assert(fallback_outcome(
                                fallback_dir_resolver,
                                prepare_dir,
                                is_occupied,
                                move_to,
                                target,
                                r,
                                primary_err@,
                            ));
                            return r;
                        },
                        Err(_) => {
                            let f = "too many name collisions".to_owned();
                            let message = chain_errors(&primary_err, &f);
                            let r = Err(TrashError::Failed { message });
                            assert(slot_outcome(is_occupied, move_to, target, dir@, r, primary_err@));
                            assert(fallback_outcome(
                                fallback_dir_resolver,
                                prepare_dir,
                                is_occupied,
                                move_to,
                                target,
                                r,
                                primary_err@,
                            ));
                            return r;
                        },
                        Ok(slot) => {
                            let moved = move_to(target, &slot);
                            assert(move_to.ensures((target, &slot), moved));
                            let r = match moved {
                                Ok(_) => Ok(()),
                                Err(f) => {
                                    let message = chain_errors(&primary_err, &f);
                                    Err(TrashError::Failed { message })
                                },
                            };
                            assert(moved_outcome(move_to, target, slot, r, primary_err@));
                            assert(slot_outcome(is_occupied, move_to, target, dir@, r, primary_err@));
                            assert(fallback_outcome(
                                fallback_dir_resolver,
                                prepare_dir,
                                is_occupied,
                                move_to,
                                target,
                                r,
                                primary_err@,
                            ));
                            return r;
                        },
                    }
                },
            }
        },
    };
    let message = chain_errors(&primary_err, &fallback_err);
    Err(TrashError::Failed { message })
}

/// With a probe that answers by the path alone: when `name` is taken in the
/// fallback directory (by any entry, a dangling link included) and
/// `name.1` is free, the slot chosen is `name.1`.
pub proof fn lemma_collision_takes_next_slot<F: Fn(&Vec<u8>) -> bool>(
    is_occupied: F,
    occupied: spec_fn(Seq<u8>) -> bool,
    dir: Seq<u8>,
    name: Seq<u8>,
    p: Seq<u8>,
)
    requires
        forall|v: &Vec<u8>, b: bool| #[trigger] is_occupied.ensures((v,), b) ==> b == occupied(v@),
        occupied(slot_spec(dir, name, 0)),
        !occupied(slot_spec(dir, name, 1)),
        first_free_slot(is_occupied, dir, name, p),
    ensures
        p == slot_spec(dir, name, 1),
{
    let k = choose|k: nat|
        k <= MAX_SLOT && p == slot_spec(dir, name, k) && answered(is_occupied, p, false) && forall|j: nat|
            j < k ==> answered(is_occupied, #[trigger] slot_spec(dir, name, j), true);
    if k == 0 {
        let v = choose|v: Vec<u8>| v@ == p && is_occupied.ensures((&v,), false);
        assert(false == occupied(v@));
    } else if k >= 2 {
        assert(answered(is_occupied, slot_spec(dir, name, 1), true));
        let v = choose|v: Vec<u8>| v@ == slot_spec(dir, name, 1) && is_occupied.ensures((&v,), true);
        assert(true == occupied(v@));
    }
}

} // verus!
