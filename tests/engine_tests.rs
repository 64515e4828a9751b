use std::cell::RefCell;

use safecmd::config::{AdditionalAllowedDirectories, Config, ConfigError, NotifyConfig, ScopeFacts};
use safecmd::cp::{
    classify, copy_item, plan_directory_copy, plan_entry, CopyInfo, plan_file_copy, validate as cp_validate, CopyKind,
    CpError, DirectoryCopyStep, EntryFacts, EntryStep, FileCopyStep, SourceFacts,
};
use safecmd::entry::{EntryType, FileId, Listing, PathInfo};
use safecmd::mv::{
    build_staging_path, check_source, ensure_not_same_file, move_step, plan_destination, process_source, resolve_final_target,
    DestinationAction, DestinationFacts, MoveAction, MovePlan, MoveState, MvError,
};
use safecmd::notifications::{
    notification_text, CommandKind, CommandResultCounter, CommandSummary, Notifier,
};
use safecmd::paths::{file_name, join_path, normalize_lexically, parent, starts_with};
use safecmd::rm::{
    determine_handler, exit_code, plan_removals, process_path, removes, Args as RmArgs,
    PathFacts, RemovalKind, RmError,
};
use safecmd::resolve::{canonicalize_with_missing, is_allowed, resolve_path};
use safecmd::text::decimal;
use safecmd::trash_fallback::{
    after_rename, build_unique_fallback_path, chain_errors, fallback_trash_dir, RelocationStep,
    RenameOutcome,
    move_existing_file_to_trash_with_fallback, sanitize_file_name, TrashError,
};

fn b(s: &str) -> Vec<u8> {
    s.as_bytes().to_vec()
}

fn config_with(paths: &[&str]) -> Config {
    Config {
        additional_allowed_directories: AdditionalAllowedDirectories {
            paths: paths.iter().map(|p| b(p)).collect(),
        },
        notify: NotifyConfig { macos_notify: false },
    }
}

fn facts_for(cwd: &str, existing: Vec<Option<Vec<u8>>>) -> ScopeFacts {
    ScopeFacts { cwd: Some(b(cwd)), resolved_dirs: existing }
}

fn rm_args(allow_dir: bool, force: bool, recursive: bool) -> RmArgs {
    RmArgs { allow_dir, force, recursive, path: vec![] }
}

fn existing(entry: EntryType, listing: Listing) -> PathFacts {
    PathFacts { allowed: true, entry: Some(entry), listing }
}

#[test]
fn command_result_counter_builds_summary_from_recorded_counts() {
    let mut counter = CommandResultCounter::new(CommandKind::Rm);
    counter.record_success();
    counter.record_success();
    counter.record_failure();
    counter.record_failures(3);

    assert_eq!(
        counter.summary(),
        CommandSummary { kind: CommandKind::Rm, success_count: 2, failure_count: 4 }
    );
}

#[test]
fn command_result_counter_notifies_current_summary() {
    let mut counter = CommandResultCounter::new(CommandKind::Cp);
    counter.record_success();
    counter.record_failure();

    let mut notifier = Notifier::new(true);
    counter.notify(&mut notifier);

    assert_eq!(notifier.sent.len(), 1);
    assert_eq!(
        notifier.sent[0],
        CommandSummary { kind: CommandKind::Cp, success_count: 1, failure_count: 1 }
    );
}

#[test]
fn disabled_notifier_drops_summaries() {
    let counter = CommandResultCounter::new(CommandKind::Rm);
    let mut notifier = Notifier::new(false);
    counter.notify(&mut notifier);
    assert!(notifier.sent.is_empty());
}

#[test]
fn summary_success_depends_on_failures_only() {
    let ok = CommandSummary { kind: CommandKind::Rm, success_count: 0, failure_count: 0 };
    let bad = CommandSummary { kind: CommandKind::Rm, success_count: 5, failure_count: 1 };
    assert!(ok.is_success());
    assert!(!bad.is_success());
    assert_eq!(CommandKind::Rm.as_str(), "rm");
    assert_eq!(CommandKind::Cp.as_str(), "cp");
}

#[test]
fn notification_text_names_command_and_counts() {
    let s = CommandSummary { kind: CommandKind::Cp, success_count: 12, failure_count: 0 };
    let t = notification_text(&s);
    assert_eq!(t.title, b("safecmd cp"));
    assert_eq!(t.subtitle, b("completed"));
    assert_eq!(t.message, b("success: 12, failure: 0"));
    let f = CommandSummary { kind: CommandKind::Rm, success_count: 3, failure_count: 107 };
    let t = notification_text(&f);
    assert_eq!(t.title, b("safecmd rm"));
    assert_eq!(t.subtitle, b("failed"));
    assert_eq!(t.message, b("success: 3, failure: 107"));
}

#[test]
fn decimal_numerals() {
    assert_eq!(decimal(0), b("0"));
    assert_eq!(decimal(7), b("7"));
    assert_eq!(decimal(10), b("10"));
    assert_eq!(decimal(9999), b("9999"));
    assert_eq!(decimal(u64::MAX), b("18446744073709551615"));
}

#[test]
fn normalize_lexically_resolves_dots() {
    assert_eq!(normalize_lexically(&b("/a/./b/../c")), b("/a/c"));
    assert_eq!(normalize_lexically(&b("/a//b/")), b("/a/b"));
    assert_eq!(normalize_lexically(&b("/../x")), b("/x"));
    assert_eq!(normalize_lexically(&b("/")), b("/"));
    assert_eq!(normalize_lexically(&b("a/../../b")), b("b"));
    assert_eq!(normalize_lexically(&b("")), b(""));
}

#[test]
fn starts_with_compares_components() {
    assert!(starts_with(&b("/a/b/c"), &b("/a/b")));
    assert!(starts_with(&b("/a/b"), &b("/a/b/")));
    assert!(!starts_with(&b("/a/bc"), &b("/a/b")));
    assert!(!starts_with(&b("/a"), &b("/a/b")));
    assert!(starts_with(&b("/anything"), &b("/")));
    assert!(!starts_with(&b("a/b"), &b("/a")));
}

#[test]
fn join_file_name_and_parent() {
    assert_eq!(join_path(&b("/a"), &b("b")), b("/a/b"));
    assert_eq!(join_path(&b("/a/"), &b("b")), b("/a/b"));
    assert_eq!(join_path(&b("/a"), &b("/b")), b("/b"));
    assert_eq!(file_name(&b("/a/b.txt")), Some(b("b.txt")));
    assert_eq!(file_name(&b("/a/..")), None);
    assert_eq!(file_name(&b("/")), None);
    assert_eq!(parent(&b("/a/b")), Some(b("/a")));
    assert_eq!(parent(&b("/a")), Some(b("/")));
    assert_eq!(parent(&b("/")), None);
}

#[test]
fn test_is_path_allowed_with_current_directory_scope() {
    let config = Config::default();
    let facts = facts_for("/tmp/x/workspace", vec![]);
    let target = safecmd::config::absolute_target(&facts.cwd, &b("target.txt"));
    assert!(config.is_path_allowed(&target, &facts));
}

#[test]
fn test_is_path_allowed_with_additional_directory_scope() {
    let config = config_with(&["/tmp/x/external"]);
    let facts = facts_for("/tmp/x/workspace", vec![Some(b("/tmp/x/external"))]);
    assert!(config.is_path_allowed(&Some(b("/tmp/x/external/extra.txt")), &facts));
}

#[test]
fn test_is_path_allowed_denies_outside_scopes() {
    let config = config_with(&["/tmp/x/external"]);
    let facts = facts_for("/tmp/x/workspace", vec![Some(b("/tmp/x/external"))]);
    assert!(!config.is_path_allowed(&Some(b("/tmp/x/forbidden/secret.txt")), &facts));
}

#[test]
fn test_is_path_allowed_uses_symlink_path_instead_of_target() {
    let config = Config::default();
    let facts = facts_for("/tmp/x/workspace", vec![]);
    // The link's own location: its resolved parent with its name re-attached.
    let resolved = safecmd::config::rebase(&b("/tmp/x/workspace"), &vec![b("secret-link.txt")]);
    assert_eq!(resolved, b("/tmp/x/workspace/secret-link.txt"));
    assert!(config.is_path_allowed(&Some(resolved), &facts));
}

#[test]
fn unresolvable_target_is_denied() {
    let config = Config::allow_all();
    let known = facts_for("/w", vec![Some(b("/"))]);
    assert!(!config.is_path_allowed(&None, &known));
    assert!(config.is_path_allowed(&Some(b("/etc/passwd")), &known));
    // Without a working directory every path is denied, even one below a
    // configured directory.
    let unknown = ScopeFacts { cwd: None, resolved_dirs: vec![Some(b("/"))] };
    assert!(!config.is_path_allowed(&Some(b("/etc/passwd")), &unknown));
    assert_eq!(safecmd::config::absolute_target(&None, &b("rel")), None);
}

#[test]
fn missing_scope_dir_is_used_as_written() {
    let config = config_with(&["/not/there"]);
    let facts = facts_for("/w", vec![None]);
    assert_eq!(config.allowed_scopes(&facts), vec![b("/w"), b("/not/there")]);
    assert!(config.is_path_allowed(&Some(b("/not/there/f")), &facts));
}

#[test]
fn parent_traversal_out_of_cwd_is_denied() {
    let config = Config::default();
    let facts = facts_for("/home/u/work", vec![]);
    let abs = safecmd::config::absolute_target(&facts.cwd, &b("../other/file")).unwrap();
    let resolved = normalize_lexically(&abs);
    assert_eq!(resolved, b("/home/u/other/file"));
    assert!(!config.is_path_allowed(&Some(resolved), &facts));
}

#[test]
fn missing_suffix_is_rebased_on_existing_ancestor() {
    let abs = b("/link/dir/new/../leaf");
    assert_eq!(safecmd::config::ancestor(&abs, 3), b("/link/dir"));
    let tail = safecmd::config::trailing_components(&abs, 3);
    assert_eq!(tail, vec![b("new"), b(".."), b("leaf")]);
    assert_eq!(safecmd::config::rebase(&b("/real/dir"), &tail), b("/real/dir/leaf"));
}

#[test]
fn validate_rejects_relative_additional_path() {
    assert_eq!(config_with(&["/abs", "/b"]).validate(), Ok(()));
    assert_eq!(
        config_with(&["/abs", "relative/path"]).validate(),
        Err(ConfigError::RelativeAdditionalPath { index: 1 })
    );
    assert_eq!(config_with(&[]).validate(), Ok(()));
}

#[test]
fn determine_handler_treats_directory_symlink_as_file_without_r() {
    let kind = determine_handler(Some(EntryType::Symlink), &rm_args(false, false, false));
    assert_eq!(kind, Ok(RemovalKind::File));
}

#[test]
fn determine_handler_treats_directory_symlink_as_file_with_r() {
    let kind = determine_handler(Some(EntryType::Symlink), &rm_args(false, false, true));
    assert_eq!(kind, Ok(RemovalKind::File));
}

#[test]
fn file_is_trashed() {
    let r = process_path(existing(EntryType::File, Listing::Unreadable), &rm_args(false, false, false));
    assert_eq!(r, Ok(RemovalKind::File));
    assert!(removes(RemovalKind::File));
}

#[test]
fn directory_without_flags_fails() {
    let r = process_path(existing(EntryType::Directory, Listing::NonEmpty), &rm_args(false, false, false));
    assert_eq!(r, Err(RmError::IsADirectory));
    assert_eq!(RmError::IsADirectory.reason(), "is a directory");
}

#[test]
fn empty_directory_with_d_flag() {
    let r = process_path(existing(EntryType::Directory, Listing::Empty), &rm_args(true, false, false));
    assert_eq!(r, Ok(RemovalKind::EmptyDirectory));
}

#[test]
fn non_empty_directory_with_d_flag_fails() {
    let r = process_path(existing(EntryType::Directory, Listing::NonEmpty), &rm_args(true, false, false));
    assert_eq!(r, Err(RmError::DirectoryNotEmpty));
    assert_eq!(RmError::DirectoryNotEmpty.reason(), "Directory not empty");
}

#[test]
fn directory_with_r_flag() {
    let r = process_path(existing(EntryType::Directory, Listing::NonEmpty), &rm_args(false, false, true));
    assert_eq!(r, Ok(RemovalKind::RecursiveDirectory));
}

#[test]
fn non_existent_file_without_f_flag_fails() {
    let missing = PathFacts { allowed: true, entry: None, listing: Listing::Unreadable };
    assert_eq!(process_path(missing, &rm_args(false, false, false)), Err(RmError::NotFound));
}

#[test]
fn non_existent_file_with_f_flag_succeeds() {
    let missing = PathFacts { allowed: true, entry: None, listing: Listing::Unreadable };
    let r = process_path(missing, &rm_args(false, true, false));
    assert_eq!(r, Ok(RemovalKind::NonExistentFile));
    assert!(!removes(RemovalKind::NonExistentFile));
    assert_eq!(exit_code(&vec![r]), 0);
}

#[test]
fn combined_flags_drf() {
    let args = rm_args(true, true, true);
    let r = process_path(existing(EntryType::Directory, Listing::NonEmpty), &args);
    assert_eq!(r, Ok(RemovalKind::RecursiveDirectory));
}

#[test]
fn rm_outside_scope_is_refused_before_anything_else() {
    let outside = PathFacts { allowed: false, entry: None, listing: Listing::Empty };
    assert_eq!(process_path(outside, &rm_args(true, true, true)), Err(RmError::ScopeViolation));
}

#[test]
fn rm_recursive_continues_when_one_path_is_outside_allowed_scope() {
    let inside = existing(EntryType::File, Listing::Unreadable);
    let outside = PathFacts { allowed: false, entry: Some(EntryType::File), listing: Listing::Unreadable };
    let facts = vec![inside, outside, inside, outside, inside];
    let r = plan_removals(&facts, &rm_args(false, false, true));
    assert_eq!(r.len(), 5);
    assert_eq!(r.iter().filter(|x| **x == Ok(RemovalKind::File)).count(), 3);
    assert_eq!(r.iter().filter(|x| **x == Err(RmError::ScopeViolation)).count(), 2);
    assert_eq!(exit_code(&r), 1);
}

fn dest(source_is_dir: bool, target: Option<EntryType>, same: bool, listing: Listing) -> DestinationFacts {
    let s = FileId { dev: 1, ino: 10 };
    let t = if same { s } else { FileId { dev: 1, ino: 11 } };
    DestinationFacts {
        source_is_dir,
        source_id: Some(s),
        target,
        target_id: target.map(|_| t),
        target_listing: listing,
        same_path: false,
    }
}

#[test]
fn same_path_move_does_not_delete_source() {
    let r = plan_destination(false, dest(false, Some(EntryType::File), true, Listing::Unreadable));
    assert_eq!(r, Err(MvError::SameFile));
    assert_eq!(MvError::SameFile.reason(), "are the same file");
}

#[test]
fn no_clobber_same_path_succeeds_without_changes() {
    let r = plan_destination(true, dest(false, Some(EntryType::File), true, Listing::Unreadable));
    assert_eq!(r, Ok(MovePlan::Skip));
}

#[test]
fn no_clobber_skips_existing_target() {
    let r = plan_destination(true, dest(false, Some(EntryType::File), false, Listing::Unreadable));
    assert_eq!(r, Ok(MovePlan::Skip));
}

#[test]
fn overwrite_existing_target_by_trashing_target_first() {
    let r = plan_destination(false, dest(false, Some(EntryType::File), false, Listing::Unreadable));
    assert_eq!(r, Ok(MovePlan::Move(DestinationAction::EvictThenRename)));
}

#[test]
fn single_file_move() {
    let r = plan_destination(false, dest(false, None, false, Listing::Unreadable));
    assert_eq!(r, Ok(MovePlan::Move(DestinationAction::RenameDirectly)));
}

#[test]
fn directory_to_existing_file_fails_without_trashing_target() {
    let r = plan_destination(false, dest(true, Some(EntryType::File), false, Listing::Unreadable));
    assert_eq!(r, Err(MvError::OverwriteNonDirectoryWithDirectory));
}

#[test]
fn directory_move_over_existing_empty_directory_succeeds() {
    let r = plan_destination(false, dest(true, Some(EntryType::Directory), false, Listing::Empty));
    assert_eq!(r, Ok(MovePlan::Move(DestinationAction::ReplaceEmptyDirectory)));
}

#[test]
fn directory_move_over_existing_non_empty_directory_fails() {
    let r = plan_destination(false, dest(true, Some(EntryType::Directory), false, Listing::NonEmpty));
    assert_eq!(r, Err(MvError::DirectoryNotEmpty));
    assert_eq!(MvError::DirectoryNotEmpty.reason(), "Directory not empty");
}

#[test]
fn file_onto_directory_is_a_type_conflict() {
    let r = plan_destination(false, dest(false, Some(EntryType::Directory), false, Listing::Empty));
    assert_eq!(r, Err(MvError::DestinationIsDirectory));
}

#[test]
fn moving_symlink_over_another_symlink_to_same_target_succeeds() {
    let r = plan_destination(false, dest(false, Some(EntryType::Symlink), false, Listing::Unreadable));
    assert_eq!(r, Ok(MovePlan::Move(DestinationAction::EvictThenRename)));
}

#[test]
fn mv_source_checks() {
    assert_eq!(check_source(None, true), Err(MvError::NotFound));
    assert_eq!(check_source(Some(EntryType::Symlink), false), Err(MvError::SourceOutsideScope));
    assert_eq!(check_source(Some(EntryType::Symlink), true), Ok(()));
}

#[test]
fn final_target_goes_into_directory() {
    assert_eq!(resolve_final_target(&b("a/x.txt"), &b("/d"), true), Ok(b("/d/x.txt")));
    assert_eq!(resolve_final_target(&b("a/x.txt"), &b("/d/y"), false), Ok(b("/d/y")));
    assert_eq!(resolve_final_target(&b("/"), &b("/d"), true), Err(MvError::InvalidSource));
}

#[test]
fn staging_path_takes_first_free_attempt() {
    let taken = RefCell::new(vec![b("/d/.safecmd-mv-stage-42-0"), b("/d/.safecmd-mv-stage-42-1")]);
    let r = build_staging_path(&b("/d/target"), 42, |p: &Vec<u8>| taken.borrow().contains(p));
    assert_eq!(r, Ok(b("/d/.safecmd-mv-stage-42-2")));
    taken.borrow_mut().clear();
    let all = build_staging_path(&b("/d/target"), 42, |_p: &Vec<u8>| true);
    assert_eq!(all, Err(MvError::StagingExhausted));
    assert_eq!(build_staging_path(&b("/"), 1, |_p: &Vec<u8>| false), Err(MvError::InvalidDestination));
}

#[test]
fn failed_commit_is_compensated() {
    let (s1, a1) = move_step(MoveState::Planned, true);
    assert_eq!((s1, a1), (MoveState::Staged, MoveAction::Commit));
    assert_eq!(move_step(s1, false), (MoveState::RolledBack, MoveAction::Compensate));
    assert_eq!(move_step(s1, true), (MoveState::Committed, MoveAction::Stop));
    assert_eq!(move_step(MoveState::Planned, false), (MoveState::Failed, MoveAction::Stop));
}

#[test]
fn copy_nonexistent_file_fails() {
    assert_eq!(classify(None, false), Err(CpError::NotFound));
}

#[test]
fn copy_directory_without_r_flag_fails() {
    assert_eq!(classify(Some(EntryType::Directory), false), Ok(CopyKind::DirectoryWithoutRecursive));
    assert_eq!(safecmd::cp::check_kind(CopyKind::DirectoryWithoutRecursive), Err(CpError::OmittingDirectory));
    assert_eq!(classify(Some(EntryType::Directory), true), Ok(CopyKind::RecursiveDirectory));
    assert_eq!(classify(Some(EntryType::Other), true), Ok(CopyKind::UnsupportedType));
}

#[test]
fn cp_no_clobber_skips_existing_plain_file() {
    assert_eq!(plan_file_copy(Some(EntryType::File), true), Ok(FileCopyStep::Skip));
    assert_eq!(plan_file_copy(Some(EntryType::File), false), Ok(FileCopyStep::EvictThenCopy));
    assert_eq!(plan_file_copy(None, true), Ok(FileCopyStep::Copy));
}

#[test]
fn overwrite_directory_with_r_flag() {
    // The stale destination is replaced as a whole, not merged into.
    assert_eq!(plan_directory_copy(true, false), DirectoryCopyStep::EvictThenCreate);
    assert_eq!(plan_directory_copy(false, false), DirectoryCopyStep::Create);
    assert_eq!(plan_directory_copy(true, true), DirectoryCopyStep::Merge);
}

#[test]
fn cp_recursive_no_clobber_directory_in_place_of_file_fails() {
    let f = EntryFacts {
        entry_allowed: Some(true),
        entry: EntryType::File,
        target_is_symlink: false,
        target_allowed: true,
        target: Some(EntryType::Directory),
    };
    assert_eq!(plan_entry(f, true), Err(CpError::DestinationNotAFile));
}

#[test]
fn cp_recursive_no_clobber_denies_writes_via_symlink_under_destination() {
    let f = EntryFacts {
        entry_allowed: Some(true),
        entry: EntryType::File,
        target_is_symlink: true,
        target_allowed: true,
        target: Some(EntryType::File),
    };
    assert_eq!(plan_entry(f, true), Err(CpError::WriteThroughSymlink));
}

#[test]
fn cp_entry_outside_scope_stops_copy() {
    let f = EntryFacts {
        entry_allowed: Some(false),
        entry: EntryType::Symlink,
        target_is_symlink: false,
        target_allowed: true,
        target: None,
    };
    assert_eq!(plan_entry(f, false), Err(CpError::SourceOutsideScope));
    let g = EntryFacts { entry_allowed: Some(true), ..f };
    assert_eq!(plan_entry(g, false), Ok(EntryStep::Link(FileCopyStep::Copy)));
    let d = EntryFacts { entry: EntryType::Directory, ..g };
    assert_eq!(plan_entry(d, false), Ok(EntryStep::Recurse));
}

#[test]
fn cp_denies_target_outside_allowed_scope() {
    let label = String::from("src.txt");
    let facts = SourceFacts { source_allowed: Some(true), target_is_dir: true, target_allowed: Some(false) };
    let r = cp_validate(CopyKind::File, &label, &b("src.txt"), &b("/out"), facts);
    assert!(matches!(r, Err(CpError::TargetOutsideScope)));
    let ok = SourceFacts { target_allowed: Some(true), ..facts };
    let task = cp_validate(CopyKind::File, &label, &b("src.txt"), &b("/in"), ok).unwrap();
    assert_eq!(task.final_target, b("/in/src.txt"));
    assert_eq!(task.source_label, "src.txt");
    let denied = SourceFacts { source_allowed: Some(false), ..ok };
    assert!(matches!(
        cp_validate(CopyKind::File, &label, &b("src.txt"), &b("/in"), denied),
        Err(CpError::SourceOutsideScope)
    ));
}

#[test]
fn sanitize_replaces_separators_and_dots() {
    assert_eq!(sanitize_file_name(&b("a/b\\c")), b("a_b_c"));
    assert_eq!(sanitize_file_name(&b("")), b("unnamed"));
    assert_eq!(sanitize_file_name(&b(".")), b("unnamed"));
    assert_eq!(sanitize_file_name(&b("..")), b("unnamed"));
    assert_eq!(sanitize_file_name(&b("report.txt")), b("report.txt"));
}

#[test]
fn fallback_trash_dir_below_home() {
    assert_eq!(fallback_trash_dir(&b("/home/u"), false), b("/home/u/.local/share/Trash/files"));
    assert_eq!(fallback_trash_dir(&b("/Users/u"), true), b("/Users/u/.Trash"));
}

#[test]
fn build_unique_fallback_path_treats_dangling_symlink_as_occupied() {
    // The probe reports the dangling link at `report.txt` as occupying its slot.
    let occupied = vec![b("/t/.trash/report.txt")];
    let selected =
        build_unique_fallback_path(&b("/t/.trash"), &b("/t/report.txt"), |p: &Vec<u8>| occupied.contains(p));
    assert_eq!(selected, Ok(b("/t/.trash/report.txt.1")));
}

#[test]
fn fallback_path_errors() {
    assert_eq!(
        build_unique_fallback_path(&b("/t"), &b("/"), |_p: &Vec<u8>| false),
        Err(TrashError::InvalidFileName)
    );
    assert_eq!(
        build_unique_fallback_path(&b("/t"), &b("/x/f"), |_p: &Vec<u8>| true),
        Err(TrashError::TooManyCollisions)
    );
}

#[test]
fn move_existing_file_to_trash_with_fallback_succeeds_when_primary_fails() {
    let moved = RefCell::new(Vec::new());
    let result = move_existing_file_to_trash_with_fallback(
        &b("/t/target.txt"),
        |_p: &Vec<u8>| Err("cp: failed to move existing file to trash: primary failed".to_string()),
        || Ok(b("/t/.trash")),
        |_d: &Vec<u8>| Ok(()),
        |_p: &Vec<u8>| false,
        |from: &Vec<u8>, to: &Vec<u8>| {
            moved.borrow_mut().push((from.clone(), to.clone()));
            Ok(())
        },
    );
    assert!(result.is_ok());
    assert_eq!(moved.borrow().clone(), vec![(b("/t/target.txt"), b("/t/.trash/target.txt"))]);
}

#[test]
fn move_existing_file_to_trash_with_fallback_generates_unique_name_when_collision_exists() {
    let moved = RefCell::new(Vec::new());
    let occupied = vec![b("/t/.trash/report.txt")];
    let result = move_existing_file_to_trash_with_fallback(
        &b("/t/report.txt"),
        |_p: &Vec<u8>| Err("cp: failed to move existing file to trash: primary failed".to_string()),
        || Ok(b("/t/.trash")),
        |_d: &Vec<u8>| Ok(()),
        |p: &Vec<u8>| occupied.contains(p),
        |_from: &Vec<u8>, to: &Vec<u8>| {
            moved.borrow_mut().push(to.clone());
            Ok(())
        },
    );
    assert!(result.is_ok());
    assert_eq!(moved.borrow().clone(), vec![b("/t/.trash/report.txt.1")]);
}

#[test]
fn move_existing_file_to_trash_with_fallback_returns_error_when_all_paths_fail() {
    let result = move_existing_file_to_trash_with_fallback(
        &b("/t/target.txt"),
        |_p: &Vec<u8>| Err("cp: failed to move existing file to trash: primary failed".to_string()),
        || Err("cp: failed to resolve fallback trash directory: test injected failure".to_string()),
        |_d: &Vec<u8>| Ok(()),
        |_p: &Vec<u8>| false,
        |_from: &Vec<u8>, _to: &Vec<u8>| Ok(()),
    );
    assert_eq!(
        result,
        Err(TrashError::Failed {
            message: "cp: failed to move existing file to trash: primary failed; cp: failed to resolve fallback trash directory: test injected failure".to_string()
        })
    );
}

#[test]
fn primary_trash_success_needs_no_fallback() {
    let result = move_existing_file_to_trash_with_fallback(
        &b("/t/x"),
        |_p: &Vec<u8>| Ok(()),
        || Err("unused".to_string()),
        |_d: &Vec<u8>| Err("unused".to_string()),
        |_p: &Vec<u8>| true,
        |_from: &Vec<u8>, _to: &Vec<u8>| Err("unused".to_string()),
    );
    assert_eq!(result, Ok(()));
}

#[test]
fn chain_errors_keeps_both_causes() {
    assert_eq!(chain_errors(&"a".to_string(), &"b".to_string()), "a; b");
}

#[test]
fn resolve_keeps_final_symlink_and_resolves_its_parent() {
    let existing_paths = vec![b("/"), b("/w"), b("/w/link")];
    let r = resolve_path(
        &Some(b("/w")),
        &b("link"),
        &|p: &Vec<u8>| *p == b("/w/link"),
        &|p: &Vec<u8>| existing_paths.contains(p),
        &|p: &Vec<u8>| if *p == b("/w") { Some(b("/real/w")) } else { Some(p.clone()) },
    );
    assert_eq!(r, Some(b("/real/w/link")));
}

#[test]
fn resolve_rebases_missing_suffix_on_existing_ancestor() {
    let existing_paths = vec![b("/"), b("/a"), b("/a/b")];
    let present = |p: &Vec<u8>| existing_paths.contains(p);
    let canon = |p: &Vec<u8>| if *p == b("/a/b") { Some(b("/c/b")) } else { None };
    assert_eq!(canonicalize_with_missing(&b("/a/b/new/../x"), &present, &canon), b("/c/b/x"));
    let r = resolve_path(&None, &b("/a/b/y"), &|_p: &Vec<u8>| false, &present, &canon);
    assert_eq!(r, Some(b("/c/b/y")));
    let none = resolve_path(&None, &b("rel"), &|_p: &Vec<u8>| false, &present, &canon);
    assert_eq!(none, None);
    // Nothing exists at all: the path is only normalised.
    let nothing = canonicalize_with_missing(&b("/q/./r/../s"), &|_p: &Vec<u8>| false, &canon);
    assert_eq!(nothing, b("/q/s"));
}

fn info(allowed: bool, entry: Option<EntryType>, ino: u64, listing: Listing) -> PathInfo {
    PathInfo { allowed, entry, id: entry.map(|_| FileId { dev: 1, ino }), listing }
}

#[test]
fn process_source_checks_in_order() {
    let fs = |p: &Vec<u8>| -> PathInfo {
        if *p == b("w/a") {
            info(true, Some(EntryType::File), 5, Listing::Unreadable)
        } else if *p == b("w/d/a") {
            info(true, None, 0, Listing::Unreadable)
        } else if *p == b("w/dir1") {
            info(true, Some(EntryType::Directory), 6, Listing::NonEmpty)
        } else if *p == b("w/full") {
            info(true, Some(EntryType::Directory), 7, Listing::NonEmpty)
        } else if *p == b("/etc/a") {
            info(false, None, 0, Listing::Unreadable)
        } else {
            info(true, None, 0, Listing::Unreadable)
        }
    };
    assert_eq!(
        process_source(&b("w/a"), &b("w/d"), true, false, &fs),
        Ok((b("w/d/a"), MovePlan::Move(DestinationAction::RenameDirectly)))
    );
    assert_eq!(process_source(&b("w/missing"), &b("w/d"), true, false, &fs), Err(MvError::NotFound));
    assert_eq!(process_source(&b("w/a"), &b("/etc"), true, false, &fs), Err(MvError::TargetOutsideScope));
    assert_eq!(process_source(&b("w/a"), &b("w/a"), false, false, &fs), Err(MvError::SameFile));
    assert_eq!(process_source(&b("w/a"), &b("w/a"), false, true, &fs), Ok((b("w/a"), MovePlan::Skip)));
    assert_eq!(process_source(&b("w/dir1"), &b("w/full"), false, false, &fs), Err(MvError::DirectoryNotEmpty));
}

#[test]
fn copy_item_checks_in_order() {
    let fs = |p: &Vec<u8>| -> CopyInfo {
        if *p == b("w/src.txt") {
            CopyInfo { entry: Some(EntryType::File), canonical_allowed: Some(true), allowed: true }
        } else if *p == b("w/dir") {
            CopyInfo { entry: Some(EntryType::Directory), canonical_allowed: Some(true), allowed: true }
        } else if *p == b("/outside/src.txt") {
            CopyInfo { entry: None, canonical_allowed: None, allowed: false }
        } else if *p == b("w/link-out") {
            CopyInfo { entry: Some(EntryType::File), canonical_allowed: Some(false), allowed: true }
        } else {
            CopyInfo { entry: None, canonical_allowed: None, allowed: true }
        }
    };
    let label = String::from("w/src.txt");
    let task = copy_item(&label, &b("w/src.txt"), &b("w/out"), true, false, &fs).unwrap();
    assert_eq!(task.kind, CopyKind::File);
    assert_eq!(task.final_target, b("w/out/src.txt"));
    assert!(matches!(
        copy_item(&label, &b("w/src.txt"), &b("/outside"), true, false, &fs),
        Err(CpError::TargetOutsideScope)
    ));
    let dir = String::from("w/dir");
    assert!(matches!(
        copy_item(&dir, &b("w/dir"), &b("w/new"), false, false, &fs),
        Err(CpError::OmittingDirectory)
    ));
    assert!(matches!(copy_item(&dir, &b("w/dir"), &b("w/new"), false, true, &fs), Ok(_)));
    let out = String::from("w/link-out");
    assert!(matches!(
        copy_item(&out, &b("w/link-out"), &b("w/new"), false, false, &fs),
        Err(CpError::SourceOutsideScope)
    ));
    let missing = String::from("w/none");
    assert!(matches!(copy_item(&missing, &b("w/none"), &b("w/new"), false, false, &fs), Err(CpError::NotFound)));
}

#[test]
fn same_file_falls_back_to_normalised_paths() {
    let t = Some(FileId { dev: 1, ino: 2 });
    assert_eq!(ensure_not_same_file(None, t, true), Err(MvError::SameFile));
    assert_eq!(ensure_not_same_file(None, t, false), Ok(()));
    assert_eq!(ensure_not_same_file(Some(FileId { dev: 1, ino: 3 }), t, true), Ok(()));
    assert_eq!(ensure_not_same_file(t, t, false), Err(MvError::SameFile));
    assert_eq!(ensure_not_same_file(t, None, true), Ok(()));
}

#[test]
fn process_source_compares_paths_without_identity() {
    let fs = |p: &Vec<u8>| -> PathInfo {
        if *p == b("w/./a") || *p == b("w/a") {
            PathInfo { allowed: true, entry: Some(EntryType::File), id: None, listing: Listing::Unreadable }
        } else {
            info(true, None, 0, Listing::Unreadable)
        }
    };
    let fs_with_target_id = |p: &Vec<u8>| -> PathInfo {
        let mut i = fs(p);
        if *p == b("w/a") {
            i.id = Some(FileId { dev: 1, ino: 9 });
        }
        i
    };
    assert_eq!(process_source(&b("w/./a"), &b("w/a"), false, false, &fs_with_target_id), Err(MvError::SameFile));
}

#[test]
fn scope_check_resolves_path_and_configured_directories() {
    let config = config_with(&["/ext/link"]);
    let existing_paths = vec![b("/"), b("/w"), b("/ext"), b("/ext/link"), b("/real")];
    let present = |p: &Vec<u8>| existing_paths.contains(p);
    let canon = |p: &Vec<u8>| {
        if *p == b("/ext/link") {
            Some(b("/real"))
        } else if existing_paths.contains(p) {
            Some(p.clone())
        } else {
            None
        }
    };
    let no_links = |_p: &Vec<u8>| false;
    let cwd = Some(b("/w"));
    assert!(is_allowed(&config, &cwd, &b("new.txt"), &no_links, &present, &canon));
    assert!(is_allowed(&config, &cwd, &b("/real/x"), &no_links, &present, &canon));
    assert!(is_allowed(&config, &cwd, &b("/ext/link/x"), &no_links, &present, &canon));
    assert!(!is_allowed(&config, &cwd, &b("../etc/passwd"), &no_links, &present, &canon));
    assert!(!is_allowed(&config, &None, &b("/real/x"), &no_links, &present, &canon));
}

#[test]
fn only_cross_device_rename_falls_back_to_copy() {
    assert_eq!(after_rename(RenameOutcome::Renamed), RelocationStep::Done);
    assert_eq!(after_rename(RenameOutcome::CrossDevice), RelocationStep::CopyThenRemove);
    assert_eq!(after_rename(RenameOutcome::Failed), RelocationStep::Fail);
}

#[test]
fn fallback_error_names_both_causes_at_each_step() {
    let prepare_fails = move_existing_file_to_trash_with_fallback(
        &b("/t/x"),
        |_p: &Vec<u8>| Err("trash failed".to_string()),
        || Ok(b("/t/.trash")),
        |_d: &Vec<u8>| Err("cannot create".to_string()),
        |_p: &Vec<u8>| false,
        |_from: &Vec<u8>, _to: &Vec<u8>| Ok(()),
    );
    assert_eq!(prepare_fails, Err(TrashError::Failed { message: "trash failed; cannot create".to_string() }));
    let move_fails = move_existing_file_to_trash_with_fallback(
        &b("/t/x"),
        |_p: &Vec<u8>| Err("trash failed".to_string()),
        || Ok(b("/t/.trash")),
        |_d: &Vec<u8>| Ok(()),
        |_p: &Vec<u8>| false,
        |_from: &Vec<u8>, _to: &Vec<u8>| Err("rename failed".to_string()),
    );
    assert_eq!(move_fails, Err(TrashError::Failed { message: "trash failed; rename failed".to_string() }));
    let all_taken = move_existing_file_to_trash_with_fallback(
        &b("/t/x"),
        |_p: &Vec<u8>| Err("trash failed".to_string()),
        || Ok(b("/t/.trash")),
        |_d: &Vec<u8>| Ok(()),
        |_p: &Vec<u8>| true,
        |_from: &Vec<u8>, _to: &Vec<u8>| Ok(()),
    );
    assert_eq!(
        all_taken,
        Err(TrashError::Failed { message: "trash failed; too many name collisions".to_string() })
    );
}
