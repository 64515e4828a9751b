//! Resolving a path for the scope check: absolute, canonical up to the
//! longest existing ancestor, and a final symbolic link kept as it is. The
//! filesystem is asked through probes.
use vstd::prelude::*;
use crate::entry::answered;
use crate::config::{config_paths, scope_dirs, within_any, Config, ScopeFacts, absolute_spec, absolute_target, ancestor, opt_view, rebase, rebase_spec, trailing_components};
use crate::paths::{
    components, file_name, file_name_spec, is_absolute_spec, lexical_normal, normalize_lexically,
    parent, parent_spec, render, split_components,
};

verus! {

/// `p` without its last `k` components.
pub open spec fn ancestor_spec(p: Seq<u8>, k: int) -> Seq<u8> {
    render(is_absolute_spec(p), components(p).subrange(0, components(p).len() - k))
}

/// The last `k` components of `p`.
pub open spec fn trailing_spec(p: Seq<u8>, k: int) -> Seq<Seq<u8>> {
    components(p).subrange(components(p).len() - k, components(p).len() as int)
}

/// The canonicalising probe gave `out` for the path `s`.
pub open spec fn canonicalized<C: Fn(&Vec<u8>) -> Option<Vec<u8>>>(
    canonicalize: C,
    s: Seq<u8>,
    out: Option<Seq<u8>>,
) -> bool {
    exists|v: Vec<u8>, o: Option<Vec<u8>>|
        v@ == s && canonicalize.ensures((&v,), o) && opt_view(o) == out
}

/// `r` is `abs` resolved against the filesystem: the first ancestor,
/// from `abs` itself upwards, that the probe reports existing is
/// canonicalised (kept as it is where that fails), and the components
/// below it are re-attached lexically. Where no ancestor exists, `abs` is
/// only normalised lexically.
pub open spec fn resolved_with_missing<E, C>(present: E, canonicalize: C, abs: Seq<u8>, r: Seq<u8>) -> bool where
    E: Fn(&Vec<u8>) -> bool,
    C: Fn(&Vec<u8>) -> Option<Vec<u8>>,
 {
    let n = components(abs).len() as int;
    (exists|k: int, out: Option<Seq<u8>>|
        0 <= k <= n && answered(present, ancestor_spec(abs, k), true) && (forall|j: int|
            0 <= j < k ==> answered(present, #[trigger] ancestor_spec(abs, j), false))
            && canonicalized(canonicalize, ancestor_spec(abs, k), out) && r == rebase_spec(
            match out {
                Some(c) => c,
                None => ancestor_spec(abs, k),
            },
            trailing_spec(abs, k),
        )) || ((forall|j: int| 0 <= j <= n ==> answered(present, #[trigger] ancestor_spec(abs, j), false))
        && r == lexical_normal(abs))
}

/// `r` is the symbolic link `abs` resolved: its parent resolved as
/// `resolved_with_missing` says, with the link's own name re-attached; a
/// path without both is only normalised lexically.
pub open spec fn link_resolved<E, C>(present: E, canonicalize: C, abs: Seq<u8>, r: Seq<u8>) -> bool where
    E: Fn(&Vec<u8>) -> bool,
    C: Fn(&Vec<u8>) -> Option<Vec<u8>>,
 {
    if file_name_spec(abs) is Some && parent_spec(abs) is Some {
        exists|d: Seq<u8>|
            resolved_with_missing(present, canonicalize, parent_spec(abs)->Some_0, d) && r
                == rebase_spec(d, seq![file_name_spec(abs)->Some_0])
    } else {
        r == lexical_normal(abs)
    }
}

/// The canonical form of the longest existing ancestor of `abs`, with the
/// missing rest re-attached and `..` in it resolved lexically: this
/// resolves a destination that does not exist yet.
pub fn canonicalize_with_missing<E, C>(abs: &Vec<u8>, present: &E, canonicalize: &C) -> (r: Vec<u8>) where
    E: Fn(&Vec<u8>) -> bool,
    C: Fn(&Vec<u8>) -> Option<Vec<u8>>,

    requires
        forall|p: &Vec<u8>| present.requires((p,)),
        forall|p: &Vec<u8>| canonicalize.requires((p,)),
    ensures
        resolved_with_missing(*present, *canonicalize, abs@, r@),
{
    let n = split_components(abs).len();
    let mut k: usize = 0;
    loop
        invariant
            k <= n,
            n == components(abs@).len(),
            forall|p: &Vec<u8>| present.requires((p,)),
            forall|p: &Vec<u8>| canonicalize.requires((p,)),
            forall|j: int| 0 <= j < k ==> answered(*present, #[trigger] ancestor_spec(abs@, j), false),
        ensures
            forall|j: int| 0 <= j <= n ==> answered(*present, #[trigger] ancestor_spec(abs@, j), false),
        decreases n - k,
    {
        let anc = ancestor(abs, k);
        let found = present(&anc);
        assert(answered(*present, ancestor_spec(abs@, k as int), found)) by {
            assert(anc@ == ancestor_spec(abs@, k as int));
        }
        if found {
            let canon = canonicalize(&anc);
            let ghost out = opt_view(canon);
            assert(canonicalized(*canonicalize, ancestor_spec(abs@, k as int), out));
            let tail = trailing_components(abs, k);
            let base = match canon {
                Some(c) => c,
                None => anc,
            };
            let r = rebase(&base, &tail);
            assert(resolved_with_missing(*present, *canonicalize, abs@, r@)) by {
                assert(0 <= k as int <= n as int);
            }
            return r;
        }
        if k == n {
            break;
        }
        k += 1;
    }
    normalize_lexically(abs)
}

/// `r` is `path` resolved against the working directory `cwd` with the
/// answers of the probes, as `resolve_path` does it.
pub open spec fn resolution<L, E, C>(
    is_symlink: L,
    present: E,
    canonicalize: C,
    cwd: Option<Seq<u8>>,
    path: Seq<u8>,
    r: Option<Seq<u8>>,
) -> bool where
    L: Fn(&Vec<u8>) -> bool,
    E: Fn(&Vec<u8>) -> bool,
    C: Fn(&Vec<u8>) -> Option<Vec<u8>>,
 {
    match absolute_spec(cwd, path) {
        None => r is None,
        Some(abs) => match r {
            None => false,
            Some(t) => (answered(is_symlink, abs, false) && resolved_with_missing(
                present,
                canonicalize,
                abs,
                t,
            )) || (answered(is_symlink, abs, true) && link_resolved(present, canonicalize, abs, t)),
        },
    }
}

/// `path` resolved for the scope check. It is made absolute against the
/// working directory; where it is a symbolic link, only its parent is
/// resolved and the link's own name re-attached, so the link is judged by
/// where it stands, never by what it points to. `None` when it is relative
/// and the working directory is unknown.
pub fn resolve_path<L, E, C>(
    cwd: &Option<Vec<u8>>,
    path: &Vec<u8>,
    is_symlink: &L,
    present: &E,
    canonicalize: &C,
) -> (r: Option<Vec<u8>>) where
    L: Fn(&Vec<u8>) -> bool,
    E: Fn(&Vec<u8>) -> bool,
    C: Fn(&Vec<u8>) -> Option<Vec<u8>>,

    requires
        forall|p: &Vec<u8>| is_symlink.requires((p,)),
        forall|p: &Vec<u8>| present.requires((p,)),
        forall|p: &Vec<u8>| canonicalize.requires((p,)),
    ensures
        resolution(*is_symlink, *present, *canonicalize, opt_view(*cwd), path@, opt_view(r)),
{
    let abs = match absolute_target(cwd, path) {
        Some(a) => a,
        None => return None,
    };
    let link = is_symlink(&abs);
    assert(answered(*is_symlink, abs@, link));
    assert(absolute_spec(opt_view(*cwd), path@) == Some(abs@));
    if !link {
        let t = canonicalize_with_missing(&abs, present, canonicalize);
        assert(answered(*is_symlink, abs@, false));
        return Some(t);
    }
    match file_name(&abs) {
        Some(name) => match parent(&abs) {
            Some(dir) => {
                let d = canonicalize_with_missing(&dir, present, canonicalize);
                let mut tail: Vec<Vec<u8>> = Vec::new();
                let ghost n = name@;
                tail.push(name);
                assert(crate::paths::views(tail@) =~= seq![n]);
                let t = rebase(&d, &tail);
                assert(resolved_with_missing(*present, *canonicalize, parent_spec(abs@)->Some_0, d@));
                assert(t@ == rebase_spec(d@, seq![file_name_spec(abs@)->Some_0]));
                assert(link_resolved(*present, *canonicalize, abs@, t@));
                Some(t)
            },
            None => {
                let t = normalize_lexically(&abs);
                assert(link_resolved(*present, *canonicalize, abs@, t@));
                Some(t)
            },
        },
        None => {
            let t = normalize_lexically(&abs);
            assert(link_resolved(*present, *canonicalize, abs@, t@));
            Some(t)
        },
    }
}

/// Whether `path` may be touched: it is resolved as `resolve_path` does,
/// every configured directory is resolved the same way, and the resolved
/// path must lie at or below the working directory or one of those
/// directories. The check fails closed: with the working directory
/// unknown, or the path unresolvable, it is denied.
pub fn is_allowed<L, E, C>(
    config: &Config,
    cwd: &Option<Vec<u8>>,
    path: &Vec<u8>,
    is_symlink: &L,
    present: &E,
    canonicalize: &C,
) -> (r: bool) where
    L: Fn(&Vec<u8>) -> bool,
    E: Fn(&Vec<u8>) -> bool,
    C: Fn(&Vec<u8>) -> Option<Vec<u8>>,

    requires
        forall|p: &Vec<u8>| is_symlink.requires((p,)),
        forall|p: &Vec<u8>| present.requires((p,)),
        forall|p: &Vec<u8>| canonicalize.requires((p,)),
    ensures
        cwd is None ==> !r,
        exists|t: Option<Vec<u8>>, facts: ScopeFacts|
            opt_view(facts.cwd) == opt_view(*cwd) && facts.resolved_dirs@.len() == config_paths(
                config,
            ).len() && (forall|i: int|
                0 <= i < config_paths(config).len() ==> resolution(
                    *is_symlink,
                    *present,
                    *canonicalize,
                    opt_view(*cwd),
                    config_paths(config)[i],
                    opt_view(#[trigger] facts.resolved_dirs@[i]),
                )) && resolution(
                *is_symlink,
                *present,
                *canonicalize,
                opt_view(*cwd),
                path@,
                opt_view(t),
            ) && r == (facts.cwd is Some && match opt_view(t) {
                Some(tt) => within_any(tt, scope_dirs(config, &facts)),
                None => false,
            }),
{
    let paths = &config.additional_allowed_directories.paths;
    let mut dirs: Vec<Option<Vec<u8>>> = Vec::new();
    let mut i: usize = 0;
    while i < paths.len()
        invariant
            i <= paths@.len(),
            paths == &config.additional_allowed_directories.paths,
            dirs@.len() == i,
            forall|p: &Vec<u8>| is_symlink.requires((p,)),
            forall|p: &Vec<u8>| present.requires((p,)),
            forall|p: &Vec<u8>| canonicalize.requires((p,)),
            forall|k: int|
                0 <= k < i ==> resolution(
                    *is_symlink,
                    *present,
                    *canonicalize,
                    opt_view(*cwd),
                    config_paths(config)[k],
                    opt_view(#[trigger] dirs@[k]),
                ),
        decreases paths@.len() - i,
    {
        let d = resolve_path(cwd, &paths[i], is_symlink, present, canonicalize);
        assert(config_paths(config)[i as int] == paths@[i as int]@);
        dirs.push(d);
        i += 1;
    }
    let target = resolve_path(cwd, path, is_symlink, present, canonicalize);
    let cwd_copy = match cwd {
        Some(c) => Some(crate::paths::copy_bytes(c)),
        None => None,
    };
    let facts = ScopeFacts { cwd: cwd_copy, resolved_dirs: dirs };
    let r = config.is_path_allowed(&target, &facts);
    assert(opt_view(facts.cwd) == opt_view(*cwd));
    assert(forall|i: int|
        0 <= i < config_paths(config).len() ==> resolution(
            *is_symlink,
            *present,
            *canonicalize,
            opt_view(*cwd),
            config_paths(config)[i],
            opt_view(#[trigger] facts.resolved_dirs@[i]),
        ));
    assert(r == (facts.cwd is Some && match opt_view(target) {
        Some(tt) => within_any(tt, scope_dirs(config, &facts)),
        None => false,
    }));
    r
}

} // verus!
