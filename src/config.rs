//! The authorised scope: the working directory plus configured directories,
//! and the decision whether a resolved path lies inside it.
use vstd::prelude::*;
use crate::paths::{
    is_normal_component, is_parent_dir, lemma_components_of_render, lemma_components_wellformed,
    lemma_normalize_append_plain, lemma_normalize_plain, components, copy_bytes, descends_from, is_absolute, is_absolute_spec, join_path,
    join_path_spec, normalize_spec, render, render_path, split_components, starts_with, views,
};

verus! {

/// Directories allowed beyond the working directory; each must be absolute.
pub struct AdditionalAllowedDirectories {
    pub paths: Vec<Vec<u8>>,
}

/// Whether a desktop notification follows a command.
pub struct NotifyConfig {
    pub macos_notify: bool,
}

pub struct Config {
    pub additional_allowed_directories: AdditionalAllowedDirectories,
    pub notify: NotifyConfig,
}

/// A configuration that cannot be used.
#[derive(PartialEq, Eq, Structural, Debug, Clone, Copy)]
pub enum ConfigError {
    /// The configured directory at this index is not absolute.
    RelativeAdditionalPath { index: usize },
}

/// What the filesystem said about the scope when a path was checked: the
/// canonical working directory, if it could be determined, and for each
/// configured directory its resolved form where it could be resolved.
pub struct ScopeFacts {
    pub cwd: Option<Vec<u8>>,
    pub resolved_dirs: Vec<Option<Vec<u8>>>,
}

pub open spec fn config_paths(c: &Config) -> Seq<Seq<u8>> {
    views(c.additional_allowed_directories.paths@)
}

/// The form of configured directory `i` that the scope holds: its resolved
/// form where there is one, otherwise the path as written.
pub open spec fn resolved_dir(paths: Seq<Seq<u8>>, existing: Seq<Option<Vec<u8>>>, i: int) -> Seq<
    u8,
> {
    if i < existing.len() && existing[i] is Some {
        existing[i]->Some_0@
    } else {
        paths[i]
    }
}

pub open spec fn opt_view(o: Option<Vec<u8>>) -> Option<Seq<u8>> {
    match o {
        Some(v) => Some(v@),
        None => None,
    }
}

/// The scope directories: the working directory first, when known, then
/// each configured directory.
pub open spec fn scope_dirs(c: &Config, facts: &ScopeFacts) -> Seq<Seq<u8>> {
    let extra = Seq::new(
        config_paths(c).len(),
        |i: int| resolved_dir(config_paths(c), facts.resolved_dirs@, i),
    );
    match facts.cwd {
        Some(cwd) => seq![cwd@] + extra,
        None => extra,
    }
}

/// `target` lies at or below one of `dirs`.
pub open spec fn within_any(target: Seq<u8>, dirs: Seq<Seq<u8>>) -> bool {
    exists|j: int| 0 <= j < dirs.len() && descends_from(target, #[trigger] dirs[j])
}

/// A path made absolute against the working directory.
pub open spec fn absolute_spec(cwd: Option<Seq<u8>>, p: Seq<u8>) -> Option<Seq<u8>> {
    if is_absolute_spec(p) {
        Some(p)
    } else {
        match cwd {
            Some(c) => Some(join_path_spec(c, p)),
            None => None,
        }
    }
}

/// `base` with `tail` appended and `..` resolved lexically.
pub open spec fn rebase_spec(base: Seq<u8>, tail: Seq<Seq<u8>>) -> Seq<u8> {
    render(is_absolute_spec(base), normalize_spec(components(base) + tail))
}

impl Default for Config {
    /// No additional directory: the working directory alone is the scope.
    fn default() -> (r: Config)
        ensures
            config_paths(&r).len() == 0,
            !r.notify.macos_notify,
    {
        Config {
            additional_allowed_directories: AdditionalAllowedDirectories { paths: Vec::new() },
            notify: NotifyConfig { macos_notify: false },
        }
    }
}

impl Config {
    /// The configuration that allows every path: its one directory is `/`.
    pub fn allow_all() -> (r: Config)
        ensures
            config_paths(&r) == seq![seq![crate::paths::SEP]],
            !r.notify.macos_notify,
    {
        let mut root: Vec<u8> = Vec::new();
        root.push(crate::paths::SEP);
        let mut paths: Vec<Vec<u8>> = Vec::new();
        paths.push(root);
        assert(views(paths@) =~= seq![seq![crate::paths::SEP]]);
        Config {
            additional_allowed_directories: AdditionalAllowedDirectories { paths },
            notify: NotifyConfig { macos_notify: false },
        }
    }

    /// Every configured directory must be absolute; the first that is not
    /// is reported by its index.
    pub fn validate(&self) -> (r: Result<(), ConfigError>)
        ensures
            r is Ok <==> forall|i: int|
                0 <= i < config_paths(self).len() ==> is_absolute_spec(
                    #[trigger] config_paths(self)[i],
                ),
            r matches Err(ConfigError::RelativeAdditionalPath { index }) ==> index
                < config_paths(self).len() && !is_absolute_spec(config_paths(self)[index as int])
                && forall|i: int| 0 <= i < index ==> is_absolute_spec(#[trigger] config_paths(self)[i]),
    {
        let paths = &self.additional_allowed_directories.paths;
        let mut i: usize = 0;
        while i < paths.len()
            invariant
                i <= paths.len(),
                paths == &self.additional_allowed_directories.paths,
                forall|k: int| 0 <= k < i ==> is_absolute_spec(#[trigger] config_paths(self)[k]),
            decreases paths.len() - i,
        {
            if !is_absolute(&paths[i]) {
                assert(config_paths(self)[i as int] == paths@[i as int]@);
                return Err(ConfigError::RelativeAdditionalPath { index: i });
            }
            i += 1;
        }
        Ok(())
    }

    /// The scope directories, resolved as `facts` report them.
    pub fn allowed_scopes(&self, facts: &ScopeFacts) -> (r: Vec<Vec<u8>>)
        ensures
            views(r@) == scope_dirs(self, facts),
    {
        let paths = &self.additional_allowed_directories.paths;
        let mut r: Vec<Vec<u8>> = Vec::new();
        match &facts.cwd {
            Some(c) => r.push(copy_bytes(c)),
            None => {},
        }
        let ghost head = views(r@);
        let ghost extra = Seq::new(
            config_paths(self).len(),
            |i: int| resolved_dir(config_paths(self), facts.resolved_dirs@, i),
        );
        let mut i: usize = 0;
        while i < paths.len()
            invariant
                i <= paths.len(),
                paths == &self.additional_allowed_directories.paths,
                extra.len() == paths.len(),
                extra == Seq::new(
                    config_paths(self).len(),
                    |i: int| resolved_dir(config_paths(self), facts.resolved_dirs@, i),
                ),
                views(r@) == head + extra.subrange(0, i as int),
            decreases paths.len() - i,
        {
            let ghost before = views(r@);
            let d = if i < facts.resolved_dirs.len() {
                match &facts.resolved_dirs[i] {
                    Some(e) => copy_bytes(e),
                    None => copy_bytes(&paths[i]),
                }
            } else {
                copy_bytes(&paths[i])
            };
            assert(d@ == extra[i as int]);
            r.push(d);
            assert(views(r@) =~= before.push(d@));
            i += 1;
            assert(extra.subrange(0, i as int) =~= extra.subrange(0, i - 1).push(extra[i - 1]));
        }
        assert(extra.subrange(0, paths.len() as int) =~= extra);
        proof {
            if facts.cwd is Some {
                assert(head =~= seq![facts.cwd->Some_0@]);
            } else {
                assert(head =~= Seq::<Seq<u8>>::empty());
                assert(views(r@) =~= extra);
            }
        }
        r
    }

    /// Whether the resolved `target` lies at or below one of the scope
    /// directories. The check fails closed: a target that could not be
    /// resolved is denied, and so is every target while the working
    /// directory is unknown.
    pub fn is_path_allowed(&self, target: &Option<Vec<u8>>, facts: &ScopeFacts) -> (r: bool)
        ensures
            r == (facts.cwd is Some && match opt_view(*target) {
                Some(t) => within_any(t, scope_dirs(self, facts)),
                None => false,
            }),
            facts.cwd is None ==> !r,
    {
        if facts.cwd.is_none() {
            return false;
        }
        let t = match target {
            Some(t) => t,
            None => return false,
        };
        let scopes = self.allowed_scopes(facts);
        let mut j: usize = 0;
        while j < scopes.len()
            invariant
                j <= scopes.len(),
                views(scopes@) == scope_dirs(self, facts),
                opt_view(*target) == Some(t@),
                facts.cwd is Some,
                forall|k: int| 0 <= k < j ==> !descends_from(t@, #[trigger] views(scopes@)[k]),
            decreases scopes.len() - j,
        {
            if starts_with(t, &scopes[j]) {
                assert(views(scopes@)[j as int] == scopes@[j as int]@);
                assert(descends_from(t@, scope_dirs(self, facts)[j as int]));
                assert(opt_view(*target) == Some(t@));
                assert(within_any(t@, scope_dirs(self, facts)));
                return true;
            }
            assert(views(scopes@)[j as int] == scopes@[j as int]@);
            j += 1;
        }
        assert(opt_view(*target) == Some(t@));
        false
    }
}

/// `path` made absolute: kept when absolute, otherwise appended to the
/// working directory; `None` when it is relative and the working directory
/// is unknown.
pub fn absolute_target(cwd: &Option<Vec<u8>>, path: &Vec<u8>) -> (r: Option<Vec<u8>>)
    ensures
        opt_view(r) == absolute_spec(opt_view(*cwd), path@),
{
    if is_absolute(path) {
        return Some(copy_bytes(path));
    }
    match cwd {
        Some(c) => Some(join_path(c, path)),
        None => None,
    }
}

/// `p` with its last `k` components removed.
pub fn ancestor(p: &Vec<u8>, k: usize) -> (r: Vec<u8>)
    requires
        k <= components(p@).len(),
    ensures
        r@ == render(is_absolute_spec(p@), components(p@).subrange(0, components(p@).len() - k)),
{
    let mut cs = split_components(p);
    let n = cs.len();
    cs.truncate(n - k);
    assert(views(cs@) =~= components(p@).subrange(0, components(p@).len() - k));
    render_path(is_absolute(p), &cs)
}

/// The last `k` components of `p`.
pub fn trailing_components(p: &Vec<u8>, k: usize) -> (r: Vec<Vec<u8>>)
    requires
        k <= components(p@).len(),
    ensures
        views(r@) == components(p@).subrange(components(p@).len() - k, components(p@).len() as int),
{
    let mut cs = split_components(p);
    let n = cs.len();
    let r = cs.split_off(n - k);
    assert(views(r@) =~= components(p@).subrange(n - k, n as int));
    r
}

/// `base` with the components `tail` appended and `..` resolved lexically.
/// This completes a path whose last components do not exist yet from the
/// canonical form of its longest existing ancestor, and re-attaches a
/// symbolic link's own name to its resolved parent.
pub fn rebase(base: &Vec<u8>, tail: &Vec<Vec<u8>>) -> (r: Vec<u8>)
    ensures
        r@ == rebase_spec(base@, views(tail@)),
{
    let mut cs = split_components(base);
    let mut i: usize = 0;
    let ghost head = views(cs@);
    while i < tail.len()
        invariant
            i <= tail.len(),
            head == components(base@),
            views(cs@) == head + views(tail@).subrange(0, i as int),
        decreases tail.len() - i,
    {
        let ghost before = views(cs@);
        cs.push(copy_bytes(&tail[i]));
        assert(views(cs@) =~= before.push(tail@[i as int]@));
        i += 1;
        assert(views(tail@).subrange(0, i as int) =~= views(tail@).subrange(0, i - 1).push(
            tail@[i - 1]@,
        ));
    }
    assert(views(tail@).subrange(0, tail.len() as int) =~= views(tail@));
    let n = crate::paths::normalize_components(&cs);
    render_path(is_absolute(base), &n)
}

/// An absolute path with no `..` component, as canonicalisation gives.
pub open spec fn is_canonical(p: Seq<u8>) -> bool {
    is_absolute_spec(p) && forall|i: int|
        0 <= i < components(p).len() ==> !is_parent_dir(#[trigger] components(p)[i])
}

proof fn lemma_canonical_components_normal(p: Seq<u8>)
    requires
        is_canonical(p),
    ensures
        forall|i: int|
            0 <= i < components(p).len() ==> is_normal_component(#[trigger] components(p)[i]),
{
    lemma_components_wellformed(p);
}

/// `rebase_spec(base, tail)` has the components of `base` followed by `tail`.
proof fn lemma_rebase_plain(base: Seq<u8>, tail: Seq<Seq<u8>>)
    requires
        is_canonical(base),
        forall|i: int| 0 <= i < tail.len() ==> is_normal_component(#[trigger] tail[i]),
    ensures
        components(rebase_spec(base, tail)) == components(base) + tail,
        is_absolute_spec(rebase_spec(base, tail)),
{
    lemma_canonical_components_normal(base);
    let cb = components(base);
    assert forall|i: int| 0 <= i < tail.len() implies !is_parent_dir(#[trigger] tail[i]) by {
        assert(is_normal_component(tail[i]));
    }
    lemma_normalize_append_plain(cb, tail);
    lemma_normalize_plain(cb);
    let all = cb + tail;
    assert forall|i: int| 0 <= i < all.len() implies is_normal_component(#[trigger] all[i]) by {
        if i < cb.len() {
            assert(all[i] == cb[i]);
        } else {
            assert(all[i] == tail[i - cb.len()]);
        }
    }
    lemma_components_of_render(true, all);
    assert(rebase_spec(base, tail)[0] == crate::paths::SEP);
}

/// A path below the working directory is allowed, whatever the configured
/// directories, so also with none: completing the canonical working
/// directory with entry names gives a path that the scope holds.
pub proof fn lemma_below_cwd_is_allowed(c: &Config, facts: &ScopeFacts, tail: Seq<Seq<u8>>)
    requires
        facts.cwd is Some,
        is_canonical(facts.cwd->Some_0@),
        forall|i: int| 0 <= i < tail.len() ==> is_normal_component(#[trigger] tail[i]),
    ensures
        within_any(rebase_spec(facts.cwd->Some_0@, tail), scope_dirs(c, facts)),
{
    let cwd = facts.cwd->Some_0@;
    let t = rebase_spec(cwd, tail);
    lemma_rebase_plain(cwd, tail);
    assert(components(t).subrange(0, components(cwd).len() as int) =~= components(cwd));
    assert(descends_from(t, cwd));
    assert(scope_dirs(c, facts)[0] == cwd);
}

/// A target below none of the scope directories is denied.
pub proof fn lemma_outside_every_scope_is_denied(c: &Config, facts: &ScopeFacts, target: Seq<u8>)
    requires
        forall|j: int|
            0 <= j < scope_dirs(c, facts).len() ==> !descends_from(
                target,
                #[trigger] scope_dirs(c, facts)[j],
            ),
    ensures
        !within_any(target, scope_dirs(c, facts)),
{
}

/// Climbing out of the working directory with `..` leaves the scope when
/// no other directory is configured: `cwd/../name` is not below `cwd`
/// unless `name` is the working directory's own name.
pub proof fn lemma_parent_traversal_is_denied(c: &Config, facts: &ScopeFacts, name: Seq<u8>)
    requires
        facts.cwd is Some,
        is_canonical(facts.cwd->Some_0@),
        components(facts.cwd->Some_0@).len() > 0,
        is_normal_component(name),
        name != components(facts.cwd->Some_0@).last(),
        config_paths(c).len() == 0,
    ensures
        !within_any(
            rebase_spec(facts.cwd->Some_0@, seq![seq![crate::paths::DOT, crate::paths::DOT], name]),
            scope_dirs(c, facts),
        ),
{
    let cwd = facts.cwd->Some_0@;
    let cs = components(cwd);
    let up = seq![crate::paths::DOT, crate::paths::DOT];
    let tail = seq![up, name];
    lemma_canonical_components_normal(cwd);
    lemma_normalize_plain(cs);
    assert((cs + tail).drop_last() =~= cs.push(up));
    assert(cs.push(up).drop_last() =~= cs);
    let res = cs.drop_last().push(name);
    assert(is_parent_dir(up));
    assert(!is_parent_dir(name));
    assert((cs + tail).last() == name);
    assert(cs.push(up).last() == up);
    assert(normalize_spec(cs.push(up)) == cs.drop_last());
    assert(normalize_spec(cs + tail) == normalize_spec(cs.push(up)).push(name));
    assert forall|i: int| 0 <= i < res.len() implies is_normal_component(#[trigger] res[i]) by {
        if i < cs.len() - 1 {
            assert(res[i] == cs[i]);
        }
    }
    lemma_components_of_render(true, res);
    let t = rebase_spec(cwd, tail);
    assert(components(t) == res);
    assert(components(t).subrange(0, cs.len() as int) != cs) by {
        assert(components(t).subrange(0, cs.len() as int)[cs.len() - 1] == name);
    }
    assert(scope_dirs(c, facts) =~= seq![cwd]);
    assert(!descends_from(t, scope_dirs(c, facts)[0]));
}

/// A symbolic link is judged by where it stands, not by what it points to:
/// its resolved location is its resolved parent with its own name appended,
/// which lies in every directory that holds the parent.
pub proof fn lemma_symlink_leaf_is_judged_by_its_location(
    resolved_parent: Seq<u8>,
    name: Seq<u8>,
    dir: Seq<u8>,
)
    requires
        is_canonical(resolved_parent),
        is_normal_component(name),
        descends_from(resolved_parent, dir),
    ensures
        descends_from(rebase_spec(resolved_parent, seq![name]), dir),
{
    let tail = seq![name];
    lemma_rebase_plain(resolved_parent, tail);
    let t = rebase_spec(resolved_parent, tail);
    let cp = components(resolved_parent);
    let cd = components(dir);
    assert(components(t).subrange(0, cd.len() as int) =~= cp.subrange(0, cd.len() as int));
}

} // verus!
