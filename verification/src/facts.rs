//! What is known of the file system while a request is resolved.
//!
//! Resolution reads the file system at each turn. The library does not
//! touch it: the resolver looks each question up among the answers recorded
//! so far, and where one is missing it asks for it. The caller performs the
//! lookup on the disk, records the answer and asks again.
use vstd::prelude::*;
use crate::model::{PackageJsonInfo, PluginResolveHookResult, HookView, opt_hook_view};

verus! {

/// What a path names on disk, following symbolic links.
#[derive(PartialEq, Eq, Structural, Clone, Copy, Debug)]
pub enum PathKind {
    Missing,
    File,
    Dir,
    Other,
}

/// A question about the file system, or about a nested resolution.
#[derive(Debug)]
pub enum FsQuery {
    /// What `path` names.
    Stat(String),
    /// The `package.json` that governs `dir`: the one in `dir`, or, when
    /// `resolve_ancestor_dir` is set, the nearest one above it.
    LoadPackageJson { dir: String, follow_symlinks: bool, resolve_ancestor_dir: bool },
    /// The path `path` stands for once symbolic links are followed.
    FollowSymlinks(String),
    /// The result of resolving `source` as a module, from the same base
    /// directory and with the same kind as the request that asks.
    Resolve(String),
}

/// The mathematical value of a question.
pub enum QueryView {
    Stat(Seq<char>),
    LoadPackageJson(Seq<char>, bool, bool),
    FollowSymlinks(Seq<char>),
    Resolve(Seq<char>),
}

impl View for FsQuery {
    type V = QueryView;

    open spec fn view(&self) -> QueryView {
        match self {
            FsQuery::Stat(p) => QueryView::Stat(p@),
            FsQuery::LoadPackageJson { dir, follow_symlinks, resolve_ancestor_dir } =>
                QueryView::LoadPackageJson(dir@, *follow_symlinks, *resolve_ancestor_dir),
            FsQuery::FollowSymlinks(p) => QueryView::FollowSymlinks(p@),
            FsQuery::Resolve(s) => QueryView::Resolve(s@),
        }
    }
}

/// Why a resolution cannot go on.
#[derive(Debug)]
pub enum AbortReason {
    /// A file name was needed for the path, and it has none.
    NoFileName(String),
    /// An `exports` condition that applies maps to something else than a string.
    NonStringExportTarget,
}

/// The mathematical value of an abort reason.
pub enum AbortView {
    NoFileName(Seq<char>),
    NonStringExportTarget,
}

impl View for AbortReason {
    type V = AbortView;

    open spec fn view(&self) -> AbortView {
        match self {
            AbortReason::NoFileName(p) => AbortView::NoFileName(p@),
            AbortReason::NonStringExportTarget => AbortView::NonStringExportTarget,
        }
    }
}

/// The outcome of a step of resolution: a question whose answer is missing,
/// a reason to stop, or a value.
#[derive(Debug)]
pub enum Eval<T> {
    Need(FsQuery),
    Abort(AbortReason),
    Done(T),
}

/// The mathematical outcome of a step of resolution.
pub enum Out<T> {
    Need(QueryView),
    Abort(AbortView),
    Done(T),
}

/// The view of an outcome, with `f` giving the view of its value.
pub open spec fn eval_view<T, U>(e: Eval<T>, f: spec_fn(T) -> U) -> Out<U> {
    match e {
        Eval::Need(q) => Out::Need(q@),
        Eval::Abort(a) => Out::Abort(a@),
        Eval::Done(t) => Out::Done(f(t)),
    }
}

/// The answers recorded so far. For a question asked more than once, the
/// answer recorded first holds.
pub struct FsFacts {
    pub stats: Vec<(String, PathKind)>,
    pub package_jsons: Vec<(String, bool, bool, Option<PackageJsonInfo>)>,
    pub links: Vec<(String, String)>,
    pub resolutions: Vec<(String, Option<PluginResolveHookResult>)>,
}

/// Index of the first recorded answer about path `p`, at `i` or later.
pub open spec fn stat_index_from(s: Seq<(String, PathKind)>, p: Seq<char>, i: int) -> Option<int>
    decreases s.len() - i,
{
    if i < 0 || i >= s.len() {
        None
    } else if s[i].0@ == p {
        Some(i)
    } else {
        stat_index_from(s, p, i + 1)
    }
}

/// Index of the first recorded `package.json` answer for the question, at
/// `i` or later.
pub open spec fn package_index_from(
    s: Seq<(String, bool, bool, Option<PackageJsonInfo>)>,
    dir: Seq<char>,
    follow: bool,
    ancestor: bool,
    i: int,
) -> Option<int>
    decreases s.len() - i,
{
    if i < 0 || i >= s.len() {
        None
    } else if s[i].0@ == dir && s[i].1 == follow && s[i].2 == ancestor {
        Some(i)
    } else {
        package_index_from(s, dir, follow, ancestor, i + 1)
    }
}

/// Index of the first recorded link answer about `p`, at `i` or later.
pub open spec fn link_index_from(s: Seq<(String, String)>, p: Seq<char>, i: int) -> Option<int>
    decreases s.len() - i,
{
    if i < 0 || i >= s.len() {
        None
    } else if s[i].0@ == p {
        Some(i)
    } else {
        link_index_from(s, p, i + 1)
    }
}

/// Index of the first recorded resolution of `src`, at `i` or later.
pub open spec fn resolution_index_from(
    s: Seq<(String, Option<PluginResolveHookResult>)>,
    src: Seq<char>,
    i: int,
) -> Option<int>
    decreases s.len() - i,
{
    if i < 0 || i >= s.len() {
        None
    } else if s[i].0@ == src {
        Some(i)
    } else {
        resolution_index_from(s, src, i + 1)
    }
}

/// The recorded kind of path `p`.
pub open spec fn stat_answer(facts: FsFacts, p: Seq<char>) -> Option<PathKind> {
    match stat_index_from(facts.stats@, p, 0) {
        Some(i) => Some(facts.stats@[i].1),
        None => None,
    }
}

/// The recorded `package.json` for the question.
pub open spec fn package_answer(facts: FsFacts, dir: Seq<char>, follow: bool, ancestor: bool) -> Option<Option<PackageJsonInfo>> {
    match package_index_from(facts.package_jsons@, dir, follow, ancestor, 0) {
        Some(i) => Some(facts.package_jsons@[i].3),
        None => None,
    }
}

/// The recorded target of path `p`.
pub open spec fn link_answer(facts: FsFacts, p: Seq<char>) -> Option<Seq<char>> {
    match link_index_from(facts.links@, p, 0) {
        Some(i) => Some(facts.links@[i].1@),
        None => None,
    }
}

/// The recorded resolution of `src`.
pub open spec fn resolution_answer(facts: FsFacts, src: Seq<char>) -> Option<Option<HookView>> {
    match resolution_index_from(facts.resolutions@, src, 0) {
        Some(i) => Some(opt_hook_view(facts.resolutions@[i].1)),
        None => None,
    }
}

/// Whether an answer to the question is recorded.
pub open spec fn answered(facts: FsFacts, q: QueryView) -> bool {
    match q {
        QueryView::Stat(p) => stat_answer(facts, p) is Some,
        QueryView::LoadPackageJson(d, f, a) => package_answer(facts, d, f, a) is Some,
        QueryView::FollowSymlinks(p) => link_answer(facts, p) is Some,
        QueryView::Resolve(s) => resolution_answer(facts, s) is Some,
    }
}

/// The kind of path `p`, or the question for it.
pub open spec fn ask_stat(facts: FsFacts, p: Seq<char>) -> Out<PathKind> {
    match stat_answer(facts, p) {
        Some(k) => Out::Done(k),
        None => Out::Need(QueryView::Stat(p)),
    }
}

/// The `package.json` for the question, or the question itself.
pub open spec fn ask_package(facts: FsFacts, dir: Seq<char>, follow: bool, ancestor: bool) -> Out<Option<PackageJsonInfo>> {
    match package_answer(facts, dir, follow, ancestor) {
        Some(p) => Out::Done(p),
        None => Out::Need(QueryView::LoadPackageJson(dir, follow, ancestor)),
    }
}

/// The target of path `p`, or the question for it.
pub open spec fn ask_link(facts: FsFacts, p: Seq<char>) -> Out<Seq<char>> {
    match link_answer(facts, p) {
        Some(t) => Out::Done(t),
        None => Out::Need(QueryView::FollowSymlinks(p)),
    }
}

/// The resolution of `src`, or the question for it.
pub open spec fn ask_resolution(facts: FsFacts, src: Seq<char>) -> Out<Option<HookView>> {
    match resolution_answer(facts, src) {
        Some(r) => Out::Done(r),
        None => Out::Need(QueryView::Resolve(src)),
    }
}

impl FsFacts {
    /// No answer recorded.
    pub fn new() -> (r: Self)
        ensures
            r.stats@.len() == 0,
            r.package_jsons@.len() == 0,
            r.links@.len() == 0,
            r.resolutions@.len() == 0,
    {
        FsFacts { stats: Vec::new(), package_jsons: Vec::new(), links: Vec::new(), resolutions: Vec::new() }
    }

    /// Records what `path` names.
    pub fn record_stat(&mut self, path: String, kind: PathKind)
        ensures
            final(self).stats@ == old(self).stats@.push((path, kind)),
            final(self).package_jsons == old(self).package_jsons,
            final(self).links == old(self).links,
            final(self).resolutions == old(self).resolutions,
    {
        self.stats.push((path, kind));
    }

    /// Records the `package.json` found for a question.
    pub fn record_package_json(&mut self, dir: String, follow_symlinks: bool, resolve_ancestor_dir: bool, info: Option<PackageJsonInfo>)
        ensures
            final(self).package_jsons@ == old(self).package_jsons@.push((dir, follow_symlinks, resolve_ancestor_dir, info)),
            final(self).stats == old(self).stats,
            final(self).links == old(self).links,
            final(self).resolutions == old(self).resolutions,
    {
        self.package_jsons.push((dir, follow_symlinks, resolve_ancestor_dir, info));
    }

    /// Records the path `path` stands for once links are followed.
    pub fn record_link(&mut self, path: String, target: String)
        ensures
            final(self).links@ == old(self).links@.push((path, target)),
            final(self).stats == old(self).stats,
            final(self).package_jsons == old(self).package_jsons,
            final(self).resolutions == old(self).resolutions,
    {
        self.links.push((path, target));
    }

    /// Records the result of resolving `source`.
    pub fn record_resolution(&mut self, source: String, result: Option<PluginResolveHookResult>)
        ensures
            final(self).resolutions@ == old(self).resolutions@.push((source, result)),
            final(self).stats == old(self).stats,
            final(self).package_jsons == old(self).package_jsons,
            final(self).links == old(self).links,
    {
        self.resolutions.push((source, result));
    }

    /// The recorded kind of `path`.
    pub fn stat_of(&self, path: &str) -> (r: Option<PathKind>)
        ensures
            r == stat_answer(*self, path@),
    {
        let n = self.stats.len();
        let mut i: usize = 0;
        while i < n
            invariant
                n == self.stats@.len(),
                i <= n,
                stat_index_from(self.stats@, path@, 0) == stat_index_from(self.stats@, path@, i as int),
            decreases n - i,
        {
            if crate::strings::str_equals(self.stats[i].0.as_str(), path) {
                return Some(self.stats[i].1);
            }
            i = i + 1;
        }
        None
    }

    /// The recorded `package.json` for the question.
    pub fn package_json_of(&self, dir: &str, follow_symlinks: bool, resolve_ancestor_dir: bool) -> (r: Option<&Option<PackageJsonInfo>>)
        ensures
            r is None <==> package_answer(*self, dir@, follow_symlinks, resolve_ancestor_dir) is None,
            r matches Some(p) ==> package_answer(*self, dir@, follow_symlinks, resolve_ancestor_dir) == Some(*p),
    {
        let n = self.package_jsons.len();
        let mut i: usize = 0;
        while i < n
            invariant
                n == self.package_jsons@.len(),
                i <= n,
                package_index_from(self.package_jsons@, dir@, follow_symlinks, resolve_ancestor_dir, 0)
                    == package_index_from(self.package_jsons@, dir@, follow_symlinks, resolve_ancestor_dir, i as int),
            decreases n - i,
        {
            let entry = &self.package_jsons[i];
            if crate::strings::str_equals(entry.0.as_str(), dir) && entry.1 == follow_symlinks
                && entry.2 == resolve_ancestor_dir {
                return Some(&entry.3);
            }
            i = i + 1;
        }
        None
    }

    /// The recorded target of `path`.
    pub fn link_of(&self, path: &str) -> (r: Option<&String>)
        ensures
            r is None <==> link_answer(*self, path@) is None,
            r matches Some(t) ==> link_answer(*self, path@) == Some(t@),
    {
        let n = self.links.len();
        let mut i: usize = 0;
        while i < n
            invariant
                n == self.links@.len(),
                i <= n,
                link_index_from(self.links@, path@, 0) == link_index_from(self.links@, path@, i as int),
            decreases n - i,
        {
            if crate::strings::str_equals(self.links[i].0.as_str(), path) {
                return Some(&self.links[i].1);
            }
            i = i + 1;
        }
        None
    }

    /// The recorded resolution of `source`.
    pub fn resolution_of(&self, source: &str) -> (r: Option<&Option<PluginResolveHookResult>>)
        ensures
            r is None <==> resolution_answer(*self, source@) is None,
            r matches Some(h) ==> resolution_answer(*self, source@) == Some(opt_hook_view(*h)),
    {
        let n = self.resolutions.len();
        let mut i: usize = 0;
        while i < n
            invariant
                n == self.resolutions@.len(),
                i <= n,
                resolution_index_from(self.resolutions@, source@, 0) == resolution_index_from(self.resolutions@, source@, i as int),
            decreases n - i,
        {
            if crate::strings::str_equals(self.resolutions[i].0.as_str(), source) {
                return Some(&self.resolutions[i].1);
            }
            i = i + 1;
        }
        None
    }
}

} // verus!
