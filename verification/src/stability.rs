//! Laws of step-by-step resolution: recording an answer keeps every answer
//! recorded before, and a step that ends, with a result or a reason to stop,
//! ends the same way whatever answers are recorded after it.
use vstd::prelude::*;
use crate::facts::{
    PathKind, QueryView, Out, FsFacts, answered, stat_index_from,
    package_index_from, link_index_from, resolution_index_from, stat_answer, package_answer,
    link_answer, resolution_answer, ask_stat, ask_package, ask_link, ask_resolution,
};
use crate::model::{ResolveConfig, ResolveKind, PluginResolveHookResult, PackageJsonInfo, opt_hook_view};
use crate::resolution::{
    try_ext_from, try_file_spec, try_main_from, try_directory_spec, file_or_dir_spec, follow_spec,
    node_modules_result_spec, found_in_package, prefix_scan, missing_package_spec, main_fields_from,
    node_modules_dir_spec, node_modules_from, alias_from, resolve_spec, source_segments,
    alias_target_from,
};
use crate::paths::{parent_path, logical_path, joined_path};

verus! {

/// Every answer recorded in `f1` is recorded, the same, in `f2`.
pub open spec fn extends(f2: FsFacts, f1: FsFacts) -> bool {
    &&& forall|p: Seq<char>| #[trigger] stat_answer(f1, p) is Some ==> stat_answer(f2, p) == stat_answer(f1, p)
    &&& forall|d: Seq<char>, fo: bool, an: bool|
        #[trigger] package_answer(f1, d, fo, an) is Some ==> package_answer(f2, d, fo, an) == package_answer(f1, d, fo, an)
    &&& forall|p: Seq<char>| #[trigger] link_answer(f1, p) is Some ==> link_answer(f2, p) == link_answer(f1, p)
    &&& forall|s: Seq<char>|
        #[trigger] resolution_answer(f1, s) is Some ==> resolution_answer(f2, s) == resolution_answer(f1, s)
}

proof fn lemma_stat_index_push(s: Seq<(String, PathKind)>, x: (String, PathKind), p: Seq<char>, i: int)
    requires
        stat_index_from(s, p, i) is Some,
    ensures
        stat_index_from(s.push(x), p, i) == stat_index_from(s, p, i),
        0 <= stat_index_from(s, p, i)->0 < s.len(),
    decreases s.len() - i,
{
    if 0 <= i < s.len() && s[i].0@ != p {
        lemma_stat_index_push(s, x, p, i + 1);
    }
}

proof fn lemma_package_index_push(
    s: Seq<(String, bool, bool, Option<PackageJsonInfo>)>,
    x: (String, bool, bool, Option<PackageJsonInfo>),
    d: Seq<char>,
    fo: bool,
    an: bool,
    i: int,
)
    requires
        package_index_from(s, d, fo, an, i) is Some,
    ensures
        package_index_from(s.push(x), d, fo, an, i) == package_index_from(s, d, fo, an, i),
        0 <= package_index_from(s, d, fo, an, i)->0 < s.len(),
    decreases s.len() - i,
{
    if 0 <= i < s.len() && !(s[i].0@ == d && s[i].1 == fo && s[i].2 == an) {
        lemma_package_index_push(s, x, d, fo, an, i + 1);
    }
}

proof fn lemma_link_index_push(s: Seq<(String, String)>, x: (String, String), p: Seq<char>, i: int)
    requires
        link_index_from(s, p, i) is Some,
    ensures
        link_index_from(s.push(x), p, i) == link_index_from(s, p, i),
        0 <= link_index_from(s, p, i)->0 < s.len(),
    decreases s.len() - i,
{
    if 0 <= i < s.len() && s[i].0@ != p {
        lemma_link_index_push(s, x, p, i + 1);
    }
}

proof fn lemma_resolution_index_push(
    s: Seq<(String, Option<PluginResolveHookResult>)>,
    x: (String, Option<PluginResolveHookResult>),
    src: Seq<char>,
    i: int,
)
    requires
        resolution_index_from(s, src, i) is Some,
    ensures
        resolution_index_from(s.push(x), src, i) == resolution_index_from(s, src, i),
        0 <= resolution_index_from(s, src, i)->0 < s.len(),
    decreases s.len() - i,
{
    if 0 <= i < s.len() && s[i].0@ != src {
        lemma_resolution_index_push(s, x, src, i + 1);
    }
}

proof fn lemma_stat_index_last(s: Seq<(String, PathKind)>, x: (String, PathKind), i: int)
    requires
        0 <= i <= s.len(),
        stat_index_from(s, x.0@, i) is None,
    ensures
        stat_index_from(s.push(x), x.0@, i) == Some(s.len() as int),
    decreases s.len() - i,
{
    if i < s.len() {
        lemma_stat_index_last(s, x, i + 1);
    }
}

proof fn lemma_package_index_last(
    s: Seq<(String, bool, bool, Option<PackageJsonInfo>)>,
    x: (String, bool, bool, Option<PackageJsonInfo>),
    i: int,
)
    requires
        0 <= i <= s.len(),
        package_index_from(s, x.0@, x.1, x.2, i) is None,
    ensures
        package_index_from(s.push(x), x.0@, x.1, x.2, i) == Some(s.len() as int),
    decreases s.len() - i,
{
    if i < s.len() {
        lemma_package_index_last(s, x, i + 1);
    }
}

proof fn lemma_link_index_last(s: Seq<(String, String)>, x: (String, String), i: int)
    requires
        0 <= i <= s.len(),
        link_index_from(s, x.0@, i) is None,
    ensures
        link_index_from(s.push(x), x.0@, i) == Some(s.len() as int),
    decreases s.len() - i,
{
    if i < s.len() {
        lemma_link_index_last(s, x, i + 1);
    }
}

proof fn lemma_resolution_index_last(
    s: Seq<(String, Option<PluginResolveHookResult>)>,
    x: (String, Option<PluginResolveHookResult>),
    i: int,
)
    requires
        0 <= i <= s.len(),
        resolution_index_from(s, x.0@, i) is None,
    ensures
        resolution_index_from(s.push(x), x.0@, i) == Some(s.len() as int),
    decreases s.len() - i,
{
    if i < s.len() {
        lemma_resolution_index_last(s, x, i + 1);
    }
}

/// Law: recording what a path names keeps every earlier answer, and the
/// question about that path is answered afterwards.
pub proof fn lemma_record_stat(f1: FsFacts, f2: FsFacts, path: String, kind: PathKind)
    requires
        f2.stats@ == f1.stats@.push((path, kind)),
        f2.package_jsons == f1.package_jsons,
        f2.links == f1.links,
        f2.resolutions == f1.resolutions,
    ensures
        extends(f2, f1),
        answered(f2, QueryView::Stat(path@)),
        !answered(f1, QueryView::Stat(path@)) ==> stat_answer(f2, path@) == Some(kind),
{
    assert forall|p: Seq<char>| #[trigger] stat_answer(f1, p) is Some implies stat_answer(f2, p) == stat_answer(f1, p) by {
        lemma_stat_index_push(f1.stats@, (path, kind), p, 0);
    }
    if stat_answer(f1, path@) is None {
        lemma_stat_index_last(f1.stats@, (path, kind), 0);
    }
}

/// Law: recording the `package.json` for a question keeps every earlier
/// answer, and the question is answered afterwards.
pub proof fn lemma_record_package_json(
    f1: FsFacts,
    f2: FsFacts,
    dir: String,
    follow_symlinks: bool,
    resolve_ancestor_dir: bool,
    info: Option<PackageJsonInfo>,
)
    requires
        f2.package_jsons@ == f1.package_jsons@.push((dir, follow_symlinks, resolve_ancestor_dir, info)),
        f2.stats == f1.stats,
        f2.links == f1.links,
        f2.resolutions == f1.resolutions,
    ensures
        extends(f2, f1),
        answered(f2, QueryView::LoadPackageJson(dir@, follow_symlinks, resolve_ancestor_dir)),
        !answered(f1, QueryView::LoadPackageJson(dir@, follow_symlinks, resolve_ancestor_dir))
            ==> package_answer(f2, dir@, follow_symlinks, resolve_ancestor_dir) == Some(info),
{
    let x = (dir, follow_symlinks, resolve_ancestor_dir, info);
    assert forall|d: Seq<char>, fo: bool, an: bool| #[trigger] package_answer(f1, d, fo, an) is Some implies package_answer(f2, d, fo, an)
        == package_answer(f1, d, fo, an) by {
        lemma_package_index_push(f1.package_jsons@, x, d, fo, an, 0);
    }
    if package_answer(f1, dir@, follow_symlinks, resolve_ancestor_dir) is None {
        lemma_package_index_last(f1.package_jsons@, x, 0);
    }
}

/// Law: recording where a path leads keeps every earlier answer, and the
/// question about that path is answered afterwards.
pub proof fn lemma_record_link(f1: FsFacts, f2: FsFacts, path: String, target: String)
    requires
        f2.links@ == f1.links@.push((path, target)),
        f2.stats == f1.stats,
        f2.package_jsons == f1.package_jsons,
        f2.resolutions == f1.resolutions,
    ensures
        extends(f2, f1),
        answered(f2, QueryView::FollowSymlinks(path@)),
        !answered(f1, QueryView::FollowSymlinks(path@)) ==> link_answer(f2, path@) == Some(target@),
{
    assert forall|p: Seq<char>| #[trigger] link_answer(f1, p) is Some implies link_answer(f2, p) == link_answer(f1, p) by {
        lemma_link_index_push(f1.links@, (path, target), p, 0);
    }
    if link_answer(f1, path@) is None {
        lemma_link_index_last(f1.links@, (path, target), 0);
    }
}

/// Law: recording the resolution of a source keeps every earlier answer, and
/// the question about that source is answered afterwards.
pub proof fn lemma_record_resolution(f1: FsFacts, f2: FsFacts, source: String, result: Option<PluginResolveHookResult>)
    requires
        f2.resolutions@ == f1.resolutions@.push((source, result)),
        f2.stats == f1.stats,
        f2.package_jsons == f1.package_jsons,
        f2.links == f1.links,
    ensures
        extends(f2, f1),
        answered(f2, QueryView::Resolve(source@)),
{
    assert forall|s: Seq<char>| #[trigger] resolution_answer(f1, s) is Some implies resolution_answer(f2, s)
        == resolution_answer(f1, s) by {
        lemma_resolution_index_push(f1.resolutions@, (source, result), s, 0);
    }
    if resolution_answer(f1, source@) is None {
        lemma_resolution_index_last(f1.resolutions@, (source, result), 0);
    }
}

proof fn lemma_asks_stable(f1: FsFacts, f2: FsFacts)
    requires
        extends(f2, f1),
    ensures
        forall|p: Seq<char>| !(#[trigger] ask_stat(f1, p) is Need) ==> ask_stat(f2, p) == ask_stat(f1, p),
        forall|d: Seq<char>, fo: bool, an: bool|
            !(#[trigger] ask_package(f1, d, fo, an) is Need) ==> ask_package(f2, d, fo, an) == ask_package(f1, d, fo, an),
        forall|p: Seq<char>| !(#[trigger] ask_link(f1, p) is Need) ==> ask_link(f2, p) == ask_link(f1, p),
        forall|s: Seq<char>|
            !(#[trigger] ask_resolution(f1, s) is Need) ==> ask_resolution(f2, s) == ask_resolution(f1, s),
{
    assert forall|p: Seq<char>| !(#[trigger] ask_stat(f1, p) is Need) implies ask_stat(f2, p) == ask_stat(f1, p) by {
        assert(stat_answer(f1, p) is Some);
    }
    assert forall|d: Seq<char>, fo: bool, an: bool| !(#[trigger] ask_package(f1, d, fo, an) is Need) implies ask_package(
        f2,
        d,
        fo,
        an,
    ) == ask_package(f1, d, fo, an) by {
        assert(package_answer(f1, d, fo, an) is Some);
    }
    assert forall|p: Seq<char>| !(#[trigger] ask_link(f1, p) is Need) implies ask_link(f2, p) == ask_link(f1, p) by {
        assert(link_answer(f1, p) is Some);
    }
    assert forall|s: Seq<char>| !(#[trigger] ask_resolution(f1, s) is Need) implies ask_resolution(f2, s)
        == ask_resolution(f1, s) by {
        assert(resolution_answer(f1, s) is Some);
    }
}

proof fn lemma_try_ext_stable(cfg: ResolveConfig, f1: FsFacts, f2: FsFacts, file: Seq<char>, i: int)
    requires
        extends(f2, f1),
        !(try_ext_from(cfg, f1, file, i) is Need),
    ensures
        try_ext_from(cfg, f2, file, i) == try_ext_from(cfg, f1, file, i),
    decreases cfg.extensions@.len() - i,
{
    lemma_asks_stable(f1, f2);
    if 0 <= i < cfg.extensions@.len() && !(try_ext_from(cfg, f1, file, i + 1) is Need) {
        lemma_try_ext_stable(cfg, f1, f2, file, i + 1);
    }
}

proof fn lemma_try_file_stable(cfg: ResolveConfig, f1: FsFacts, f2: FsFacts, file: Seq<char>)
    requires
        extends(f2, f1),
        !(try_file_spec(cfg, f1, file) is Need),
    ensures
        try_file_spec(cfg, f2, file) == try_file_spec(cfg, f1, file),
{
    lemma_asks_stable(f1, f2);
    if !(try_ext_from(cfg, f1, file, 0) is Need) {
        lemma_try_ext_stable(cfg, f1, f2, file, 0);
    }
}

proof fn lemma_try_main_stable(cfg: ResolveConfig, f1: FsFacts, f2: FsFacts, dir: Seq<char>, i: int)
    requires
        extends(f2, f1),
        !(try_main_from(cfg, f1, dir, i) is Need),
    ensures
        try_main_from(cfg, f2, dir, i) == try_main_from(cfg, f1, dir, i),
    decreases cfg.main_files@.len() - i,
{
    if 0 <= i < cfg.main_files@.len() {
        let file = joined_path(dir, cfg.main_files@[i]@);
        if !(try_file_spec(cfg, f1, file) is Need) {
            lemma_try_file_stable(cfg, f1, f2, file);
        }
        if !(try_main_from(cfg, f1, dir, i + 1) is Need) {
            lemma_try_main_stable(cfg, f1, f2, dir, i + 1);
        }
    }
}

proof fn lemma_try_directory_stable(cfg: ResolveConfig, f1: FsFacts, f2: FsFacts, dir: Seq<char>)
    requires
        extends(f2, f1),
        !(try_directory_spec(cfg, f1, dir) is Need),
    ensures
        try_directory_spec(cfg, f2, dir) == try_directory_spec(cfg, f1, dir),
{
    lemma_asks_stable(f1, f2);
    if !(try_main_from(cfg, f1, dir, 0) is Need) {
        lemma_try_main_stable(cfg, f1, f2, dir, 0);
    }
}

proof fn lemma_file_or_dir_stable(cfg: ResolveConfig, f1: FsFacts, f2: FsFacts, p: Seq<char>)
    requires
        extends(f2, f1),
        !(file_or_dir_spec(cfg, f1, p) is Need),
    ensures
        file_or_dir_spec(cfg, f2, p) == file_or_dir_spec(cfg, f1, p),
{
    if !(try_file_spec(cfg, f1, p) is Need) {
        lemma_try_file_stable(cfg, f1, f2, p);
    }
    if !(try_directory_spec(cfg, f1, p) is Need) {
        lemma_try_directory_stable(cfg, f1, f2, p);
    }
}

proof fn lemma_follow_stable(cfg: ResolveConfig, f1: FsFacts, f2: FsFacts, p: Seq<char>)
    requires
        extends(f2, f1),
        !(follow_spec(cfg, f1, p) is Need),
    ensures
        follow_spec(cfg, f2, p) == follow_spec(cfg, f1, p),
{
    lemma_asks_stable(f1, f2);
}

proof fn lemma_node_modules_result_stable(
    cfg: ResolveConfig,
    f1: FsFacts,
    f2: FsFacts,
    pji: Option<PackageJsonInfo>,
    rp: Seq<char>,
    kind: ResolveKind,
)
    requires
        extends(f2, f1),
        !(node_modules_result_spec(cfg, f1, pji, rp, kind) is Need),
    ensures
        node_modules_result_spec(cfg, f2, pji, rp, kind) == node_modules_result_spec(cfg, f1, pji, rp, kind),
{
    if let Some(pj) = pji {
        let rp2 = match crate::resolver::exports_spec(pj, rp, kind) {
            crate::resolver::LookupView::Found(p) => p,
            _ => rp,
        };
        if !(file_or_dir_spec(cfg, f1, rp2) is Need) {
            lemma_file_or_dir_stable(cfg, f1, f2, rp2);
        }
        lemma_asks_stable(f1, f2);
    }
}

proof fn lemma_found_in_package_stable(
    cfg: ResolveConfig,
    f1: FsFacts,
    f2: FsFacts,
    pji: Option<PackageJsonInfo>,
    found: Out<Option<Seq<char>>>,
    kind: ResolveKind,
)
    requires
        extends(f2, f1),
        !(found_in_package(cfg, f1, pji, found, kind) is Need),
    ensures
        found_in_package(cfg, f2, pji, found, kind) == found_in_package(cfg, f1, pji, found, kind),
{
    if let Out::Done(Some(rp)) = found {
        lemma_node_modules_result_stable(cfg, f1, f2, pji, rp, kind);
    }
}

proof fn lemma_prefix_scan_stable(
    cfg: ResolveConfig,
    f1: FsFacts,
    f2: FsFacts,
    nm: Seq<char>,
    segs: Seq<Seq<char>>,
    pp: Seq<char>,
    kind: ResolveKind,
    k: int,
)
    requires
        extends(f2, f1),
        !(prefix_scan(cfg, f1, nm, segs, pp, kind, k) is Need),
    ensures
        prefix_scan(cfg, f2, nm, segs, pp, kind, k) == prefix_scan(cfg, f1, nm, segs, pp, kind, k),
    decreases k,
{
    lemma_asks_stable(f1, f2);
    if k > 0 {
        let p0 = logical_path(crate::resolution::source_prefix(segs, k), nm);
        if !(follow_spec(cfg, f1, p0) is Need) {
            lemma_follow_stable(cfg, f1, f2, p0);
        }
        if let Out::Done(ppd) = follow_spec(cfg, f1, p0) {
            if let Out::Done(Some(pj)) = ask_package(f1, ppd, cfg.symlinks, false) {
                if !(found_in_package(cfg, f1, Some(pj), Out::Done(Some(pp)), kind) is Need) {
                    lemma_found_in_package_stable(cfg, f1, f2, Some(pj), Out::Done(Some(pp)), kind);
                }
            }
        }
        if !(prefix_scan(cfg, f1, nm, segs, pp, kind, k - 1) is Need) {
            lemma_prefix_scan_stable(cfg, f1, f2, nm, segs, pp, kind, k - 1);
        }
    }
}

proof fn lemma_missing_package_stable(
    cfg: ResolveConfig,
    f1: FsFacts,
    f2: FsFacts,
    source: Seq<char>,
    kind: ResolveKind,
    nm: Seq<char>,
    pp: Seq<char>,
    pji: Option<PackageJsonInfo>,
)
    requires
        extends(f2, f1),
        !(missing_package_spec(cfg, f1, source, kind, nm, pp, pji) is Need),
    ensures
        missing_package_spec(cfg, f2, source, kind, nm, pp, pji) == missing_package_spec(cfg, f1, source, kind, nm, pp, pji),
{
    lemma_asks_stable(f1, f2);
    if !(file_or_dir_spec(cfg, f1, pp) is Need) {
        lemma_file_or_dir_stable(cfg, f1, f2, pp);
        if !(found_in_package(cfg, f1, pji, file_or_dir_spec(cfg, f1, pp), kind) is Need) {
            lemma_found_in_package_stable(cfg, f1, f2, pji, file_or_dir_spec(cfg, f1, pp), kind);
        }
    }
    let segs = source_segments(source);
    if !(prefix_scan(cfg, f1, nm, segs, pp, kind, segs.len() as int) is Need) {
        lemma_prefix_scan_stable(cfg, f1, f2, nm, segs, pp, kind, segs.len() as int);
    }
}

proof fn lemma_main_fields_stable(
    cfg: ResolveConfig,
    f1: FsFacts,
    f2: FsFacts,
    pj: PackageJsonInfo,
    pp: Seq<char>,
    kind: ResolveKind,
    i: int,
)
    requires
        extends(f2, f1),
        !(main_fields_from(cfg, f1, pj, pp, kind, i) is Need),
    ensures
        main_fields_from(cfg, f2, pj, pp, kind, i) == main_fields_from(cfg, f1, pj, pp, kind, i),
    decreases cfg.main_fields@.len() - i,
{
    if i < 0 || i >= cfg.main_fields@.len() {
        if !(try_directory_spec(cfg, f1, pp) is Need) {
            lemma_try_directory_stable(cfg, f1, f2, pp);
            if !(found_in_package(cfg, f1, Some(pj), try_directory_spec(cfg, f1, pp), kind) is Need) {
                lemma_found_in_package_stable(cfg, f1, f2, Some(pj), try_directory_spec(cfg, f1, pp), kind);
            }
        }
    } else {
        if !(node_modules_result_spec(cfg, f1, Some(pj), pp, kind) is Need) {
            lemma_node_modules_result_stable(cfg, f1, f2, Some(pj), pp, kind);
        }
        if !(main_fields_from(cfg, f1, pj, pp, kind, i + 1) is Need) {
            lemma_main_fields_stable(cfg, f1, f2, pj, pp, kind, i + 1);
        }
        if let Some(crate::json::JsonValue::String(s)) = crate::resolver::field_spec(pj, cfg.main_fields@[i]@) {
            let full = logical_path(s@, pj.dir@);
            if !(try_file_spec(cfg, f1, full) is Need) {
                lemma_try_file_stable(cfg, f1, f2, full);
                if !(found_in_package(cfg, f1, Some(pj), try_file_spec(cfg, f1, full), kind) is Need) {
                    lemma_found_in_package_stable(cfg, f1, f2, Some(pj), try_file_spec(cfg, f1, full), kind);
                }
            }
            if !(try_directory_spec(cfg, f1, full) is Need) {
                lemma_try_directory_stable(cfg, f1, f2, full);
                if !(found_in_package(cfg, f1, Some(pj), try_directory_spec(cfg, f1, full), kind) is Need) {
                    lemma_found_in_package_stable(cfg, f1, f2, Some(pj), try_directory_spec(cfg, f1, full), kind);
                }
            }
        }
    }
}

proof fn lemma_node_modules_dir_stable(
    cfg: ResolveConfig,
    f1: FsFacts,
    f2: FsFacts,
    source: Seq<char>,
    kind: ResolveKind,
    current: Seq<char>,
)
    requires
        extends(f2, f1),
        !(node_modules_dir_spec(cfg, f1, source, kind, current) is Need),
    ensures
        node_modules_dir_spec(cfg, f2, source, kind, current) == node_modules_dir_spec(cfg, f1, source, kind, current),
{
    lemma_asks_stable(f1, f2);
    let nm = joined_path(current, crate::resolution::node_modules_word());
    let p0 = logical_path(source, nm);
    if !(follow_spec(cfg, f1, p0) is Need) {
        lemma_follow_stable(cfg, f1, f2, p0);
        if let Out::Done(pp) = follow_spec(cfg, f1, p0) {
            if let Out::Done(pji) = ask_package(f1, pp, cfg.symlinks, false) {
                if !(missing_package_spec(cfg, f1, source, kind, nm, pp, pji) is Need) {
                    lemma_missing_package_stable(cfg, f1, f2, source, kind, nm, pp, pji);
                }
                if let Some(pj) = pji {
                    if !(main_fields_from(cfg, f1, pj, pp, kind, 0) is Need) {
                        lemma_main_fields_stable(cfg, f1, f2, pj, pp, kind, 0);
                    }
                }
            }
        }
    }
}

proof fn lemma_node_modules_stable(
    cfg: ResolveConfig,
    f1: FsFacts,
    f2: FsFacts,
    source: Seq<char>,
    kind: ResolveKind,
    current: Seq<char>,
)
    requires
        extends(f2, f1),
        !(node_modules_from(cfg, f1, source, kind, current) is Need),
    ensures
        node_modules_from(cfg, f2, source, kind, current) == node_modules_from(cfg, f1, source, kind, current),
    decreases current.len(),
{
    if let Some(par) = parent_path(current) {
        if !(node_modules_dir_spec(cfg, f1, source, kind, current) is Need) {
            lemma_node_modules_dir_stable(cfg, f1, f2, source, kind, current);
        }
        if par.len() < current.len() && !(node_modules_from(cfg, f1, source, kind, par) is Need) {
            lemma_node_modules_stable(cfg, f1, f2, source, kind, par);
        }
    }
}

proof fn lemma_alias_stable(cfg: ResolveConfig, f1: FsFacts, f2: FsFacts, source: Seq<char>, i: int)
    requires
        extends(f2, f1),
        !(alias_from(cfg, f1, source, i) is Need),
    ensures
        alias_from(cfg, f2, source, i) == alias_from(cfg, f1, source, i),
    decreases cfg.alias@.len() - i,
{
    lemma_asks_stable(f1, f2);
    if 0 <= i < cfg.alias@.len() && !(alias_from(cfg, f1, source, i + 1) is Need) {
        lemma_alias_stable(cfg, f1, f2, source, i + 1);
    }
}

/// Law: a step of resolution that ends, with a result or a reason to stop,
/// ends the same way from any facts that keep the answers it was given.
/// Together with the ensures of `Resolver::resolve`, which asks only
/// questions that have no answer yet, this makes the outcome of a
/// resolution independent of what else was recorded.
pub proof fn lemma_resolve_stable(
    cfg: ResolveConfig,
    f1: FsFacts,
    f2: FsFacts,
    source: Seq<char>,
    base_dir: Seq<char>,
    kind: ResolveKind,
)
    requires
        extends(f2, f1),
        !(resolve_spec(cfg, f1, source, base_dir, kind) is Need),
    ensures
        resolve_spec(cfg, f2, source, base_dir, kind) == resolve_spec(cfg, f1, source, base_dir, kind),
{
    lemma_asks_stable(f1, f2);
    if !(try_file_spec(cfg, f1, source) is Need) {
        lemma_try_file_stable(cfg, f1, f2, source);
    }
    let p0 = logical_path(source, base_dir);
    if !(follow_spec(cfg, f1, p0) is Need) {
        lemma_follow_stable(cfg, f1, f2, p0);
        if let Out::Done(np) = follow_spec(cfg, f1, p0) {
            if !(file_or_dir_spec(cfg, f1, np) is Need) {
                lemma_file_or_dir_stable(cfg, f1, f2, np);
            }
        }
    }
    if !(try_directory_spec(cfg, f1, base_dir) is Need) {
        lemma_try_directory_stable(cfg, f1, f2, base_dir);
    }
    if !(alias_from(cfg, f1, source, 0) is Need) {
        lemma_alias_stable(cfg, f1, f2, source, 0);
    }
    if !(node_modules_from(cfg, f1, source, kind, base_dir) is Need) {
        lemma_node_modules_stable(cfg, f1, f2, source, kind, base_dir);
    }
}

/// Every recorded resolution of a source is what resolving that source
/// gives, from `base_dir` with `kind`, under the same facts.
pub open spec fn resolutions_consistent(cfg: ResolveConfig, facts: FsFacts, base_dir: Seq<char>, kind: ResolveKind) -> bool {
    forall|s: Seq<char>| #[trigger] resolution_answer(facts, s) is Some ==> resolve_spec(cfg, facts, s, base_dir, kind)
        == Out::Done(resolution_answer(facts, s)->0)
}

/// Law: with no resolution recorded, the recorded resolutions are
/// consistent; the driver starts there, and the two laws below keep it so.
pub proof fn lemma_no_resolution_consistent(cfg: ResolveConfig, facts: FsFacts, base_dir: Seq<char>, kind: ResolveKind)
    requires
        facts.resolutions@.len() == 0,
    ensures
        resolutions_consistent(cfg, facts, base_dir, kind),
{
    assert forall|s: Seq<char>| #[trigger] resolution_answer(facts, s) is Some implies resolve_spec(cfg, facts, s, base_dir, kind)
        == Out::Done(resolution_answer(facts, s)->0) by {
        assert(resolution_index_from(facts.resolutions@, s, 0) is None);
    }
}

proof fn lemma_resolution_index_new(
    s: Seq<(String, Option<PluginResolveHookResult>)>,
    x: (String, Option<PluginResolveHookResult>),
    src: Seq<char>,
    i: int,
)
    requires
        0 <= i,
        resolution_index_from(s, src, i) is None,
        resolution_index_from(s.push(x), src, i) is Some,
    ensures
        src == x.0@,
        resolution_index_from(s.push(x), src, i) == Some(s.len() as int),
    decreases s.len() - i,
{
    assert(s.push(x)[s.len() as int] == x);
    if i < s.len() {
        assert(s.push(x)[i] == s[i]);
        lemma_resolution_index_new(s, x, src, i + 1);
    }
}

/// Law: recording an answer that adds no resolution (a stat, a
/// `package.json` or a link answer) keeps the recorded resolutions
/// consistent.
pub proof fn lemma_consistent_without_new_resolution(
    cfg: ResolveConfig,
    f1: FsFacts,
    f2: FsFacts,
    base_dir: Seq<char>,
    kind: ResolveKind,
)
    requires
        resolutions_consistent(cfg, f1, base_dir, kind),
        extends(f2, f1),
        f2.resolutions == f1.resolutions,
    ensures
        resolutions_consistent(cfg, f2, base_dir, kind),
{
    assert forall|s: Seq<char>| #[trigger] resolution_answer(f2, s) is Some implies resolve_spec(cfg, f2, s, base_dir, kind)
        == Out::Done(resolution_answer(f2, s)->0) by {
        assert(resolution_answer(f1, s) == resolution_answer(f2, s));
        lemma_resolve_stable(cfg, f1, f2, s, base_dir, kind);
    }
}

/// Law: recording, for a source, the result that resolving it gives keeps
/// the recorded resolutions consistent.
pub proof fn lemma_consistent_after_resolution(
    cfg: ResolveConfig,
    f1: FsFacts,
    f2: FsFacts,
    source: String,
    result: Option<PluginResolveHookResult>,
    base_dir: Seq<char>,
    kind: ResolveKind,
)
    requires
        resolutions_consistent(cfg, f1, base_dir, kind),
        resolve_spec(cfg, f1, source@, base_dir, kind) == Out::Done(opt_hook_view(result)),
        f2.resolutions@ == f1.resolutions@.push((source, result)),
        f2.stats == f1.stats,
        f2.package_jsons == f1.package_jsons,
        f2.links == f1.links,
    ensures
        resolutions_consistent(cfg, f2, base_dir, kind),
{
    lemma_record_resolution(f1, f2, source, result);
    assert forall|s: Seq<char>| #[trigger] resolution_answer(f2, s) is Some implies resolve_spec(cfg, f2, s, base_dir, kind)
        == Out::Done(resolution_answer(f2, s)->0) by {
        if resolution_answer(f1, s) is Some {
            lemma_resolve_stable(cfg, f1, f2, s, base_dir, kind);
        } else {
            lemma_resolution_index_new(f1.resolutions@, (source, result), s, 0);
            lemma_resolve_stable(cfg, f1, f2, s, base_dir, kind);
        }
    }
}

/// The alias step asks for the resolution of the source the first
/// matching rule rewrites to, and gives no result where no rule matches.
pub proof fn lemma_alias_from_target(cfg: ResolveConfig, facts: FsFacts, source: Seq<char>, i: int)
    ensures
        alias_from(cfg, facts, source, i) == match alias_target_from(cfg, source, i) {
            Some(t) => ask_resolution(facts, t),
            None => Out::Done(None),
        },
    decreases cfg.alias@.len() - i,
{
    if 0 <= i < cfg.alias@.len() {
        lemma_alias_from_target(cfg, facts, source, i + 1);
    }
}

/// Law: where an alias rule matches, the alias step gives what resolving the
/// rewritten source gives, once the recorded resolutions are consistent;
/// where none matches, it gives no result.
pub proof fn lemma_alias_resolves_target(
    cfg: ResolveConfig,
    facts: FsFacts,
    source: Seq<char>,
    base_dir: Seq<char>,
    kind: ResolveKind,
)
    requires
        resolutions_consistent(cfg, facts, base_dir, kind),
    ensures
        alias_target_from(cfg, source, 0) is None ==> alias_from(cfg, facts, source, 0) == Out::<Option<crate::model::HookView>>::Done(None),
        alias_target_from(cfg, source, 0) matches Some(t) ==> (alias_from(cfg, facts, source, 0) is Need
            || alias_from(cfg, facts, source, 0) == resolve_spec(cfg, facts, t, base_dir, kind)),
{
    lemma_alias_from_target(cfg, facts, source, 0);
    if let Some(t) = alias_target_from(cfg, source, 0) {
        if resolution_answer(facts, t) is Some {
            assert(resolve_spec(cfg, facts, t, base_dir, kind) == Out::Done(resolution_answer(facts, t)->0));
        }
    }
}

} // verus!
