//! Resolution of a request against the file system, one step at a time.
//!
//! Each function reads the file system only through the recorded answers in
//! an [`FsFacts`]; where an answer is missing it stops with the question
//! (`Eval::Need`). Each is specified by a spec function of the same shape
//! over [`Out`], and stops with a question only when that question has no
//! recorded answer.
use vstd::prelude::*;
use crate::facts::{
    PathKind, FsQuery, AbortReason, AbortView, Eval, Out, eval_view, FsFacts,
    answered, ask_stat, ask_package, ask_link, ask_resolution,
};
use crate::model::{
    ResolveConfig, ResolveKind, PackageJsonInfo, PluginResolveHookResult, HookView, opt_str_view,
    opt_hook_view,
};
use crate::json::JsonValue;
use crate::paths::{
    file_name_of, with_file_name_of, joined_path, logical_path, parent_path, has_extension,
    path_file_name, path_with_file_name, path_join, to_logical_path, path_parent, path_has_extension,
};
use crate::resolver::{
    Resolver, LookupView, ExportsLookup, exports_spec, side_effects_spec, field_spec,
    external_spec, browser_replace_spec, imports_replace_spec, resolve_result_spec,
    is_absolute_spec, is_relative_spec, is_dot_spec,
};
use crate::strings::{
    is_prefix_of, is_suffix_of, trim_end_char, trim_start_pattern, ends_with, starts_with, str_equals,
    trim_end_matches_char, trim_start_matches_str,
};

verus! {

/// The view of an outcome whose value is an optional path.
pub open spec fn opt_path_out(e: Eval<Option<String>>) -> Out<Option<Seq<char>>> {
    eval_view(e, |s: Option<String>| opt_str_view(s))
}

/// The view of an outcome whose value is a path.
pub open spec fn path_out(e: Eval<String>) -> Out<Seq<char>> {
    eval_view(e, |s: String| s@)
}

/// The view of an outcome whose value is a resolution result.
pub open spec fn hook_out(e: Eval<PluginResolveHookResult>) -> Out<HookView> {
    eval_view(e, |h: PluginResolveHookResult| h@)
}

/// The view of an outcome whose value is an optional resolution result.
pub open spec fn opt_hook_out(e: Eval<Option<PluginResolveHookResult>>) -> Out<Option<HookView>> {
    eval_view(e, |o: Option<PluginResolveHookResult>| opt_hook_view(o))
}

/// The view of an outcome that either ends a search with a result or lets
/// it go on.
pub open spec fn search_out(e: Eval<Option<Option<PluginResolveHookResult>>>) -> Out<Option<Option<HookView>>> {
    eval_view(
        e,
        |o: Option<Option<PluginResolveHookResult>>|
            match o {
                Some(x) => Some(opt_hook_view(x)),
                None => None,
            },
    )
}

/// The views of a list of strings.
pub open spec fn str_views(v: Seq<String>) -> Seq<Seq<char>> {
    v.map_values(|x: String| x@)
}

/// Tries the configured extensions from index `i` on: the first that, added
/// to the file name of `file`, names a file gives that file. A path without
/// a file name stops resolution.
pub open spec fn try_ext_from(cfg: ResolveConfig, facts: FsFacts, file: Seq<char>, i: int) -> Out<Option<Seq<char>>>
    decreases cfg.extensions@.len() - i,
{
    if i < 0 || i >= cfg.extensions@.len() {
        Out::Done(None)
    } else {
        match file_name_of(file) {
            None => Out::Abort(AbortView::NoFileName(file)),
            Some(name) => {
                let candidate = with_file_name_of(file, name + seq!['.'] + cfg.extensions@[i]@);
                match ask_stat(facts, candidate) {
                    Out::Done(k) => if k == PathKind::File {
                        Out::Done(Some(candidate))
                    } else {
                        try_ext_from(cfg, facts, file, i + 1)
                    },
                    Out::Need(q) => Out::Need(q),
                    Out::Abort(a) => Out::Abort(a),
                }
            },
        }
    }
}

/// `file` itself when it names a file, else `file` with the first extension
/// that makes it name a file.
pub open spec fn try_file_spec(cfg: ResolveConfig, facts: FsFacts, file: Seq<char>) -> Out<Option<Seq<char>>> {
    match ask_stat(facts, file) {
        Out::Done(k) => if k == PathKind::File {
            Out::Done(Some(file))
        } else {
            try_ext_from(cfg, facts, file, 0)
        },
        Out::Need(q) => Out::Need(q),
        Out::Abort(a) => Out::Abort(a),
    }
}

/// Tries the configured main files of `dir` from index `i` on.
pub open spec fn try_main_from(cfg: ResolveConfig, facts: FsFacts, dir: Seq<char>, i: int) -> Out<Option<Seq<char>>>
    decreases cfg.main_files@.len() - i,
{
    if i < 0 || i >= cfg.main_files@.len() {
        Out::Done(None)
    } else {
        match try_file_spec(cfg, facts, joined_path(dir, cfg.main_files@[i]@)) {
            Out::Done(Some(f)) => Out::Done(Some(f)),
            Out::Done(None) => try_main_from(cfg, facts, dir, i + 1),
            Out::Need(q) => Out::Need(q),
            Out::Abort(a) => Out::Abort(a),
        }
    }
}

/// When `dir` names a directory, the first of its main files that resolves
/// as a file.
pub open spec fn try_directory_spec(cfg: ResolveConfig, facts: FsFacts, dir: Seq<char>) -> Out<Option<Seq<char>>> {
    match ask_stat(facts, dir) {
        Out::Done(k) => if k != PathKind::Dir {
            Out::Done(None)
        } else {
            try_main_from(cfg, facts, dir, 0)
        },
        Out::Need(q) => Out::Need(q),
        Out::Abort(a) => Out::Abort(a),
    }
}

/// `p` resolved as a file, else as a directory.
pub open spec fn file_or_dir_spec(cfg: ResolveConfig, facts: FsFacts, p: Seq<char>) -> Out<Option<Seq<char>>> {
    match try_file_spec(cfg, facts, p) {
        Out::Done(None) => try_directory_spec(cfg, facts, p),
        other => other,
    }
}

/// The word `node_modules`.
pub open spec fn node_modules_word() -> Seq<char> {
    seq!['n', 'o', 'd', 'e', '_', 'm', 'o', 'd', 'u', 'l', 'e', 's']
}

/// The file name `package.json`.
pub open spec fn package_json_word() -> Seq<char> {
    seq!['p', 'a', 'c', 'k', 'a', 'g', 'e', '.', 'j', 's', 'o', 'n']
}

/// `p`, with symbolic links followed when the configuration says so.
pub open spec fn follow_spec(cfg: ResolveConfig, facts: FsFacts, p: Seq<char>) -> Out<Seq<char>> {
    if cfg.symlinks {
        ask_link(facts, p)
    } else {
        Out::Done(p)
    }
}

/// The suffix `.js`.
pub open spec fn js_suffix() -> Seq<char> {
    seq!['.', 'j', 's']
}

/// A path ending in `.js` with `.ts` in its place.
pub open spec fn ts_variant(p: Seq<char>) -> Seq<char> {
    p.subrange(0, p.len() - 3) + seq!['.', 't', 's']
}

/// When `exports` gave `target` and `target` did not resolve: a target
/// ending in `.js` is tried again with `.ts`, as a file.
pub open spec fn ts_retry(facts: FsFacts, lv: LookupView) -> Out<Option<Seq<char>>> {
    match lv {
        LookupView::Found(target) => if is_suffix_of(js_suffix(), target) {
            match ask_stat(facts, ts_variant(target)) {
                Out::Done(k) => if k == PathKind::File {
                    Out::Done(Some(ts_variant(target)))
                } else {
                    Out::Done(None)
                },
                Out::Need(q) => Out::Need(q),
                Out::Abort(a) => Out::Abort(a),
            }
        } else {
            Out::Done(None)
        },
        _ => Out::Done(None),
    }
}

/// The result for a module found at `rp` inside a package: the package's
/// `exports` may replace the path, the replaced path is resolved again as a
/// file or directory where possible (an export target ending in `.js` that
/// does not resolve is tried as the `.ts` file of the same name), and the
/// package decides side effects. The result is never external. Without a
/// `package.json` the path stands as it is.
pub open spec fn node_modules_result_spec(
    cfg: ResolveConfig,
    facts: FsFacts,
    pji: Option<PackageJsonInfo>,
    rp: Seq<char>,
    kind: ResolveKind,
) -> Out<HookView> {
    match pji {
        None => Out::Done(HookView { resolved_path: rp, external: false, side_effects: false }),
        Some(pj) => match exports_spec(pj, rp, kind) {
            LookupView::NonStringTarget => Out::Abort(AbortView::NonStringExportTarget),
            lv => {
                let rp2 = match lv {
                    LookupView::Found(p) => p,
                    _ => rp,
                };
                let side = side_effects_spec(pj, rp);
                match file_or_dir_spec(cfg, facts, rp2) {
                    Out::Done(Some(f)) => Out::Done(HookView { resolved_path: f, external: false, side_effects: side }),
                    Out::Done(None) => match ts_retry(facts, lv) {
                        Out::Done(Some(f)) => Out::Done(HookView { resolved_path: f, external: false, side_effects: side }),
                        Out::Done(None) => Out::Done(HookView { resolved_path: rp2, external: false, side_effects: side }),
                        Out::Need(q) => Out::Need(q),
                        Out::Abort(a) => Out::Abort(a),
                    },
                    Out::Need(q) => Out::Need(q),
                    Out::Abort(a) => Out::Abort(a),
                }
            },
        },
    }
}

/// A found path, turned into a package result and wrapped as a result.
pub open spec fn found_in_package(
    cfg: ResolveConfig,
    facts: FsFacts,
    pji: Option<PackageJsonInfo>,
    found: Out<Option<Seq<char>>>,
    kind: ResolveKind,
) -> Out<Option<HookView>> {
    match found {
        Out::Done(Some(rp)) => match node_modules_result_spec(cfg, facts, pji, rp, kind) {
            Out::Done(h) => Out::Done(Some(h)),
            Out::Need(q) => Out::Need(q),
            Out::Abort(a) => Out::Abort(a),
        },
        Out::Done(None) => Out::Done(None),
        Out::Need(q) => Out::Need(q),
        Out::Abort(a) => Out::Abort(a),
    }
}

/// The non-empty pieces of `s` between `/` from index `i` on, the current
/// piece starting at `start`, appended to `acc`.
pub open spec fn segments_from(s: Seq<char>, i: int, start: int, acc: Seq<Seq<char>>) -> Seq<Seq<char>>
    decreases s.len() - i,
{
    if i < 0 || i >= s.len() {
        if 0 <= start < s.len() {
            acc.push(s.subrange(start, s.len() as int))
        } else {
            acc
        }
    } else if s[i] == '/' {
        segments_from(
            s,
            i + 1,
            i + 1,
            if 0 <= start < i {
                acc.push(s.subrange(start, i))
            } else {
                acc
            },
        )
    } else {
        segments_from(s, i + 1, start, acc)
    }
}

/// The non-empty pieces of `s` between `/`.
pub open spec fn source_segments(s: Seq<char>) -> Seq<Seq<char>> {
    segments_from(s, 0, 0, seq![])
}

/// The first `k` pieces, each preceded by `/`.
pub open spec fn source_prefix(segs: Seq<Seq<char>>, k: int) -> Seq<char>
    decreases k,
{
    if k <= 0 || k > segs.len() {
        seq![]
    } else {
        source_prefix(segs, k - 1) + seq!['/'] + segs[k - 1]
    }
}

/// Scans the prefixes of the source, longest first, from the one of `k`
/// pieces down: the first that names a directory under `nm` holding a
/// `package.json` is the package; the package path `pp` is resolved inside
/// it, governed by that `package.json`.
pub open spec fn prefix_scan(
    cfg: ResolveConfig,
    facts: FsFacts,
    nm: Seq<char>,
    segs: Seq<Seq<char>>,
    pp: Seq<char>,
    kind: ResolveKind,
    k: int,
) -> Out<Option<HookView>>
    decreases k,
{
    if k <= 0 {
        Out::Done(None)
    } else {
        match follow_spec(cfg, facts, logical_path(source_prefix(segs, k), nm)) {
            Out::Done(ppd) => match ask_stat(facts, ppd) {
                Out::Done(kd) => if kd == PathKind::Dir {
                    match ask_package(facts, ppd, cfg.symlinks, false) {
                        Out::Done(Some(pj)) => found_in_package(cfg, facts, Some(pj), Out::Done(Some(pp)), kind),
                        Out::Done(None) => prefix_scan(cfg, facts, nm, segs, pp, kind, k - 1),
                        Out::Need(q) => Out::Need(q),
                        Out::Abort(a) => Out::Abort(a),
                    }
                } else {
                    prefix_scan(cfg, facts, nm, segs, pp, kind, k - 1)
                },
                Out::Need(q) => Out::Need(q),
                Out::Abort(a) => Out::Abort(a),
            },
            Out::Need(q) => Out::Need(q),
            Out::Abort(a) => Out::Abort(a),
        }
    }
}

/// A package path `pp` without a `package.json` of its own: `pp` as a file
/// or directory where it exists, else the longest prefix of the source that
/// is a package, else `pp` as a file or directory. `Done(None)` means the
/// search goes on above.
pub open spec fn missing_package_spec(
    cfg: ResolveConfig,
    facts: FsFacts,
    source: Seq<char>,
    kind: ResolveKind,
    nm: Seq<char>,
    pp: Seq<char>,
    pji: Option<PackageJsonInfo>,
) -> Out<Option<HookView>> {
    match ask_stat(facts, pp) {
        Out::Done(ppk) => {
            let first = if ppk != PathKind::Missing {
                found_in_package(cfg, facts, pji, file_or_dir_spec(cfg, facts, pp), kind)
            } else {
                Out::Done(None)
            };
            match first {
                Out::Done(None) => {
                    let segs = source_segments(source);
                    match prefix_scan(cfg, facts, nm, segs, pp, kind, segs.len() as int) {
                        Out::Done(None) => found_in_package(cfg, facts, pji, file_or_dir_spec(cfg, facts, pp), kind),
                        other => other,
                    }
                },
                other => other,
            }
        },
        Out::Need(q) => Out::Need(q),
        Out::Abort(a) => Out::Abort(a),
    }
}

/// Tries the configured main fields of the package at `pp` from index `i`
/// on: an object field gives the package path when that result has an
/// extension; a string field gives the path it names, as a file or a
/// directory, and decides. When no field decides, the package directory's
/// main files are tried.
pub open spec fn main_fields_from(
    cfg: ResolveConfig,
    facts: FsFacts,
    pj: PackageJsonInfo,
    pp: Seq<char>,
    kind: ResolveKind,
    i: int,
) -> Out<Option<HookView>>
    decreases cfg.main_fields@.len() - i,
{
    if i < 0 || i >= cfg.main_fields@.len() {
        found_in_package(cfg, facts, Some(pj), try_directory_spec(cfg, facts, pp), kind)
    } else {
        match field_spec(pj, cfg.main_fields@[i]@) {
            Some(JsonValue::Object(_)) => match node_modules_result_spec(cfg, facts, Some(pj), pp, kind) {
                Out::Done(h) => if has_extension(h.resolved_path) {
                    Out::Done(Some(h))
                } else {
                    main_fields_from(cfg, facts, pj, pp, kind, i + 1)
                },
                Out::Need(q) => Out::Need(q),
                Out::Abort(a) => Out::Abort(a),
            },
            Some(JsonValue::String(s)) => {
                let full = logical_path(s@, pj.dir@);
                match try_file_spec(cfg, facts, full) {
                    Out::Done(None) => found_in_package(cfg, facts, Some(pj), try_directory_spec(cfg, facts, full), kind),
                    found => found_in_package(cfg, facts, Some(pj), found, kind),
                }
            },
            _ => main_fields_from(cfg, facts, pj, pp, kind, i + 1),
        }
    }
}

/// One `node_modules` directory, the one inside `current`: `Done(None)`
/// means the search goes on above, `Done(Some(r))` ends it with `r`.
pub open spec fn node_modules_dir_spec(
    cfg: ResolveConfig,
    facts: FsFacts,
    source: Seq<char>,
    kind: ResolveKind,
    current: Seq<char>,
) -> Out<Option<Option<HookView>>> {
    let nm = joined_path(current, node_modules_word());
    match ask_stat(facts, nm) {
        Out::Done(k) => if k != PathKind::Dir {
            Out::Done(None)
        } else {
            match follow_spec(cfg, facts, logical_path(source, nm)) {
                Out::Done(pp) => match ask_package(facts, pp, cfg.symlinks, false) {
                    Out::Done(pji) => match ask_stat(facts, joined_path(pp, package_json_word())) {
                        Out::Done(pk) => if pk == PathKind::Missing {
                            match missing_package_spec(cfg, facts, source, kind, nm, pp, pji) {
                                Out::Done(Some(h)) => Out::Done(Some(Some(h))),
                                Out::Done(None) => Out::Done(None),
                                Out::Need(q) => Out::Need(q),
                                Out::Abort(a) => Out::Abort(a),
                            }
                        } else {
                            match ask_stat(facts, pp) {
                                Out::Done(ppk) => if ppk != PathKind::Dir {
                                    Out::Done(None)
                                } else {
                                    match pji {
                                        None => Out::Done(Some(None)),
                                        Some(pj) => match main_fields_from(cfg, facts, pj, pp, kind, 0) {
                                            Out::Done(r) => Out::Done(Some(r)),
                                            Out::Need(q) => Out::Need(q),
                                            Out::Abort(a) => Out::Abort(a),
                                        },
                                    }
                                },
                                Out::Need(q) => Out::Need(q),
                                Out::Abort(a) => Out::Abort(a),
                            }
                        },
                        Out::Need(q) => Out::Need(q),
                        Out::Abort(a) => Out::Abort(a),
                    },
                    Out::Need(q) => Out::Need(q),
                    Out::Abort(a) => Out::Abort(a),
                },
                Out::Need(q) => Out::Need(q),
                Out::Abort(a) => Out::Abort(a),
            }
        },
        Out::Need(q) => Out::Need(q),
        Out::Abort(a) => Out::Abort(a),
    }
}

/// Searches the `node_modules` directories of `current` and of each of its
/// ancestors that has a parent, nearest first.
pub open spec fn node_modules_from(
    cfg: ResolveConfig,
    facts: FsFacts,
    source: Seq<char>,
    kind: ResolveKind,
    current: Seq<char>,
) -> Out<Option<HookView>>
    decreases current.len(),
{
    match parent_path(current) {
        None => Out::Done(None),
        Some(par) => match node_modules_dir_spec(cfg, facts, source, kind, current) {
            Out::Done(Some(r)) => Out::Done(r),
            Out::Done(None) => if par.len() < current.len() {
                node_modules_from(cfg, facts, source, kind, par)
            } else {
                Out::Done(None)
            },
            Out::Need(q) => Out::Need(q),
            Out::Abort(a) => Out::Abort(a),
        },
    }
}

/// Tries the alias rules from index `i` on: the first that matches `source`
/// decides, with the result of resolving the replaced source.
pub open spec fn alias_from(cfg: ResolveConfig, facts: FsFacts, source: Seq<char>, i: int) -> Out<Option<HookView>>
    decreases cfg.alias@.len() - i,
{
    if i < 0 || i >= cfg.alias@.len() {
        Out::Done(None)
    } else {
        let alias = cfg.alias@[i].0@;
        let replaced = cfg.alias@[i].1@;
        if is_suffix_of(seq!['$'], alias) && source == trim_end_char(alias, '$') {
            ask_resolution(facts, replaced)
        } else if !is_suffix_of(seq!['$'], alias) && is_prefix_of(alias, source) {
            ask_resolution(facts, logical_path(trim_start_pattern(source, alias), replaced))
        } else {
            alias_from(cfg, facts, source, i + 1)
        }
    }
}

/// The source the first alias rule from index `i` on that matches `source`
/// rewrites it to: an exact rule (key ending in `$`) gives its replacement,
/// a prefix rule gives the rest of the source taken under its replacement.
pub open spec fn alias_target_from(cfg: ResolveConfig, source: Seq<char>, i: int) -> Option<Seq<char>>
    decreases cfg.alias@.len() - i,
{
    if i < 0 || i >= cfg.alias@.len() {
        None
    } else {
        let alias = cfg.alias@[i].0@;
        let replaced = cfg.alias@[i].1@;
        if is_suffix_of(seq!['$'], alias) && source == trim_end_char(alias, '$') {
            Some(replaced)
        } else if !is_suffix_of(seq!['$'], alias) && is_prefix_of(alias, source) {
            Some(logical_path(trim_start_pattern(source, alias), replaced))
        } else {
            alias_target_from(cfg, source, i + 1)
        }
    }
}

/// The result for a module found at `rp` by a resolution that governs with
/// `pji`, wrapped as a result.
pub open spec fn found_at(pji: Option<PackageJsonInfo>, found: Out<Option<Seq<char>>>) -> Out<Option<HookView>> {
    match found {
        Out::Done(Some(rp)) => Out::Done(Some(resolve_result_spec(pji, rp))),
        Out::Done(None) => Out::Done(None),
        Out::Need(q) => Out::Need(q),
        Out::Abort(a) => Out::Abort(a),
    }
}

/// The answer the importer's `package.json` gives by itself for a bare
/// source: external per `browser`, else a `browser` replacement, else an
/// `imports` replacement.
pub open spec fn package_answer_spec(pj: PackageJsonInfo, source: Seq<char>) -> Option<HookView> {
    if external_spec(pj, source) {
        Some(HookView { resolved_path: source, external: true, side_effects: false })
    } else {
        match browser_replace_spec(pj, source) {
            Some(rp) => Some(HookView { resolved_path: rp, external: external_spec(pj, rp), side_effects: side_effects_spec(pj, rp) }),
            None => match imports_replace_spec(pj, source) {
                Some(rp) => Some(HookView { resolved_path: rp, external: external_spec(pj, rp), side_effects: side_effects_spec(pj, rp) }),
                None => None,
            },
        }
    }
}

/// Resolution of `source` from `base_dir`. The `package.json` governing
/// `base_dir` answers first for a bare source. Then an absolute source is
/// tried as a file; a relative one as a file or directory under `base_dir`;
/// `.` as the directory `base_dir`; any other by the alias rules, and failing
/// those, in the `node_modules` directories of `base_dir` and its ancestors.
pub open spec fn resolve_spec(
    cfg: ResolveConfig,
    facts: FsFacts,
    source: Seq<char>,
    base_dir: Seq<char>,
    kind: ResolveKind,
) -> Out<Option<HookView>> {
    match ask_package(facts, base_dir, cfg.symlinks, true) {
        Out::Done(pji) => {
            let bare = !is_absolute_spec(source) && !is_relative_spec(source);
            let early = match pji {
                Some(pj) => if bare {
                    package_answer_spec(pj, source)
                } else {
                    None
                },
                None => None,
            };
            match early {
                Some(h) => Out::Done(Some(h)),
                None => if is_absolute_spec(source) {
                    found_at(pji, try_file_spec(cfg, facts, source))
                } else if is_relative_spec(source) {
                    match follow_spec(cfg, facts, logical_path(source, base_dir)) {
                        Out::Done(np) => found_at(pji, file_or_dir_spec(cfg, facts, np)),
                        Out::Need(q) => Out::Need(q),
                        Out::Abort(a) => Out::Abort(a),
                    }
                } else if is_dot_spec(source) {
                    found_at(pji, try_directory_spec(cfg, facts, base_dir))
                } else {
                    match alias_from(cfg, facts, source, 0) {
                        Out::Done(None) => node_modules_from(cfg, facts, source, kind, base_dir),
                        other => other,
                    }
                },
            }
        },
        Out::Need(q) => Out::Need(q),
        Out::Abort(a) => Out::Abort(a),
    }
}

/// The non-empty pieces of `source` between `/`, in order.
pub fn split_source(source: &str) -> (r: Vec<String>)
    ensures
        str_views(r@) == source_segments(source@),
{
    let n = source.unicode_len();
    let mut acc: Vec<String> = Vec::new();
    let mut start: usize = 0;
    let mut i: usize = 0;
    assert(str_views(acc@) =~= Seq::<Seq<char>>::empty());
    while i < n
        invariant
            n == source@.len(),
            start <= i <= n,
            segments_from(source@, i as int, start as int, str_views(acc@)) == source_segments(source@),
        decreases n - i,
    {
        if source.get_char(i) == '/' {
            if start < i {
                let piece = source.substring_char(start, i).to_string();
                let ghost before = acc@;
                acc.push(piece);
                assert(str_views(acc@) =~= str_views(before).push(source@.subrange(start as int, i as int)));
            }
            start = i + 1;
        }
        i = i + 1;
    }
    if start < n {
        let piece = source.substring_char(start, n).to_string();
        let ghost before = acc@;
        acc.push(piece);
        assert(str_views(acc@) =~= str_views(before).push(source@.subrange(start as int, n as int)));
    }
    acc
}

/// The prefixes of the source made of its first pieces, each piece preceded
/// by `/`: the prefix at index `k` holds the first `k + 1` pieces.
pub fn source_prefixes(segs: &Vec<String>) -> (r: Vec<String>)
    ensures
        r@.len() == segs@.len(),
        forall|k: int| 0 <= k < r@.len() ==> #[trigger] r@[k]@ == source_prefix(str_views(segs@), k + 1),
{
    proof {
        reveal_strlit("/");
        assert("/"@ =~= seq!['/']);
    }
    let n = segs.len();
    let mut out: Vec<String> = Vec::new();
    let mut prev = String::new();
    let mut i: usize = 0;
    while i < n
        invariant
            n == segs@.len(),
            i <= n,
            "/"@ == seq!['/'],
            out@.len() == i,
            prev@ == source_prefix(str_views(segs@), i as int),
            forall|k: int| 0 <= k < out@.len() ==> #[trigger] out@[k]@ == source_prefix(str_views(segs@), k + 1),
        decreases n - i,
    {
        let mut next = prev.clone();
        next.append("/");
        next.append(segs[i].as_str());
        assert(next@ =~= source_prefix(str_views(segs@), i + 1));
        out.push(next.clone());
        prev = next;
        i = i + 1;
    }
    out
}

impl Resolver {
    /// The path itself when it names a file, else the path with the first
    /// configured extension that makes it name a file.
    pub fn try_file(&self, file: &str, facts: &FsFacts) -> (r: Eval<Option<String>>)
        ensures
            opt_path_out(r) == try_file_spec(self.config, *facts, file@),
            r matches Eval::Need(q) ==> !answered(*facts, q@),
    {
        match facts.stat_of(file) {
            None => {
                return Eval::Need(FsQuery::Stat(file.to_string()));
            },
            Some(k) => {
                if k == PathKind::File {
                    return Eval::Done(Some(file.to_string()));
                }
            },
        }
        proof {
            reveal_strlit(".");
            assert("."@ =~= seq!['.']);
        }
        let n = self.config.extensions.len();
        let mut i: usize = 0;
        while i < n
            invariant
                n == self.config.extensions@.len(),
                i <= n,
                "."@ == seq!['.'],
                try_file_spec(self.config, *facts, file@) == try_ext_from(self.config, *facts, file@, i as int),
            decreases n - i,
        {
            let name = match path_file_name(file) {
                Some(name) => name,
                None => {
                    return Eval::Abort(AbortReason::NoFileName(file.to_string()));
                },
            };
            let mut new_name = name;
            new_name.append(".");
            new_name.append(self.config.extensions[i].as_str());
            let candidate = path_with_file_name(file, new_name.as_str());
            match facts.stat_of(candidate.as_str()) {
                None => {
                    return Eval::Need(FsQuery::Stat(candidate));
                },
                Some(k) => {
                    if k == PathKind::File {
                        return Eval::Done(Some(candidate));
                    }
                },
            }
            i = i + 1;
        }
        Eval::Done(None)
    }

    /// When the path names a directory, the first of its configured main
    /// files that resolves as a file.
    pub fn try_directory(&self, dir: &str, facts: &FsFacts) -> (r: Eval<Option<String>>)
        ensures
            opt_path_out(r) == try_directory_spec(self.config, *facts, dir@),
            r matches Eval::Need(q) ==> !answered(*facts, q@),
    {
        match facts.stat_of(dir) {
            None => {
                return Eval::Need(FsQuery::Stat(dir.to_string()));
            },
            Some(k) => {
                if k != PathKind::Dir {
                    return Eval::Done(None);
                }
            },
        }
        let n = self.config.main_files.len();
        let mut i: usize = 0;
        while i < n
            invariant
                n == self.config.main_files@.len(),
                i <= n,
                try_directory_spec(self.config, *facts, dir@) == try_main_from(self.config, *facts, dir@, i as int),
            decreases n - i,
        {
            let file = path_join(dir, self.config.main_files[i].as_str());
            match self.try_file(file.as_str(), facts) {
                Eval::Done(Some(found)) => {
                    return Eval::Done(Some(found));
                },
                Eval::Done(None) => {},
                Eval::Need(q) => {
                    return Eval::Need(q);
                },
                Eval::Abort(a) => {
                    return Eval::Abort(a);
                },
            }
            i = i + 1;
        }
        Eval::Done(None)
    }

    /// The path, with symbolic links followed when the configuration says so.
    pub fn follow(&self, path: String, facts: &FsFacts) -> (r: Eval<String>)
        ensures
            path_out(r) == follow_spec(self.config, *facts, path@),
            r matches Eval::Need(q) ==> !answered(*facts, q@),
    {
        if self.config.symlinks {
            match facts.link_of(path.as_str()) {
                None => Eval::Need(FsQuery::FollowSymlinks(path)),
                Some(target) => Eval::Done(target.clone()),
            }
        } else {
            Eval::Done(path)
        }
    }

    /// The result for a module found at `resolved_path` inside a package.
    pub fn get_resolve_node_modules_result(
        &self,
        package_json_info: Option<&PackageJsonInfo>,
        resolved_path: String,
        kind: &ResolveKind,
        facts: &FsFacts,
    ) -> (r: Eval<PluginResolveHookResult>)
        ensures
            hook_out(r) == node_modules_result_spec(
                self.config,
                *facts,
                match package_json_info {
                    Some(p) => Some(*p),
                    None => None,
                },
                resolved_path@,
                *kind,
            ),
            r matches Eval::Need(q) ==> !answered(*facts, q@),
    {
        match package_json_info {
            None => Eval::Done(PluginResolveHookResult { resolved_path, external: false, side_effects: false }),
            Some(pj) => {
                let side_effects = self.is_module_side_effects(pj, resolved_path.as_str());
                if let ExportsLookup::NonStringTarget = self.exports_lookup(pj, resolved_path.as_str(), kind) {
                    return Eval::Abort(AbortReason::NonStringExportTarget);
                }
                let (replaced, exported) = match self.try_exports_replace(pj, resolved_path.as_str(), kind) {
                    Some(p) => (p, true),
                    None => (resolved_path, false),
                };
                match self.try_file_or_directory(replaced.as_str(), facts) {
                    Eval::Done(Some(found)) => Eval::Done(PluginResolveHookResult { resolved_path: found, external: false, side_effects }),
                    Eval::Done(None) => {
                        proof {
                            reveal_strlit(".js");
                            reveal_strlit(".ts");
                            assert(".js"@ =~= js_suffix());
                            assert(".ts"@ =~= seq!['.', 't', 's']);
                        }
                        if exported && ends_with(replaced.as_str(), ".js") {
                            let n = replaced.as_str().unicode_len();
                            let mut ts = replaced.as_str().substring_char(0, n - 3).to_string();
                            ts.append(".ts");
                            assert(ts@ =~= ts_variant(replaced@));
                            match facts.stat_of(ts.as_str()) {
                                None => {
                                    return Eval::Need(FsQuery::Stat(ts));
                                },
                                Some(k) => {
                                    if k == PathKind::File {
                                        return Eval::Done(PluginResolveHookResult { resolved_path: ts, external: false, side_effects });
                                    }
                                },
                            }
                        }
                        Eval::Done(PluginResolveHookResult { resolved_path: replaced, external: false, side_effects })
                    },
                    Eval::Need(q) => Eval::Need(q),
                    Eval::Abort(a) => Eval::Abort(a),
                }
            },
        }
    }

    /// A found path inside a package, turned into that package's result.
    fn package_result_for(
        &self,
        package_json_info: Option<&PackageJsonInfo>,
        found: Eval<Option<String>>,
        kind: &ResolveKind,
        facts: &FsFacts,
    ) -> (r: Eval<Option<PluginResolveHookResult>>)
        requires
            found matches Eval::Need(q) ==> !answered(*facts, q@),
        ensures
            opt_hook_out(r) == found_in_package(
                self.config,
                *facts,
                match package_json_info {
                    Some(p) => Some(*p),
                    None => None,
                },
                opt_path_out(found),
                *kind,
            ),
            r matches Eval::Need(q) ==> !answered(*facts, q@),
    {
        match found {
            Eval::Done(Some(rp)) => match self.get_resolve_node_modules_result(package_json_info, rp, kind, facts) {
                Eval::Done(h) => Eval::Done(Some(h)),
                Eval::Need(q) => Eval::Need(q),
                Eval::Abort(a) => Eval::Abort(a),
            },
            Eval::Done(None) => Eval::Done(None),
            Eval::Need(q) => Eval::Need(q),
            Eval::Abort(a) => Eval::Abort(a),
        }
    }

    /// The result for a module found at `resolved_path` by a resolution
    /// governed by `package_json_info`.
    fn result_for(
        &self,
        package_json_info: Option<&PackageJsonInfo>,
        found: Eval<Option<String>>,
        kind: &ResolveKind,
    ) -> (r: Eval<Option<PluginResolveHookResult>>)
        ensures
            opt_hook_out(r) == found_at(
                match package_json_info {
                    Some(p) => Some(*p),
                    None => None,
                },
                opt_path_out(found),
            ),
            r matches Eval::Need(q) ==> found == Eval::<Option<String>>::Need(q),
    {
        match found {
            Eval::Done(Some(rp)) => Eval::Done(Some(self.get_resolve_result(package_json_info, rp, kind))),
            Eval::Done(None) => Eval::Done(None),
            Eval::Need(q) => Eval::Need(q),
            Eval::Abort(a) => Eval::Abort(a),
        }
    }

    /// Scans the prefixes of the source, longest first.
    fn scan_prefixes(
        &self,
        nm: &str,
        prefixes: &Vec<String>,
        Ghost(segs): Ghost<Seq<Seq<char>>>,
        package_path: &str,
        kind: &ResolveKind,
        facts: &FsFacts,
    ) -> (r: Eval<Option<PluginResolveHookResult>>)
        requires
            prefixes@.len() == segs.len(),
            forall|k: int| 0 <= k < prefixes@.len() ==> #[trigger] prefixes@[k]@ == source_prefix(segs, k + 1),
        ensures
            opt_hook_out(r) == prefix_scan(self.config, *facts, nm@, segs, package_path@, *kind, segs.len() as int),
            r matches Eval::Need(q) ==> !answered(*facts, q@),
    {
        let mut k: usize = prefixes.len();
        while k > 0
            invariant
                k <= prefixes@.len(),
                prefixes@.len() == segs.len(),
                forall|j: int| 0 <= j < prefixes@.len() ==> #[trigger] prefixes@[j]@ == source_prefix(segs, j + 1),
                prefix_scan(self.config, *facts, nm@, segs, package_path@, *kind, segs.len() as int)
                    == prefix_scan(self.config, *facts, nm@, segs, package_path@, *kind, k as int),
            decreases k,
        {
            let item = &prefixes[k - 1];
            assert(item@ == source_prefix(segs, k as int));
            let dir = match self.follow(to_logical_path(item.as_str(), nm), facts) {
                Eval::Done(p) => p,
                Eval::Need(q) => {
                    return Eval::Need(q);
                },
                Eval::Abort(a) => {
                    return Eval::Abort(a);
                },
            };
            match facts.stat_of(dir.as_str()) {
                None => {
                    return Eval::Need(FsQuery::Stat(dir));
                },
                Some(kd) => {
                    if kd == PathKind::Dir {
                        match facts.package_json_of(dir.as_str(), self.config.symlinks, false) {
                            None => {
                                return Eval::Need(
                                    FsQuery::LoadPackageJson { dir, follow_symlinks: self.config.symlinks, resolve_ancestor_dir: false },
                                );
                            },
                            Some(Some(found_package)) => {
                                return self.package_result_for(
                                    Some(found_package),
                                    Eval::Done(Some(package_path.to_string())),
                                    kind,
                                    facts,
                                );
                            },
                            Some(None) => {},
                        }
                    }
                },
            }
            k = k - 1;
        }
        Eval::Done(None)
    }

    /// A package path without a `package.json` of its own.
    fn missing_package(
        &self,
        source: &str,
        kind: &ResolveKind,
        nm: &str,
        package_path: &str,
        package_json_info: Option<&PackageJsonInfo>,
        facts: &FsFacts,
    ) -> (r: Eval<Option<PluginResolveHookResult>>)
        ensures
            opt_hook_out(r) == missing_package_spec(
                self.config,
                *facts,
                source@,
                *kind,
                nm@,
                package_path@,
                match package_json_info {
                    Some(p) => Some(*p),
                    None => None,
                },
            ),
            r matches Eval::Need(q) ==> !answered(*facts, q@),
    {
        let kind_of_path = match facts.stat_of(package_path) {
            None => {
                return Eval::Need(FsQuery::Stat(package_path.to_string()));
            },
            Some(k) => k,
        };
        if kind_of_path != PathKind::Missing {
            let found = self.try_file_or_directory(package_path, facts);
            match self.package_result_for(package_json_info, found, kind, facts) {
                Eval::Done(None) => {},
                other => {
                    return other;
                },
            }
        }
        let segs = split_source(source);
        let prefixes = source_prefixes(&segs);
        match self.scan_prefixes(nm, &prefixes, Ghost(str_views(segs@)), package_path, kind, facts) {
            Eval::Done(None) => {},
            other => {
                return other;
            },
        }
        let found = self.try_file_or_directory(package_path, facts);
        self.package_result_for(package_json_info, found, kind, facts)
    }

    /// The main fields of the package at `package_path`.
    fn main_fields(&self, pj: &PackageJsonInfo, package_path: &str, kind: &ResolveKind, facts: &FsFacts) -> (r: Eval<Option<PluginResolveHookResult>>)
        ensures
            opt_hook_out(r) == main_fields_from(self.config, *facts, *pj, package_path@, *kind, 0),
            r matches Eval::Need(q) ==> !answered(*facts, q@),
    {
        let n = self.config.main_fields.len();
        let mut i: usize = 0;
        while i < n
            invariant
                n == self.config.main_fields@.len(),
                i <= n,
                main_fields_from(self.config, *facts, *pj, package_path@, *kind, 0)
                    == main_fields_from(self.config, *facts, *pj, package_path@, *kind, i as int),
            decreases n - i,
        {
            match self.get_field_value_from_package_json_info(pj, self.config.main_fields[i].as_str()) {
                Some(JsonValue::Object(_)) => {
                    match self.get_resolve_node_modules_result(Some(pj), package_path.to_string(), kind, facts) {
                        Eval::Done(h) => {
                            if path_has_extension(h.resolved_path.as_str()) {
                                return Eval::Done(Some(h));
                            }
                        },
                        Eval::Need(q) => {
                            return Eval::Need(q);
                        },
                        Eval::Abort(a) => {
                            return Eval::Abort(a);
                        },
                    }
                },
                Some(JsonValue::String(value)) => {
                    let full_path = to_logical_path(value.as_str(), pj.dir.as_str());
                    match self.try_file(full_path.as_str(), facts) {
                        Eval::Done(None) => {
                            let found = self.try_directory(full_path.as_str(), facts);
                            return self.package_result_for(Some(pj), found, kind, facts);
                        },
                        found => {
                            return self.package_result_for(Some(pj), found, kind, facts);
                        },
                    }
                },
                _ => {},
            }
            i = i + 1;
        }
        let found = self.try_directory(package_path, facts);
        self.package_result_for(Some(pj), found, kind, facts)
    }

    /// The `node_modules` directory inside `current`.
    fn node_modules_dir(&self, source: &str, kind: &ResolveKind, current: &str, facts: &FsFacts) -> (r: Eval<Option<Option<PluginResolveHookResult>>>)
        ensures
            search_out(r) == node_modules_dir_spec(self.config, *facts, source@, *kind, current@),
            r matches Eval::Need(q) ==> !answered(*facts, q@),
    {
        proof {
            reveal_strlit("node_modules");
            reveal_strlit("package.json");
            assert("node_modules"@ =~= node_modules_word());
            assert("package.json"@ =~= package_json_word());
        }
        let nm = path_join(current, "node_modules");
        match facts.stat_of(nm.as_str()) {
            None => {
                return Eval::Need(FsQuery::Stat(nm));
            },
            Some(k) => {
                if k != PathKind::Dir {
                    return Eval::Done(None);
                }
            },
        }
        let package_path = match self.follow(to_logical_path(source, nm.as_str()), facts) {
            Eval::Done(p) => p,
            Eval::Need(q) => {
                return Eval::Need(q);
            },
            Eval::Abort(a) => {
                return Eval::Abort(a);
            },
        };
        let pji: Option<&PackageJsonInfo> = match facts.package_json_of(package_path.as_str(), self.config.symlinks, false) {
            None => {
                return Eval::Need(
                    FsQuery::LoadPackageJson { dir: package_path, follow_symlinks: self.config.symlinks, resolve_ancestor_dir: false },
                );
            },
            Some(p) => match p {
                Some(info) => Some(info),
                None => None,
            },
        };
        let manifest = path_join(package_path.as_str(), "package.json");
        let manifest_kind = match facts.stat_of(manifest.as_str()) {
            None => {
                return Eval::Need(FsQuery::Stat(manifest));
            },
            Some(k) => k,
        };
        if manifest_kind == PathKind::Missing {
            match self.missing_package(source, kind, nm.as_str(), package_path.as_str(), pji, facts) {
                Eval::Done(Some(h)) => Eval::Done(Some(Some(h))),
                Eval::Done(None) => Eval::Done(None),
                Eval::Need(q) => Eval::Need(q),
                Eval::Abort(a) => Eval::Abort(a),
            }
        } else {
            match facts.stat_of(package_path.as_str()) {
                None => Eval::Need(FsQuery::Stat(package_path)),
                Some(ppk) => {
                    if ppk != PathKind::Dir {
                        Eval::Done(None)
                    } else {
                        match pji {
                            None => Eval::Done(Some(None)),
                            Some(pj) => match self.main_fields(pj, package_path.as_str(), kind, facts) {
                                Eval::Done(r) => Eval::Done(Some(r)),
                                Eval::Need(q) => Eval::Need(q),
                                Eval::Abort(a) => Eval::Abort(a),
                            },
                        }
                    }
                },
            }
        }
    }

    /// Resolves `source` as a package in the `node_modules` directories of
    /// `base_dir` and of its ancestors, nearest first.
    pub fn try_node_modules(&self, source: &str, base_dir: &str, kind: &ResolveKind, facts: &FsFacts) -> (r: Eval<Option<PluginResolveHookResult>>)
        ensures
            opt_hook_out(r) == node_modules_from(self.config, *facts, source@, *kind, base_dir@),
            r matches Eval::Need(q) ==> !answered(*facts, q@),
    {
        let mut current: String = base_dir.to_string();
        loop
            invariant
                node_modules_from(self.config, *facts, source@, *kind, base_dir@)
                    == node_modules_from(self.config, *facts, source@, *kind, current@),
            decreases current@.len(),
        {
            let parent = match path_parent(current.as_str()) {
                None => {
                    return Eval::Done(None);
                },
                Some(p) => p,
            };
            match self.node_modules_dir(source, kind, current.as_str(), facts) {
                Eval::Done(Some(r)) => {
                    return Eval::Done(r);
                },
                Eval::Done(None) => {},
                Eval::Need(q) => {
                    return Eval::Need(q);
                },
                Eval::Abort(a) => {
                    return Eval::Abort(a);
                },
            }
            current = parent;
        }
    }

    /// The recorded resolution of `source`, or the question for it.
    fn ask_resolution(&self, source: String, facts: &FsFacts) -> (r: Eval<Option<PluginResolveHookResult>>)
        ensures
            opt_hook_out(r) == ask_resolution(*facts, source@),
            r matches Eval::Need(q) ==> !answered(*facts, q@),
    {
        match facts.resolution_of(source.as_str()) {
            None => Eval::Need(FsQuery::Resolve(source)),
            Some(answer) => match answer {
                Some(h) => Eval::Done(Some(h.duplicate())),
                None => Eval::Done(None),
            },
        }
    }

    /// Resolves `source` by the alias rules: the first rule that matches
    /// decides, with the result of resolving the replaced source.
    pub fn try_alias(&self, source: &str, _base_dir: &str, _kind: &ResolveKind, facts: &FsFacts) -> (r: Eval<Option<PluginResolveHookResult>>)
        ensures
            opt_hook_out(r) == alias_from(self.config, *facts, source@, 0),
            r matches Eval::Need(q) ==> !answered(*facts, q@),
    {
        proof {
            reveal_strlit("$");
            assert("$"@ =~= seq!['$']);
        }
        let n = self.config.alias.len();
        let mut i: usize = 0;
        while i < n
            invariant
                n == self.config.alias@.len(),
                i <= n,
                "$"@ == seq!['$'],
                alias_from(self.config, *facts, source@, 0) == alias_from(self.config, *facts, source@, i as int),
            decreases n - i,
        {
            let alias = self.config.alias[i].0.as_str();
            let replaced = self.config.alias[i].1.as_str();
            let exact = ends_with(alias, "$");
            if exact && str_equals(source, trim_end_matches_char(alias, '$')) {
                return self.ask_resolution(replaced.to_string(), facts);
            } else if !exact && starts_with(source, alias) {
                let source_left = trim_start_matches_str(source, alias);
                let new_source = to_logical_path(source_left, replaced);
                return self.ask_resolution(new_source, facts);
            }
            i = i + 1;
        }
        Eval::Done(None)
    }

    /// One step of resolving `source` from `base_dir`: the result, a reason
    /// to stop, or the first question whose answer `facts` lacks.
    pub fn resolve(&self, source: &str, base_dir: &str, kind: &ResolveKind, facts: &FsFacts) -> (r: Eval<Option<PluginResolveHookResult>>)
        ensures
            opt_hook_out(r) == resolve_spec(self.config, *facts, source@, base_dir@, *kind),
            r matches Eval::Need(q) ==> !answered(*facts, q@),
    {
        let pji: Option<&PackageJsonInfo> = match facts.package_json_of(base_dir, self.config.symlinks, true) {
            None => {
                return Eval::Need(
                    FsQuery::LoadPackageJson { dir: base_dir.to_string(), follow_symlinks: self.config.symlinks, resolve_ancestor_dir: true },
                );
            },
            Some(p) => match p {
                Some(info) => Some(info),
                None => None,
            },
        };
        let absolute = self.is_source_absolute(source);
        let relative = self.is_source_relative(source);
        if let Some(pj) = pji {
            if !absolute && !relative {
                if self.is_module_external(pj, source) {
                    return Eval::Done(Some(PluginResolveHookResult { resolved_path: source.to_string(), external: true, side_effects: false }));
                }
                if let Some(rp) = self.try_browser_replace(pj, source) {
                    let external = self.is_module_external(pj, rp.as_str());
                    let side_effects = self.is_module_side_effects(pj, rp.as_str());
                    return Eval::Done(Some(PluginResolveHookResult { resolved_path: rp, external, side_effects }));
                }
                if let Some(rp) = self.try_imports_replace(pj, source) {
                    let external = self.is_module_external(pj, rp.as_str());
                    let side_effects = self.is_module_side_effects(pj, rp.as_str());
                    return Eval::Done(Some(PluginResolveHookResult { resolved_path: rp, external, side_effects }));
                }
            }
        }
        if absolute {
            let found = self.try_file(source, facts);
            self.result_for(pji, found, kind)
        } else if relative {
            let normalized = match self.follow(to_logical_path(source, base_dir), facts) {
                Eval::Done(p) => p,
                Eval::Need(q) => {
                    return Eval::Need(q);
                },
                Eval::Abort(a) => {
                    return Eval::Abort(a);
                },
            };
            let found = self.try_file_or_directory(normalized.as_str(), facts);
            self.result_for(pji, found, kind)
        } else if self.is_source_dot(source) {
            let found = self.try_directory(base_dir, facts);
            self.result_for(pji, found, kind)
        } else {
            match self.try_alias(source, base_dir, kind, facts) {
                Eval::Done(None) => self.try_node_modules(source, base_dir, kind, facts),
                other => other,
            }
        }
    }

    /// The path resolved as a file, else as a directory.
    pub fn try_file_or_directory(&self, path: &str, facts: &FsFacts) -> (r: Eval<Option<String>>)
        ensures
            opt_path_out(r) == file_or_dir_spec(self.config, *facts, path@),
            r matches Eval::Need(q) ==> !answered(*facts, q@),
    {
        match self.try_file(path, facts) {
            Eval::Done(None) => self.try_directory(path, facts),
            other => other,
        }
    }
}

} // verus!
