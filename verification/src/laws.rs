//! Laws that say what resolution is for, stated over what the file system
//! answered and what a `package.json` holds: extensions and main fields are
//! tried in the configured order, aliases come before `node_modules`, and a
//! module that the `browser` field maps to `false` is external.
use vstd::prelude::*;
use crate::facts::{PathKind, Out, FsFacts, stat_answer, ask_package, resolution_answer};
use crate::json::JsonValue;
use crate::model::{ResolveConfig, ResolveKind, PackageJsonInfo, HookView};
use crate::paths::{file_name_of, with_file_name_of, logical_path, has_extension};
use crate::resolver::{
    field_spec, browser_word, key_path_spec, is_absolute_spec, is_relative_spec, is_dot_spec,
    resolve_result_spec,
};
use crate::resolution::{
    try_ext_from, try_file_spec, file_or_dir_spec, found_in_package, node_modules_result_spec,
    main_fields_from, alias_target_from, resolve_spec, package_answer_spec,
};
use crate::stability::{resolutions_consistent, lemma_alias_resolves_target};

verus! {

/// `file` with the extension `ext` added to its file name `name`.
pub open spec fn with_extension(file: Seq<char>, name: Seq<char>, ext: Seq<char>) -> Seq<char> {
    with_file_name_of(file, name + seq!['.'] + ext)
}

proof fn lemma_ext_found(cfg: ResolveConfig, facts: FsFacts, file: Seq<char>, i: int) -> (j: int)
    requires
        0 <= i,
        try_ext_from(cfg, facts, file, i) matches Out::Done(Some(_)),
    ensures
        i <= j < cfg.extensions@.len(),
        file_name_of(file) matches Some(name) && {
            let p = try_ext_from(cfg, facts, file, i)->Done_0->Some_0;
            &&& p == with_extension(file, name, cfg.extensions@[j]@)
            &&& stat_answer(facts, p) == Some(PathKind::File)
            &&& forall|k: int| i <= k < j ==> ((#[trigger] stat_answer(facts, with_extension(file, name, cfg.extensions@[k]@)))
                matches Some(kind) && kind != PathKind::File)
        },
    decreases cfg.extensions@.len() - i,
{
    let name = file_name_of(file)->Some_0;
    let candidate = with_extension(file, name, cfg.extensions@[i]@);
    if stat_answer(facts, candidate) == Some(PathKind::File) {
        i
    } else {
        let j = lemma_ext_found(cfg, facts, file, i + 1);
        j
    }
}

/// Law: extensions are tried in the configured order. When `try_file`
/// finds a file for `file`, either `file` itself is recorded as a file and
/// is the result, or `file` is recorded as something else, the result is
/// `file` with some configured extension `j` added to its file name, that
/// path is recorded as a file, and for every extension before `j` the path
/// it gives is recorded as not a file.
pub proof fn law_try_file_extension_order(cfg: ResolveConfig, facts: FsFacts, file: Seq<char>) -> (j: int)
    requires
        try_file_spec(cfg, facts, file) matches Out::Done(Some(_)),
    ensures
        ({
            let p = try_file_spec(cfg, facts, file)->Done_0->Some_0;
            if stat_answer(facts, file) == Some(PathKind::File) {
                p == file
            } else {
                &&& stat_answer(facts, file) is Some
                &&& 0 <= j < cfg.extensions@.len()
                &&& file_name_of(file) matches Some(name) && {
                    &&& p == with_extension(file, name, cfg.extensions@[j]@)
                    &&& stat_answer(facts, p) == Some(PathKind::File)
                    &&& forall|k: int| 0 <= k < j ==> ((#[trigger] stat_answer(
                        facts,
                        with_extension(file, name, cfg.extensions@[k]@),
                    )) matches Some(kind) && kind != PathKind::File)
                }
            }
        }),
{
    if stat_answer(facts, file) == Some(PathKind::File) {
        0
    } else {
        lemma_ext_found(cfg, facts, file, 0)
    }
}

/// Main field `i` is passed over: it is absent, or neither a string nor an
/// object, or an object whose package result has no extension.
pub open spec fn main_field_passed(cfg: ResolveConfig, facts: FsFacts, pj: PackageJsonInfo, pp: Seq<char>, kind: ResolveKind, i: int) -> bool {
    match field_spec(pj, cfg.main_fields@[i]@) {
        Some(JsonValue::String(_)) => false,
        Some(JsonValue::Object(_)) => node_modules_result_spec(cfg, facts, Some(pj), pp, kind) matches Out::Done(h)
            && !has_extension(h.resolved_path),
        _ => true,
    }
}

proof fn lemma_main_fields_reach(
    cfg: ResolveConfig,
    facts: FsFacts,
    pj: PackageJsonInfo,
    pp: Seq<char>,
    kind: ResolveKind,
    i: int,
    j: int,
)
    requires
        0 <= i <= j < cfg.main_fields@.len(),
        forall|k: int| i <= k < j ==> #[trigger] main_field_passed(cfg, facts, pj, pp, kind, k),
    ensures
        main_fields_from(cfg, facts, pj, pp, kind, i) == main_fields_from(cfg, facts, pj, pp, kind, j),
    decreases j - i,
{
    if i < j {
        assert(main_field_passed(cfg, facts, pj, pp, kind, i));
        lemma_main_fields_reach(cfg, facts, pj, pp, kind, i + 1, j);
    }
}

/// Law: main fields are tried in the configured order. When main field `j`
/// of the package is a string and every main field before it is passed
/// over, the package resolves through the path that string names (as a file,
/// else as a directory), whatever the later main fields hold.
pub proof fn law_main_fields_order(
    cfg: ResolveConfig,
    facts: FsFacts,
    pj: PackageJsonInfo,
    pp: Seq<char>,
    kind: ResolveKind,
    j: int,
)
    requires
        0 <= j < cfg.main_fields@.len(),
        field_spec(pj, cfg.main_fields@[j]@) matches Some(JsonValue::String(_)),
        forall|k: int| 0 <= k < j ==> #[trigger] main_field_passed(cfg, facts, pj, pp, kind, k),
    ensures
        ({
            let s = field_spec(pj, cfg.main_fields@[j]@)->Some_0->String_0;
            main_fields_from(cfg, facts, pj, pp, kind, 0) == found_in_package(
                cfg,
                facts,
                Some(pj),
                file_or_dir_spec(cfg, facts, logical_path(s@, pj.dir@)),
                kind,
            )
        }),
{
    lemma_main_fields_reach(cfg, facts, pj, pp, kind, 0, j);
}

/// Law: aliases come before `node_modules`. For a bare source that the
/// importer's `package.json` does not answer by itself, when an alias rule
/// rewrites it to `t`, `t` is recorded as resolving to a module, and the recorded
/// resolutions are consistent, resolving the source gives what resolving
/// `t` gives, whatever `node_modules` holds.
pub proof fn law_alias_before_node_modules(
    cfg: ResolveConfig,
    facts: FsFacts,
    source: Seq<char>,
    base_dir: Seq<char>,
    kind: ResolveKind,
    pji: Option<PackageJsonInfo>,
    t: Seq<char>,
)
    requires
        resolutions_consistent(cfg, facts, base_dir, kind),
        ask_package(facts, base_dir, cfg.symlinks, true) == Out::<Option<PackageJsonInfo>>::Done(pji),
        pji matches Some(pj) ==> package_answer_spec(pj, source) is None,
        !is_absolute_spec(source),
        !is_relative_spec(source),
        !is_dot_spec(source),
        alias_target_from(cfg, source, 0) == Some(t),
        resolution_answer(facts, t) matches Some(Some(_)),
    ensures
        resolve_spec(cfg, facts, source, base_dir, kind) == resolve_spec(cfg, facts, t, base_dir, kind),
        resolve_spec(cfg, facts, t, base_dir, kind) == Out::<Option<HookView>>::Done(resolution_answer(facts, t)->0),
{
    lemma_alias_resolves_target(cfg, facts, source, base_dir, kind);
    crate::stability::lemma_alias_from_target(cfg, facts, source, 0);
}

/// Law: a module the `browser` field maps to `false` is external. For a
/// module found at `rp` under the governing `package.json` `pj`, the result
/// is external exactly when the `browser` field is an object with a member
/// whose value is `false` and whose key is `rp` (taken as a path under the
/// package directory when `rp` is absolute).
pub proof fn law_browser_false_is_external(pj: PackageJsonInfo, rp: Seq<char>)
    ensures
        resolve_result_spec(Some(pj), rp).external <==> (field_spec(pj, browser_word()) matches Some(
            JsonValue::Object(entries),
        ) && exists|i: int|
            0 <= i < entries@.len() && #[trigger] entries@[i].1 == JsonValue::Bool(false) && if is_absolute_spec(rp) {
                key_path_spec(entries@[i].0@, pj.dir@) == rp
            } else {
                entries@[i].0@ == rp
            }),
{
    if let Some(JsonValue::Object(entries)) = field_spec(pj, browser_word()) {
        if resolve_result_spec(Some(pj), rp).external {
            let i = choose|i: int| 0 <= i < entries@.len() && #[trigger] crate::resolver::excludes(entries@[i], pj.dir@, rp);
            assert(entries@[i].1 == JsonValue::Bool(false));
        }
        if exists|i: int|
            0 <= i < entries@.len() && #[trigger] entries@[i].1 == JsonValue::Bool(false) && if is_absolute_spec(rp) {
                key_path_spec(entries@[i].0@, pj.dir@) == rp
            } else {
                entries@[i].0@ == rp
            } {
            let i = choose|i: int|
                0 <= i < entries@.len() && #[trigger] entries@[i].1 == JsonValue::Bool(false) && if is_absolute_spec(rp) {
                    key_path_spec(entries@[i].0@, pj.dir@) == rp
                } else {
                    entries@[i].0@ == rp
                };
            assert(crate::resolver::excludes(entries@[i], pj.dir@, rp));
        }
    }
}

} // verus!
