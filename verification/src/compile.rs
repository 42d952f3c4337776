//! The compilation orchestrator and the dependency tracker.
//!
//! A stylesheet source is preprocessed by the stylesheet engine (outside
//! this library, its outcome handed in as an [`EngineOutcome`]), then run
//! through the CSS transform engine with class scoping enabled. Class names
//! on the exclude list keep their original name, in the scoping map and in
//! the CSS text. The auxiliary files the engine consulted are reported as a
//! duplicate-free dependency set, together with the primary file for a
//! file-based source, so the consumer can force artifact invalidation.

use vstd::prelude::*;

use crate::engine::has_marker;
use crate::engine::make_targets;
use crate::engine::replace_all;
use crate::engine::replaced;
use crate::engine::scoped_exports_of;
use crate::engine::spec_export_list;
use crate::engine::spec_has_marker;
use crate::engine::transform_stylesheet;
use crate::paths::PathResolutionError;
use crate::settings::Settings;

verus! {

/// The stylesheet source: a file path, or inline stylesheet text.
#[derive(Debug)]
pub enum StyleSheetKind {
    File(String),
    Inline(String),
}

/// A successful compilation: the final CSS text, the map from original
/// class name to its replacement (keys unique, order irrelevant), and the
/// source it came from, so the caller can recover the primary file path.
#[derive(Debug)]
pub struct CompiledStyleSheet {
    pub css: String,
    pub class_names: Vec<(String, String)>,
    pub original_style_sheet: StyleSheetKind,
}

/// Why a compilation failed: a load path that does not resolve, a stylesheet
/// the engine rejected, or a failure in the CSS transform step. Each carries
/// its diagnostic as the cause.
#[derive(Debug)]
pub enum CompileError {
    PathResolution(PathResolutionError),
    StylesheetCompilation(String),
    Transform(String),
}

impl CompileError {
    /// The top-level description of this error.
    pub fn message(&self) -> (r: String)
        ensures
            match self {
                CompileError::PathResolution(e) => r@
                    == "could not canonicalize the configured load path "@ + e.path@,
                CompileError::StylesheetCompilation(_) => r@
                    == "the stylesheet engine rejected the input"@,
                CompileError::Transform(_) => r@ == "the CSS transform step failed"@,
            },
    {
        match self {
            CompileError::PathResolution(e) => e.message(),
            CompileError::StylesheetCompilation(_) => {
                "the stylesheet engine rejected the input".to_owned()
            }
            CompileError::Transform(_) => "the CSS transform step failed".to_owned(),
        }
    }

    /// The chain of underlying causes, outermost first.
    pub fn causes(&self) -> (r: Vec<String>)
        ensures
            r@.len() == 1,
            match self {
                CompileError::PathResolution(e) => r@[0]@ == e.details@,
                CompileError::StylesheetCompilation(d) => r@[0]@ == d@,
                CompileError::Transform(d) => r@[0]@ == d@,
            },
    {
        match self {
            CompileError::PathResolution(e) => e.causes(),
            CompileError::StylesheetCompilation(d) => {
                let mut v: Vec<String> = Vec::new();
                v.push(d.clone());
                v
            }
            CompileError::Transform(d) => {
                let mut v: Vec<String> = Vec::new();
                v.push(d.clone());
                v
            }
        }
    }
}

/// The dependency set could not be produced. This does not invalidate the
/// compiled artifact; it is kept apart from [`CompileError`] so the consumer
/// can choose to proceed without forced invalidation.
#[derive(Debug)]
pub struct LoadPathTrackingError {
    pub details: String,
}

impl LoadPathTrackingError {
    /// The top-level description of this error.
    pub fn message(&self) -> (r: String)
        ensures
            r@ == "could not track the load paths the compilation consulted"@,
    {
        "could not track the load paths the compilation consulted".to_owned()
    }

    /// The chain of underlying causes, outermost first.
    pub fn causes(&self) -> (r: Vec<String>)
        ensures
            r@.len() == 1,
            r@[0]@ == self.details@,
    {
        let mut v: Vec<String> = Vec::new();
        v.push(self.details.clone());
        v
    }
}

/// Failure of the whole handling step: the compilation itself, or the
/// dependency tracking; the two channels are never conflated.
#[derive(Debug)]
pub enum ProcessingError {
    Turf(CompileError),
    LoadPathTracking(LoadPathTrackingError),
}

/// What the stylesheet engine step produced: the raw CSS text on success, a
/// failure to canonicalize a load path (which aborts before the engine
/// runs), or the engine's own diagnostic.
#[derive(Debug)]
pub enum EngineOutcome {
    PathFailure(PathResolutionError),
    EngineFailure(String),
    Css(String),
}

/// Whether some string in the list reads as the given text.
pub open spec fn spec_contains_str(list: Seq<String>, s: Seq<char>) -> bool {
    exists|i: int| 0 <= i < list.len() && list[i]@ == s
}

/// Whether the list of strings holds one reading as this one.
fn contains_string(list: &Vec<String>, s: &String) -> (b: bool)
    ensures
        b == spec_contains_str(list@, s@),
{
    let mut found = false;
    for k in 0..list.len()
        invariant
            found <==> exists|j: int| 0 <= j < k && list@[j]@ == s@,
    {
        if list[k].eq(s) {
            proof {
                assert(list@[k as int]@ == s@);
            }
            found = true;
        }
    }
    found
}

/// The CSS text after the first `n` export entries have been processed:
/// for each entry whose original name is excluded from renaming, every
/// occurrence of the engine's replacement name is turned back into the
/// original name.
pub open spec fn spec_restore_excluded(
    css: Seq<char>,
    exports: Seq<(String, String)>,
    excludes: Seq<String>,
    n: int,
) -> Seq<char>
    decreases n,
{
    if n <= 0 {
        css
    } else {
        let prev = spec_restore_excluded(css, exports, excludes, n - 1);
        if spec_contains_str(excludes, exports[n - 1].0@) {
            replaced(prev, exports[n - 1].1@, exports[n - 1].0@)
        } else {
            prev
        }
    }
}

/// The engine-facing pattern text for a class-name template: the `<id>`
/// marker expands to a hash-and-original-name segment, unique to the class
/// within the sheet.
pub open spec fn spec_pattern_text(template: Seq<char>) -> Seq<char> {
    replaced(template, "<id>"@, "[hash]-[local]"@)
}

/// How a compilation's output relates to the engine's work on the raw
/// stylesheet text: the export pairs enumerate the engine's renaming table
/// for that text under the expanded template; the map pairs every export's
/// original name with the engine's replacement, except that excluded names
/// keep themselves; and the CSS text is the engine's printed output (which
/// also depends on the minify flag and browser targets, so it stands as
/// `printed`) with every excluded name's engine replacement turned back
/// into the original.
pub open spec fn spec_scoped_output(
    css_out: Seq<char>,
    map: Seq<(String, String)>,
    raw_css: Seq<char>,
    printed: Seq<char>,
    template: Seq<char>,
    exports: Seq<(String, String)>,
    excludes: Seq<String>,
) -> bool {
    &&& spec_export_list(exports, scoped_exports_of(raw_css, spec_pattern_text(template)))
    &&& map.len() == exports.len()
    &&& (forall|i: int|
        #![trigger map[i]]
        0 <= i < exports.len() ==> map[i].0 == exports[i].0 && map[i].1@ == (
        if spec_contains_str(excludes, exports[i].0@) {
            exports[i].0@
        } else {
            exports[i].1@
        }))
    &&& css_out == spec_restore_excluded(printed, exports, excludes, exports.len() as int)
}

/// Walks the engine's export entries once: excluded names keep themselves
/// as their replacement and their engine name is turned back into the
/// original in the CSS text; all other entries keep the engine's name.
fn apply_excludes(code: String, exports: Vec<(String, String)>, excludes: &Vec<String>) -> (r: (
    String,
    Vec<(String, String)>,
))
    ensures
        r.0@ == spec_restore_excluded(code@, exports@, excludes@, exports@.len() as int),
        r.1@.len() == exports@.len(),
        forall|i: int|
            #![trigger r.1@[i]]
            0 <= i < exports@.len() ==> r.1@[i].0 == exports@[i].0 && r.1@[i].1@ == (
            if spec_contains_str(excludes@, exports@[i].0@) {
                exports@[i].0@
            } else {
                exports@[i].1@
            }),
{
    let n = exports.len();
    let mut css = code;
    let mut map: Vec<(String, String)> = Vec::new();
    for k in 0..n
        invariant
            n == exports@.len(),
            css@ == spec_restore_excluded(code@, exports@, excludes@, k as int),
            map@.len() == k,
            forall|i: int|
                #![trigger map@[i]]
                0 <= i < k ==> map@[i].0 == exports@[i].0 && map@[i].1@ == (
                if spec_contains_str(excludes@, exports@[i].0@) {
                    exports@[i].0@
                } else {
                    exports@[i].1@
                }),
    {
        let orig = exports[k].0.clone();
        let generated = exports[k].1.clone();
        if contains_string(excludes, &orig) {
            css = replace_all(&css, generated.as_str(), orig.as_str());
            map.push((orig.clone(), orig));
        } else {
            map.push((orig, generated));
        }
    }
    (css, map)
}

/// Some engine printing and some enumeration of the engine's exports
/// witness the output: the scoped-output relation holds for them.
pub open spec fn spec_scoped_witnessed(
    css_out: Seq<char>,
    map: Seq<(String, String)>,
    raw_css: Seq<char>,
    template: Seq<char>,
    excludes: Seq<String>,
) -> bool {
    exists|printed: Seq<char>, exports: Seq<(String, String)>|
        spec_scoped_output(css_out, map, raw_css, printed, template, exports, excludes)
}

/// Compiles one stylesheet: given the settings and the stylesheet engine's
/// outcome, runs the CSS transform step with the minify flag and encoded
/// browser targets from the settings and with class scoping under the
/// configured template, whose `<id>` marker expands to a segment unique to
/// the class within the sheet, then applies the exclude list. A load-path
/// failure or an engine diagnostic is passed through as the matching error;
/// a failure in the transform step — including a template that is empty or
/// uses an engine-reserved placeholder — is a `Transform` error. On success
/// the output stands in the stated relation to the engine's exports: the
/// map's original names are pairwise distinct, every excluded name is
/// mapped to itself and restored in the CSS text, and, when the expanded
/// template keeps a `[local]` placeholder, the replacement names of the
/// non-excluded classes are unique within the compiled sheet.
pub fn style_sheet(sheet: StyleSheetKind, settings: &Settings, engine: EngineOutcome) -> (r: Result<
    CompiledStyleSheet,
    CompileError,
>)
    ensures
        engine matches EngineOutcome::PathFailure(e) ==> r == Err::<
            CompiledStyleSheet,
            CompileError,
        >(CompileError::PathResolution(e)),
        engine matches EngineOutcome::EngineFailure(d) ==> r == Err::<
            CompiledStyleSheet,
            CompileError,
        >(CompileError::StylesheetCompilation(d)),
        engine is Css && r is Err ==> (r matches Err(e) && e is Transform),
        r matches Ok(c) ==> {
            &&& engine is Css
            &&& c.original_style_sheet == sheet
            &&& forall|i: int, j: int|
                0 <= i < j < c.class_names@.len() ==> c.class_names@[i].0@ != c.class_names@[j].0@
            &&& forall|i: int|
                #![trigger c.class_names@[i]]
                0 <= i < c.class_names@.len() && spec_contains_str(
                    settings.class_names.excludes@,
                    c.class_names@[i].0@,
                ) ==> c.class_names@[i].1@ == c.class_names@[i].0@
        },
        engine matches EngineOutcome::Css(raw) ==> (r matches Ok(c) ==> spec_scoped_witnessed(
            c.css@,
            c.class_names@,
            raw@,
            settings.class_names.template@,
            settings.class_names.excludes@,
        )),
        spec_has_marker(spec_pattern_text(settings.class_names.template@), "[local]"@) ==> (
        r matches Ok(c) ==> forall|i: int, j: int|
            0 <= i < j < c.class_names@.len() && !spec_contains_str(
                settings.class_names.excludes@,
                c.class_names@[i].0@,
            ) && !spec_contains_str(settings.class_names.excludes@, c.class_names@[j].0@)
                ==> c.class_names@[i].1@ != c.class_names@[j].1@),
{
    match engine {
        EngineOutcome::PathFailure(e) => Err(CompileError::PathResolution(e)),
        EngineOutcome::EngineFailure(d) => Err(CompileError::StylesheetCompilation(d)),
        EngineOutcome::Css(css) => {
            let pattern_text = replace_all(
                &settings.class_names.template,
                "<id>",
                "[hash]-[local]",
            );
            if pattern_text.as_str().is_empty() {
                return Err(
                    CompileError::Transform("the class-name template must not be empty".to_owned()),
                );
            }
            if has_marker(pattern_text.as_str(), "[name]") || has_marker(
                pattern_text.as_str(),
                "[content-hash]",
            ) {
                return Err(
                    CompileError::Transform(
                        "the class-name template must not use an engine-reserved placeholder".to_owned(),
                    ),
                );
            }
            let has_local = has_marker(pattern_text.as_str(), "[local]");
            let encoded = match &settings.browser_targets {
                Some(b) => Some(b.encode()),
                None => None,
            };
            let targets = make_targets(&encoded);
            let (code, exports) = match transform_stylesheet(
                &css,
                &pattern_text,
                settings.minify,
                targets,
            ) {
                Ok(out) => out,
                Err(d) => {
                    return Err(CompileError::Transform(d));
                }
            };
            let ghost gexports = exports@;
            let ghost gcode = code@;
            let (final_css, class_names) = apply_excludes(code, exports, &settings.class_names.excludes);
            let compiled = CompiledStyleSheet { css: final_css, class_names, original_style_sheet: sheet };
            proof {
                assert forall|i: int, j: int|
                    0 <= i < j < compiled.class_names@.len() implies compiled.class_names@[i].0@
                    != compiled.class_names@[j].0@ by {
                    assert(compiled.class_names@[i].0 == gexports[i].0);
                    assert(compiled.class_names@[j].0 == gexports[j].0);
                }
                assert(spec_scoped_output(
                    compiled.css@,
                    compiled.class_names@,
                    css@,
                    gcode,
                    settings.class_names.template@,
                    gexports,
                    settings.class_names.excludes@,
                ));
                assert(spec_scoped_witnessed(
                    compiled.css@,
                    compiled.class_names@,
                    css@,
                    settings.class_names.template@,
                    settings.class_names.excludes@,
                ));
                if has_local {
                    assert forall|i: int, j: int|
                        0 <= i < j < compiled.class_names@.len() && !spec_contains_str(
                            settings.class_names.excludes@,
                            compiled.class_names@[i].0@,
                        ) && !spec_contains_str(
                            settings.class_names.excludes@,
                            compiled.class_names@[j].0@,
                        ) implies compiled.class_names@[i].1@ != compiled.class_names@[j].1@ by {
                        assert(compiled.class_names@[i].0 == gexports[i].0);
                        assert(compiled.class_names@[j].0 == gexports[j].0);
                        assert(compiled.class_names@[i].1@ == gexports[i].1@);
                        assert(compiled.class_names@[j].1@ == gexports[j].1@);
                    }
                }
            }
            Ok(compiled)
        }
    }
}

/// The duplicate-free projection of the first `n` observed paths, keeping
/// the first occurrence of each and their order.
pub open spec fn spec_dedup_views(paths: Seq<String>, n: int) -> Seq<Seq<char>>
    decreases n,
{
    if n <= 0 {
        Seq::empty()
    } else {
        let prev = spec_dedup_views(paths, n - 1);
        if prev.contains(paths[n - 1]@) {
            prev
        } else {
            prev.push(paths[n - 1]@)
        }
    }
}

/// The reported dependency list: the observed paths deduplicated in
/// first-occurrence order, with the primary path appended last unless it
/// was already observed.
pub open spec fn spec_dependency_list(
    observed: Seq<String>,
    primary: Option<Seq<char>>,
) -> Seq<Seq<char>> {
    let base = spec_dedup_views(observed, observed.len() as int);
    match primary {
        Some(q) => if base.contains(q) {
            base
        } else {
            base.push(q)
        },
        None => base,
    }
}

/// The primary file path of a source; absent for inline sources.
pub open spec fn spec_primary_path(sheet: StyleSheetKind) -> Option<Seq<char>> {
    match sheet {
        StyleSheetKind::File(f) => Some(f@),
        StyleSheetKind::Inline(_) => None,
    }
}

/// A list of strings holds one reading as `p` exactly when the list of
/// their texts holds `p`.
proof fn lemma_contains_matches_views(v: Seq<String>, views: Seq<Seq<char>>, p: Seq<char>)
    requires
        views.len() == v.len(),
        forall|i: int| 0 <= i < v.len() ==> views[i] == v[i]@,
    ensures
        spec_contains_str(v, p) == views.contains(p),
{
    if spec_contains_str(v, p) {
        let i = choose|i: int| 0 <= i < v.len() && v[i]@ == p;
        assert(views[i] == p);
    }
    if views.contains(p) {
        let i = choose|i: int| 0 <= i < views.len() && views[i] == p;
        assert(v[i]@ == p);
    }
}

/// The dependency set for one compilation: the observed paths in
/// first-occurrence order, each exactly once however often it was
/// consulted, and, last, the primary file of a file-based source unless it
/// was itself observed — nothing else.
pub fn untracked_dependencies(observed: &Vec<String>, primary: Option<&String>) -> (r: Vec<String>)
    ensures
        r.deep_view() == spec_dependency_list(
            observed@,
            (match primary {
                Some(q) => Some(q@),
                None => None,
            }),
        ),
        forall|i: int, j: int| 0 <= i < j < r@.len() ==> r@[i]@ != r@[j]@,
        forall|p: Seq<char>| #[trigger]
            spec_contains_str(r@, p) <==> (spec_contains_str(observed@, p) || (
            primary matches Some(q) && q@ == p)),
{
    let mut out: Vec<String> = Vec::new();
    for k in 0..observed.len()
        invariant
            out.deep_view() == spec_dedup_views(observed@, k as int),
            forall|i: int, j: int| 0 <= i < j < out@.len() ==> out@[i]@ != out@[j]@,
            forall|p: Seq<char>| #[trigger]
                spec_contains_str(out@, p) <==> spec_contains_str(
                    observed@.subrange(0, k as int),
                    p,
                ),
    {
        let ghost prefix = observed@.subrange(0, k as int);
        let ghost longer = observed@.subrange(0, k as int + 1);
        let ghost before_deep = out.deep_view();
        proof {
            assert(forall|t: int| 0 <= t < out@.len() ==> out.deep_view()[t] == out@[t]@);
            lemma_contains_matches_views(out@, out.deep_view(), observed@[k as int]@);
            assert forall|p: Seq<char>| #[trigger] spec_contains_str(longer, p) implies (
            spec_contains_str(prefix, p) || observed@[k as int]@ == p) by {
                let i = choose|i: int| 0 <= i < longer.len() && longer[i]@ == p;
                if i < k as int {
                    assert(prefix[i]@ == p);
                }
            }
        }
        if !contains_string(&out, &observed[k]) {
            let ghost before = out@;
            out.push(observed[k].clone());
            proof {
                assert(out.deep_view() =~= before_deep.push(observed@[k as int]@));
                assert(out.deep_view() == spec_dedup_views(observed@, k as int + 1));
                assert forall|p: Seq<char>| #[trigger] spec_contains_str(out@, p) implies
                spec_contains_str(longer, p) by {
                    let i = choose|i: int| 0 <= i < out@.len() && out@[i]@ == p;
                    if i < out@.len() - 1 {
                        assert(before[i]@ == p);
                        assert(spec_contains_str(before, p));
                        let j = choose|j: int| 0 <= j < prefix.len() && prefix[j]@ == p;
                        assert(longer[j]@ == p);
                    } else {
                        assert(longer[k as int]@ == p);
                    }
                }
                assert forall|p: Seq<char>| #[trigger] spec_contains_str(longer, p) implies
                spec_contains_str(out@, p) by {
                    if spec_contains_str(prefix, p) {
                        assert(spec_contains_str(before, p));
                        let j = choose|j: int| 0 <= j < before.len() && before[j]@ == p;
                        assert(out@[j]@ == p);
                    } else {
                        assert(observed@[k as int]@ == p);
                        assert(out@[out@.len() - 1]@ == p);
                    }
                }
            }
        } else {
            proof {
                assert(out.deep_view() == spec_dedup_views(observed@, k as int + 1));
                assert forall|p: Seq<char>| #[trigger] spec_contains_str(longer, p) implies
                spec_contains_str(out@, p) by {
                    if spec_contains_str(prefix, p) {
                    } else {
                        assert(observed@[k as int]@ == p);
                    }
                }
                assert forall|p: Seq<char>| #[trigger] spec_contains_str(out@, p) implies
                spec_contains_str(longer, p) by {
                    assert(spec_contains_str(prefix, p));
                    let j = choose|j: int| 0 <= j < prefix.len() && prefix[j]@ == p;
                    assert(longer[j]@ == p);
                }
            }
        }
    }
    proof {
        assert(observed@.subrange(0, observed@.len() as int) =~= observed@);
    }
    match primary {
        Some(q) => {
            proof {
                assert(forall|t: int| 0 <= t < out@.len() ==> out.deep_view()[t] == out@[t]@);
                lemma_contains_matches_views(out@, out.deep_view(), q@);
            }
            if !contains_string(&out, q) {
                let ghost before = out@;
                let ghost before_deep = out.deep_view();
                out.push(q.clone());
                proof {
                    assert(out.deep_view() =~= before_deep.push(q@));
                    assert forall|p: Seq<char>| #[trigger] spec_contains_str(out@, p) implies (
                    spec_contains_str(before, p) || q@ == p) by {
                        let i = choose|i: int| 0 <= i < out@.len() && out@[i]@ == p;
                        if i < out@.len() - 1 {
                            assert(before[i]@ == p);
                        }
                    }
                    assert forall|p: Seq<char>| spec_contains_str(before, p) || q@ == p implies
                    #[trigger] spec_contains_str(out@, p) by {
                        if spec_contains_str(before, p) {
                            let j = choose|j: int| 0 <= j < before.len() && before[j]@ == p;
                            assert(out@[j]@ == p);
                        } else {
                            assert(out@[out@.len() - 1]@ == p);
                        }
                    }
                }
            }
            out
        }
        None => out,
    }
}

/// What one invocation hands the code-generation front end: the dependency
/// paths, the final CSS text, and the class-name map.
#[derive(Debug)]
pub struct ProcessedStyleSheet {
    pub untracked_load_paths: Vec<String>,
    pub css: String,
    pub class_names: Vec<(String, String)>,
}

/// Drives one whole invocation: compiles the stylesheet from the engine's
/// outcome, then builds the dependency set from the observed load paths
/// and, for a file-based source, the primary file itself. A compilation
/// failure and a tracking failure are reported on their own channels and
/// never conflated; tracking is consulted only after a successful
/// compilation. On success the CSS text and class-name map are the
/// compile step's, handed through unchanged, and the dependency list is
/// the observed paths in first-occurrence order with the primary file
/// appended last unless already observed.
pub fn handle_style_sheet(
    sheet: StyleSheetKind,
    settings: &Settings,
    engine: EngineOutcome,
    observed: Result<Vec<String>, String>,
) -> (r: Result<ProcessedStyleSheet, ProcessingError>)
    ensures
        engine matches EngineOutcome::PathFailure(e) ==> r == Err::<
            ProcessedStyleSheet,
            ProcessingError,
        >(ProcessingError::Turf(CompileError::PathResolution(e))),
        engine matches EngineOutcome::EngineFailure(d) ==> r == Err::<
            ProcessedStyleSheet,
            ProcessingError,
        >(ProcessingError::Turf(CompileError::StylesheetCompilation(d))),
        engine is Css && r is Err ==> (r matches Err(pe) && (
        pe matches ProcessingError::Turf(e) ==> e is Transform)),
        r matches Err(ProcessingError::LoadPathTracking(t)) ==> (observed matches Err(d)
            && t.details == d),
        r matches Ok(p) ==> {
            &&& engine is Css
            &&& observed is Ok
            &&& p.untracked_load_paths.deep_view() == spec_dependency_list(
                observed->Ok_0@,
                spec_primary_path(sheet),
            )
            &&& forall|i: int, j: int|
                0 <= i < j < p.untracked_load_paths@.len() ==> p.untracked_load_paths@[i]@
                    != p.untracked_load_paths@[j]@
            &&& forall|q: Seq<char>| #[trigger]
                spec_contains_str(p.untracked_load_paths@, q) <==> (spec_contains_str(
                    observed->Ok_0@,
                    q,
                ) || (sheet matches StyleSheetKind::File(f) && f@ == q))
            &&& forall|i: int, j: int|
                0 <= i < j < p.class_names@.len() ==> p.class_names@[i].0@ != p.class_names@[j].0@
            &&& forall|i: int|
                #![trigger p.class_names@[i]]
                0 <= i < p.class_names@.len() && spec_contains_str(
                    settings.class_names.excludes@,
                    p.class_names@[i].0@,
                ) ==> p.class_names@[i].1@ == p.class_names@[i].0@
        },
        engine matches EngineOutcome::Css(raw) ==> (r matches Ok(p) ==> spec_scoped_witnessed(
            p.css@,
            p.class_names@,
            raw@,
            settings.class_names.template@,
            settings.class_names.excludes@,
        )),
        spec_has_marker(spec_pattern_text(settings.class_names.template@), "[local]"@) ==> (
        r matches Ok(p) ==> forall|i: int, j: int|
            0 <= i < j < p.class_names@.len() && !spec_contains_str(
                settings.class_names.excludes@,
                p.class_names@[i].0@,
            ) && !spec_contains_str(settings.class_names.excludes@, p.class_names@[j].0@)
                ==> p.class_names@[i].1@ != p.class_names@[j].1@),
{
    let ghost gengine = engine;
    let compiled = match style_sheet(sheet, settings, engine) {
        Ok(c) => c,
        Err(e) => {
            return Err(ProcessingError::Turf(e));
        }
    };
    let ghost gcompiled = compiled;
    let obs = match observed {
        Ok(v) => v,
        Err(details) => {
            return Err(ProcessingError::LoadPathTracking(LoadPathTrackingError { details }));
        }
    };
    let primary: Option<&String> = match &compiled.original_style_sheet {
        StyleSheetKind::File(f) => Some(f),
        StyleSheetKind::Inline(_) => None,
    };
    let ghost gprimary: Option<Seq<char>> = match primary {
        Some(q) => Some(q@),
        None => None,
    };
    proof {
        assert(gprimary == spec_primary_path(gcompiled.original_style_sheet));
    }
    let untracked_load_paths = untracked_dependencies(&obs, primary);
    let p = ProcessedStyleSheet {
        untracked_load_paths,
        css: compiled.css,
        class_names: compiled.class_names,
    };
    proof {
        assert(p.css == gcompiled.css && p.class_names == gcompiled.class_names);
        match gengine {
            EngineOutcome::Css(raw) => {
                assert(spec_scoped_witnessed(
                    p.css@,
                    p.class_names@,
                    raw@,
                    settings.class_names.template@,
                    settings.class_names.excludes@,
                ));
            }
            EngineOutcome::PathFailure(_) => {}
            EngineOutcome::EngineFailure(_) => {}
        }
    }
    Ok(p)
}

} // verus!
