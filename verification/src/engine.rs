//! The boundary with the CSS transform engine (`lightningcss`): one trusted
//! entry that parses a stylesheet with class scoping enabled and prints it
//! with the minify flag and browser targets from the settings, plus the
//! verified marker check that guards it.

use vstd::prelude::*;

use crate::browser::EncodedBrowserTargets;
use lightningcss::css_modules::Config;
use lightningcss::css_modules::Pattern;
use lightningcss::printer::PrinterOptions;
use lightningcss::stylesheet::ParserOptions;
use lightningcss::stylesheet::StyleSheet;
use lightningcss::targets::Browsers;
use lightningcss::targets::Targets;

verus! {

#[verifier::external_type_specification]
#[verifier::external_body]
pub struct ExTargets(Targets);

/// Whether the marker occurs in the text as a contiguous run of characters.
pub open spec fn spec_has_marker(s: Seq<char>, m: Seq<char>) -> bool {
    exists|i: int|
        0 <= i && i + m.len() <= s.len() && #[trigger] s.subrange(i, i + m.len() as int) == m
}

/// Whether the marker occurs in the text.
pub(crate) fn has_marker(s: &str, marker: &str) -> (b: bool)
    ensures
        b == spec_has_marker(s@, marker@),
{
    let n = s.unicode_len();
    let m = marker.unicode_len();
    if m == 0 {
        proof {
            assert(s@.subrange(0, 0 + marker@.len() as int) =~= marker@);
        }
        return true;
    }
    if m > n {
        return false;
    }
    for i in 0..(n - m + 1)
        invariant
            n == s@.len(),
            m == marker@.len(),
            0 < m <= n,
            forall|p: int|
                0 <= p < i ==> #[trigger] s@.subrange(p, p + marker@.len() as int) != marker@,
    {
        let mut all_match = true;
        for j in 0..m
            invariant
                n == s@.len(),
                m == marker@.len(),
                0 < m <= n,
                i < n - m + 1,
                all_match <==> (forall|q: int| 0 <= q < j ==> s@[i + q] == marker@[q]),
        {
            if s.get_char(i + j) != marker.get_char(j) {
                all_match = false;
            }
        }
        if all_match {
            proof {
                assert(s@.subrange(i as int, i as int + marker@.len() as int) =~= marker@);
            }
            return true;
        }
        proof {
            let q = choose|q: int| 0 <= q < m && s@[i + q] != marker@[q];
            assert(s@.subrange(i as int, i as int + marker@.len() as int)[q] == s@[i + q]);
        }
    }
    proof {
        if spec_has_marker(s@, marker@) {
            let w = choose|w: int|
                0 <= w && w + marker@.len() <= s@.len() && #[trigger] s@.subrange(
                    w,
                    w + marker@.len() as int,
                ) == marker@;
            assert(w < n - m + 1);
        }
    }
    false
}

/// Relies on `lightningcss`'s `Targets::from`: packages the encoded
/// per-family browser versions, or no constraint at all, for the printer.
#[verifier::external_body]
pub(crate) fn make_targets(targets: &Option<EncodedBrowserTargets>) -> (r: Targets) {
    let browsers = targets.as_ref().map(
        |t| Browsers {
            android: t.android, chrome: t.chrome, edge: t.edge, firefox: t.firefox,
            ie: t.ie, ios_saf: t.ios_saf, opera: t.opera, safari: t.safari,
            samsung: t.samsung,
        },
    );
    Targets::from(browsers)
}

/// The class renamings the CSS transform engine exports for a stylesheet
/// text under a scoping pattern: original name to replacement. They depend
/// on these two arguments alone: each replacement is rendered from the
/// pattern's segments, and the hash segment hashes the (default, empty)
/// source filename with a fixed-key hasher, not a per-process-seeded one.
pub uninterp spec fn scoped_exports_of(css: Seq<char>, pattern: Seq<char>) -> Map<
    Seq<char>,
    Seq<char>,
>;

/// Whether a list of (original, replacement) pairs enumerates a renaming
/// table exactly: the originals are pairwise distinct, each pair is an
/// entry of the table, and the counts agree, so every entry of the table
/// appears exactly once.
pub open spec fn spec_export_list(
    exports: Seq<(String, String)>,
    table: Map<Seq<char>, Seq<char>>,
) -> bool {
    &&& (forall|i: int, j: int| 0 <= i < j < exports.len() ==> exports[i].0@ != exports[j].0@)
    &&& (forall|i: int|
        0 <= i < exports.len() ==> #[trigger] table.contains_key(exports[i].0@)
            && table[exports[i].0@] == exports[i].1@)
    &&& table.dom().finite()
    &&& table.dom().len() == exports.len()
}

/// Relies on `lightningcss`'s `css_modules::Pattern::parse`,
/// `StyleSheet::parse` and `StyleSheet::to_css` — the engine's one entry
/// and exit; the parsed sheet's at-rule type parameter is private to the
/// engine, so the steps cannot be split into one wrapper each. The sheet is
/// parsed with CSS-modules scoping under the given pattern text, then
/// printed with the given minify flag and browser targets.
///
/// The precondition keeps out the pattern texts under which the engine
/// panics: an empty pattern (the engine indexes its first segment), and the
/// `[name]` and `[content-hash]` placeholders (with no filename and no
/// content hashes the engine unwraps absent values).
///
/// On success the scoped CSS text comes back with the exported class
/// renamings, which enumerate `scoped_exports_of` of the stylesheet text
/// and the pattern; their order comes from a hash map's iteration and is
/// not specified. A pattern text holding a `[local]` placeholder parses to
/// a pattern with a local segment, and every replacement then embeds its
/// own original name between fixed surrounding segments, so the
/// replacements are pairwise distinct as well.
#[verifier::external_body]
pub(crate) fn transform_stylesheet(
    css: &String,
    pattern_text: &String,
    minify: bool,
    targets: Targets,
) -> (r: Result<(String, Vec<(String, String)>), String>)
    requires
        pattern_text@.len() > 0,
        !spec_has_marker(pattern_text@, "[name]"@),
        !spec_has_marker(pattern_text@, "[content-hash]"@),
    ensures
        r matches Ok(out) ==> spec_export_list(out.1@, scoped_exports_of(css@, pattern_text@)),
        spec_has_marker(pattern_text@, "[local]"@) ==> (r matches Ok(out) ==> forall|
            i: int,
            j: int,
        |
            0 <= i < j < out.1@.len() ==> out.1@[i].1@ != out.1@[j].1@),
{
    let pattern = Pattern::parse(pattern_text.as_str()).map_err(|e| format!("{}", e))?;
    let modules = Some(Config { pattern, ..Default::default() });
    let parsed = StyleSheet::parse(css.as_str(), ParserOptions { css_modules: modules, ..Default::default() });
    parsed.map_err(|e| format!("{}", e))
        .and_then(|s| s.to_css(PrinterOptions { minify, targets, ..Default::default() }).map_err(|e| format!("{}", e)))
        .map(|out| (out.code, out.exports.unwrap_or_default().into_iter().map(|(n, e)| (n, e.name)).collect::<Vec<(String, String)>>()))
}

/// What `str::replace` produces: the string with every occurrence of the
/// pattern replaced; the result depends on the arguments alone.
pub uninterp spec fn replaced(s: Seq<char>, from: Seq<char>, to: Seq<char>) -> Seq<char>;

/// Relies on `str::replace`: replaces every occurrence of `from` in `s`
/// with `to`.
#[verifier::external_body]
pub(crate) fn replace_all(s: &String, from: &str, to: &str) -> (r: String)
    ensures
        r@ == replaced(s@, from@, to@),
{
    s.as_str().replace(from, to)
}

} // verus!
