//! Project-wide compatibility reports.
use vstd::prelude::*;
use super::{LuaVersionSet, intersect_all, version_flag, version_names_spec, version_set_text};
use super::compat_db::{FeatureCategory, format_version_hint, version_hint};
use super::scanner::{DetectedFeature, FileResult};
use crate::paths::{file_name, file_name_of};
use crate::text::{decimal, decimal_chars, pad_right, push_chars, push_padded, push_str, string_from, string_of};

verus! {

/// Aggregate compatibility report for an entire project.
#[derive(Debug)]
pub struct CompatibilityReport {
    pub files_scanned: usize,
    pub file_results: Vec<FileResult>,
    /// Overall project compatibility (intersection of all file results).
    pub project_compatible_versions: LuaVersionSet,
    /// The configured lua_version from package.yaml.
    pub configured_version: Option<String>,
    /// Whether the configured version is in the compatible set.
    pub config_compatible: Option<bool>,
}

/// The version sets of a list of file results.
pub open spec fn result_versions(rs: Seq<FileResult>) -> Seq<u8> {
    rs.map_values(|r: FileResult| r.compatible_versions@)
}

/// The project runs on a Lua version exactly when every scanned file does:
/// the versions of a report built from `results` hold the version flag `f`
/// if and only if the compatible versions of each file hold it.
pub proof fn lemma_project_versions(results: Seq<FileResult>, f: u8)
    requires
        super::is_version_flag(f),
    ensures
        (intersect_all(result_versions(results)) & f != 0) <==> (forall|i: int|
            0 <= i < results.len() ==> (#[trigger] results[i]).compatible_versions@ & f != 0),
{
    let vs = result_versions(results);
    super::lemma_intersect_all(vs, f);
    assert forall|i: int| 0 <= i < results.len() implies vs[i] == (#[trigger] results[i]).compatible_versions@ by {}
}

/// Whether the versions `b` include the version that `v` names.
pub open spec fn holds_version(b: u8, v: Seq<char>) -> bool {
    match version_flag(v) {
        Some(f) => b & f != 0,
        None => false,
    }
}

/// Build a compatibility report from scan results.
pub fn build_report(file_results: Vec<FileResult>, configured_version: Option<&str>) -> (r:
    CompatibilityReport)
    ensures
        r.files_scanned == file_results.len(),
        r.file_results@ == file_results@,
        r.project_compatible_versions@ == intersect_all(result_versions(file_results@)),
        match configured_version {
            Some(v) => r.configured_version matches Some(c) && c@ == v@ && r.config_compatible
                == Some(holds_version(r.project_compatible_versions@, v@)),
            None => r.configured_version is None && r.config_compatible is None,
        },
{
    let files_scanned = file_results.len();
    let ghost vs = result_versions(file_results@);
    let mut project_compatible_versions = LuaVersionSet::all();
    let mut i: usize = 0;
    assert(vs.take(0) =~= Seq::<u8>::empty());
    while i < file_results.len()
        invariant
            i <= file_results.len(),
            vs == result_versions(file_results@),
            project_compatible_versions@ == intersect_all(vs.take(i as int)),
        decreases file_results.len() - i,
    {
        assert(vs.take(i as int + 1).drop_last() =~= vs.take(i as int));
        assert(vs.take(i as int + 1).last() == file_results@[i as int].compatible_versions@);
        project_compatible_versions = project_compatible_versions.intersect(
            file_results[i].compatible_versions,
        );
        i = i + 1;
    }
    assert(vs.take(file_results.len() as int) =~= vs);
    let config_compatible = match configured_version {
        Some(v) => Some(project_compatible_versions.contains_version_str(v)),
        None => None,
    };
    let configured = match configured_version {
        Some(v) => Some(string_of(v)),
        None => None,
    };
    CompatibilityReport {
        files_scanned,
        file_results,
        project_compatible_versions,
        configured_version: configured,
        config_compatible,
    }
}

/// Every detected feature of a project, with the path of its file, in
/// file order and then detection order.
pub open spec fn located_features(rs: Seq<FileResult>) -> Seq<(Seq<char>, DetectedFeature)>
    decreases rs.len(),
{
    if rs.len() == 0 {
        Seq::empty()
    } else {
        located_features(rs.drop_last()) + rs.last().detected_features@.map_values(
            |f: DetectedFeature| (rs.last().path@, f),
        )
    }
}

/// How a path is shown: as it is, or by its file name when it is longer
/// than 40 bytes.
pub open spec fn display_path(path: Seq<char>) -> Seq<char> {
    if vstd::utf8::encode_utf8(path).len() > 40 {
        match file_name(path) {
            Some(n) => n,
            None => "unknown"@,
        }
    } else {
        path
    }
}

/// The report line of one detected feature.
pub open spec fn feature_line(path: Seq<char>, f: DetectedFeature) -> Seq<char> {
    "    "@ + display_path(path) + ":"@ + pad_right(decimal(f.line as nat), 8) + " "@ + pad_right(
        f.info.name@,
        26,
    ) + " "@ + version_hint(f.info.available_in@) + "\n"@
}

/// The report lines of a list of located features.
pub open spec fn feature_lines(ls: Seq<(Seq<char>, DetectedFeature)>) -> Seq<char>
    decreases ls.len(),
{
    if ls.len() == 0 {
        Seq::empty()
    } else {
        feature_lines(ls.drop_last()) + feature_line(ls.last().0, ls.last().1)
    }
}

/// The head of a report: compatible versions, configured version, count.
pub open spec fn header_text(r: CompatibilityReport) -> Seq<char> {
    "\n  Compatible versions: "@ + version_set_text(r.project_compatible_versions@) + "\n"@ + (
    match r.configured_version {
        Some(c) => "  Configured version:  "@ + c@ + "\n"@,
        None => Seq::empty(),
    }) + "  Scanned: "@ + decimal(r.files_scanned as nat) + " file(s)\n"@
}

/// The features section of a report.
pub open spec fn features_text(r: CompatibilityReport, quiet: bool) -> Seq<char> {
    let ls = located_features(r.file_results@);
    if ls.len() == 0 {
        if !quiet {
            "\n  No version-specific features detected. Code is compatible with all Lua versions.\n"@
        } else {
            Seq::empty()
        }
    } else if !quiet || r.config_compatible == Some(false) {
        "\n  Detected features:\n"@ + feature_lines(ls)
    } else {
        Seq::empty()
    }
}

/// The verdict on the configured version.
pub open spec fn verdict_text(r: CompatibilityReport) -> Seq<char> {
    match (r.config_compatible, r.configured_version) {
        (Some(true), Some(v)) => "  Configured lua_version \""@ + v@ + "\" is compatible.\n"@,
        (Some(false), Some(v)) => "  Configured lua_version \""@ + v@
            + "\" is INCOMPATIBLE with detected code.\n"@ + if r.project_compatible_versions@ == 0 {
            "  Your code uses features from mutually exclusive Lua versions.\n"@
        } else {
            "  Suggestion: Change lua_version to one of: "@ + version_set_text(
                r.project_compatible_versions@,
            ) + "\n"@
        },
        _ => Seq::empty(),
    }
}

/// The whole text of a report.
pub open spec fn report_text(r: CompatibilityReport, quiet: bool) -> Seq<char> {
    header_text(r) + features_text(r, quiet) + "\n"@ + verdict_text(r)
}

/// Append the report line of one feature.
fn push_feature_line(out: &mut Vec<char>, path: &String, f: &DetectedFeature)
    ensures
        final(out)@ == old(out)@ + feature_line(path@, *f),
{
    let ghost start = out@;
    push_str(out, "    ");
    let p = path.as_str();
    let n = p.as_bytes().len();
    assert(n == vstd::utf8::encode_utf8(path@).len());
    if n > 40 {
        match file_name_of(p) {
            Some(name) => push_chars(out, name.as_slice()),
            None => push_str(out, "unknown"),
        }
    } else {
        push_str(out, p);
    }
    assert(out@ =~= start + "    "@ + display_path(path@));
    push_str(out, ":");
    let line = decimal_chars(f.line as u64);
    push_padded(out, line.as_slice(), 8);
    push_str(out, " ");
    let nv = crate::text::chars_of(f.info.name);
    push_padded(out, nv.as_slice(), 26);
    push_str(out, " ");
    let hint = format_version_hint(&f.info);
    push_str(out, hint.as_str());
    push_str(out, "\n");
    assert(out@ =~= start + feature_line(path@, *f));
}

/// Append the lines of every detected feature.
fn push_feature_lines(out: &mut Vec<char>, rs: &Vec<FileResult>)
    ensures
        final(out)@ == old(out)@ + feature_lines(located_features(rs@)),
{
    let ghost start = out@;
    let mut i: usize = 0;
    assert(rs@.take(0) =~= Seq::<FileResult>::empty());
    while i < rs.len()
        invariant
            i <= rs.len(),
            out@ == start + feature_lines(located_features(rs@.take(i as int))),
        decreases rs.len() - i,
    {
        let r = &rs[i];
        let ghost done = located_features(rs@.take(i as int));
        let ghost m = r.detected_features@.map_values(|f: DetectedFeature| (r.path@, f));
        let mut j: usize = 0;
        assert(done + m.take(0) =~= done);
        while j < r.detected_features.len()
            invariant
                j <= r.detected_features.len(),
                m == r.detected_features@.map_values(|f: DetectedFeature| (r.path@, f)),
                out@ == start + feature_lines(done + m.take(j as int)),
            decreases r.detected_features.len() - j,
        {
            push_feature_line(out, &r.path, &r.detected_features[j]);
            assert((done + m.take(j as int + 1)).drop_last() =~= done + m.take(j as int));
            assert((done + m.take(j as int + 1)).last() == (r.path@, r.detected_features@[j as int]));
            j = j + 1;
        }
        assert(m.take(r.detected_features.len() as int) =~= m);
        assert(rs@.take(i as int + 1).drop_last() =~= rs@.take(i as int));
        assert(rs@.take(i as int + 1).last() == *r);
        i = i + 1;
    }
    assert(rs@.take(rs.len() as int) =~= rs@);
}

/// Whether any file has a detected feature.
fn has_features(rs: &Vec<FileResult>) -> (r: bool)
    ensures
        r == (located_features(rs@).len() > 0),
{
    let mut i: usize = 0;
    assert(rs@.take(0) =~= Seq::<FileResult>::empty());
    while i < rs.len()
        invariant
            i <= rs.len(),
            located_features(rs@.take(i as int)).len() == 0,
        decreases rs.len() - i,
    {
        assert(rs@.take(i as int + 1).drop_last() =~= rs@.take(i as int));
        if rs[i].detected_features.len() > 0 {
            assert(located_features(rs@.take(i as int + 1)).len() > 0);
            assert(located_features(rs@).len() >= located_features(rs@.take(i as int + 1)).len()) by {
                lemma_located_prefix(rs@, i as int + 1);
            }
            return true;
        }
        i = i + 1;
    }
    assert(rs@.take(rs.len() as int) =~= rs@);
    false
}

/// The features of a prefix of the files come first.
proof fn lemma_located_prefix(rs: Seq<FileResult>, n: int)
    requires
        0 <= n <= rs.len(),
    ensures
        located_features(rs).len() >= located_features(rs.take(n)).len(),
    decreases rs.len() - n,
{
    if n < rs.len() {
        lemma_located_prefix(rs, n + 1);
        assert(rs.take(n + 1).drop_last() =~= rs.take(n));
    } else {
        assert(rs.take(n) =~= rs);
    }
}

/// Format the report as a human-readable string.
pub fn format_report(report: &CompatibilityReport, quiet: bool) -> (r: String)
    ensures
        r@ == report_text(*report, quiet),
{
    let mut out: Vec<char> = Vec::new();
    push_str(&mut out, "\n  Compatible versions: ");
    let versions = report.project_compatible_versions.to_string();
    push_str(&mut out, versions.as_str());
    push_str(&mut out, "\n");
    match &report.configured_version {
        Some(configured) => {
            push_str(&mut out, "  Configured version:  ");
            push_str(&mut out, configured.as_str());
            push_str(&mut out, "\n");
        },
        None => {},
    }
    push_str(&mut out, "  Scanned: ");
    let count = decimal_chars(report.files_scanned as u64);
    push_chars(&mut out, count.as_slice());
    push_str(&mut out, " file(s)\n");
    assert(out@ =~= header_text(*report));
    let ghost after_header = out@;

    if !has_features(&report.file_results) {
        if !quiet {
            push_str(
                &mut out,
                "\n  No version-specific features detected. Code is compatible with all Lua versions.\n",
            );
        }
    } else if !quiet || report.config_compatible == Some(false) {
        push_str(&mut out, "\n  Detected features:\n");
        push_feature_lines(&mut out, &report.file_results);
    }
    assert(out@ =~= after_header + features_text(*report, quiet));
    let ghost after_features = out@;

    push_str(&mut out, "\n");
    match report.config_compatible {
        Some(true) => {
            match &report.configured_version {
                Some(v) => {
                    push_str(&mut out, "  Configured lua_version \"");
                    push_str(&mut out, v.as_str());
                    push_str(&mut out, "\" is compatible.\n");
                },
                None => {},
            }
        },
        Some(false) => {
            match &report.configured_version {
                Some(v) => {
                    push_str(&mut out, "  Configured lua_version \"");
                    push_str(&mut out, v.as_str());
                    push_str(&mut out, "\" is INCOMPATIBLE with detected code.\n");
                    if report.project_compatible_versions.is_empty() {
                        push_str(
                            &mut out,
                            "  Your code uses features from mutually exclusive Lua versions.\n",
                        );
                    } else {
                        push_str(&mut out, "  Suggestion: Change lua_version to one of: ");
                        let text = report.project_compatible_versions.to_string();
                        push_str(&mut out, text.as_str());
                        push_str(&mut out, "\n");
                    }
                },
                None => {},
            }
        },
        None => {},
    }
    assert(out@ =~= after_features + "\n"@ + verdict_text(*report));
    string_from(&out)
}

/// JSON-serializable report format.
#[derive(Debug)]
pub struct JsonReport {
    pub files_scanned: usize,
    pub project_compatible_versions: Vec<&'static str>,
    pub configured_version: Option<String>,
    pub config_compatible: Option<bool>,
    pub features: Vec<JsonFeature>,
}

/// One detected feature in a JSON report.
#[derive(Debug)]
pub struct JsonFeature {
    pub file: String,
    pub line: u32,
    pub column: u32,
    pub name: String,
    pub category: String,
    pub available_in: Vec<&'static str>,
}

/// The name of a category in JSON reports.
pub open spec fn category_name(c: FeatureCategory) -> Seq<char> {
    match c {
        FeatureCategory::StdlibAdded => "stdlib_added"@,
        FeatureCategory::StdlibRemoved => "stdlib_removed"@,
        FeatureCategory::Syntax => "syntax"@,
        FeatureCategory::LuaJitExtension => "luajit_extension"@,
    }
}

/// The names of a list of static strings.
pub open spec fn names_of(v: Seq<&'static str>) -> Seq<Seq<char>> {
    v.map_values(|p: &str| p@)
}

/// A JSON feature describes a located feature.
pub open spec fn describes(j: JsonFeature, path: Seq<char>, f: DetectedFeature) -> bool {
    &&& j.file@ == path
    &&& j.line == f.line
    &&& j.column == f.column
    &&& j.name@ == f.info.name@
    &&& j.category@ == category_name(f.info.category)
    &&& names_of(j.available_in@) == version_names_spec(f.info.available_in@)
}

fn category_text(c: FeatureCategory) -> (r: String)
    ensures
        r@ == category_name(c),
{
    match c {
        FeatureCategory::StdlibAdded => string_of("stdlib_added"),
        FeatureCategory::StdlibRemoved => string_of("stdlib_removed"),
        FeatureCategory::Syntax => string_of("syntax"),
        FeatureCategory::LuaJitExtension => string_of("luajit_extension"),
    }
}

/// Convert a CompatibilityReport to a JSON-serializable format.
pub fn to_json_report(report: &CompatibilityReport) -> (r: JsonReport)
    ensures
        r.files_scanned == report.files_scanned,
        names_of(r.project_compatible_versions@) == version_names_spec(
            report.project_compatible_versions@,
        ),
        match report.configured_version {
            Some(c) => r.configured_version matches Some(rc) && rc@ == c@,
            None => r.configured_version is None,
        },
        r.config_compatible == report.config_compatible,
        r.features.len() == located_features(report.file_results@).len(),
        forall|k: int|
            0 <= k < r.features.len() ==> describes(
                #[trigger] r.features@[k],
                located_features(report.file_results@)[k].0,
                located_features(report.file_results@)[k].1,
            ),
{
    let rs = &report.file_results;
    let mut features: Vec<JsonFeature> = Vec::new();
    let mut i: usize = 0;
    assert(rs@.take(0) =~= Seq::<FileResult>::empty());
    while i < rs.len()
        invariant
            i <= rs.len(),
            rs == &report.file_results,
            features.len() == located_features(rs@.take(i as int)).len(),
            forall|k: int|
                0 <= k < features.len() ==> describes(
                    #[trigger] features@[k],
                    located_features(rs@.take(i as int))[k].0,
                    located_features(rs@.take(i as int))[k].1,
                ),
        decreases rs.len() - i,
    {
        let r = &rs[i];
        let ghost done = located_features(rs@.take(i as int));
        let ghost m = r.detected_features@.map_values(|f: DetectedFeature| (r.path@, f));
        let mut j: usize = 0;
        assert(done + m.take(0) =~= done);
        while j < r.detected_features.len()
            invariant
                j <= r.detected_features.len(),
                m == r.detected_features@.map_values(|f: DetectedFeature| (r.path@, f)),
                features.len() == (done + m.take(j as int)).len(),
                forall|k: int|
                    0 <= k < features.len() ==> describes(
                        #[trigger] features@[k],
                        (done + m.take(j as int))[k].0,
                        (done + m.take(j as int))[k].1,
                    ),
            decreases r.detected_features.len() - j,
        {
            let feat = &r.detected_features[j];
            let jf = JsonFeature {
                file: r.path.clone(),
                line: feat.line,
                column: feat.column,
                name: string_of(feat.info.name),
                category: category_text(feat.info.category),
                available_in: feat.info.available_in.version_names(),
            };
            let ghost before = features@;
            features.push(jf);
            assert forall|k: int| 0 <= k < features.len() implies describes(
                #[trigger] features@[k],
                (done + m.take(j as int + 1))[k].0,
                (done + m.take(j as int + 1))[k].1,
            ) by {
                if k < before.len() {
                    assert(features@[k] == before[k]);
                    assert((done + m.take(j as int + 1))[k] == (done + m.take(j as int))[k]);
                } else {
                    assert((done + m.take(j as int + 1))[k] == (r.path@, r.detected_features@[j as int]));
                }
            }
            j = j + 1;
        }
        assert(m.take(r.detected_features.len() as int) =~= m);
        assert(rs@.take(i as int + 1).drop_last() =~= rs@.take(i as int));
        assert(rs@.take(i as int + 1).last() == *r);
        assert(located_features(rs@.take(i as int + 1)) == done + m);
        i = i + 1;
    }
    assert(rs@.take(rs.len() as int) =~= rs@);
    let configured = match &report.configured_version {
        Some(c) => Some(c.clone()),
        None => None,
    };
    JsonReport {
        files_scanned: report.files_scanned,
        project_compatible_versions: report.project_compatible_versions.version_names(),
        configured_version: configured,
        config_compatible: report.config_compatible,
        features,
    }
}

} // verus!
