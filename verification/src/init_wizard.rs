//! The decisions of the project initialization wizard: which names are
//! valid, which choices it offers, and what it writes and reports.
use vstd::prelude::*;
use crate::paths::{file_name, file_name_of};
use crate::templates::TemplateInfo;
use crate::text::{chars_of, join, push_chars, push_str, str_eq, string_from, string_of, texts};

verus! {

/// `char::is_alphanumeric`: whether a character is alphabetic or numeric
/// in Unicode.
pub uninterp spec fn alphanumeric(c: char) -> bool;

/// `char::is_alphanumeric`.
#[verifier::external_body]
fn is_alphanumeric(c: char) -> (r: bool)
    ensures
        r == alphanumeric(c),
{
    c.is_alphanumeric()
}

/// A character that a project name may hold.
pub open spec fn name_char(c: char) -> bool {
    alphanumeric(c) || c == '-' || c == '_'
}

/// What the wizard says of a project name: nothing when it is valid.
pub open spec fn name_problem(input: Seq<char>) -> Option<Seq<char>> {
    if input.len() == 0 {
        Some("Project name cannot be empty"@)
    } else if !(forall|i: int| 0 <= i < input.len() ==> name_char(#[trigger] input[i])) {
        Some("Project name can only contain alphanumeric characters, hyphens, and underscores"@)
    } else {
        None
    }
}

/// Check a project name.
pub fn validate_project_name(input: &str) -> (r: Result<(), &'static str>)
    ensures
        match name_problem(input@) {
            Some(m) => r matches Err(e) && e@ == m,
            None => r is Ok,
        },
{
    let v = chars_of(input);
    if v.len() == 0 {
        return Err("Project name cannot be empty");
    }
    let mut i: usize = 0;
    while i < v.len()
        invariant
            i <= v.len(),
            v@ == input@,
            forall|j: int| 0 <= j < i ==> name_char(#[trigger] v@[j]),
        decreases v.len() - i,
    {
        let c = v[i];
        if !(is_alphanumeric(c) || c == '-' || c == '_') {
            assert(!name_char(input@[i as int]));
            return Err(
                "Project name can only contain alphanumeric characters, hyphens, and underscores",
            );
        }
        i = i + 1;
    }
    Ok(())
}

/// The default project name: the directory's name, or "my-project".
pub fn default_project_name(dir: &str) -> (r: String)
    ensures
        r@ == match file_name(dir@) {
            Some(n) => n,
            None => "my-project"@,
        },
{
    match file_name_of(dir) {
        Some(n) => string_from(&n),
        None => string_of("my-project"),
    }
}

/// The licenses that the wizard offers, in order.
pub open spec fn licenses() -> Seq<Seq<char>> {
    seq![
        "MIT"@,
        "Apache-2.0"@,
        "BSD-3-Clause"@,
        "GPL-3.0"@,
        "LGPL-3.0"@,
        "ISC"@,
        "Unlicense"@,
        "None"@,
    ]
}

/// The licenses that the wizard offers.
pub fn license_options() -> (r: Vec<&'static str>)
    ensures
        r@.map_values(|s: &str| s@) == licenses(),
{
    let r = vec!["MIT", "Apache-2.0", "BSD-3-Clause", "GPL-3.0", "LGPL-3.0", "ISC", "Unlicense", "None"];
    assert(r@.map_values(|s: &str| s@) =~= licenses());
    r
}

/// The license that a choice puts in the manifest: none for "None".
pub fn chosen_license(choice: &str) -> (r: Option<String>)
    ensures
        choice@ == "None"@ ==> r is None,
        choice@ != "None"@ ==> (r matches Some(l) && l@ == choice@),
{
    if str_eq(choice, "None") {
        None
    } else {
        Some(string_of(choice))
    }
}

/// Whether `v` is among `s`.
pub open spec fn listed_text(s: Seq<Seq<char>>, v: Seq<char>) -> bool {
    exists|i: int| 0 <= i < s.len() && s[i] == v
}

/// The Lua versions offered: the installed ones, then each of 5.1, 5.3 and
/// 5.4 not among them, then "latest".
pub open spec fn lua_choices(installed: Seq<Seq<char>>) -> Seq<Seq<char>> {
    let a = if listed_text(installed, "5.1"@) { installed } else { installed.push("5.1"@) };
    let b = if listed_text(a, "5.3"@) { a } else { a.push("5.3"@) };
    let c = if listed_text(b, "5.4"@) { b } else { b.push("5.4"@) };
    c.push("latest"@)
}

/// The position of the first `v` among `s`.
pub open spec fn position_of(s: Seq<Seq<char>>, v: Seq<char>) -> Option<int>
    decreases s.len(),
{
    if s.len() == 0 {
        None
    } else {
        match position_of(s.drop_last(), v) {
            Some(i) => Some(i),
            None => if s.last() == v {
                Some(s.len() - 1)
            } else {
                None
            },
        }
    }
}

fn push_if_absent(v: &mut Vec<String>, item: &str)
    ensures
        texts(final(v)@) == if listed_text(texts(old(v)@), item@) {
            texts(old(v)@)
        } else {
            texts(old(v)@).push(item@)
        },
{
    let mut i: usize = 0;
    while i < v.len()
        invariant
            i <= v.len(),
            v@ == old(v)@,
            forall|j: int| 0 <= j < i ==> (#[trigger] texts(v@)[j]) != item@,
        decreases v.len() - i,
    {
        if str_eq(v[i].as_str(), item) {
            assert(texts(v@)[i as int] == item@);
            return ;
        }
        i = i + 1;
    }
    assert(!listed_text(texts(v@), item@));
    let ghost before = v@;
    v.push(string_of(item));
    assert(texts(v@) =~= texts(before).push(item@));
}

fn find_text(v: &Vec<String>, item: &str) -> (r: Option<usize>)
    ensures
        match r {
            Some(i) => position_of(texts(v@), item@) == Some(i as int),
            None => position_of(texts(v@), item@) is None,
        },
{
    let ghost s = texts(v@);
    let mut i: usize = 0;
    assert(s.take(0) =~= Seq::<Seq<char>>::empty());
    while i < v.len()
        invariant
            i <= v.len(),
            s == texts(v@),
            position_of(s.take(i as int), item@) is None,
        decreases v.len() - i,
    {
        assert(s.take(i as int + 1).drop_last() =~= s.take(i as int));
        if str_eq(v[i].as_str(), item) {
            proof {
                lemma_position_prefix(s, item@, i as int + 1);
            }
            return Some(i);
        }
        i = i + 1;
    }
    assert(s.take(v.len() as int) =~= s);
    None
}

proof fn lemma_position_prefix(s: Seq<Seq<char>>, v: Seq<char>, n: int)
    requires
        0 < n <= s.len(),
        position_of(s.take(n), v) is Some,
    ensures
        position_of(s, v) == position_of(s.take(n), v),
    decreases s.len() - n,
{
    if n < s.len() {
        assert(s.take(n + 1).drop_last() =~= s.take(n));
        lemma_position_prefix(s, v, n + 1);
    } else {
        assert(s.take(n) =~= s);
    }
}

/// The Lua versions that the wizard offers, and the one selected at first:
/// 5.4, else the first installed version, else the one before "latest".
pub fn lua_version_choices(installed: &Vec<String>) -> (r: (Vec<String>, usize))
    ensures
        texts(r.0@) == lua_choices(texts(installed@)),
        r.1 == match position_of(lua_choices(texts(installed@)), "5.4"@) {
            Some(i) => i,
            None => if installed.len() > 0 {
                0
            } else {
                lua_choices(texts(installed@)).len() - 2
            },
        },
{
    let mut choices: Vec<String> = Vec::new();
    let mut i: usize = 0;
    while i < installed.len()
        invariant
            i <= installed.len(),
            texts(choices@) == texts(installed@).take(i as int),
        decreases installed.len() - i,
    {
        let ghost before = choices@;
        choices.push(installed[i].clone());
        assert(texts(choices@) =~= texts(before).push(installed@[i as int]@));
        assert(texts(installed@).take(i as int + 1) =~= texts(installed@).take(i as int).push(installed@[i as int]@));
        i = i + 1;
    }
    assert(texts(installed@).take(installed.len() as int) =~= texts(installed@));
    push_if_absent(&mut choices, "5.1");
    push_if_absent(&mut choices, "5.3");
    push_if_absent(&mut choices, "5.4");
    let ghost before = choices@;
    choices.push(string_of("latest"));
    assert(texts(choices@) =~= texts(before).push("latest"@));
    let default_index = match find_text(&choices, "5.4") {
        Some(i) => i,
        None => if installed.len() > 0 {
            0
        } else {
            choices.len() - 2
        },
    };
    (choices, default_index)
}

/// The common scripts that the wizard offers: name, description and the
/// command it puts in the manifest.
pub open spec fn common_scripts() -> Seq<(Seq<char>, Seq<char>, Seq<char>)> {
    seq![
        ("dev"@, "Development server/watch mode"@, "lpm watch dev"@),
        ("test"@, "Run tests"@, "lua tests/run.lua"@),
        ("build"@, "Build project"@, "lua src/build.lua"@),
        ("start"@, "Start application"@, "lua src/main.lua"@),
    ]
}

/// The menu lines for the common scripts: "name - description".
pub fn script_options() -> (r: Vec<String>)
    ensures
        r@.len() == 4,
        forall|i: int| 0 <= i < 4 ==> (#[trigger] r@[i])@ == common_scripts()[i].0 + " - "@ + common_scripts()[i].1,
{
    let r = vec![
        string_of("dev - Development server/watch mode"),
        string_of("test - Run tests"),
        string_of("build - Build project"),
        string_of("start - Start application"),
    ];
    proof {
        reveal_strlit("dev - Development server/watch mode");
        reveal_strlit("dev");
        reveal_strlit(" - ");
        reveal_strlit("Development server/watch mode");
        reveal_strlit("test - Run tests");
        reveal_strlit("test");
        reveal_strlit("Run tests");
        reveal_strlit("build - Build project");
        reveal_strlit("build");
        reveal_strlit("Build project");
        reveal_strlit("start - Start application");
        reveal_strlit("start");
        reveal_strlit("Start application");
        assert(r@[0]@ =~= common_scripts()[0].0 + " - "@ + common_scripts()[0].1);
        assert(r@[1]@ =~= common_scripts()[1].0 + " - "@ + common_scripts()[1].1);
        assert(r@[2]@ =~= common_scripts()[2].0 + " - "@ + common_scripts()[2].1);
        assert(r@[3]@ =~= common_scripts()[3].0 + " - "@ + common_scripts()[3].1);
    }
    r
}

/// The scripts that selected menu positions put in the manifest, as
/// (name, command), in the order selected; positions past the menu are
/// skipped.
pub open spec fn selected_scripts_spec(selections: Seq<usize>) -> Seq<(Seq<char>, Seq<char>)>
    decreases selections.len(),
{
    if selections.len() == 0 {
        Seq::empty()
    } else {
        let rest = selected_scripts_spec(selections.drop_last());
        let i = selections.last();
        if i < 4 {
            rest.push((common_scripts()[i as int].0, common_scripts()[i as int].2))
        } else {
            rest
        }
    }
}

/// The (name, command) pairs of the selected common scripts.
pub fn selected_scripts(selections: &Vec<usize>) -> (r: Vec<(String, String)>)
    ensures
        r@.map_values(|p: (String, String)| (p.0@, p.1@)) == selected_scripts_spec(selections@),
{
    let mut r: Vec<(String, String)> = Vec::new();
    let mut i: usize = 0;
    assert(selections@.take(0) =~= Seq::<usize>::empty());
    while i < selections.len()
        invariant
            i <= selections.len(),
            r@.map_values(|p: (String, String)| (p.0@, p.1@)) == selected_scripts_spec(selections@.take(i as int)),
        decreases selections.len() - i,
    {
        assert(selections@.take(i as int + 1).drop_last() =~= selections@.take(i as int));
        let ghost before = r@;
        let k = selections[i];
        let entry: Option<(String, String)> = if k == 0 {
            Some((string_of("dev"), string_of("lpm watch dev")))
        } else if k == 1 {
            Some((string_of("test"), string_of("lua tests/run.lua")))
        } else if k == 2 {
            Some((string_of("build"), string_of("lua src/build.lua")))
        } else if k == 3 {
            Some((string_of("start"), string_of("lua src/main.lua")))
        } else {
            None
        };
        match entry {
            Some(e) => {
                r.push(e);
                assert(r@.map_values(|p: (String, String)| (p.0@, p.1@)) =~= before.map_values(
                    |p: (String, String)| (p.0@, p.1@),
                ).push((common_scripts()[k as int].0, common_scripts()[k as int].2)));
            },
            None => {},
        }
        i = i + 1;
    }
    assert(selections@.take(selections.len() as int) =~= selections@);
    r
}

/// The template menu: "None (empty project)", then "name - description"
/// for each template.
pub fn template_menu(templates: &Vec<TemplateInfo>) -> (r: Vec<String>)
    ensures
        r@.len() == templates.len() + 1,
        r@[0]@ == "None (empty project)"@,
        forall|i: int|
            0 <= i < templates.len() ==> (#[trigger] r@[i + 1])@ == templates@[i].name@ + " - "@
                + templates@[i].description@,
{
    let mut r: Vec<String> = vec![string_of("None (empty project)")];
    let mut i: usize = 0;
    while i < templates.len()
        invariant
            i <= templates.len(),
            r@.len() == i + 1,
            r@[0]@ == "None (empty project)"@,
            forall|k: int|
                0 <= k < i ==> (#[trigger] r@[k + 1])@ == templates@[k].name@ + " - "@
                    + templates@[k].description@,
        decreases templates.len() - i,
    {
        let mut v = chars_of(templates[i].name.as_str());
        push_str(&mut v, " - ");
        push_str(&mut v, templates[i].description.as_str());
        r.push(string_from(&v));
        i = i + 1;
    }
    r
}

/// The starter `src/main.lua` of a project without a template.
pub fn main_lua_content(name: &str, version: &str) -> (r: String)
    ensures
        r@ == "-- "@ + name@ + "\n-- Version: "@ + version@ + "\n\nprint(\"Hello from "@ + name@
            + "\")\n"@,
{
    let mut v = chars_of("-- ");
    push_str(&mut v, name);
    push_str(&mut v, "\n-- Version: ");
    push_str(&mut v, version);
    push_str(&mut v, "\n\nprint(\"Hello from ");
    push_str(&mut v, name);
    push_str(&mut v, "\")\n");
    string_from(&v)
}

/// The variables that a template is rendered with: project name, project
/// version and Lua version.
pub fn template_variables(name: &str, version: &str, lua_version: &str) -> (r: Vec<(String, String)>)
    ensures
        r@.len() == 3,
        r@[0].0@ == "project_name"@ && r@[0].1@ == name@,
        r@[1].0@ == "project_version"@ && r@[1].1@ == version@,
        r@[2].0@ == "lua_version"@ && r@[2].1@ == lua_version@,
{
    vec![
        (string_of("project_name"), string_of(name)),
        (string_of("project_version"), string_of(version)),
        (string_of("lua_version"), string_of(lua_version)),
    ]
}

} // verus!
