//! Plugins: where a plugin's executable may be, the environment that its
//! settings give it, and what the user is told when running it fails.
use vstd::prelude::*;
use crate::paths::{join_path, path_join};
use crate::registry::opt_text;
use crate::error::{DepotError, DepotResult};
use crate::store::{Store, entries_map, unique_keys};
use crate::text::{
    chars_of, decimal, decimal_chars, push_chars, push_str, replace_all, replace_str, string_from,
    string_of,
};

verus! {

/// The file name of a plugin's executable: "lpm-" and its name.
pub open spec fn plugin_binary(name: Seq<char>) -> Seq<char> {
    "lpm-"@ + name
}

/// The places where a plugin's executable is looked for before `PATH`, in
/// order: the bin directory of the Depot home, then the legacy
/// `~/.lpm/bin`.
pub fn plugin_candidates(plugin_name: &str, depot_home: Option<&str>, home: Option<&str>) -> (r: Vec<
    String,
>)
    ensures
        r@.len() == (if depot_home is Some { 1int } else { 0 }) + (if home is Some { 1int } else { 0 }),
        depot_home is Some ==> r@[0]@ == path_join(
            path_join(depot_home.unwrap()@, "bin"@),
            plugin_binary(plugin_name@),
        ),
        home is Some ==> r@[r@.len() - 1]@ == path_join(
            path_join(path_join(home.unwrap()@, ".lpm"@), "bin"@),
            plugin_binary(plugin_name@),
        ),
{
    let mut bin = chars_of("lpm-");
    push_str(&mut bin, plugin_name);
    let binary = string_from(&bin);
    let mut r: Vec<String> = Vec::new();
    match depot_home {
        Some(h) => {
            let b = join_path(h, "bin");
            r.push(join_path(b.as_str(), binary.as_str()));
        },
        None => {},
    }
    match home {
        Some(h) => {
            let l = join_path(h, ".lpm");
            let b = join_path(l.as_str(), "bin");
            r.push(join_path(b.as_str(), binary.as_str()));
        },
        None => {},
    }
    r
}

/// `str::to_uppercase`: the Unicode uppercase of a text.
pub uninterp spec fn uppercase_of(s: Seq<char>) -> Seq<char>;

/// `str::to_uppercase`.
#[verifier::external_body]
fn to_uppercase(s: &str) -> (r: String)
    ensures
        r@ == uppercase_of(s@),
{
    s.to_uppercase()
}

/// The value of a plugin setting.
#[derive(Debug, Clone)]
pub enum SettingValue {
    Text(String),
    Integer(i64),
    Boolean(bool),
    /// Any other value (a list, a table, nothing).
    Other,
}

impl View for SettingValue {
    type V = SettingValue;

    open spec fn view(&self) -> SettingValue {
        *self
    }
}

/// The decimal notation of a signed number.
pub open spec fn signed_text(n: int) -> Seq<char> {
    if n < 0 {
        seq!['-'] + decimal((-n) as nat)
    } else {
        decimal(n as nat)
    }
}

/// The environment variable that passes a setting to a plugin:
/// `LPM_PLUGIN_<NAME>_<KEY>`, upper case, with `-` in the name as `_`.
pub open spec fn setting_variable(plugin_name: Seq<char>, key: Seq<char>) -> Seq<char> {
    "LPM_PLUGIN_"@ + replace_all(uppercase_of(plugin_name), "-"@, "_"@) + "_"@ + uppercase_of(key)
}

/// The text of a setting's value in the environment, if it has one.
pub open spec fn setting_text(v: SettingValue) -> Option<Seq<char>> {
    match v {
        SettingValue::Text(s) => Some(s@),
        SettingValue::Integer(i) => Some(signed_text(i as int)),
        SettingValue::Boolean(b) => Some(if b { "1"@ } else { "0"@ }),
        SettingValue::Other => None,
    }
}

/// The environment variable and value that pass a setting to a plugin, if
/// the value can be passed.
pub fn setting_env(plugin_name: &str, key: &str, value: &SettingValue) -> (r: Option<(String, String)>)
    ensures
        match setting_text(*value) {
            Some(t) => r matches Some(p) && p.0@ == setting_variable(plugin_name@, key@) && p.1@ == t,
            None => r is None,
        },
{
    let text: String = match value {
        SettingValue::Text(s) => s.clone(),
        SettingValue::Integer(i) => {
            let n: i64 = *i;
            if n < 0 {
                let mag: u64 = if n == i64::MIN { 9223372036854775808u64 } else { (-n) as u64 };
                let mut v: Vec<char> = Vec::new();
                v.push('-');
                let d = decimal_chars(mag);
                push_chars(&mut v, d.as_slice());
                string_from(&v)
            } else {
                string_from(&decimal_chars(n as u64))
            }
        },
        SettingValue::Boolean(b) => if *b {
            string_of("1")
        } else {
            string_of("0")
        },
        SettingValue::Other => return None,
    };
    let upper_name = to_uppercase(plugin_name);
    proof {
        reveal_strlit("-");
    }
    let name = replace_str(upper_name.as_str(), "-", "_");
    let upper_key = to_uppercase(key);
    let mut v = chars_of("LPM_PLUGIN_");
    push_str(&mut v, name.as_str());
    push_str(&mut v, "_");
    push_str(&mut v, upper_key.as_str());
    Some((string_from(&v), text))
}

/// The message when a plugin's file is not executable.
pub open spec fn not_executable_text(name: Seq<char>, path: Seq<char>) -> Seq<char> {
    "Plugin '"@ + name + "' is not executable.\n\n  Fix: chmod +x "@ + path
        + "\n\n  Or reinstall the plugin: lpm install -g lpm-"@ + name
}

/// The message when a plugin's file is not executable.
pub fn not_executable_message(name: &str, path: &str) -> (r: String)
    ensures
        r@ == not_executable_text(name@, path@),
{
    let mut v = chars_of("Plugin '");
    push_str(&mut v, name);
    push_str(&mut v, "' is not executable.\n\n  Fix: chmod +x ");
    push_str(&mut v, path);
    push_str(&mut v, "\n\n  Or reinstall the plugin: lpm install -g lpm-");
    push_str(&mut v, name);
    string_from(&v)
}

/// Why starting a plugin failed.
#[derive(Debug, Clone)]
pub enum SpawnFailure {
    PermissionDenied,
    NotFound,
    /// Any other failure, with its message.
    Other(String),
}

/// The message when starting a plugin failed.
pub open spec fn spawn_failure_text(name: Seq<char>, path: Seq<char>, f: SpawnFailure) -> Seq<char> {
    match f {
        SpawnFailure::PermissionDenied => "Permission denied executing plugin '"@ + name
            + "'.\n\n  Fix: chmod +x "@ + path + "\n\n  Or reinstall: lpm install -g lpm-"@ + name,
        SpawnFailure::NotFound => "Plugin '"@ + name + "' executable not found at "@ + path
            + ".\n\n  Fix: Reinstall the plugin: lpm install -g lpm-"@ + name,
        SpawnFailure::Other(e) => "Failed to execute plugin '"@ + name + "': "@ + e@
            + ".\n\n  Plugin path: "@ + path
            + "\n\n  Fix: Check plugin installation or reinstall: lpm install -g lpm-"@ + name,
    }
}

/// The message when starting a plugin failed.
pub fn spawn_failure_message(name: &str, path: &str, failure: &SpawnFailure) -> (r: String)
    ensures
        r@ == spawn_failure_text(name@, path@, *failure),
{
    let mut v: Vec<char>;
    match failure {
        SpawnFailure::PermissionDenied => {
            v = chars_of("Permission denied executing plugin '");
            push_str(&mut v, name);
            push_str(&mut v, "'.\n\n  Fix: chmod +x ");
            push_str(&mut v, path);
            push_str(&mut v, "\n\n  Or reinstall: lpm install -g lpm-");
            push_str(&mut v, name);
        },
        SpawnFailure::NotFound => {
            v = chars_of("Plugin '");
            push_str(&mut v, name);
            push_str(&mut v, "' executable not found at ");
            push_str(&mut v, path);
            push_str(&mut v, ".\n\n  Fix: Reinstall the plugin: lpm install -g lpm-");
            push_str(&mut v, name);
        },
        SpawnFailure::Other(e) => {
            v = chars_of("Failed to execute plugin '");
            push_str(&mut v, name);
            push_str(&mut v, "': ");
            push_str(&mut v, e.as_str());
            push_str(&mut v, ".\n\n  Plugin path: ");
            push_str(&mut v, path);
            push_str(&mut v, "\n\n  Fix: Check plugin installation or reinstall: lpm install -g lpm-");
            push_str(&mut v, name);
        },
    }
    string_from(&v)
}

/// The advice that follows a plugin's exit code.
pub open spec fn exit_advice(name: Seq<char>, path: Seq<char>, code: i32) -> Seq<char> {
    if code == 1 {
        "\n\n  This usually indicates a plugin error. Check:"@ + "\n    - Run 'lpm "@ + name
            + " --help' for usage"@ + "\n    - Check plugin documentation"@
            + "\n    - Verify plugin is up to date: lpm install -g lpm-"@ + name
    } else if code == 2 {
        "\n\n  This usually indicates invalid arguments or configuration."@ + "\n    - Run 'lpm "@
            + name + " --help' to see valid options"@
    } else if code == 126 {
        "\n\n  Plugin is not executable."@ + "\n    Fix: chmod +x "@ + path
    } else if code == 127 {
        "\n\n  Plugin or its dependencies not found."@ + "\n    Fix: Reinstall: lpm install -g lpm-"@
            + name
    } else {
        "\n\n  Check plugin documentation or try:"@ + "\n    - lpm "@ + name + " --help"@
            + "\n    - Reinstall: lpm install -g lpm-"@ + name
    }
}

/// The message when a plugin exits with a failure code.
pub open spec fn exit_text(name: Seq<char>, path: Seq<char>, code: i32) -> Seq<char> {
    "Plugin '"@ + name + "' exited with code "@ + crate::error::signed_decimal(code) + exit_advice(
        name,
        path,
        code,
    )
}

/// The message when a plugin exits with a failure code.
pub fn exit_message(name: &str, path: &str, code: i32) -> (r: String)
    ensures
        r@ == exit_text(name@, path@, code),
{
    let mut v = chars_of("Plugin '");
    push_str(&mut v, name);
    push_str(&mut v, "' exited with code ");
    let c = crate::error::signed_decimal_chars(code);
    push_chars(&mut v, c.as_slice());
    let ghost head = v@;
    if code == 1 {
        push_str(&mut v, "\n\n  This usually indicates a plugin error. Check:");
        push_str(&mut v, "\n    - Run 'lpm ");
        push_str(&mut v, name);
        push_str(&mut v, " --help' for usage");
        push_str(&mut v, "\n    - Check plugin documentation");
        push_str(&mut v, "\n    - Verify plugin is up to date: lpm install -g lpm-");
        push_str(&mut v, name);
    } else if code == 2 {
        push_str(&mut v, "\n\n  This usually indicates invalid arguments or configuration.");
        push_str(&mut v, "\n    - Run 'lpm ");
        push_str(&mut v, name);
        push_str(&mut v, " --help' to see valid options");
    } else if code == 126 {
        push_str(&mut v, "\n\n  Plugin is not executable.");
        push_str(&mut v, "\n    Fix: chmod +x ");
        push_str(&mut v, path);
    } else if code == 127 {
        push_str(&mut v, "\n\n  Plugin or its dependencies not found.");
        push_str(&mut v, "\n    Fix: Reinstall: lpm install -g lpm-");
        push_str(&mut v, name);
    } else {
        push_str(&mut v, "\n\n  Check plugin documentation or try:");
        push_str(&mut v, "\n    - lpm ");
        push_str(&mut v, name);
        push_str(&mut v, " --help");
        push_str(&mut v, "\n    - Reinstall: lpm install -g lpm-");
        push_str(&mut v, name);
    }
    assert(v@ =~= head + exit_advice(name@, path@, code));
    string_from(&v)
}

/// The message when a plugin is not found: how to install it and where
/// plugins are looked for.
pub open spec fn not_found_text(name: Seq<char>, depot_home: Option<Seq<char>>, home: Option<Seq<char>>) -> Seq<char> {
    "Plugin '"@ + name + "' not found.\n\n"@ + "  Install it with: lpm install -g lpm-"@ + name + "\n"@
        + (match depot_home {
        Some(h) => "\n  Expected location: "@ + path_join(path_join(h, "bin"@), plugin_binary(name))
            + "\n"@,
        None => Seq::empty(),
    }) + "\n  Available plugins are installed in:"@ + (match depot_home {
        Some(h) => "\n    - "@ + h + "/bin/"@,
        None => Seq::empty(),
    }) + (match home {
        Some(h) => "\n    - "@ + h + "/.lpm/bin/ (legacy)"@,
        None => Seq::empty(),
    }) + "\n    - PATH"@
}

/// The message when a plugin is not found.
pub fn not_found_message(name: &str, depot_home: Option<&str>, home: Option<&str>) -> (r: String)
    ensures
        r@ == not_found_text(
            name@,
            match depot_home {
                Some(h) => Some(h@),
                None => None,
            },
            match home {
                Some(h) => Some(h@),
                None => None,
            },
        ),
{
    let mut v = chars_of("Plugin '");
    push_str(&mut v, name);
    push_str(&mut v, "' not found.\n\n");
    push_str(&mut v, "  Install it with: lpm install -g lpm-");
    push_str(&mut v, name);
    push_str(&mut v, "\n");
    let ghost a = v@;
    match depot_home {
        Some(h) => {
            push_str(&mut v, "\n  Expected location: ");
            let b = join_path(h, "bin");
            let mut bin = chars_of("lpm-");
            push_str(&mut bin, name);
            let binary = string_from(&bin);
            let p = join_path(b.as_str(), binary.as_str());
            push_str(&mut v, p.as_str());
            push_str(&mut v, "\n");
        },
        None => {},
    }
    push_str(&mut v, "\n  Available plugins are installed in:");
    let ghost b = v@;
    match depot_home {
        Some(h) => {
            push_str(&mut v, "\n    - ");
            push_str(&mut v, h);
            push_str(&mut v, "/bin/");
        },
        None => {},
    }
    let ghost c = v@;
    match home {
        Some(h) => {
            push_str(&mut v, "\n    - ");
            push_str(&mut v, h);
            push_str(&mut v, "/.lpm/bin/ (legacy)");
        },
        None => {},
    }
    push_str(&mut v, "\n    - PATH");
    string_from(&v)
}

/// Whether a file mode lets its owner, its group or others execute it.
pub fn has_execute_permission(mode: u32) -> (r: bool)
    ensures
        r == (mode & 0o111 != 0),
{
    (mode & 0o111) != 0
}

/// The plugin that an executable in a plugin directory provides: its file
/// name without the `lpm-` prefix, when it has one.
pub fn plugin_of_file(file_name: &str) -> (r: Option<String>)
    ensures
        match r {
            Some(p) => crate::text::starts_with(file_name@, "lpm-"@) && p@ == file_name@.skip(4),
            None => !crate::text::starts_with(file_name@, "lpm-"@),
        },
{
    let c = chars_of(file_name);
    if crate::text::starts_with_str(c.as_slice(), "lpm-") {
        proof {
            reveal_strlit("lpm-");
        }
        let rest = crate::text::slice_chars(c.as_slice(), 4, c.len());
        return Some(string_from(&rest));
    }
    None
}

/// Plugin configuration stored per-plugin
#[derive(Debug)]
pub struct PluginConfig {
    /// Plugin name
    pub plugin_name: String,
    /// Configuration key-value pairs
    pub settings: Store<SettingValue>,
}

/// Whether the variable and value `e` pass one of `settings` to the
/// plugin `plugin_name`.
pub open spec fn passes_setting(
    settings: Map<Seq<char>, SettingValue>,
    plugin_name: Seq<char>,
    e: (String, String),
) -> bool {
    exists|k: Seq<char>|
        #[trigger] settings.contains_key(k) && setting_text(settings[k]) == Some(e.1@) && e.0@
            == setting_variable(plugin_name, k)
}

/// Where a plugin's configuration is kept, under the Depot home.
pub open spec fn plugin_config_path(depot_home: Seq<char>, plugin_name: Seq<char>) -> Seq<char> {
    path_join(path_join(depot_home, "plugins"@), plugin_name + ".config.yaml"@)
}

impl PluginConfig {
    /// The configuration of a plugin that has none saved: no settings.
    pub fn new(plugin_name: &str) -> (r: Self)
        ensures
            r.plugin_name@ == plugin_name@,
            r.settings@ == Map::<Seq<char>, SettingValue>::empty(),
    {
        PluginConfig { plugin_name: string_of(plugin_name), settings: Store::new() }
    }

    /// Where a plugin's configuration is kept under the Depot home
    /// `depot_home`.
    pub fn config_path_in(depot_home: &str, plugin_name: &str) -> (r: String)
        ensures
            r@ == plugin_config_path(depot_home@, plugin_name@),
    {
        let dir = join_path(depot_home, "plugins");
        let mut f = chars_of(plugin_name);
        push_str(&mut f, ".config.yaml");
        let file = string_from(&f);
        join_path(dir.as_str(), file.as_str())
    }

    /// Get configuration path for a plugin
    pub fn config_path(plugin_name: &str) -> (r: DepotResult<String>)
        ensures
            match r {
                Ok(p) => exists|h: Seq<char>| p@ == plugin_config_path(h, plugin_name@),
                Err(e) => e matches DepotError::Path(m) && m@ == "Could not determine config directory"@,
            },
    {
        match crate::paths::depot_home() {
            Ok(h) => Ok(Self::config_path_in(h.as_str(), plugin_name)),
            Err(e) => Err(e),
        }
    }

    /// The text setting `key`, if it is set to a text.
    pub fn get_text(&self, key: &str) -> (r: Option<String>)
        ensures
            match r {
                Some(t) => self.settings@.contains_key(key@) && (self.settings@[key@] matches SettingValue::Text(s) && s@ == t@),
                None => !(self.settings@.contains_key(key@) && self.settings@[key@] is Text),
            },
    {
        match self.settings.get(key) {
            Some(SettingValue::Text(t)) => Some(t.clone()),
            _ => None,
        }
    }

    /// The integer setting `key`, if it is set to an integer.
    pub fn get_integer(&self, key: &str) -> (r: Option<i64>)
        ensures
            match r {
                Some(n) => self.settings@.contains_key(key@) && self.settings@[key@] == SettingValue::Integer(n),
                None => !(self.settings@.contains_key(key@) && self.settings@[key@] is Integer),
            },
    {
        match self.settings.get(key) {
            Some(SettingValue::Integer(n)) => Some(*n),
            _ => None,
        }
    }

    /// The boolean setting `key`, if it is set to a boolean.
    pub fn get_boolean(&self, key: &str) -> (r: Option<bool>)
        ensures
            match r {
                Some(b) => self.settings@.contains_key(key@) && self.settings@[key@] == SettingValue::Boolean(b),
                None => !(self.settings@.contains_key(key@) && self.settings@[key@] is Boolean),
            },
    {
        match self.settings.get(key) {
            Some(SettingValue::Boolean(b)) => Some(*b),
            _ => None,
        }
    }

    /// Set a setting value
    pub fn set(&mut self, key: String, value: SettingValue)
        ensures
            final(self).plugin_name@ == old(self).plugin_name@,
            final(self).settings@ == old(self).settings@.insert(key@, value),
    {
        self.settings.insert(key, value);
    }

    /// The environment that passes this plugin's settings to it: one
    /// variable for each setting whose value can be passed, in the order
    /// of the settings.
    pub fn environment(&self) -> (r: Vec<(String, String)>)
        ensures
            forall|i: int| 0 <= i < r@.len() ==> passes_setting(self.settings@, self.plugin_name@, #[trigger] r@[i]),
            forall|k: Seq<char>|
                #[trigger] self.settings@.contains_key(k) && setting_text(self.settings@[k]) is Some
                    ==> exists|i: int| 0 <= i < r@.len() && r@[i].0@ == setting_variable(
                    self.plugin_name@,
                    k,
                ),
    {
        let es = self.settings.entries();
        let mut r: Vec<(String, String)> = Vec::new();
        let mut i: usize = 0;
        while i < es.len()
            invariant
                i <= es.len(),
                unique_keys(es@),
                entries_map(es@) == self.settings@,
                forall|j: int| 0 <= j < r@.len() ==> passes_setting(self.settings@, self.plugin_name@, #[trigger] r@[j]),
                forall|t: int|
                    0 <= t < i && setting_text(#[trigger] es@[t].1) is Some ==> exists|j: int|
                        0 <= j < r@.len() && r@[j].0@ == setting_variable(self.plugin_name@, es@[t].0@),
            decreases es.len() - i,
        {
            proof {
                crate::store::lemma_value_at(es@, i as int);
            }
            let (k, v) = &es[i];
            match setting_env(self.plugin_name.as_str(), k.as_str(), v) {
                Some(p) => {
                    let ghost before = r@;
                    r.push(p);
                    proof {
                        assert(self.settings@.contains_key(es@[i as int].0@));
                        assert forall|j: int| 0 <= j < r@.len() implies passes_setting(self.settings@, self.plugin_name@, #[trigger] r@[j]) by {
                            if j < before.len() {
                                assert(r@[j] == before[j]);
                            } else {
                                assert(self.settings@.contains_key(es@[i as int].0@));
                            }
                        }
                        assert forall|t: int|
                            0 <= t < i + 1 && setting_text(#[trigger] es@[t].1) is Some implies exists|j: int|
                                0 <= j < r@.len() && r@[j].0@ == setting_variable(self.plugin_name@, es@[t].0@) by {
                            if t < i {
                                let j = choose|j: int| 0 <= j < before.len() && before[j].0@ == setting_variable(self.plugin_name@, es@[t].0@);
                                assert(r@[j] == before[j]);
                            } else {
                                assert(r@[before.len() as int] == p);
                            }
                        }
                    }
                },
                None => {},
            }
            i = i + 1;
        }
        proof {
            assert forall|k: Seq<char>|
                #[trigger] self.settings@.contains_key(k) && setting_text(self.settings@[k]) is Some
                    implies exists|j: int| 0 <= j < r@.len() && r@[j].0@ == setting_variable(
                    self.plugin_name@,
                    k,
                ) by {
                assert(crate::store::has_key(es@, k));
                let t = choose|t: int| 0 <= t < es@.len() && (#[trigger] es@[t]).0@ == k;
                crate::store::lemma_value_at(es@, t);
            }
        }
        r
    }
}

} // verus!
