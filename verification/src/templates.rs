//! Project templates: their metadata, where user templates live, and the
//! substitution of `{{variable}}` patterns.
use vstd::prelude::*;
use crate::error::{DepotError, DepotResult};
use crate::paths::{depot_home, join_all, join_path, path_join, under_home};
use crate::text::{chars_of, push_str, replace_all, replace_str, str_eq, string_from, string_of};

verus! {

/// Template metadata stored in template.yaml
#[derive(Debug, Clone)]
pub struct TemplateMetadata {
    pub name: String,
    pub description: String,
    pub author: Option<String>,
    pub version: Option<String>,
    pub variables: Vec<TemplateVariable>,
}

/// A variable that a template uses.
#[derive(Debug, Clone)]
pub struct TemplateVariable {
    pub name: String,
    pub description: Option<String>,
    pub default: Option<String>,
    pub required: bool,
}

/// Where a template comes from.
#[derive(Debug, Clone, Copy, PartialEq, Eq, Structural)]
pub enum TemplateSource {
    Builtin,
    User,
}

/// A template found on disk.
#[derive(Debug, Clone)]
pub struct TemplateInfo {
    pub name: String,
    pub description: String,
    pub path: String,
    pub source: TemplateSource,
}

/// Discovers available templates from built-in and user locations
#[derive(Debug)]
pub struct TemplateDiscovery;

impl TemplateDiscovery {
    /// Get the user templates directory: `templates` under the Depot home.
    pub fn user_templates_dir() -> (r: DepotResult<String>)
        ensures
            under_home(r, seq!["templates"@]),
    {
        match depot_home() {
            Ok(h) => {
                let p = join_path(h.as_str(), "templates");
                proof {
                    let d = choose|d: Seq<char>| h@ == join_all(path_join(d, "depot"@), Seq::empty());
                    assert(seq!["templates"@].drop_last() =~= Seq::<Seq<char>>::empty());
                    assert(p@ == join_all(path_join(d, "depot"@), seq!["templates"@]));
                }
                Ok(p)
            },
            Err(e) => Err(e),
        }
    }
}

/// The pattern of a variable: `{{name}}`.
pub open spec fn pattern_of(name: Seq<char>) -> Seq<char> {
    "{{"@ + name + "}}"@
}

/// Whether a value is given for `name`.
pub open spec fn provided(vars: Seq<(String, String)>, name: Seq<char>) -> bool {
    exists|i: int| 0 <= i < vars.len() && (#[trigger] vars[i]).0@ == name
}

/// `s` with the given variables put in, in order.
pub open spec fn put_given(s: Seq<char>, vars: Seq<(String, String)>) -> Seq<char>
    decreases vars.len(),
{
    if vars.len() == 0 {
        s
    } else {
        replace_all(put_given(s, vars.drop_last()), pattern_of(vars.last().0@), vars.last().1@)
    }
}

/// `s` with the defaults of the variables that were not given put in.
pub open spec fn put_defaults(s: Seq<char>, vars: Seq<(String, String)>, declared: Seq<TemplateVariable>) -> Seq<char>
    decreases declared.len(),
{
    if declared.len() == 0 {
        s
    } else {
        let r = put_defaults(s, vars, declared.drop_last());
        let d = declared.last();
        match d.default {
            Some(v) => if !provided(vars, d.name@) {
                replace_all(r, pattern_of(d.name@), v@)
            } else {
                r
            },
            None => r,
        }
    }
}

/// The first declared variable that is required and not given.
pub open spec fn first_missing(vars: Seq<(String, String)>, declared: Seq<TemplateVariable>) -> Option<int>
    decreases declared.len(),
{
    if declared.len() == 0 {
        None
    } else {
        match first_missing(vars, declared.drop_last()) {
            Some(i) => Some(i),
            None => if declared.last().required && !provided(vars, declared.last().name@) {
                Some(declared.len() - 1)
            } else {
                None
            },
        }
    }
}

/// Whether a value is given for `name`.
fn is_provided(vars: &Vec<(String, String)>, name: &str) -> (r: bool)
    ensures
        r == provided(vars@, name@),
{
    let mut i: usize = 0;
    while i < vars.len()
        invariant
            i <= vars.len(),
            forall|j: int| 0 <= j < i ==> (#[trigger] vars@[j]).0@ != name@,
        decreases vars.len() - i,
    {
        if str_eq(vars[i].0.as_str(), name) {
            return true;
        }
        i = i + 1;
    }
    false
}

fn pattern_text(name: &str) -> (r: String)
    ensures
        r@ == pattern_of(name@),
        r@.len() > 0,
{
    let mut v = chars_of("{{");
    push_str(&mut v, name);
    push_str(&mut v, "}}");
    proof {
        reveal_strlit("{{");
    }
    string_from(&v)
}

/// Renders a template to a target directory
#[derive(Debug)]
pub struct TemplateRenderer {
    pub template_dir: String,
    pub metadata: TemplateMetadata,
}

impl TemplateRenderer {
    /// A renderer for the template in `template_dir`, described by its
    /// metadata.
    pub fn new(template_dir: String, metadata: TemplateMetadata) -> (r: Self)
        ensures
            r.template_dir@ == template_dir@,
            r.metadata == metadata,
    {
        TemplateRenderer { template_dir, metadata }
    }

    /// Check that every required variable is given; the error names the
    /// first one that is not.
    pub fn check_required(&self, variables: &Vec<(String, String)>) -> (r: DepotResult<()>)
        ensures
            match first_missing(variables@, self.metadata.variables@) {
                Some(i) => r matches Err(DepotError::Config(m)) && m@ == "Required template variable '"@
                    + self.metadata.variables@[i].name@ + "' not provided"@,
                None => r is Ok,
            },
    {
        let declared = &self.metadata.variables;
        let mut i: usize = 0;
        assert(declared@.take(0) =~= Seq::<TemplateVariable>::empty());
        while i < declared.len()
            invariant
                i <= declared.len(),
                declared == &self.metadata.variables,
                first_missing(variables@, declared@.take(i as int)) is None,
            decreases declared.len() - i,
        {
            assert(declared@.take(i as int + 1).drop_last() =~= declared@.take(i as int));
            let var = &declared[i];
            if var.required && !is_provided(variables, var.name.as_str()) {
                proof {
                    lemma_missing_prefix(variables@, declared@, i as int + 1);
                }
                let mut m = chars_of("Required template variable '");
                push_str(&mut m, var.name.as_str());
                push_str(&mut m, "' not provided");
                return Err(DepotError::Config(string_from(&m)));
            }
            i = i + 1;
        }
        assert(declared@.take(declared.len() as int) =~= declared@);
        Ok(())
    }

    /// Put the given variables into `content`, in order, then the defaults of
    /// the declared variables that were not given.
    pub fn substitute_variables(&self, content: &str, variables: &Vec<(String, String)>) -> (r: String)
        ensures
            r@ == put_defaults(put_given(content@, variables@), variables@, self.metadata.variables@),
    {
        let mut result = string_of(content);
        let mut i: usize = 0;
        assert(variables@.take(0) =~= Seq::<(String, String)>::empty());
        while i < variables.len()
            invariant
                i <= variables.len(),
                result@ == put_given(content@, variables@.take(i as int)),
            decreases variables.len() - i,
        {
            assert(variables@.take(i as int + 1).drop_last() =~= variables@.take(i as int));
            let pattern = pattern_text(variables[i].0.as_str());
            result = replace_str(result.as_str(), pattern.as_str(), variables[i].1.as_str());
            i = i + 1;
        }
        assert(variables@.take(variables.len() as int) =~= variables@);
        let ghost given = result@;
        let declared = &self.metadata.variables;
        let mut j: usize = 0;
        assert(declared@.take(0) =~= Seq::<TemplateVariable>::empty());
        while j < declared.len()
            invariant
                j <= declared.len(),
                declared == &self.metadata.variables,
                result@ == put_defaults(given, variables@, declared@.take(j as int)),
            decreases declared.len() - j,
        {
            assert(declared@.take(j as int + 1).drop_last() =~= declared@.take(j as int));
            let var = &declared[j];
            match &var.default {
                Some(d) => {
                    if !is_provided(variables, var.name.as_str()) {
                        let pattern = pattern_text(var.name.as_str());
                        result = replace_str(result.as_str(), pattern.as_str(), d.as_str());
                    }
                },
                None => {},
            }
            j = j + 1;
        }
        assert(declared@.take(declared.len() as int) =~= declared@);
        result
    }
}

proof fn lemma_missing_prefix(vars: Seq<(String, String)>, declared: Seq<TemplateVariable>, n: int)
    requires
        0 < n <= declared.len(),
        first_missing(vars, declared.take(n)) is Some,
    ensures
        first_missing(vars, declared) == first_missing(vars, declared.take(n)),
    decreases declared.len() - n,
{
    if n < declared.len() {
        assert(declared.take(n + 1).drop_last() =~= declared.take(n));
        lemma_missing_prefix(vars, declared, n + 1);
    } else {
        assert(declared.take(n) =~= declared);
    }
}

/// Whether rendering a template copies a directory entry: not its
/// `template.yaml`, nor hidden entries.
pub fn renders_entry(file_name: &str) -> (r: bool)
    ensures
        r == !(file_name@ == "template.yaml"@ || crate::text::starts_with(file_name@, "."@)),
{
    let c = crate::text::chars_of(file_name);
    !(crate::text::str_eq(file_name, "template.yaml") || crate::text::starts_with_str(c.as_slice(), "."))
}

} // verus!
