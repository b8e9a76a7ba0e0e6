//! Script commands: how a command line splits into words, how a command
//! is joined from its parts, and which script a name selects.
use vstd::prelude::*;
use crate::error::{DepotError, DepotResult};
use crate::store::Store;
use crate::text::{chars_of, is_ws, is_ws_char, join, push_str, string_from, string_of, texts};

verus! {

/// The words of `s`: its maximal runs of non-whitespace characters (what
/// `str::split_whitespace` yields).
pub open spec fn words(s: Seq<char>) -> Seq<Seq<char>>
    decreases s.len(),
{
    if s.len() == 0 {
        Seq::empty()
    } else {
        let w = words(s.drop_last());
        let c = s.last();
        if is_ws(c) {
            w
        } else if s.len() >= 2 && !is_ws(s[s.len() - 2]) {
            w.update(w.len() - 1, w.last().push(c))
        } else {
            w.push(seq![c])
        }
    }
}

proof fn lemma_words_nonempty(s: Seq<char>)
    requires
        s.len() > 0,
        !is_ws(s.last()),
    ensures
        words(s).len() > 0,
    decreases s.len(),
{
    if s.len() >= 2 && !is_ws(s[s.len() - 2]) {
        assert(s.drop_last().last() == s[s.len() - 2]);
        lemma_words_nonempty(s.drop_last());
    }
}

/// Split a command line into words.
pub fn split_words(s: &str) -> (r: Vec<String>)
    ensures
        texts(r@) == words(s@),
{
    let v = chars_of(s);
    let mut ws: Vec<Vec<char>> = Vec::new();
    let mut i: usize = 0;
    assert(v@.take(0) =~= Seq::<char>::empty());
    while i < v.len()
        invariant
            i <= v.len(),
            v@ == s@,
            ws.deep_view() == words(v@.take(i as int)),
            i > 0 && !is_ws(v@[i - 1]) ==> ws.len() > 0,
        decreases v.len() - i,
    {
        let c = v[i];
        let ghost t = v@.take(i as int + 1);
        assert(t.drop_last() =~= v@.take(i as int));
        assert(t.last() == c);
        if !is_ws_char(c) {
            if i > 0 && !is_ws_char(v[i - 1]) {
                assert(t[t.len() - 2] == v@[i - 1]);
                let ghost before = ws.deep_view();
                let last = ws.len() - 1;
                let mut word = ws.pop().unwrap();
                word.push(c);
                ws.push(word);
                assert(ws.deep_view() =~~= before.update(before.len() - 1, before.last().push(c)));
            } else {
                let ghost before = ws.deep_view();
                if i > 0 {
                    assert(t[t.len() - 2] == v@[i - 1]);
                }
                let mut word: Vec<char> = Vec::new();
                word.push(c);
                ws.push(word);
                assert(ws.deep_view() =~~= before.push(seq![c]));
            }
        }
        i = i + 1;
    }
    assert(v@.take(v.len() as int) =~= v@);
    let mut r: Vec<String> = Vec::new();
    let mut j: usize = 0;
    while j < ws.len()
        invariant
            j <= ws.len(),
            ws.deep_view() == words(s@),
            texts(r@) == ws.deep_view().take(j as int),
        decreases ws.len() - j,
    {
        let w = string_from(&ws[j]);
        assert(ws.deep_view()[j as int] == ws@[j as int]@);
        let ghost before = r@;
        r.push(w);
        assert(r@ == before.push(w));
        assert(texts(r@) =~= texts(before).push(ws.deep_view()[j as int]));
        assert(ws.deep_view().take(j as int + 1) =~= ws.deep_view().take(j as int).push(ws.deep_view()[j as int]));
        j = j + 1;
    }
    assert(ws.deep_view().take(ws.len() as int) =~= ws.deep_view());
    r
}

/// Join the parts of a command with spaces.
pub fn join_command(parts: &[String]) -> (r: String)
    ensures
        r@ == join(texts(parts@), " "@),
{
    crate::text::join_texts(parts, " ")
}

/// The command line that `depot exec` runs: the parts joined with spaces,
/// or an error when there are none.
pub fn exec_command_line(command: &[String]) -> (r: DepotResult<String>)
    ensures
        command.len() == 0 ==> (r matches Err(DepotError::Package(m)) && m@
            == "No command provided"@),
        command.len() > 0 ==> (r matches Ok(c) && c@ == join(texts(command@), " "@)),
{
    if command.len() == 0 {
        return Err(DepotError::Package(string_of("No command provided")));
    }
    Ok(join_command(command))
}

/// The command of a script, found by name among a package's scripts; an
/// error when there is no such script or its command has no words.
pub fn resolve_script(scripts: &Store<String>, script_name: &str) -> (r: DepotResult<String>)
    ensures
        !scripts@.contains_key(script_name@) ==> (r matches Err(DepotError::Package(m)) && m@
            == "Script '"@ + script_name@ + "' not found in package.yaml"@),
        scripts@.contains_key(script_name@) && words(scripts@[script_name@]).len() == 0 ==> (
        r matches Err(DepotError::Package(m)) && m@ == "Script '"@ + script_name@
            + "' has no command"@),
        scripts@.contains_key(script_name@) && words(scripts@[script_name@]).len() > 0 ==> (
        r matches Ok(c) && c@ == scripts@[script_name@]),
{
    match scripts.get(script_name) {
        None => {
            let mut m = chars_of("Script '");
            push_str(&mut m, script_name);
            push_str(&mut m, "' not found in package.yaml");
            Err(DepotError::Package(string_from(&m)))
        },
        Some(command) => {
            let parts = split_words(command.as_str());
            if parts.len() == 0 {
                let mut m = chars_of("Script '");
                push_str(&mut m, script_name);
                push_str(&mut m, "' has no command");
                Err(DepotError::Package(string_from(&m)))
            } else {
                Ok(command.clone())
            }
        },
    }
}

} // verus!
