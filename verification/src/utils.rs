//! Expansion of `${NAME}` references against a table of variables.

use vstd::hash_map::StringHashMap;
use vstd::prelude::*;

use crate::text::{chars_of, push_char};

verus! {

/// Index of the first `}` at or after `from`, or `s.len()` when there is none.
pub open spec fn closing_brace(s: Seq<char>, from: int) -> int
    decreases s.len() - from,
{
    if from >= s.len() {
        s.len() as int
    } else if s[from] == '}' {
        from
    } else {
        closing_brace(s, from + 1)
    }
}

/// Whether a complete reference `${...}` starts at position `at`.
pub open spec fn reference_at(s: Seq<char>, at: int) -> bool {
    &&& 0 <= at
    &&& at + 1 < s.len()
    &&& s[at] == '$'
    &&& s[at + 1] == '{'
    &&& closing_brace(s, at + 2) < s.len()
}

/// The value a variable name stands for: its entry in the table, or the
/// empty text when the table has none.
pub open spec fn variable_value(vars: Map<Seq<char>, String>, name: Seq<char>) -> Seq<char> {
    if vars.contains_key(name) {
        vars[name]@
    } else {
        Seq::empty()
    }
}

/// The expansion of the text `s` from position `from` on.
///
/// A reference `${NAME}` is replaced by the value of `NAME`, where `NAME` is
/// everything up to the nearest `}`. Replacement text is not expanded again.
/// A `$` that opens no complete reference stands for itself, as does every
/// other character.
pub open spec fn expand_from(s: Seq<char>, vars: Map<Seq<char>, String>, from: int) -> Seq<char>
    decreases s.len() - from,
{
    if from < 0 || from >= s.len() {
        Seq::empty()
    } else if reference_at(s, from) {
        let close = closing_brace(s, from + 2);
        proof {
            lemma_closing_brace(s, from + 2);
        }
        variable_value(vars, s.subrange(from + 2, close)) + expand_from(s, vars, close + 1)
    } else {
        seq![s[from]] + expand_from(s, vars, from + 1)
    }
}

/// The expansion of a whole text.
pub open spec fn expanded(s: Seq<char>, vars: Map<Seq<char>, String>) -> Seq<char> {
    expand_from(s, vars, 0)
}

/// `closing_brace` finds a brace, or the end, and nothing before it is a brace.
pub proof fn lemma_closing_brace(s: Seq<char>, from: int)
    requires
        0 <= from <= s.len(),
    ensures
        from <= closing_brace(s, from) <= s.len(),
        closing_brace(s, from) < s.len() ==> s[closing_brace(s, from)] == '}',
        forall|k: int| from <= k < closing_brace(s, from) ==> s[k] != '}',
    decreases s.len() - from,
{
    if from < s.len() && s[from] != '}' {
        lemma_closing_brace(s, from + 1);
    }
}

/// Builds a variable table from `(name, value)` pairs. Where a name occurs
/// more than once, the last pair wins.
pub fn environment(pairs: Vec<(String, String)>) -> (vars: StringHashMap<String>)
    ensures
        vars@ == environment_of(pairs@),
{
    let mut vars: StringHashMap<String> = StringHashMap::new();
    let mut pairs = pairs;
    let ghost all = pairs@;
    let mut taken: Vec<(String, String)> = Vec::new();
    // Pairs are moved out from the back and replayed front to back.
    while pairs.len() > 0
        invariant
            all == pairs@ + taken@.reverse(),
        decreases pairs.len(),
    {
        let pair = pairs.pop().unwrap();
        taken.push(pair);
    }
    let ghost done: Seq<(String, String)> = Seq::empty();
    while taken.len() > 0
        invariant
            all == done + taken@.reverse(),
            vars@ == environment_of(done),
        decreases taken.len(),
    {
        let (name, value) = taken.pop().unwrap();
        vars.insert(name, value);
        proof {
            let next = done.push((name, value));
            assert(next.drop_last() =~= done);
            done = next;
        }
    }
    vars
}

/// The table that a sequence of `(name, value)` pairs describes.
pub open spec fn environment_of(pairs: Seq<(String, String)>) -> Map<Seq<char>, String>
    decreases pairs.len(),
{
    if pairs.len() == 0 {
        Map::empty()
    } else {
        environment_of(pairs.drop_last()).insert(pairs.last().0@, pairs.last().1)
    }
}

/// Replaces every `${NAME}` in `str_raw` by the value of `NAME` in
/// `env_vars`, or by nothing when `NAME` is not in the table.
pub fn expand_env_vars(str_raw: &str, env_vars: &StringHashMap<String>) -> (out: String)
    ensures
        out@ == expanded(str_raw@, env_vars@),
{
    let chars = chars_of(str_raw);
    let mut parse_result = String::new();
    let mut i: usize = 0;

    while i < chars.len()
        invariant
            chars@ == str_raw@,
            i <= chars.len(),
            expanded(str_raw@, env_vars@) == parse_result@ + expand_from(
                str_raw@,
                env_vars@,
                i as int,
            ),
        decreases chars.len() - i,
    {
        if chars[i] == '$' && i + 1 < chars.len() && chars[i + 1] == '{' {
            let mut var_name_idx: usize = i + 2;
            let mut var_name = String::new();
            while var_name_idx < chars.len() && chars[var_name_idx] != '}'
                invariant
                    i + 2 <= var_name_idx <= chars.len(),
                    var_name@ == chars@.subrange(i + 2, var_name_idx as int),
                    closing_brace(chars@, i + 2) == closing_brace(chars@, var_name_idx as int),
                decreases chars.len() - var_name_idx,
            {
                push_char(&mut var_name, chars[var_name_idx]);
                var_name_idx += 1;
            }

            if var_name_idx < chars.len() {
                if let Some(parsed_data) = env_vars.get(var_name.as_str()) {
                    parse_result.append(parsed_data.as_str());
                }
                i = var_name_idx + 1;
            } else {
                push_char(&mut parse_result, '$');
                i += 1;
            }
        } else {
            push_char(&mut parse_result, chars[i]);
            i += 1;
        }
    }
    parse_result
}

} // verus!
