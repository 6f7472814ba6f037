//! Names of environment variables.

use vstd::prelude::*;
use vstd::string::*;

use crate::app_types::{env_spec_views, EnvVarSpec};
use crate::text::{char_code, chars_of, cut_at, split_once, texts};

verus! {

/// Whether a character may stand in the name of a variable.
pub open spec fn is_env_char(c: char, first: bool) -> bool {
    let code = c as int;
    ||| c == '_'
    ||| 65 <= code <= 90
    ||| 97 <= code <= 122
    ||| !first && 48 <= code <= 57
}

/// Whether a text is the name of a variable: letters, digits and `_`, and not a
/// digit first.
pub open spec fn is_env_key(name: Seq<char>) -> bool {
    name.len() > 0 && forall|i: int| 0 <= i < name.len() ==> is_env_char(#[trigger] name[i], i == 0)
}

fn env_char(c: char, first: bool) -> (result: bool)
    ensures
        result == is_env_char(c, first),
{
    let code: u32 = char_code(c);
    c == '_' || (65 <= code && code <= 90) || (97 <= code && code <= 122) || (!first && 48 <= code
        && code <= 57)
}

/// Whether the text is the name of a variable.
pub fn validate_env_key(name: &str) -> (result: bool)
    ensures
        result == is_env_key(name@),
{
    let chars = chars_of(name);
    if chars.len() == 0 {
        return false;
    }
    let mut i: usize = 0;
    while i < chars.len()
        invariant
            i <= chars.len(),
            chars@ == name@,
            forall|j: int| 0 <= j < i ==> is_env_char(#[trigger] name@[j], j == 0),
        decreases chars.len() - i,
    {
        if !env_char(chars[i], i == 0) {
            assert(!is_env_char(name@[i as int], i == 0));
            return false;
        }
        i += 1;
    }
    true
}

/// The variable that a text names: `NAME`, or `SOURCE:TARGET` where it is seen
/// under another name.
pub open spec fn env_spec_of(text: Seq<char>) -> Option<(Seq<char>, Seq<char>)> {
    let parts = match cut_at(text, ':') {
        Some((source, target)) => (source, target),
        None => (text, text),
    };
    if is_env_key(parts.0) && is_env_key(parts.1) {
        Some(parts)
    } else {
        None
    }
}

/// The variables that a list of texts names; the first text that names none.
pub open spec fn env_specs_of(list: Seq<Seq<char>>) -> Result<
    Seq<(Seq<char>, Seq<char>)>,
    Seq<char>,
>
    decreases list.len(),
{
    if list.len() == 0 {
        Ok(Seq::empty())
    } else {
        match env_specs_of(list.drop_last()) {
            Err(text) => Err(text),
            Ok(before) => match env_spec_of(list.last()) {
                Some(named) => Ok(before.push(named)),
                None => Err(list.last()),
            },
        }
    }
}

proof fn lemma_env_error_stays(list: Seq<Seq<char>>, count: int)
    requires
        0 <= count <= list.len(),
        env_specs_of(list.take(count)) is Err,
    ensures
        env_specs_of(list) == env_specs_of(list.take(count)),
    decreases list.len() - count,
{
    if count == list.len() {
        assert(list.take(count) =~= list);
    } else {
        assert(list.take(count + 1).drop_last() =~= list.take(count));
        lemma_env_error_stays(list, count + 1);
    }
}

/// The variables that the texts name, or the first text that names none.
pub fn parse_env_specs(list: &Vec<String>) -> (result: Result<Vec<EnvVarSpec>, String>)
    ensures
        match env_specs_of(texts(list@)) {
            Ok(specs) => result is Ok && env_spec_views(result->Ok_0@) == specs,
            Err(text) => result is Err && result->Err_0@ == text,
        },
{
    let ghost all = texts(list@);
    let mut specs: Vec<EnvVarSpec> = Vec::new();
    let mut i: usize = 0;
    proof {
        assert(all.take(0) =~= Seq::<Seq<char>>::empty());
        assert(env_spec_views(specs@) =~= Seq::<(Seq<char>, Seq<char>)>::empty());
    }
    while i < list.len()
        invariant
            i <= list.len(),
            all == texts(list@),
            env_specs_of(all.take(i as int)) == Ok::<Seq<(Seq<char>, Seq<char>)>, Seq<char>>(
                env_spec_views(specs@),
            ),
        decreases list.len() - i,
    {
        let text = &list[i];
        let ghost before = specs@;
        proof {
            assert(all.take(i as int + 1).drop_last() =~= all.take(i as int));
            assert(all.take(i as int + 1).last() == text@);
        }
        let (source, target): (String, String) = match split_once(text.as_str(), ':') {
            Some((source, target)) => (source, target),
            None => (text.clone(), text.clone()),
        };
        if !validate_env_key(source.as_str()) || !validate_env_key(target.as_str()) {
            proof {
                lemma_env_error_stays(all, i as int + 1);
            }
            return Err(text.clone());
        }
        let ghost added = (source@, target@);
        specs.push(EnvVarSpec { source, target });
        proof {
            assert(env_spec_views(specs@) =~= env_spec_views(before).push(added));
        }
        i += 1;
    }
    proof {
        assert(all.take(all.len() as int) =~= all);
    }
    Ok(specs)
}

} // verus!
