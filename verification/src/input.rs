//! What the operator types into a popup, and what the library makes of it.

use crate::clock::now_for_file_name;
use crate::model::views;
use crate::text::{
    file_stem,
    file_stem_of,
    has_prefix,
    has_suffix,
    is_prefix,
    is_suffix,
    join,
    joined,
    words,
    words_of,
};
use vstd::prelude::*;
use vstd::string::*;

verus! {

/// The port rule that the words `words` ask for: a port, a protocol and a
/// label, and nothing else.
pub open spec fn port_rule_of_words(words: Seq<Seq<char>>) -> Option<
    (Seq<char>, Seq<char>, Seq<char>),
> {
    if words.len() == 3 {
        Some((words[0], words[1], words[2]))
    } else {
        None
    }
}

/// The file-context rule that the words `words` ask for: the last word is
/// the label, and the words before it, with a blank between each two, are
/// the path. There have to be two words at least.
pub open spec fn file_context_rule_of_words(words: Seq<Seq<char>>) -> Option<
    (Seq<char>, Seq<char>),
> {
    if words.len() >= 2 {
        Some((joined(words.drop_last(), " "@), words.last()))
    } else {
        None
    }
}

/// The name of the file that takes an exported profile: what the operator
/// typed, or a name made of the time `stamp` where nothing was typed.
pub open spec fn export_name(input: Seq<char>, stamp: Seq<char>) -> Seq<char> {
    if input.len() == 0 {
        "selab_config_"@ + stamp + ".json"@
    } else {
        input
    }
}

/// Where a module comes from.
#[derive(Debug, Clone)]
pub enum ModuleSource {
    /// A module package at this path is installed.
    Package(String),
    /// A module of this name is built from denials.
    Denials(String),
}

/// Whether what the operator typed names a module package: it ends like
/// one, or it is an absolute path.
pub open spec fn names_package(input: Seq<char>) -> bool {
    is_suffix(".pp"@, input) || is_prefix("/"@, input)
}

/// The port rule that the words `words` ask for.
pub fn port_rule_of(words: &Vec<String>) -> (r: Option<(String, String, String)>)
    ensures
        match r {
            Some(rule) => port_rule_of_words(views(words@)) == Some(rule@),
            None => port_rule_of_words(views(words@)) is None,
        },
{
    if words.len() == 3 {
        Some((words[0].clone(), words[1].clone(), words[2].clone()))
    } else {
        None
    }
}

/// The port rule that `input` asks for.
pub fn parse_port_input(input: &str) -> (r: Option<(String, String, String)>)
    ensures
        match r {
            Some(rule) => port_rule_of_words(words_of(input@)) == Some(rule@),
            None => port_rule_of_words(words_of(input@)) is None,
        },
{
    port_rule_of(&words(input))
}

/// The file-context rule that the words `words` ask for.
pub fn file_context_rule_of(words: &Vec<String>) -> (r: Option<(String, String)>)
    ensures
        match r {
            Some(rule) => file_context_rule_of_words(views(words@)) == Some(rule@),
            None => file_context_rule_of_words(views(words@)) is None,
        },
{
    if words.len() >= 2 {
        let last: usize = words.len() - 1;
        let path = join(words, last, " ");
        assert(views(words@).take(last as int) =~= views(words@).drop_last());
        Some((path, words[last].clone()))
    } else {
        None
    }
}

/// The file-context rule that `input` asks for.
pub fn parse_file_context_input(input: &str) -> (r: Option<(String, String)>)
    ensures
        match r {
            Some(rule) => file_context_rule_of_words(words_of(input@)) == Some(rule@),
            None => file_context_rule_of_words(words_of(input@)) is None,
        },
{
    file_context_rule_of(&words(input))
}

/// The name of the file that takes a profile exported at the time that
/// `stamp` writes.
pub fn export_file_name_at(input: &str, stamp: &str) -> (r: String)
    ensures
        r@ == export_name(input@, stamp@),
{
    if input.unicode_len() == 0 {
        let mut r = String::from_str("selab_config_");
        r.append(stamp);
        r.append(".json");
        r
    } else {
        String::from_str(input)
    }
}

/// The name of the file that takes a profile exported now.
pub fn export_file_name(input: &str) -> (r: String)
    ensures
        input@.len() > 0 ==> r@ == input@,
        input@.len() == 0 ==> exists|stamp: Seq<char>| r@ == #[trigger] export_name(input@, stamp),
{
    export_file_name_at(input, now_for_file_name().as_str())
}

/// Where the module that `input` asks for comes from. Nothing typed asks
/// for none.
pub fn module_source(input: &str) -> (r: Option<ModuleSource>)
    ensures
        match r {
            Some(ModuleSource::Package(path)) => input@.len() > 0 && names_package(input@) && path@
                == input@,
            Some(ModuleSource::Denials(name)) => input@.len() > 0 && !names_package(input@)
                && name@ == input@,
            None => input@.len() == 0,
        },
{
    if input.unicode_len() == 0 {
        None
    } else if has_suffix(input, ".pp") || has_prefix(input, "/") {
        Some(ModuleSource::Package(String::from_str(input)))
    } else {
        Some(ModuleSource::Denials(String::from_str(input)))
    }
}

/// The name of the module whose package lies at `path`: the name of the
/// file without its extension.
pub fn package_module_name(path: &str) -> (r: Option<String>)
    ensures
        match r {
            Some(name) => file_stem_of(path@) == Some(name@),
            None => file_stem_of(path@) is None,
        },
{
    file_stem(path)
}

} // verus!
