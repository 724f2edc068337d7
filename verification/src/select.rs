//! Choosing a context when no name was given.
//!
//! The prompt itself is the caller's: the library says what to ask, and
//! turns the answer into a name.

use vstd::prelude::*;
use vstd::string::*;
use crate::context::{opt_text, DefaultContext};
use crate::names::{context_filestems_from_path, file_stem, file_stem_of, file_stems, texts};

verus! {

/// What the user is asked: the choices, the one to highlight, and the line
/// shown above them.
#[derive(Clone, Debug, PartialEq, Eq)]
pub struct StringEntry {
    pub choices: Vec<String>,
    pub default: Option<String>,
    pub message: String,
}

/// The name that the index gives, if there is an index.
pub open spec fn index_name(index: Option<DefaultContext>) -> Option<Seq<char>> {
    match index {
        Some(i) => Some(i.name@),
        None => None,
    }
}

/// The name at the chosen position among the names of `contexts`, if a
/// position was chosen and there is one.
pub open spec fn selected_name(contexts: Seq<Seq<char>>, choice: Option<usize>) -> Option<
    Seq<char>,
> {
    match choice {
        Some(at) if at < contexts.len() => Some(file_stem(contexts[at as int])),
        _ => None,
    }
}

/// What to ask in order to select one of `contexts`: their names in order,
/// with the name of the index, if any, highlighted.
pub fn selection_prompt(contexts: &Vec<String>, index: Option<DefaultContext>, message: &str) -> (entry:
    StringEntry)
    ensures
        texts(entry.choices@) == file_stems(texts(contexts@)),
        opt_text(entry.default) == index_name(index),
        entry.message@ == message@,
{
    let default = match index {
        Some(i) => Some(i.name),
        None => None,
    };
    StringEntry {
        choices: context_filestems_from_path(contexts),
        default,
        message: String::from_str(message),
    }
}

/// The context that the user selected among `contexts`: the name at the
/// chosen position. Without a choice (the prompt was cancelled), or with a
/// position that the list does not have (as in an empty list), none.
pub fn select_context(contexts: &Vec<String>, choice: Option<usize>) -> (name: Option<String>)
    ensures
        opt_text(name) == selected_name(texts(contexts@), choice),
{
    match choice {
        Some(at) => {
            if at < contexts.len() {
                Some(file_stem_of(contexts[at].as_str()))
            } else {
                None
            }
        },
        None => None,
    }
}

} // verus!
