//! What each command decides: the one change to make in the context
//! directory, and what to report once it is made.
//!
//! A handler takes what the caller has read (the entries of the directory,
//! the index, the answer to a prompt) and returns a plan or a failure. It
//! touches nothing itself.

use vstd::prelude::*;
use vstd::string::*;
use crate::context::{default_record, opt_text, DefaultContext, WashContext};
use crate::error::{CtxError, ErrorKind};
use crate::names::{
    contains_text, context_file, context_files, context_path_from_name, file_stem, get_contexts,
    is_context_file, lemma_context_file, lemma_stored_name_has_file, list_names, stored_names,
    text_eq, texts,
};
use crate::sanitize::{
    is_clean, is_reserved_char, is_settled, safe_file_name, sanitize_file_name, underscored,
};
use crate::select::{index_name, select_context, selected_name};

verus! {

/// The structured part of a result.
#[derive(Clone, Debug, PartialEq, Eq)]
pub enum Payload {
    /// The stored names, and the name of the default or `N/A`.
    Contexts { contexts: Vec<String>, default: String },
    /// Whether the command did what it was asked.
    Success { success: bool },
}

/// The result of a command: a message to read, and the same as data.
#[derive(Clone, Debug, PartialEq, Eq)]
pub struct Output {
    pub text: String,
    pub payload: Payload,
}

/// The one change that a command makes.
#[derive(Clone, Debug, PartialEq, Eq)]
pub enum Action {
    /// Overwrite the index with this one.
    WriteIndex(DefaultContext),
    /// Remove this file from the context directory.
    RemoveFile(String),
    /// Create this file in the context directory, or overwrite it, with this record.
    WriteContext { file: String, record: WashContext },
    /// Open this file of the context directory in the editor.
    EditFile(String),
}

/// A change, and what to report once it is made.
#[derive(Clone, Debug, PartialEq, Eq)]
pub struct Plan {
    pub action: Action,
    pub output: Output,
}

/// Where the contexts are kept.
#[derive(Clone, Debug, PartialEq, Eq)]
pub enum ContextDir {
    /// In the directory that was given.
    Given(String),
    /// In `below`, a relative path, under the home directory `home`.
    UnderHome { home: String, below: String },
}

/// The place of the context directory under the home directory.
pub open spec fn home_contexts() -> Seq<char> {
    ".tool/contexts"@
}

/// `output` reports success with the message `text`.
pub open spec fn reports_success(output: Output, text: Seq<char>) -> bool {
    output.text@ == text && match output.payload {
        Payload::Success { success } => success,
        _ => false,
    }
}

/// `err` is a failure of kind `NotFound` with the message `text`.
pub open spec fn is_not_found(err: CtxError, text: Seq<char>) -> bool {
    err.kind == ErrorKind::NotFound && err.message@ == text
}

/// A name is stored if it is among the names of the listing.
pub open spec fn is_stored(entries: Seq<Seq<char>>, name: Seq<char>) -> bool {
    stored_names(entries).contains(name)
}

/// The name that a command is about: the one given; without one, the one
/// selected; without either, the empty name, which is never stored.
pub open spec fn target_name(
    entries: Seq<Seq<char>>,
    name: Option<Seq<char>>,
    choice: Option<usize>,
) -> Seq<char> {
    match name {
        Some(given) => given,
        None => match selected_name(context_files(entries), choice) {
            Some(chosen) => chosen,
            None => Seq::empty(),
        },
    }
}

/// A name as it is listed: followed by ` (default)` if the index names it.
pub open spec fn mark_default(name: Seq<char>, default: Option<Seq<char>>) -> Seq<char> {
    if default == Some(name) {
        name + " (default)"@
    } else {
        name
    }
}

/// The lines, each but the first after a line break.
pub open spec fn join_lines(lines: Seq<Seq<char>>) -> Seq<char>
    decreases lines.len(),
{
    if lines.len() == 0 {
        Seq::empty()
    } else if lines.len() == 1 {
        lines[0]
    } else {
        join_lines(lines.drop_last()) + "\n"@ + lines.last()
    }
}

/// The names as they are listed.
pub open spec fn marked_names(names: Seq<Seq<char>>, default: Option<Seq<char>>) -> Seq<
    Seq<char>,
> {
    names.map_values(|name: Seq<char>| mark_default(name, default))
}

/// The listing as text: a heading that names the directory, then one name a line.
pub open spec fn list_text(dir: Seq<char>, names: Seq<Seq<char>>, default: Option<Seq<char>>) -> Seq<
    char,
> {
    "====== Contexts found in "@ + dir + " ======\n"@ + join_lines(marked_names(names, default))
}

/// The name of the default as data: the name in the index, or `N/A`.
pub open spec fn default_label(default: Option<Seq<char>>) -> Seq<char> {
    match default {
        Some(name) => name,
        None => "N/A"@,
    }
}

fn success(text: &str) -> (output: Output)
    ensures
        reports_success(output, text@),
{
    Output { text: String::from_str(text), payload: Payload::Success { success: true } }
}

fn not_found(text: &str) -> (err: CtxError)
    ensures
        is_not_found(err, text@),
{
    CtxError::new(ErrorKind::NotFound, text)
}

/// The failure to report where the context directory cannot be read:
/// `NotFound`, with a message that gives the cause and names the directory.
pub fn unreadable_directory(cause: &str, dir: &str) -> (err: CtxError)
    ensures
        err.kind == ErrorKind::NotFound,
        err.message@ == "Error: "@ + cause@ + ", please ensure directory "@ + dir@ + " exists"@,
{
    let message = String::from_str("Error: ").concat(cause).concat(
        ", please ensure directory ",
    ).concat(dir).concat(" exists");
    CtxError { kind: ErrorKind::NotFound, message }
}

/// Where the contexts are kept: in the directory given, if one is; else
/// under the home directory. Without either, `NotFound`.
pub fn context_dir(cmd_dir: Option<String>, home: Option<String>) -> (dir: Result<
    ContextDir,
    CtxError,
>)
    ensures
        match (cmd_dir, home) {
            (Some(given), _) => dir == Ok::<ContextDir, CtxError>(ContextDir::Given(given)),
            (None, Some(h)) => match dir {
                Ok(ContextDir::UnderHome { home, below }) => home == h && below@
                    == home_contexts(),
                _ => false,
            },
            (None, None) => match dir {
                Err(err) => is_not_found(
                    err,
                    "Context directory not found, please set $HOME or $WASH_CONTEXTS for managed contexts"@,
                ),
                Ok(_) => false,
            },
        },
{
    match cmd_dir {
        Some(given) => Ok(ContextDir::Given(given)),
        None => match home {
            Some(h) => Ok(ContextDir::UnderHome { home: h, below: String::from_str(".tool/contexts") }),
            None => Err(
                not_found(
                    "Context directory not found, please set $HOME or $WASH_CONTEXTS for managed contexts",
                ),
            ),
        },
    }
}

/// The file, in the context directory, of the context that the index names.
pub fn get_default_context(index: &DefaultContext) -> (file: String)
    ensures
        file@ == context_file(index.name@),
{
    context_path_from_name(index.name.as_str())
}

/// The name that a command is about.
fn resolve_target(contexts: &Vec<String>, name: Option<String>, choice: Option<usize>) -> (target:
    String)
    ensures
        target@ == match name {
            Some(given) => given@,
            None => match selected_name(texts(contexts@), choice) {
                Some(chosen) => chosen,
                None => Seq::empty(),
            },
        },
{
    match name {
        Some(given) => given,
        None => match select_context(contexts, choice) {
            Some(chosen) => chosen,
            None => String::new(),
        },
    }
}

/// Lists the stored contexts of a directory with these entries.
///
/// The text gives every stored name on a line of its own, in the order of
/// the listing, and marks the one that the index names, if there is an index
/// and it names one of them. The data gives the names unmarked, and the name
/// in the index as it stands, or `N/A` without an index.
pub fn handle_list(dir: &str, entries: &Vec<String>, index: &Option<DefaultContext>) -> (output:
    Output)
    ensures
        output.text@ == list_text(dir@, stored_names(texts(entries@)), index_name(*index)),
        match output.payload {
            Payload::Contexts { contexts, default } => texts(contexts@) == stored_names(
                texts(entries@),
            ) && default@ == default_label(index_name(*index)),
            _ => false,
        },
{
    let names = list_names(entries);
    let ghost marked = marked_names(texts(names@), index_name(*index));
    let mut body = String::new();
    let mut i: usize = 0;
    while i < names.len()
        invariant
            i <= names.len(),
            marked == marked_names(texts(names@), index_name(*index)),
            body@ == join_lines(marked.take(i as int)),
        decreases names.len() - i,
    {
        let ghost before = body@;
        if i > 0 {
            body.append("\n");
        }
        body.append(names[i].as_str());
        let is_default = match index {
            Some(ix) => text_eq(names[i].as_str(), ix.name.as_str()),
            None => false,
        };
        if is_default {
            body.append(" (default)");
        }
        proof {
            let lines = marked.take(i + 1);
            assert(lines.drop_last() =~= marked.take(i as int));
            assert(lines.last() == mark_default(names@[i as int]@, index_name(*index)));
            if i > 0 {
                assert(body@ =~= before + "\n"@ + lines.last());
            } else {
                assert(body@ =~= lines[0]);
            }
        }
        i += 1;
    }
    proof {
        assert(marked.take(names.len() as int) =~= marked);
    }
    let mut text = String::from_str("====== Contexts found in ").concat(dir).concat(" ======\n");
    text.append(body.as_str());
    let default = match index {
        Some(ix) => ix.name.clone(),
        None => String::from_str("N/A"),
    };
    Output { text, payload: Payload::Contexts { contexts: names, default } }
}

/// Makes a stored context the default.
///
/// The target is the name given, or else the one selected among the stored
/// contexts. If it is stored, the plan is to overwrite the index with it. If
/// it is not, the failure is `NotFound` and there is no plan: the index
/// stays as it is.
pub fn handle_default(entries: &Vec<String>, name: Option<String>, choice: Option<usize>) -> (plan:
    Result<Plan, CtxError>)
    ensures
        match plan {
            Ok(p) => is_stored(
                texts(entries@),
                target_name(texts(entries@), opt_text(name), choice),
            ) && reports_success(p.output, "Set new context successfully"@) && match p.action {
                Action::WriteIndex(index) => index.name@ == target_name(
                    texts(entries@),
                    opt_text(name),
                    choice,
                ),
                _ => false,
            },
            Err(err) => !is_stored(
                texts(entries@),
                target_name(texts(entries@), opt_text(name), choice),
            ) && is_not_found(err, "Failed to set new default, context supplied was not found"@),
        },
{
    let contexts = get_contexts(entries);
    let target = resolve_target(&contexts, name, choice);
    let file = context_path_from_name(target.as_str());
    proof {
        lemma_stored_name_has_file(texts(entries@), target@);
    }
    if contains_text(&contexts, file.as_str()) {
        Ok(
            Plan {
                action: Action::WriteIndex(DefaultContext::new(target)),
                output: success("Set new context successfully"),
            },
        )
    } else {
        Err(not_found("Failed to set new default, context supplied was not found"))
    }
}

/// Deletes a stored context.
///
/// The target is the name given, or else the one selected among the stored
/// contexts. If it is stored, the plan is to remove its file. If it is not,
/// the failure is `NotFound` and there is no plan.
pub fn handle_del(entries: &Vec<String>, name: Option<String>, choice: Option<usize>) -> (plan:
    Result<Plan, CtxError>)
    ensures
        match plan {
            Ok(p) => is_stored(
                texts(entries@),
                target_name(texts(entries@), opt_text(name), choice),
            ) && reports_success(p.output, "Removed file successfully"@) && match p.action {
                Action::RemoveFile(file) => file@ == context_file(
                    target_name(texts(entries@), opt_text(name), choice),
                ),
                _ => false,
            },
            Err(err) => !is_stored(
                texts(entries@),
                target_name(texts(entries@), opt_text(name), choice),
            ) && is_not_found(err, "Failed to delete, no context found"@),
        },
{
    let contexts = get_contexts(entries);
    let target = resolve_target(&contexts, name, choice);
    let file = context_path_from_name(target.as_str());
    proof {
        lemma_stored_name_has_file(texts(entries@), target@);
    }
    if contains_text(&contexts, file.as_str()) {
        Ok(Plan { action: Action::RemoveFile(file), output: success("Removed file successfully") })
    } else {
        Err(not_found("Failed to delete, no context found"))
    }
}

/// The plan that creates the context file `file`: write the default record
/// to it, and report the file's name.
pub fn plan_new_context(file: String) -> (plan: Plan)
    ensures
        match plan.action {
            Action::WriteContext { file: written, record } => written == file && record@
                == default_record(),
            _ => false,
        },
        reports_success(plan.output, "Created context "@ + file@ + " with default values"@),
{
    let text = String::from_str("Created context ").concat(file.as_str()).concat(
        " with default values",
    );
    Plan {
        action: Action::WriteContext { file, record: WashContext::default() },
        output: Output { text, payload: Payload::Success { success: true } },
    }
}

/// Creates a context.
///
/// The name alone is made a safe file name, and `.json` is put behind the
/// result. The file holds no path separator and no reserved or control
/// character, whatever the name holds; where the name with `_` for each of
/// those is settled, the file is that followed by `.json`. It is a context
/// file, listed under the safe name, unless the safe name is empty or is
/// `index`. The plan is to write the default record to it, over whatever it
/// held: what was stored under the name plays no part.
pub fn handle_new(name: &str) -> (plan: Plan)
    ensures
        match plan.action {
            Action::WriteContext { file, record } => file@ == context_file(safe_file_name(name@))
                && is_clean(file@) && record@ == default_record() && reports_success(
                plan.output,
                "Created context "@ + file@ + " with default values"@,
            ) && (is_settled(underscored(name@)) ==> file@ == context_file(underscored(name@)))
                && (is_context_file(file@) <==> safe_file_name(name@).len() > 0 && safe_file_name(
                name@,
            ) != "index"@) && (is_context_file(file@) ==> file_stem(file@) == safe_file_name(
                name@,
            )),
            _ => false,
        },
{
    let safe = sanitize_file_name(name);
    let file = context_path_from_name(safe.as_str());
    proof {
        reveal_strlit(".json");
        assert forall|i: int| 0 <= i < file@.len() implies !is_reserved_char(
            #[trigger] file@[i],
        ) by {
            if i < safe@.len() {
                assert(file@[i] == safe@[i]);
            } else {
                assert(file@[i] == ".json"@[i - safe@.len()]);
            }
        }
        lemma_context_file(safe@);
    }
    plan_new_context(file)
}

/// The context that the editor is to open, if any: the one given, if its
/// file exists; without a name, the one selected among the stored contexts.
pub open spec fn edit_target(
    entries: Seq<Seq<char>>,
    name: Option<Seq<char>>,
    exists: bool,
    choice: Option<usize>,
) -> Option<Seq<char>> {
    match name {
        Some(given) => if exists {
            Some(given)
        } else {
            None
        },
        None => selected_name(context_files(entries), choice),
    }
}

/// Edits a context.
///
/// With a name, `exists` says whether its file is there. Where a context is
/// found the plan is to open its file in the editor; else the failure is
/// `NotFound`.
pub fn handle_edit(
    entries: &Vec<String>,
    name: Option<String>,
    exists: bool,
    choice: Option<usize>,
) -> (plan: Result<Plan, CtxError>)
    ensures
        match edit_target(texts(entries@), opt_text(name), exists, choice) {
            Some(target) => match plan {
                Ok(p) => reports_success(p.output, "Finished editing context successfully"@)
                    && match p.action {
                    Action::EditFile(file) => file@ == context_file(target),
                    _ => false,
                },
                Err(_) => false,
            },
            None => match plan {
                Ok(_) => false,
                Err(err) => is_not_found(
                    err,
                    "Unable to find context supplied, please ensure it exists"@,
                ),
            },
        },
{
    let ctx = match name {
        Some(given) => if exists {
            Some(given)
        } else {
            None
        },
        None => {
            let contexts = get_contexts(entries);
            select_context(&contexts, choice)
        },
    };
    match ctx {
        Some(target) => Ok(
            Plan {
                action: Action::EditFile(context_path_from_name(target.as_str())),
                output: success("Finished editing context successfully"),
            },
        ),
        None => Err(not_found("Unable to find context supplied, please ensure it exists")),
    }
}

} // verus!
