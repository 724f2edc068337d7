//! What holds of the store's rules, whatever the directory holds.

use vstd::prelude::*;
use crate::context::{
    default_record, empty_document, materialized, resolved, ContextModel,
};
use crate::commands::marked_names;
use crate::select::selected_name;
use crate::names::{
    context_file, context_files, file_stem, file_stems, index_file, is_context_file, json_suffix,
    lemma_context_file, lemma_stored_name_has_file, stored_names, stored_only,
};

verus! {

/// A name is listed exactly if it is not empty, is not `index`, and the
/// directory holds its file.
pub proof fn lemma_listed_names(entries: Seq<Seq<char>>, name: Seq<char>)
    ensures
        stored_names(entries).contains(name) <==> (entries.contains(context_file(name))
            && name.len() > 0 && name != "index"@),
{
    let file = context_file(name);
    lemma_stored_name_has_file(entries, name);
    lemma_context_file(name);
    if context_files(entries).contains(file) {
        entries.lemma_filter_contains_rev(stored_only(), file);
        let i = choose|i: int| 0 <= i < context_files(entries).len() && context_files(entries)[i]
            == file;
        entries.lemma_filter_pred(stored_only(), i);
    }
    if entries.contains(file) && is_context_file(file) {
        let i = choose|i: int| 0 <= i < entries.len() && entries[i] == file;
        entries.lemma_filter_contains(stored_only(), i);
    }
}

/// The index is never listed: no stored name is `index`.
pub proof fn lemma_index_never_listed(entries: Seq<Seq<char>>)
    ensures
        !stored_names(entries).contains("index"@),
{
    lemma_listed_names(entries, "index"@);
}

/// Where every entry is a context file, all of them are kept.
proof fn lemma_all_kept(entries: Seq<Seq<char>>)
    requires
        forall|i: int| 0 <= i < entries.len() ==> is_context_file(#[trigger] entries[i]),
    ensures
        context_files(entries) == entries,
    decreases entries.len(),
{
    reveal(Seq::filter);
    if entries.len() > 0 {
        lemma_all_kept(entries.drop_last());
        assert(entries.drop_last().push(entries.last()) =~= entries);
    }
}

/// The files of a list of names.
pub open spec fn files_of(names: Seq<Seq<char>>) -> Seq<Seq<char>> {
    names.map_values(|name: Seq<char>| context_file(name))
}

/// The files of contexts are all kept, and their stems are the contexts'
/// names.
proof fn lemma_files_listed(names: Seq<Seq<char>>)
    requires
        forall|i: int| 0 <= i < names.len() ==> (#[trigger] names[i]).len() > 0 && names[i] != "index"@,
    ensures
        context_files(files_of(names)) == files_of(names),
        file_stems(files_of(names)) == names,
{
    let files = files_of(names);
    assert forall|i: int| 0 <= i < files.len() implies is_context_file(#[trigger] files[i]) by {
        lemma_context_file(names[i]);
    }
    assert forall|i: int| 0 <= i < files.len() implies file_stems(files)[i] == names[i] by {
        lemma_context_file(names[i]);
    }
    assert(file_stems(files) =~= names);
    lemma_all_kept(files);
}

/// The index, wherever it stands in a listing, is not among its context files.
proof fn lemma_index_skipped(files: Seq<Seq<char>>, at: int)
    requires
        0 <= at <= files.len(),
    ensures
        context_files(files.insert(at, index_file())) == context_files(files),
{
    let front = files.take(at);
    let back = files.skip(at);
    let index = seq![index_file()];
    assert(index.filter(stored_only()) =~= Seq::<Seq<char>>::empty()) by {
        reveal_with_fuel(Seq::filter, 2);
        assert(index.drop_last().len() == 0);
    }
    assert(files.insert(at, index_file()) =~= (front + index) + back);
    assert(front + back =~= files);
    Seq::filter_distributes_over_add(front + index, back, stored_only());
    Seq::filter_distributes_over_add(front, index, stored_only());
    Seq::filter_distributes_over_add(front, back, stored_only());
    assert(front.filter(stored_only()) + index.filter(stored_only()) =~= front.filter(
        stored_only(),
    ));
}

/// A directory that holds the index and the files of some contexts lists
/// exactly those contexts, in their order, wherever the index stands among
/// them. A context's name is not empty and is not `index`.
pub proof fn lemma_list_excludes_index(names: Seq<Seq<char>>, at: int)
    requires
        0 <= at <= names.len(),
        forall|i: int| 0 <= i < names.len() ==> (#[trigger] names[i]).len() > 0 && names[i] != "index"@,
    ensures
        stored_names(files_of(names).insert(at, index_file())) == names,
        stored_names(files_of(names)) == names,
{
    lemma_files_listed(names);
    lemma_index_skipped(files_of(names), at);
}

/// The test that lets every entry pass but `file`.
pub open spec fn all_but(file: Seq<char>) -> spec_fn(Seq<char>) -> bool {
    |entry: Seq<char>| entry != file
}

/// The directory after one file has left it.
pub open spec fn without_file(entries: Seq<Seq<char>>, file: Seq<char>) -> Seq<Seq<char>> {
    entries.filter(all_but(file))
}

/// Two names with the same file are the same name.
pub proof fn lemma_context_file_injective(a: Seq<char>, b: Seq<char>)
    requires
        context_file(a) == context_file(b),
    ensures
        a == b,
{
    let file = context_file(a);
    assert(json_suffix().len() == 5) by {
        reveal_strlit(".json");
    }
    assert(a =~= file.subrange(0, file.len() - 5));
    assert(b =~= file.subrange(0, file.len() - 5));
}

/// Removing the file of a context removes that name from the list and no
/// other: every other name is listed afterwards exactly if it was before.
pub proof fn lemma_delete_removes_one(entries: Seq<Seq<char>>, name: Seq<char>, other: Seq<char>)
    ensures
        !stored_names(without_file(entries, context_file(name))).contains(name),
        other != name ==> (stored_names(without_file(entries, context_file(name))).contains(other)
            <==> stored_names(entries).contains(other)),
{
    let file = context_file(name);
    let stay = all_but(file);
    let rest = without_file(entries, file);
    lemma_listed_names(entries, other);
    lemma_listed_names(rest, other);
    lemma_listed_names(rest, name);
    if rest.contains(file) {
        let i = choose|i: int| 0 <= i < rest.len() && rest[i] == file;
        entries.lemma_filter_pred(stay, i);
    }
    if other != name {
        let other_file = context_file(other);
        if other_file == file {
            lemma_context_file_injective(other, name);
        }
        if rest.contains(other_file) {
            entries.lemma_filter_contains_rev(stay, other_file);
        }
        if entries.contains(other_file) {
            let i = choose|i: int| 0 <= i < entries.len() && entries[i] == other_file;
            entries.lemma_filter_contains(stay, i);
        }
    }
}

/// A position in the list of stored names selects a stored name; a
/// cancelled prompt, or a position beyond the list, selects none.
pub proof fn lemma_selected_is_stored(entries: Seq<Seq<char>>, choice: Option<usize>)
    ensures
        match selected_name(context_files(entries), choice) {
            Some(name) => choice is Some && choice->0 < stored_names(entries).len() && name
                == stored_names(entries)[choice->0 as int] && stored_names(entries).contains(name),
            None => choice is None || choice->0 >= stored_names(entries).len(),
        },
{
    let names = stored_names(entries);
    assert(names.len() == context_files(entries).len());
    if let Some(at) = choice {
        if at < names.len() {
            assert(names[at as int] == file_stem(context_files(entries)[at as int]));
        }
    }
}

/// A record that is written and read again is the same record, whatever
/// its fields hold, the absent ones too.
pub proof fn lemma_round_trip(record: ContextModel)
    ensures
        resolved(materialized(record)) == record,
{
}

/// A document with no fields stands for the default record.
pub proof fn lemma_defaults_materialize()
    ensures
        resolved(empty_document()) == default_record(),
{
}

/// The directory after a file was created in it, or overwritten.
pub open spec fn with_file(entries: Seq<Seq<char>>, file: Seq<char>) -> Seq<Seq<char>> {
    if entries.contains(file) {
        entries
    } else {
        entries.push(file)
    }
}

/// Creating a file a second time leaves the directory as the first time
/// left it, with that file in it.
pub proof fn lemma_create_twice_is_once(entries: Seq<Seq<char>>, file: Seq<char>)
    ensures
        with_file(entries, file).contains(file),
        with_file(with_file(entries, file), file) == with_file(entries, file),
{
    if !entries.contains(file) {
        assert(entries.push(file)[entries.len() as int] == file);
    }
}

/// Writing the index changes nothing in the list of stored names.
pub proof fn lemma_index_write_keeps_names(entries: Seq<Seq<char>>)
    ensures
        stored_names(with_file(entries, index_file())) == stored_names(entries),
{
    if !entries.contains(index_file()) {
        assert(entries.push(index_file()) =~= entries.insert(entries.len() as int, index_file()));
        lemma_index_skipped(entries, entries.len() as int);
    }
}

/// In the listing a name is marked exactly if the index names it: that
/// line is the name followed by ` (default)`, and every other line is the
/// name alone. Without an index no line is marked.
pub proof fn lemma_default_marking(names: Seq<Seq<char>>, default: Seq<char>, i: int)
    requires
        0 <= i < names.len(),
    ensures
        names[i] == default ==> marked_names(names, Some(default))[i] == default + " (default)"@,
        names[i] != default ==> marked_names(names, Some(default))[i] == names[i],
        marked_names(names, Some(default))[i] != names[i] <==> names[i] == default,
        marked_names(names, None)[i] == names[i],
{
    reveal_strlit(" (default)");
    assert((default + " (default)"@).len() == default.len() + 10);
}

/// Once the file of a context is created, the context is listed, whatever
/// the directory held before. A context's name is not empty and is not
/// `index`.
pub proof fn lemma_created_context_is_listed(entries: Seq<Seq<char>>, name: Seq<char>)
    requires
        name.len() > 0,
        name != "index"@,
    ensures
        stored_names(with_file(entries, context_file(name))).contains(name),
{
    lemma_create_twice_is_once(entries, context_file(name));
    lemma_listed_names(with_file(entries, context_file(name)), name);
}

} // verus!
