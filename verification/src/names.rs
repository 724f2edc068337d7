//! File names in the context directory: which entries are contexts, and how
//! a context's name and its file's name give each other.
//!
//! An entry is the name of a file in the directory, without the directory.

use vstd::prelude::*;
use vstd::string::*;

verus! {

/// The name of the file that holds the index.
pub open spec fn index_file() -> Seq<char> {
    "index.json"@
}

/// What is put behind a context's name to name its file.
pub open spec fn json_suffix() -> Seq<char> {
    ".json"@
}

/// The position of the last `.` in `name`, or -1 where it holds none.
pub open spec fn last_dot(name: Seq<char>) -> int
    decreases name.len(),
{
    if name.len() == 0 {
        -1
    } else if name.last() == '.' {
        name.len() - 1
    } else {
        last_dot(name.drop_last())
    }
}

/// The part of a file name before its last `.`; the whole name where it has
/// no `.` but, at most, a leading one.
pub open spec fn file_stem(name: Seq<char>) -> Seq<char> {
    let dot = last_dot(name);
    if dot > 0 {
        name.subrange(0, dot)
    } else {
        name
    }
}

/// The part of a file name behind its last `.`, unless that `.` leads the
/// name or is missing.
pub open spec fn extension(name: Seq<char>) -> Option<Seq<char>> {
    let dot = last_dot(name);
    if dot > 0 {
        Some(name.subrange(dot + 1, name.len() as int))
    } else {
        None
    }
}

/// The file's extension is `json`.
pub open spec fn is_json_file(name: Seq<char>) -> bool {
    extension(name) == Some("json"@)
}

/// The entry is a stored context: a `json` file other than the index.
pub open spec fn is_context_file(name: Seq<char>) -> bool {
    is_json_file(name) && name != index_file()
}

/// The name of the file that holds the context `name`.
pub open spec fn context_file(name: Seq<char>) -> Seq<char> {
    name + json_suffix()
}

/// The views of a list of strings.
pub open spec fn texts(list: Seq<String>) -> Seq<Seq<char>> {
    list.map_values(|s: String| s@)
}

/// The test that picks the stored contexts out of a listing.
pub open spec fn stored_only() -> spec_fn(Seq<char>) -> bool {
    |name: Seq<char>| is_context_file(name)
}

/// The entries that are stored contexts, in the order of the listing.
pub open spec fn context_files(entries: Seq<Seq<char>>) -> Seq<Seq<char>> {
    entries.filter(stored_only())
}

/// The stem of each file name.
pub open spec fn file_stems(files: Seq<Seq<char>>) -> Seq<Seq<char>> {
    files.map_values(|name: Seq<char>| file_stem(name))
}

/// The names of the stored contexts, in the order of the listing.
pub open spec fn stored_names(entries: Seq<Seq<char>>) -> Seq<Seq<char>> {
    file_stems(context_files(entries))
}

/// `last_dot` is the one position that holds a `.` with none behind it.
pub proof fn lemma_last_dot(name: Seq<char>)
    ensures
        -1 <= last_dot(name) < name.len(),
        last_dot(name) >= 0 ==> name[last_dot(name)] == '.',
        forall|j: int| last_dot(name) < j < name.len() ==> name[j] != '.',
    decreases name.len(),
{
    if name.len() > 0 && name.last() != '.' {
        let front = name.drop_last();
        lemma_last_dot(front);
        assert forall|j: int| last_dot(name) < j < name.len() implies name[j] != '.' by {
            if j < front.len() {
                assert(front[j] == name[j]);
            }
        }
    }
}

/// A position that holds a `.` with none behind it is `last_dot`.
pub proof fn lemma_last_dot_is(name: Seq<char>, dot: int)
    requires
        -1 <= dot < name.len(),
        dot >= 0 ==> name[dot] == '.',
        forall|j: int| dot < j < name.len() ==> name[j] != '.',
    ensures
        last_dot(name) == dot,
{
    lemma_last_dot(name);
}

/// A name is a `json` file exactly if it is a non-empty stem followed by `.json`.
pub proof fn lemma_json_file(name: Seq<char>)
    ensures
        is_json_file(name) <==> (name.len() > 5 && name.subrange(name.len() - 5, name.len() as int)
            == json_suffix()),
        is_json_file(name) ==> file_stem(name) == name.subrange(0, name.len() - 5),
        is_json_file(name) ==> name == context_file(file_stem(name)),
{
    reveal_strlit(".json");
    reveal_strlit("json");
    lemma_last_dot(name);
    let n = name.len() as int;
    if is_json_file(name) {
        let dot = last_dot(name);
        let ext = name.subrange(dot + 1, n);
        assert(ext == "json"@);
        assert(ext.len() == 4);
        assert(dot == n - 5);
        let tail = name.subrange(n - 5, n);
        assert(tail.len() == 5);
        assert(tail[0] == '.');
        assert forall|k: int| 1 <= k < 5 implies tail[k] == json_suffix()[k] by {
            assert(tail[k] == ext[k - 1]);
        }
        assert(tail =~= json_suffix());
        assert(name =~= name.subrange(0, n - 5) + json_suffix());
    }
    if n > 5 && name.subrange(n - 5, n) == json_suffix() {
        let tail = name.subrange(n - 5, n);
        assert(name[n - 5] == tail[0]);
        assert forall|j: int| n - 5 < j < n implies name[j] != '.' by {
            assert(name[j] == tail[j - (n - 5)]);
        }
        lemma_last_dot_is(name, n - 5);
        let ext = name.subrange(n - 4, n);
        assert forall|k: int| 0 <= k < 4 implies ext[k] == "json"@[k] by {
            assert(ext[k] == tail[k + 1]);
        }
        assert(ext =~= "json"@);
    }
}

/// The file of a context with a non-empty name is a `json` file with that
/// name as its stem; the file of the empty name is none.
pub proof fn lemma_context_file(name: Seq<char>)
    ensures
        name.len() > 0 ==> is_json_file(context_file(name)) && file_stem(context_file(name))
            == name,
        name.len() == 0 ==> !is_json_file(context_file(name)),
        is_context_file(context_file(name)) <==> name.len() > 0 && name != "index"@,
{
    reveal_strlit(".json");
    reveal_strlit("index");
    reveal_strlit("index.json");
    let file = context_file(name);
    let n = file.len() as int;
    lemma_json_file(file);
    assert(n == name.len() + 5);
    if name.len() > 0 {
        assert(file.subrange(n - 5, n) =~= json_suffix());
        assert(file.subrange(0, n - 5) =~= name);
    }
    if name == "index"@ {
        assert(file =~= index_file());
    }
    if file == index_file() {
        assert(name =~= file.subrange(0, 5));
        assert(name =~= "index"@);
    }
}

/// A name is among the stored names exactly if its file is among the
/// context files of the listing.
pub proof fn lemma_stored_name_has_file(entries: Seq<Seq<char>>, name: Seq<char>)
    ensures
        stored_names(entries).contains(name) <==> context_files(entries).contains(
            context_file(name),
        ),
{
    let files = context_files(entries);
    let names = stored_names(entries);
    if names.contains(name) {
        let i = choose|i: int| 0 <= i < names.len() && names[i] == name;
        entries.lemma_filter_pred(stored_only(), i);
        assert(is_context_file(files[i]));
        lemma_json_file(files[i]);
        assert(files[i] == context_file(name));
        assert(files.contains(context_file(name)));
    }
    if files.contains(context_file(name)) {
        let i = choose|i: int| 0 <= i < files.len() && files[i] == context_file(name);
        entries.lemma_filter_pred(stored_only(), i);
        assert(is_context_file(files[i]));
        lemma_context_file(name);
        assert(names[i] == name);
        assert(names.contains(name));
    }
}

/// Whether two strings hold the same text.
pub fn text_eq(a: &str, b: &str) -> (same: bool)
    ensures
        same == (a@ == b@),
{
    let len: usize = a.unicode_len();
    if len != b.unicode_len() {
        return false;
    }
    let mut i: usize = 0;
    while i < len
        invariant
            i <= len,
            len == a@.len(),
            len == b@.len(),
            forall|j: int| 0 <= j < i ==> a@[j] == b@[j],
        decreases len - i,
    {
        if a.get_char(i) != b.get_char(i) {
            return false;
        }
        i += 1;
    }
    assert(a@ =~= b@);
    true
}

/// The position of the last `.` in `name`.
pub fn find_last_dot(name: &str) -> (dot: Option<usize>)
    ensures
        match dot {
            Some(d) => d == last_dot(name@),
            None => last_dot(name@) == -1,
        },
{
    let len: usize = name.unicode_len();
    let mut i: usize = len;
    while i > 0
        invariant
            i <= len,
            len == name@.len(),
            forall|j: int| i <= j < len ==> name@[j] != '.',
        decreases i,
    {
        if name.get_char(i - 1) == '.' {
            proof {
                lemma_last_dot_is(name@, i - 1);
            }
            return Some(i - 1);
        }
        i -= 1;
    }
    proof {
        lemma_last_dot_is(name@, -1);
    }
    None
}

/// The stem of a file name.
pub fn file_stem_of(name: &str) -> (stem: String)
    ensures
        stem@ == file_stem(name@),
{
    proof {
        lemma_last_dot(name@);
    }
    match find_last_dot(name) {
        Some(dot) if dot > 0 => String::from_str(name.substring_char(0, dot)),
        _ => String::from_str(name),
    }
}

/// Whether the entry is a `json` file.
pub fn has_json_extension(name: &str) -> (json: bool)
    ensures
        json == is_json_file(name@),
{
    proof {
        lemma_last_dot(name@);
    }
    match find_last_dot(name) {
        Some(dot) if dot > 0 => {
            let len: usize = name.unicode_len();
            text_eq(name.substring_char(dot + 1, len), "json")
        },
        _ => false,
    }
}

/// Whether the entry is a stored context.
pub fn is_context_entry(name: &str) -> (stored: bool)
    ensures
        stored == is_context_file(name@),
{
    has_json_extension(name) && !text_eq(name, "index.json")
}

/// The entries of a directory that are stored contexts: every `json` file
/// but the index, in the order of the listing.
pub fn get_contexts(entries: &Vec<String>) -> (files: Vec<String>)
    ensures
        texts(files@) == context_files(texts(entries@)),
{
    let mut files: Vec<String> = Vec::new();
    let mut i: usize = 0;
    proof {
        reveal(Seq::filter);
        assert(texts(entries@).take(0) =~= Seq::<Seq<char>>::empty());
        assert(texts(files@) =~= Seq::<Seq<char>>::empty());
    }
    while i < entries.len()
        invariant
            i <= entries.len(),
            texts(files@) == context_files(texts(entries@).take(i as int)),
        decreases entries.len() - i,
    {
        let entry = &entries[i];
        let ghost before = files@;
        proof {
            let all = texts(entries@);
            assert(all.take(i + 1).drop_last() =~= all.take(i as int));
            assert(all.take(i + 1).last() == entry@);
            reveal(Seq::filter);
        }
        if is_context_entry(entry.as_str()) {
            files.push(entry.clone());
            proof {
                assert(texts(files@) =~= texts(before).push(entry@));
            }
        }
        i += 1;
    }
    proof {
        let all = texts(entries@);
        assert(all.take(entries.len() as int) =~= all);
    }
    files
}

/// The name of each context file: its stem.
pub fn context_filestems_from_path(contexts: &Vec<String>) -> (names: Vec<String>)
    ensures
        texts(names@) == file_stems(texts(contexts@)),
{
    let mut names: Vec<String> = Vec::new();
    let mut i: usize = 0;
    while i < contexts.len()
        invariant
            i <= contexts.len(),
            names@.len() == i,
            forall|j: int| 0 <= j < i ==> (#[trigger] names@[j])@ == file_stem(contexts@[j]@),
        decreases contexts.len() - i,
    {
        let stem = file_stem_of(contexts[i].as_str());
        names.push(stem);
        i += 1;
    }
    assert(texts(names@) =~= file_stems(texts(contexts@)));
    names
}

/// The names of the contexts stored in a directory with these entries.
pub fn list_names(entries: &Vec<String>) -> (names: Vec<String>)
    ensures
        texts(names@) == stored_names(texts(entries@)),
{
    let files = get_contexts(entries);
    context_filestems_from_path(&files)
}

/// The name, inside the context directory, of the file that holds the
/// context `name`.
pub fn context_path_from_name(name: &str) -> (file: String)
    ensures
        file@ == context_file(name@),
{
    String::from_str(name).concat(".json")
}

/// Whether `list` holds `text`.
pub fn contains_text(list: &Vec<String>, text: &str) -> (found: bool)
    ensures
        found == texts(list@).contains(text@),
{
    let mut i: usize = 0;
    while i < list.len()
        invariant
            i <= list.len(),
            forall|j: int| 0 <= j < i ==> texts(list@)[j] != text@,
        decreases list.len() - i,
    {
        if text_eq(list[i].as_str(), text) {
            assert(texts(list@)[i as int] == text@);
            return true;
        }
        i += 1;
    }
    false
}

} // verus!
