//! Making a file name safe to create inside the context directory.

use vstd::prelude::*;
use vstd::string::*;

verus! {

/// The file name that `sanitize_filename::sanitize_with_options` makes of
/// `name` under the given options.
pub uninterp spec fn sanitized(
    name: Seq<char>,
    windows: bool,
    truncate: bool,
    replacement: Seq<char>,
) -> Seq<char>;

/// A character that no sanitized file name holds: a path separator, one of
/// the characters that a file system reserves, or a control character.
pub open spec fn is_reserved_char(c: char) -> bool {
    ||| c == '/'
    ||| c == '\\'
    ||| c == '?'
    ||| c == '<'
    ||| c == '>'
    ||| c == ':'
    ||| c == '*'
    ||| c == '|'
    ||| c == '"'
    ||| (c as u32) <= 0x1f
    ||| 0x80 <= (c as u32) <= 0x9f
}

/// No character of `text` is reserved.
pub open spec fn is_clean(text: Seq<char>) -> bool {
    forall|i: int| 0 <= i < text.len() ==> !is_reserved_char(#[trigger] text[i])
}

/// A replacement that is put in as it stands: it holds no reserved
/// character and no `$`.
pub open spec fn is_plain_replacement(text: Seq<char>) -> bool {
    is_clean(text) && forall|i: int| 0 <= i < text.len() ==> #[trigger] text[i] != '$'
}

/// `name` with `replacement` in place of each reserved character.
pub open spec fn replaced(name: Seq<char>, replacement: Seq<char>) -> Seq<char>
    decreases name.len(),
{
    if name.len() == 0 {
        Seq::empty()
    } else {
        replaced(name.drop_last(), replacement) + (if is_reserved_char(name.last()) {
            replacement
        } else {
            seq![name.last()]
        })
    }
}

/// `c` is the letter given, in lower or in upper case.
pub open spec fn is_letter(c: char, lower: char, upper: char) -> bool {
    c == lower || c == upper
}

/// `text` starts with the three letters given, in either case.
pub open spec fn starts_with_letters(text: Seq<char>, first: (char, char), second: (char, char), third: (
    char,
    char,
)) -> bool {
    &&& text.len() >= 3
    &&& is_letter(text[0], first.0, first.1)
    &&& is_letter(text[1], second.0, second.1)
    &&& is_letter(text[2], third.0, third.1)
}

/// `text` starts as the name of a device does: with `con`, `prn`, `aux`,
/// `nul`, `com` or `lpt`, in either case.
pub open spec fn starts_like_device(text: Seq<char>) -> bool {
    ||| starts_with_letters(text, ('c', 'C'), ('o', 'O'), ('n', 'N'))
    ||| starts_with_letters(text, ('p', 'P'), ('r', 'R'), ('n', 'N'))
    ||| starts_with_letters(text, ('a', 'A'), ('u', 'U'), ('x', 'X'))
    ||| starts_with_letters(text, ('n', 'N'), ('u', 'U'), ('l', 'L'))
    ||| starts_with_letters(text, ('c', 'C'), ('o', 'O'), ('m', 'M'))
    ||| starts_with_letters(text, ('l', 'L'), ('p', 'P'), ('t', 'T'))
}

/// A text that needs nothing beyond the replacing of characters: it has at
/// most 63 characters, does not end in a dot or a space, and does not start
/// as the name of a device does. This asks more than the sanitizer does, so
/// that it can be said in a few lines.
pub open spec fn is_settled(text: Seq<char>) -> bool {
    &&& text.len() <= 63
    &&& text.len() > 0 ==> text.last() != '.' && text.last() != ' '
    &&& !starts_like_device(text)
}

/// Calls `sanitize_filename::sanitize_with_options` with an `Options` made of
/// the three settings. The result is named by `sanitized`. Beyond that the
/// contract claims two things, both for a replacement that holds no reserved
/// character and no `$`, which is inserted literally.
///
/// The result holds no reserved character: every one of them in `name` is
/// replaced, and the later steps only replace or cut.
///
/// Where `name` with its reserved characters replaced is settled, that is
/// the result. The later steps then find nothing to do: they replace a name
/// made of dots only, a device name of Windows at the start, and dots and
/// spaces at the end, and they cut what is longer than 255 bytes, which 63
/// characters never are.
#[verifier::external_body]
fn sanitize_with_options(name: &str, windows: bool, truncate: bool, replacement: &str) -> (safe:
    String)
    ensures
        safe@ == sanitized(name@, windows, truncate, replacement@),
        is_plain_replacement(replacement@) ==> is_clean(safe@),
        is_plain_replacement(replacement@) && is_settled(replaced(name@, replacement@)) ==> safe@
            == replaced(name@, replacement@),
{
    let options = sanitize_filename::Options { windows, truncate, replacement };
    sanitize_filename::sanitize_with_options(name, options)
}

/// What is put in place of a character that a file name may not hold.
pub open spec fn replacement_text() -> Seq<char> {
    "_"@
}

/// The safe file name made of `name` as it stands, with nothing put behind
/// it first: cut to the length that file systems take, by the rules of
/// Windows too, with `_` for what is replaced.
pub open spec fn safe_file_name(name: Seq<char>) -> Seq<char> {
    sanitized(name, true, true, replacement_text())
}

/// `name` with `_` in place of each reserved character.
pub open spec fn underscored(name: Seq<char>) -> Seq<char> {
    name.map_values(
        |c: char|
            if is_reserved_char(c) {
                '_'
            } else {
                c
            },
    )
}

/// Replacing by the text `_` puts the character `_` in each place.
pub proof fn lemma_underscored(name: Seq<char>)
    ensures
        replaced(name, replacement_text()) == underscored(name),
    decreases name.len(),
{
    reveal_strlit("_");
    assert("_"@ =~= seq!['_']);
    if name.len() > 0 {
        lemma_underscored(name.drop_last());
        assert(underscored(name) =~= underscored(name.drop_last()) + seq![underscored(name).last()]);
    } else {
        assert(underscored(name) =~= Seq::<char>::empty());
    }
}

/// Makes `name` a safe file name. Whatever `name` holds, the result holds no
/// path separator and no reserved or control character. Where `name` with
/// `_` for each of those is settled, that is the result.
pub fn sanitize_file_name(name: &str) -> (safe: String)
    ensures
        safe@ == safe_file_name(name@),
        is_clean(safe@),
        is_settled(underscored(name@)) ==> safe@ == underscored(name@),
{
    proof {
        reveal_strlit("_");
        assert(is_plain_replacement("_"@));
        lemma_underscored(name@);
    }
    sanitize_with_options(name, true, true, "_")
}

} // verus!
