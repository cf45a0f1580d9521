//! Filesystem-safe naming of entries.

use vstd::prelude::*;
use vstd::string::StrSliceExecFns;
use vstd::string::StringExecFns;
use crate::text::{char_is_alphanumeric, is_alnum, string_push};

verus! {

/// A character survives sanitization when it is alphanumeric or one of
/// `.`, `-`, `_`; every other character becomes `_`.
pub open spec fn safe_char(c: char) -> char {
    if is_alnum(c) || c == '.' || c == '-' || c == '_' {
        c
    } else {
        '_'
    }
}

/// `name` with every filesystem-unsafe character replaced by `_`.
pub open spec fn safe_name_of(name: Seq<char>) -> Seq<char> {
    name.map_values(|c: char| safe_char(c))
}

/// The document filename suffix.
pub open spec fn pdf_suffix() -> Seq<char> {
    seq!['.', 'p', 'd', 'f']
}

/// Whether `s` ends in `.pdf`.
pub open spec fn ends_with_pdf(s: Seq<char>) -> bool {
    s.len() >= 4 && s.subrange(s.len() - 4, s.len() as int) == pdf_suffix()
}

/// The sanitized on-disk name of an entry: unsafe characters replaced,
/// and for a document a `.pdf` suffix appended unless already present.
pub open spec fn sanitize_spec(name: Seq<char>, is_folder: bool) -> Seq<char> {
    let safe = safe_name_of(name);
    if !is_folder && !ends_with_pdf(safe) {
        safe + pdf_suffix()
    } else {
        safe
    }
}

/// Whether the last four characters of `safe` (of which there are at
/// least four) spell `.pdf`, decided character by character.
fn ends_pdf_exec(safe: &String) -> (r: bool)
    ensures
        r == ends_with_pdf(safe@),
{
    let n = safe.as_str().unicode_len();
    if n < 4 {
        return false;
    }
    let r = safe.as_str().get_char(n - 4) == '.' && safe.as_str().get_char(n - 3) == 'p'
        && safe.as_str().get_char(n - 2) == 'd' && safe.as_str().get_char(n - 1) == 'f';
    proof {
        let tail = safe@.subrange(safe@.len() - 4, safe@.len() as int);
        assert(tail.len() == 4);
        assert(tail[0] == safe@[safe@.len() - 4]);
        assert(tail[1] == safe@[safe@.len() - 3]);
        assert(tail[2] == safe@[safe@.len() - 2]);
        assert(tail[3] == safe@[safe@.len() - 1]);
        if r {
            assert(tail =~= pdf_suffix());
        }
        if tail == pdf_suffix() {
            assert(tail[0] == '.' && tail[1] == 'p' && tail[2] == 'd' && tail[3] == 'f');
        }
    }
    r
}

/// The filesystem-safe name for an entry called `name`: every character
/// that is not alphanumeric, `.`, `-` or `_` becomes `_`, and a document's
/// name gets `.pdf` appended unless it already ends in `.pdf`.
pub fn sanitize_filename(name: &str, is_folder: bool) -> (r: String)
    ensures
        r@ == sanitize_spec(name@, is_folder),
{
    let len = name.unicode_len();
    let mut safe = String::new();
    let mut i: usize = 0;
    while i < len
        invariant
            len == name@.len(),
            i <= len,
            safe@.len() == i,
            forall|j: int| 0 <= j < i ==> safe@[j] == safe_char(name@[j]),
        decreases len - i,
    {
        let c = name.get_char(i);
        let keep = char_is_alphanumeric(c) || c == '.' || c == '-' || c == '_';
        string_push(&mut safe, if keep { c } else { '_' });
        i += 1;
    }
    proof {
        assert(safe@ =~= safe_name_of(name@));
    }
    if !is_folder && !ends_pdf_exec(&safe) {
        proof {
            reveal_strlit(".pdf");
            assert(".pdf"@ =~= pdf_suffix());
        }
        safe.append(".pdf");
    }
    safe
}

/// Sanitizing is idempotent: a name that has already been sanitized comes
/// back unchanged from a second pass.
pub proof fn lemma_sanitize_idempotent(name: Seq<char>, is_folder: bool)
    ensures
        sanitize_spec(sanitize_spec(name, is_folder), is_folder) == sanitize_spec(
            name,
            is_folder,
        ),
{
    let safe = safe_name_of(name);
    lemma_safe_name_of_idempotent(name);
    if is_folder {
        assert(sanitize_spec(safe, true) == safe_name_of(safe));
    } else {
        if ends_with_pdf(safe) {
            assert(sanitize_spec(safe, false) == safe);
        } else {
            let out = safe + pdf_suffix();
            lemma_safe_name_of_appended_pdf(safe);
            assert(ends_with_pdf(out)) by {
                assert(out.subrange(out.len() - 4, out.len() as int) =~= pdf_suffix());
            }
            assert(sanitize_spec(out, false) == out);
        }
    }
}

/// Replacing unsafe characters is idempotent: each kept character is kept
/// again, and `_`, the replacement, is itself kept.
proof fn lemma_safe_name_of_idempotent(s: Seq<char>)
    ensures
        safe_name_of(safe_name_of(s)) == safe_name_of(s),
{
    let once = safe_name_of(s);
    assert forall|j: int| 0 <= j < once.len() implies safe_name_of(once)[j] == once[j] by {
        assert(once[j] == safe_char(s[j]));
        assert(safe_char(safe_char(s[j])) == safe_char(s[j]));
    }
    assert(safe_name_of(once) =~= once);
}

/// Appending `.pdf` to an already-safe name and sanitizing again changes
/// nothing: the suffix's own characters are all safe.
proof fn lemma_safe_name_of_appended_pdf(safe: Seq<char>)
    requires
        safe_name_of(safe) == safe,
    ensures
        safe_name_of(safe + pdf_suffix()) == safe + pdf_suffix(),
{
    let out = safe + pdf_suffix();
    assert(safe_char('.') == '.');
    assert(safe_char('p') == 'p');
    assert(safe_char('d') == 'd');
    assert(safe_char('f') == 'f');
    assert forall|j: int| 0 <= j < out.len() implies safe_name_of(out)[j] == out[j] by {
        if j < safe.len() {
            assert(safe_name_of(safe)[j] == safe[j]);
            assert(safe_char(safe[j]) == safe[j]);
        } else {
            assert(out[j] == pdf_suffix()[j - safe.len()]);
        }
    }
    assert(safe_name_of(out) =~= out);
}

/// A document's sanitized name always ends in `.pdf`, and the pass never
/// stacks a second suffix: when the safe form of `name` does not already
/// end in `.pdf`, the result does not end in `.pdf.pdf` either.
pub proof fn lemma_document_name_pdf_once(name: Seq<char>)
    ensures
        ends_with_pdf(sanitize_spec(name, false)),
        !ends_with_pdf(safe_name_of(name)) ==> !ends_with_pdf(
            sanitize_spec(name, false).take(sanitize_spec(name, false).len() - 4),
        ),
{
    let safe = safe_name_of(name);
    if !ends_with_pdf(safe) {
        let out = safe + pdf_suffix();
        assert(ends_with_pdf(out)) by {
            assert(out.subrange(out.len() - 4, out.len() as int) =~= pdf_suffix());
        }
        assert(out.take(out.len() - 4) =~= safe);
    }
}

} // verus!
