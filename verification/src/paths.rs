//! Local path handling: `~` expansion of user input, joining, base names,
//! and resolution of a download destination to the final on-disk path.
//!
//! Nothing here touches the filesystem.  Where a decision depends on what
//! is on disk (does the destination exist, is it a directory), the caller
//! probes and passes the outcome in as a plain boolean.

use vstd::prelude::*;
use vstd::string::StrSliceExecFns;
use vstd::string::StringExecFns;
use crate::errors::AppError;
use crate::item::Item;
use crate::names::{sanitize_filename, sanitize_spec};

verus! {

/// `path` with a leading `~` expanded to the home directory: a bare `~`
/// becomes the home directory itself, a `~/...` prefix is replaced by it,
/// and without a known home directory the path stays as typed.
pub open spec fn expand_spec(path: Seq<char>, home: Option<Seq<char>>) -> Seq<char> {
    if path =~= seq!['~'] {
        match home {
            Some(h) => h,
            None => path,
        }
    } else if path.len() >= 2 && path[0] == '~' && path[1] == '/' {
        match home {
            Some(h) => h + path.skip(1),
            None => path,
        }
    } else {
        path
    }
}

/// Expands a leading `~` in a user-typed path against the given home
/// directory, if one is known.
pub fn expand_path(path: &str, home: &Option<String>) -> (r: String)
    ensures
        r@ == expand_spec(path@, home.deep_view()),
{
    let len = path.unicode_len();
    if len == 1 && path.get_char(0) == '~' {
        proof {
            assert(path@ =~= seq!['~']);
        }
        match home {
            Some(h) => h.clone(),
            None => path.to_owned(),
        }
    } else if len >= 2 && path.get_char(0) == '~' && path.get_char(1) == '/' {
        proof {
            assert(!(path@ =~= seq!['~']));
            assert(path@.subrange(1, len as int) =~= path@.skip(1));
        }
        match home {
            Some(h) => h.clone().concat(path.substring_char(1, len)),
            None => path.to_owned(),
        }
    } else {
        proof {
            if path@.len() == 1 && path@[0] == '~' {
                assert(path@ =~= seq!['~']);
            }
        }
        path.to_owned()
    }
}

/// `name` placed under the directory `base`: a separator is inserted
/// unless `base` already ends in one; an empty `base` yields `name` alone.
pub open spec fn join_spec(base: Seq<char>, name: Seq<char>) -> Seq<char> {
    if base.len() == 0 {
        name
    } else if base.last() == '/' {
        base + name
    } else {
        base + seq!['/'] + name
    }
}

/// Joins an entry name onto a directory path with a single separator.
pub fn join_path(base: &str, name: &str) -> (r: String)
    ensures
        r@ == join_spec(base@, name@),
{
    let blen = base.unicode_len();
    if blen == 0 {
        name.to_owned()
    } else if base.get_char(blen - 1) == '/' {
        base.to_owned().concat(name)
    } else {
        proof {
            reveal_strlit("/");
            assert(base@ + "/"@ + name@ =~= base@ + seq!['/'] + name@);
        }
        base.to_owned().concat("/").concat(name)
    }
}

/// `p` with every trailing separator removed.
pub open spec fn strip_trailing_slashes(p: Seq<char>) -> Seq<char>
    decreases p.len(),
{
    if p.len() > 0 && p.last() == '/' {
        strip_trailing_slashes(p.drop_last())
    } else {
        p
    }
}

/// The characters of `p` after its last separator; all of `p` when it has
/// none, and empty when `p` ends in one.
pub open spec fn suffix_after_last_slash(p: Seq<char>) -> Seq<char>
    decreases p.len(),
{
    if p.len() == 0 {
        p
    } else if p.last() == '/' {
        Seq::empty()
    } else {
        suffix_after_last_slash(p.drop_last()).push(p.last())
    }
}

/// The base name of `p`: its last component once trailing separators are
/// dropped, or `None` when nothing remains (an empty path, or a root of
/// separators alone).
pub open spec fn base_name_spec(p: Seq<char>) -> Option<Seq<char>> {
    let stripped = strip_trailing_slashes(p);
    let component = suffix_after_last_slash(stripped);
    if component.len() == 0 {
        None
    } else {
        Some(component)
    }
}

/// Characterizes `strip_trailing_slashes` by the first kept index.
proof fn lemma_strip_is(p: Seq<char>, end: int)
    requires
        0 <= end <= p.len(),
        forall|j: int| end <= j < p.len() ==> p[j] == '/',
        end > 0 ==> p[end - 1] != '/',
    ensures
        strip_trailing_slashes(p) == p.take(end),
    decreases p.len(),
{
    if p.len() > 0 && p.last() == '/' {
        assert(end < p.len());
        lemma_strip_is(p.drop_last(), end);
        assert(p.drop_last().take(end) =~= p.take(end));
    } else {
        assert(end == p.len());
        assert(p.take(end) =~= p);
    }
}

/// Characterizes `suffix_after_last_slash` by the first index of the
/// suffix.
proof fn lemma_suffix_is(p: Seq<char>, start: int)
    requires
        0 <= start <= p.len(),
        forall|j: int| start <= j < p.len() ==> p[j] != '/',
        start > 0 ==> p[start - 1] == '/',
    ensures
        suffix_after_last_slash(p) == p.skip(start),
    decreases p.len(),
{
    if p.len() == 0 {
        assert(p.skip(start) =~= p);
    } else if p.last() == '/' {
        assert(start == p.len());
        assert(p.skip(start) =~= Seq::<char>::empty());
    } else {
        lemma_suffix_is(p.drop_last(), start);
        assert(p.drop_last().skip(start).push(p.last()) =~= p.skip(start));
    }
}

/// The base name of a local path, as the component after the last
/// separator once trailing separators are dropped: the name an uploaded
/// file is sent under.
pub fn base_name(path: &str) -> (r: Option<String>)
    ensures
        r.deep_view() == base_name_spec(path@),
{
    let len = path.unicode_len();
    let mut end: usize = len;
    while end > 0 && path.get_char(end - 1) == '/'
        invariant
            len == path@.len(),
            end <= len,
            forall|j: int| end <= j < len ==> path@[j] == '/',
        decreases end,
    {
        end -= 1;
    }
    proof {
        lemma_strip_is(path@, end as int);
    }
    let mut start: usize = end;
    while start > 0 && path.get_char(start - 1) != '/'
        invariant
            len == path@.len(),
            start <= end <= len,
            forall|j: int| start <= j < end ==> path@[j] != '/',
        decreases start,
    {
        start -= 1;
    }
    proof {
        lemma_suffix_is(path@.take(end as int), start as int);
        assert(path@.take(end as int).skip(start as int) =~= path@.subrange(
            start as int,
            end as int,
        ));
    }
    if start == end {
        None
    } else {
        Some(path.substring_char(start, end).to_owned())
    }
}

/// The name an uploaded file is sent under: the base name of its local
/// path.  A path with no base name (empty, or separators alone) is
/// unusable and rejected as invalid input, carrying the path itself.
pub fn upload_form_name(path: &str) -> (r: Result<String, AppError>)
    ensures
        match r {
            Ok(n) => base_name_spec(path@) == Some(n@),
            Err(e) => {
                &&& base_name_spec(path@) is None
                &&& e matches AppError::InvalidInput(m) && m@ == path@
            },
        },
{
    match base_name(path) {
        Some(n) => Ok(n),
        None => Err(AppError::InvalidInput(path.to_owned())),
    }
}

/// Whether the user's destination names a directory to download into:
/// its text ends in a separator, or it already exists as a directory.
pub open spec fn is_dir_target(dest: Seq<char>, dest_is_dir: bool) -> bool {
    (dest.len() > 0 && dest.last() == '/') || dest_is_dir
}

/// The final on-disk path for an entry downloaded to `dest`.  A directory
/// target must already exist and receives the entry under its sanitized
/// name; any other destination is taken verbatim (letting the user rename
/// what is downloaded) but its parent must already exist.  `Err` carries
/// the destination whose required directory is missing.
pub open spec fn resolve_spec(
    name: Seq<char>,
    folder: bool,
    dest: Seq<char>,
    dest_is_dir: bool,
    dest_exists: bool,
    parent_exists: bool,
) -> Result<Seq<char>, Seq<char>> {
    if is_dir_target(dest, dest_is_dir) {
        if !dest_exists {
            Err(dest)
        } else {
            Ok(join_spec(dest, sanitize_spec(name, folder)))
        }
    } else {
        if !parent_exists {
            Err(dest)
        } else {
            Ok(dest)
        }
    }
}

/// Resolves the final on-disk path for downloading `item` to the
/// user-given destination `dest`.  The three booleans are the caller's
/// filesystem probes: whether `dest` exists as a directory, whether it
/// exists at all, and whether its parent directory exists.  Fails with
/// `NotFound` exactly when the directory the policy requires is missing.
pub fn resolve_final_path(
    item: &Item,
    dest: &str,
    dest_is_dir: bool,
    dest_exists: bool,
    dest_parent_exists: bool,
) -> (r: Result<String, AppError>)
    ensures
        ({
            let rr = resolve_spec(
                item.visible_name@,
                item.folder_spec(),
                dest@,
                dest_is_dir,
                dest_exists,
                dest_parent_exists,
            );
            match r {
                Ok(p) => rr == Ok::<Seq<char>, Seq<char>>(p@),
                Err(e) => {
                    &&& rr == Err::<Seq<char>, Seq<char>>(dest@)
                    &&& e matches AppError::NotFound(m) && m@ == dest@
                },
            }
        }),
{
    let dlen = dest.unicode_len();
    let dir_target = (dlen > 0 && dest.get_char(dlen - 1) == '/') || dest_is_dir;
    if dir_target {
        if !dest_exists {
            Err(AppError::NotFound(dest.to_owned()))
        } else {
            let safe = sanitize_filename(item.visible_name.as_str(), item.is_folder());
            Ok(join_path(dest, safe.as_str()))
        }
    } else {
        if !dest_parent_exists {
            Err(AppError::NotFound(dest.to_owned()))
        } else {
            Ok(dest.to_owned())
        }
    }
}

} // verus!
