//! Paths as the launcher hands them to the system: strings joined the way `Path::join` joins
//! them, with `/` on macOS and Linux and, for a file name, with `\\` on Windows.

use vstd::prelude::*;

verus! {

/// `base` joined with `part`: an absolute `part` replaces `base`; otherwise a `/` goes
/// between them unless `base` is empty or already ends with one.
pub open spec fn joined(base: Seq<char>, part: Seq<char>) -> Seq<char> {
    if part.len() > 0 && part[0] == '/' {
        part
    } else if base.len() == 0 || base.last() == '/' {
        base + part
    } else {
        base + seq!['/'] + part
    }
}

/// Joins `part` onto `base`.
pub fn join_path(base: &str, part: &str) -> (r: String)
    ensures
        r@ == joined(base@, part@),
{
    if !part.is_empty() && part.get_char(0) == '/' {
        return part.to_owned();
    }
    let mut r = base.to_owned();
    if !base.is_empty() && base.get_char(base.unicode_len() - 1) != '/' {
        r.append("/");
        proof {
            reveal_strlit("/");
        }
    }
    r.append(part);
    r
}


/// A Windows path separator.
pub open spec fn is_windows_separator(c: char) -> bool {
    c == '\\' || c == '/'
}

/// An ASCII letter, as a Windows drive letter must be.
pub open spec fn is_ascii_letter(c: char) -> bool {
    ('a' <= c && c <= 'z') || ('A' <= c && c <= 'Z')
}

/// `base` is nothing but a plain drive prefix such as `C:`, after which Windows adds no
/// separator. A verbatim drive such as `\\?\C:` is not one: it gets a separator.
pub open spec fn is_bare_drive(base: Seq<char>) -> bool {
    base.len() == 2 && is_ascii_letter(base[0]) && base[1] == ':'
}

/// The folder `base` joined with the file name `file` on Windows, as `Path::join` gives it for
/// a name without separators or a drive: a `\` goes between them unless `base` is empty, ends
/// with a separator, or is a plain drive.
pub open spec fn joined_windows(base: Seq<char>, file: Seq<char>) -> Seq<char> {
    if base.len() == 0 || is_windows_separator(base.last()) || is_bare_drive(base) {
        base + file
    } else {
        base + seq!['\\'] + file
    }
}

fn is_ascii_letter_char(c: char) -> (b: bool)
    ensures
        b == is_ascii_letter(c),
{
    ('a' <= c && c <= 'z') || ('A' <= c && c <= 'Z')
}

/// Joins the file name `file` onto the folder `base` with Windows' rules.
pub fn join_file_windows(base: &str, file: &str) -> (r: String)
    ensures
        r@ == joined_windows(base@, file@),
{
    let v = crate::text::chars_of(base);
    let n = v.len();
    let bare_drive = n == 2 && is_ascii_letter_char(v[0]) && v[1] == ':';
    let mut r = base.to_owned();
    if n > 0 && v[n - 1] != '\\' && v[n - 1] != '/' && !bare_drive {
        r.append("\\");
        proof {
            reveal_strlit("\\");
        }
    }
    r.append(file);
    r
}


/// Joining a file name on Windows adds nothing of its own but at most one `\` between folder
/// and name: the result is the folder then the name, with a `\` between them exactly when the
/// folder is not empty, does not end with `\` or `/`, and is not a plain drive like `C:`.
pub proof fn windows_join_adds_at_most_a_separator(base: Seq<char>, file: Seq<char>)
    ensures
        ({
            let needs_separator = base.len() > 0 && base.last() != '\\' && base.last() != '/'
                && !(base.len() == 2 && base[1] == ':' && (('a' <= base[0] && base[0] <= 'z')
                || ('A' <= base[0] && base[0] <= 'Z')));
            &&& needs_separator ==> joined_windows(base, file) == base + seq!['\\'] + file
            &&& !needs_separator ==> joined_windows(base, file) == base + file
            &&& joined_windows(base, file).take(base.len() as int) == base
            &&& joined_windows(base, file).skip(
                joined_windows(base, file).len() - file.len(),
            ) == file
        }),
{
    let j = joined_windows(base, file);
    assert(j.take(base.len() as int) =~= base);
    assert(j.skip(j.len() - file.len()) =~= file);
}

/// Joining a relative part on macOS and Linux adds nothing of its own but at most one `/`:
/// the result is the base then the part, with a `/` between them exactly when the base is not
/// empty and does not end with `/`; an absolute part stands alone.
pub proof fn join_adds_at_most_a_separator(base: Seq<char>, part: Seq<char>)
    ensures
        part.len() > 0 && part[0] == '/' ==> joined(base, part) == part,
        !(part.len() > 0 && part[0] == '/') && base.len() > 0 && base.last() != '/'
            ==> joined(base, part) == base + seq!['/'] + part,
        !(part.len() > 0 && part[0] == '/') && (base.len() == 0 || base.last() == '/')
            ==> joined(base, part) == base + part,
{
}

} // verus!
