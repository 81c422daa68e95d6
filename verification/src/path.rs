//! The folder path as the operator's window shows it.
//!
//! On Windows the path comes with backslashes, which the window's script
//! would read as escapes; they are shown as forward slashes instead. The
//! path that files are written under is never changed.

use vstd::prelude::*;
use vstd::string::*;

verus! {

/// What `Regex::replace_all` of the regex crate returns for a pattern, a
/// text and a replacement, or nothing where the pattern does not compile.
pub uninterp spec fn regex_replaced(
    pattern: Seq<char>,
    text: Seq<char>,
    replacement: Seq<char>,
) -> Option<Seq<char>>;

/// The pattern that matches one backslash.
pub open spec fn backslash_pattern() -> Seq<char> {
    "\\\\{1}"@
}

/// The path that the window shows: on Windows the folder with every match
/// replaced, where the replacement could be made; else the folder itself.
pub open spec fn shown_folder(folder: Seq<char>, windows: bool, replaced: Option<Seq<char>>) -> Seq<
    char,
> {
    if windows && replaced.is_some() {
        replaced.unwrap()
    } else {
        folder
    }
}

/// Compiles the pattern with `Regex::new` and calls `Regex::replace_all`
/// on the text. Both are functions of their arguments alone; the result is
/// named, not described. A pattern that does not compile yields nothing.
#[verifier::external_body]
fn regex_replace_all(pattern: &str, text: &str, replacement: &str) -> (out: Option<String>)
    ensures
        out.is_some() == regex_replaced(pattern@, text@, replacement@).is_some(),
        out.is_some() ==> out.unwrap()@ == regex_replaced(pattern@, text@, replacement@).unwrap(),
{
    match regex::Regex::new(pattern) {
        Ok(re) => Some(re.replace_all(text, replacement).into_owned()),
        Err(_) => None,
    }
}

/// Picks the path to show, given what the replacement returned.
pub fn choose_shown_folder(folder: &str, windows: bool, replaced: Option<String>) -> (shown: String)
    ensures
        shown@ == shown_folder(
            folder@,
            windows,
            match replaced {
                Some(s) => Some(s@),
                None => None,
            },
        ),
{
    if windows {
        match replaced {
            Some(s) => s,
            None => String::from_str(folder),
        }
    } else {
        String::from_str(folder)
    }
}

/// The path that the window shows for a folder: with forward slashes for
/// backslashes on Windows, unchanged elsewhere.
pub fn sanitize_folder(folder: &str, windows: bool) -> (shown: String)
    ensures
        shown@ == shown_folder(
            folder@,
            windows,
            regex_replaced(backslash_pattern(), folder@, "/"@),
        ),
{
    if windows {
        let replaced: Option<String> = regex_replace_all("\\\\{1}", folder, "/");
        choose_shown_folder(folder, true, replaced)
    } else {
        String::from_str(folder)
    }
}

} // verus!
