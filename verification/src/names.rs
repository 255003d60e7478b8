//! Which file names a submission may use.

use vstd::prelude::*;

verus! {

/// What `sanitize_filename::is_sanitized_with_options` answers for `name`
/// under the two options of its `OptionsForCheck`.
pub uninterp spec fn sanitized_name(name: Seq<char>, windows: bool, truncate: bool) -> bool;

/// A character that can never stand in a file name: a path separator, a
/// character with a meaning to shells and file systems, or a control
/// character.
pub open spec fn forbidden_char(c: char) -> bool {
    ||| c == '/'
    ||| c == '\\'
    ||| c == '?'
    ||| c == '<'
    ||| c == '>'
    ||| c == ':'
    ||| c == '*'
    ||| c == '|'
    ||| c == '"'
    ||| (c as u32) <= 0x1f
    ||| 0x80 <= (c as u32) <= 0x9f
}

/// No character of `name` is forbidden.
pub open spec fn free_of_forbidden_chars(name: Seq<char>) -> bool {
    forall|i: int| 0 <= i < name.len() ==> !forbidden_char(#[trigger] name[i])
}

/// A name under which a file of a submission may be stored: it is not
/// empty, holds no forbidden character, and passes the filename check made
/// with the rules for Windows off and the length limit on.
pub open spec fn acceptable_name(name: Seq<char>) -> bool {
    &&& name.len() > 0
    &&& free_of_forbidden_chars(name)
    &&& sanitized_name(name, false, true)
}

/// Calls `sanitize_filename::is_sanitized_with_options`.
///
/// Trusted: the answer is the crate's check of `name` under the given
/// options; and a name that passes holds none of the characters that the
/// crate's patterns for illegal and control characters match.
#[verifier::external_body]
pub(crate) fn is_sanitized_with_options(name: &str, windows: bool, truncate: bool) -> (clean: bool)
    ensures
        clean == sanitized_name(name@, windows, truncate),
        clean ==> free_of_forbidden_chars(name@),
{
    sanitize_filename::is_sanitized_with_options(
        name,
        sanitize_filename::OptionsForCheck { windows, truncate },
    )
}

/// Decides whether `name` may name a file of a submission.
pub fn is_acceptable_name(name: &str) -> (ok: bool)
    ensures
        ok == acceptable_name(name@),
{
    !name.is_empty() && is_sanitized_with_options(name, false, true)
}

/// A name with a forbidden character in it, a path separator for one, is
/// not acceptable; nor is the empty name.
pub proof fn lemma_forbidden_names_rejected(name: Seq<char>)
    requires
        name.len() == 0 || exists|i: int| 0 <= i < name.len() && forbidden_char(#[trigger] name[i]),
    ensures
        !acceptable_name(name),
{
}

} // verus!
