//! Which names may be used. Every name is validated before a file is touched.
//!
//! A name is accepted only if it is a bare single segment: between one and 255
//! characters, each an ASCII letter, a digit, a dot, a hyphen or an underscore,
//! and no two dots in a row. A name that could lead out of the directory is
//! refused as a traversal, apart from other bad names, and the attempt is
//! recorded in the journal.

use crate::error::{failure, BackupError, ErrorKind};
use crate::journal::{
    grown_by, lemma_grown_by_nothing, lemma_grown_by_one, log_action, Journal,
};
use vstd::prelude::*;
use vstd::std_specs::iter::IteratorSpec;
use vstd::string::*;

verus! {

/// The longest name that is accepted, in characters.
pub const MAX_FILENAME_LEN: usize = 255;

/// The characters that a name is made of.
pub open spec fn is_name_char(c: char) -> bool {
    ||| 'a' <= c <= 'z'
    ||| 'A' <= c <= 'Z'
    ||| '0' <= c <= '9'
    ||| c == '.'
    ||| c == '_'
    ||| c == '-'
}

/// The text is not empty and every character of it is a name character.
pub open spec fn is_name_text(text: Seq<char>) -> bool {
    &&& text.len() >= 1
    &&& forall|i: int| 0 <= i < text.len() ==> is_name_char(#[trigger] text[i])
}

/// A slash or a backslash occurs in the name.
pub open spec fn has_separator(name: Seq<char>) -> bool {
    exists|i: int| 0 <= i < name.len() && is_separator(#[trigger] name[i])
}

/// The characters that part the segments of a path.
pub open spec fn is_separator(c: char) -> bool {
    c == '/' || c == '\\'
}

/// Two dots in a row occur in the name.
pub open spec fn has_dot_dot(name: Seq<char>) -> bool {
    exists|i: int| 0 <= i < name.len() - 1 && #[trigger] name[i] == '.' && name[i + 1] == '.'
}

/// The name could lead out of the directory.
pub open spec fn is_traversal(name: Seq<char>) -> bool {
    has_dot_dot(name) || has_separator(name)
}

/// The names that are accepted.
pub open spec fn is_valid_filename(name: Seq<char>) -> bool {
    &&& is_name_text(name)
    &&& name.len() <= MAX_FILENAME_LEN
    &&& !has_dot_dot(name)
}

/// The pattern that a name is held against.
pub open spec fn name_pattern() -> Seq<char> {
    "^[a-zA-Z0-9._-]+$"@
}

/// What the journal says of a refused traversal.
pub open spec fn traversal_record(name: Seq<char>) -> Seq<char> {
    "Security: Path traversal attempt blocked - "@ + name
}

/// The reason for which a name is refused, or `None` for a name that is
/// accepted. The checks are made in this order and the first that fails
/// gives the reason.
pub open spec fn rejection(name: Seq<char>) -> Option<(ErrorKind, Seq<char>)> {
    if name.len() == 0 {
        Some((ErrorKind::InvalidFilename, "Filename cannot be empty"@))
    } else if is_traversal(name) {
        Some((ErrorKind::PathTraversal, name))
    } else if !is_name_text(name) {
        Some((ErrorKind::InvalidFilename, "Filename contains invalid characters"@))
    } else if name.len() > MAX_FILENAME_LEN {
        Some((ErrorKind::InvalidFilename, "Filename too long (max 255 characters)"@))
    } else {
        None
    }
}

/// What validating a name adds to the journal: one record for a traversal,
/// nothing otherwise.
pub open spec fn validation_records(name: Seq<char>) -> Seq<Seq<char>> {
    if is_traversal(name) {
        seq![traversal_record(name)]
    } else {
        seq![]
    }
}

/// A name is accepted exactly when no check refuses it.
pub proof fn lemma_valid_iff_not_rejected(name: Seq<char>)
    ensures
        is_valid_filename(name) <==> rejection(name) is None,
{
    if is_name_text(name) && has_separator(name) {
        let i = choose|i: int| 0 <= i < name.len() && is_separator(#[trigger] name[i]);
        assert(is_name_char(name[i]));
    }
}

/// Compiles the pattern with `regex::Regex::new` and tries the text against it
/// with `Regex::is_match`. The pattern is held to the one that this library
/// uses: anchored at both ends of the text, one character class, one or more
/// times. Of that pattern the regex crate's syntax says that it matches
/// exactly the texts that are not empty and made of the class's characters
/// alone: `^` and `$` stand for the two ends of the whole text (no flag is
/// set), and inside the brackets the dot is itself and so is the hyphen that
/// comes last.
#[verifier::external_body]
fn pattern_is_match(pattern: &str, text: &str) -> (matched: bool)
    requires
        pattern@ == name_pattern(),
    ensures
        matched == is_name_text(text@),
{
    regex::Regex::new(pattern).unwrap().is_match(text)
}

/// Looks for two dots in a row, a slash or a backslash.
pub fn contains_traversal(name: &str) -> (found: bool)
    ensures
        found == is_traversal(name@),
{
    let mut rest = name.chars();
    let mut after_dot = false;
    let ghost mut seen: int = 0;
    loop
        invariant
            0 <= seen <= name@.len(),
            rest.obeys_prophetic_iter_laws(),
            rest.remaining() == name@.subrange(seen, name@.len() as int),
            after_dot == (seen > 0 && name@[seen - 1] == '.'),
            forall|i: int| 0 <= i < seen ==> !is_separator(#[trigger] name@[i]),
            forall|i: int| 0 <= i < seen - 1 ==> !(#[trigger] name@[i] == '.' && name@[i + 1] == '.'),
        decreases name@.len() - seen,
    {
        match rest.next() {
            None => {
                assert(seen == name@.len());
                return false;
            },
            Some(c) => {
                assert(c == name@[seen]);
                if c == '/' || c == '\\' {
                    assert(is_separator(name@[seen]));
                    return true;
                }
                if c == '.' && after_dot {
                    assert(name@[seen - 1] == '.' && name@[seen - 1 + 1] == '.');
                    return true;
                }
                after_dot = c == '.';
                proof {
                    assert(name@.subrange(seen, name@.len() as int).drop_first()
                        =~= name@.subrange(seen + 1, name@.len() as int));
                    seen = seen + 1;
                }
            },
        }
    }
}

/// Decides whether a name may be used, and records a refused traversal.
///
/// The checks are made in order: an empty name, a traversal, a character
/// outside the class, a name that is too long. Only a traversal leaves a
/// record.
pub fn validate_filename(filename: &str, journal: &mut Journal) -> (result: Result<
    (),
    BackupError,
>)
    ensures
        failure(result) == rejection(filename@),
        result is Ok <==> is_valid_filename(filename@),
        grown_by(old(journal)@, final(journal)@, validation_records(filename@)),
        // A traversal is refused as such, and exactly one record tells of it.
        is_traversal(filename@) ==> {
            &&& failure(result) == Some((ErrorKind::PathTraversal, filename@))
            &&& final(journal)@.len() == old(journal)@.len() + 1
            &&& final(journal)@.last().1 == traversal_record(filename@)
        },
        // Nothing else leaves a record.
        !is_traversal(filename@) ==> final(journal)@ == old(journal)@,
        // A name that is too long is refused, whatever else holds of it.
        filename@.len() > MAX_FILENAME_LEN && !is_traversal(filename@) ==> {
            &&& result matches Err(e)
            &&& e@.0 == ErrorKind::InvalidFilename
        },
        // Without a traversal, one character outside the class is enough.
        filename@.len() > 0 && !is_traversal(filename@) && !is_name_text(filename@) ==> failure(
            result,
        ) == Some((ErrorKind::InvalidFilename, "Filename contains invalid characters"@)),
{
    proof {
        lemma_valid_iff_not_rejected(filename@);
        lemma_grown_by_nothing(old(journal)@, old(journal)@);
    }
    if filename.is_empty() {
        return Err(BackupError::InvalidFilename(String::from_str("Filename cannot be empty")));
    }
    if contains_traversal(filename) {
        let record = String::from_str("Security: Path traversal attempt blocked - ").concat(
            filename,
        );
        log_action(record.as_str(), journal);
        proof {
            lemma_grown_by_one(old(journal)@, journal@, traversal_record(filename@));
        }
        return Err(BackupError::PathTraversal(String::from_str(filename)));
    }
    if !pattern_is_match("^[a-zA-Z0-9._-]+$", filename) {
        return Err(
            BackupError::InvalidFilename(
                String::from_str("Filename contains invalid characters"),
            ),
        );
    }
    proof {
        assert(vstd::utf8::is_ascii_chars(filename@)) by {
            assert forall|i: int| 0 <= i < filename@.len() implies '\0' <= #[trigger] filename@[i]
                <= '\u{7f}' by {
                assert(is_name_char(filename@[i]));
            }
        }
        vstd::utf8::is_ascii_chars_encode_utf8(filename@);
    }
    if filename.as_bytes().len() > MAX_FILENAME_LEN {
        return Err(
            BackupError::InvalidFilename(
                String::from_str("Filename too long (max 255 characters)"),
            ),
        );
    }
    Ok(())
}

} // verus!
