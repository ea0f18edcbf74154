//! How a note is named: the time of its creation, written in a fixed width,
//! followed by a suffix.

use crate::datetime_helper::datetime_to_string;
use crate::datetime_helper::Timestamp;
use vstd::prelude::*;
use vstd::string::*;

verus! {

/// The pattern in which the time of creation is written, in the notation of
/// `strftime`.
pub const DATE_FORMAT: &'static str = "%Y_%m_%d_%H_%M_%S";

/// The number of characters that a time written in that pattern takes.
pub const DATE_FORMAT_LENGTH: usize = 19;

/// The identifier made of a written time and a suffix: the two joined by an
/// underscore, or the time with the default extension when no suffix is
/// given.
pub open spec fn file_name_text(prefix: Seq<char>, file_name: Option<Seq<char>>) -> Seq<char> {
    match file_name {
        Some(suffix) => prefix + "_"@ + suffix,
        None => prefix + ".txt"@,
    }
}

/// The part of an identifier in which the time is written: its first
/// characters, if it has that many.
pub open spec fn prefix_text(file_name: Seq<char>) -> Option<Seq<char>> {
    if file_name.len() >= DATE_FORMAT_LENGTH {
        Some(file_name.subrange(0, DATE_FORMAT_LENGTH as int))
    } else {
        None
    }
}

/// The suffix that an identifier was given: what follows the written time
/// and an underscore.
pub open spec fn suffix_text(file_name: Seq<char>) -> Option<Seq<char>> {
    if file_name.len() > DATE_FORMAT_LENGTH && file_name[DATE_FORMAT_LENGTH as int] == '_' {
        Some(file_name.subrange(DATE_FORMAT_LENGTH + 1, file_name.len() as int))
    } else {
        None
    }
}

/// Names a note after the time of its creation and the suffix given.
pub fn generate_file_name(date: Timestamp, file_name: Option<String>) -> (name: String)
    ensures
        date.wf(),
        name@ == file_name_text(
            date@.text(),
            match file_name {
                Some(suffix) => Some(suffix@),
                None => None,
            },
        ),
{
    let prefix = datetime_to_string(date);
    match file_name {
        Some(file_name) => prefix.concat("_").concat(file_name.as_str()),
        None => prefix.concat(".txt"),
    }
}

/// The part of an identifier in which the time of creation is written.
pub fn timestamp_prefix(file_name: &str) -> (prefix: Option<&str>)
    ensures
        match prefix {
            Some(text) => prefix_text(file_name@) == Some(text@),
            None => prefix_text(file_name@) is None,
        },
{
    if file_name.unicode_len() < DATE_FORMAT_LENGTH {
        None
    } else {
        Some(file_name.substring_char(0, DATE_FORMAT_LENGTH))
    }
}

/// The suffix that an identifier was given: what follows the written time
/// and an underscore, if the identifier is made so.
pub fn file_name_suffix(file_name: &str) -> (suffix: Option<&str>)
    ensures
        match suffix {
            Some(text) => suffix_text(file_name@) == Some(text@),
            None => suffix_text(file_name@) is None,
        },
{
    let length = file_name.unicode_len();
    if length > DATE_FORMAT_LENGTH && file_name.get_char(DATE_FORMAT_LENGTH) == '_' {
        Some(file_name.substring_char(DATE_FORMAT_LENGTH + 1, length))
    } else {
        None
    }
}

/// The written time and the suffix of an identifier are those that it was
/// made of, provided the time was written in its full width.
pub proof fn lemma_file_name_round_trip(prefix: Seq<char>, suffix: Seq<char>)
    requires
        prefix.len() == DATE_FORMAT_LENGTH,
    ensures
        prefix_text(file_name_text(prefix, Some(suffix))) == Some(prefix),
        suffix_text(file_name_text(prefix, Some(suffix))) == Some(suffix),
        prefix_text(file_name_text(prefix, None)) == Some(prefix),
{
    reveal_strlit("_");
    reveal_strlit(".txt");
    let named = file_name_text(prefix, Some(suffix));
    assert(named.subrange(0, DATE_FORMAT_LENGTH as int) =~= prefix);
    assert(named[DATE_FORMAT_LENGTH as int] == '_');
    assert(named.subrange(DATE_FORMAT_LENGTH + 1, named.len() as int) =~= suffix);
    let plain = file_name_text(prefix, None);
    assert(plain.subrange(0, DATE_FORMAT_LENGTH as int) =~= prefix);
}

} // verus!
