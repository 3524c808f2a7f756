//! Property names: a field's identifier in camel case, as the `inflector`
//! crate computes it.

use vstd::prelude::*;
use vstd::utf8::encode_utf8;

verus! {

/// The camel-case form of `name` that `inflector` gives: what
/// `inflector::cases::camelcase::to_camel_case` returns for it.
pub uninterp spec fn camel_case_text(name: Seq<char>) -> Seq<char>;

/// Whether `name` is short enough to be converted: the conversion reserves
/// twice the length of its input in bytes, and no allocation may ask for
/// more than `isize::MAX` bytes.
pub open spec fn camel_case_admits(name: Seq<char>) -> bool {
    2 * encode_utf8(name).len() <= isize::MAX
}

/// `inflector::cases::camelcase::to_camel_case`: the result depends on the
/// characters of the input alone, so it is named by [`camel_case_text`].
/// The function walks the input once and pushes characters to a string that
/// it allocated with twice the input's length in bytes as its capacity;
/// inputs for which that request is beyond `isize::MAX` are left out.
pub assume_specification[ inflector::cases::camelcase::to_camel_case ](
    non_camelized_string: &str,
) -> (camelized: String)
    requires
        camel_case_admits(non_camelized_string@),
    ensures
        camelized@ == camel_case_text(non_camelized_string@),
;

/// The UTF-8 encoding of a text has at most four bytes for each character.
proof fn lemma_encoding_length(text: Seq<char>)
    ensures
        encode_utf8(text).len() <= 4 * text.len(),
    decreases text.len(),
{
    if text.len() > 0 {
        lemma_encoding_length(text.drop_first());
    }
}

/// A name of less than 2^28 characters is short enough on every machine,
/// so a caller that knows the length of a name need not test it.
pub proof fn lemma_short_names_admitted(name: Seq<char>)
    requires
        name.len() < 0x1000_0000,
    ensures
        camel_case_admits(name),
{
    lemma_encoding_length(name);
}

/// Tells whether `name` is short enough to be converted to camel case.
pub fn admits_camel_case(name: &str) -> (admitted: bool)
    ensures
        admitted == camel_case_admits(name@),
{
    name.as_bytes().len() <= isize::MAX as usize / 2
}

} // verus!
