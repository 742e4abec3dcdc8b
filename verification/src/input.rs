//! Where the text to translate comes from.

use vstd::prelude::*;

verus! {

/// The place that the input argument names.
#[derive(Debug, Clone, Copy, PartialEq, Eq, Structural)]
pub enum InputSource {
    /// Standard input, read to its end.
    Stdin,
    /// The file that the argument names.
    File,
    /// The argument itself.
    Literal,
}

/// The place that `input` names, where `names_file` says whether `input` is
/// the path of an existing regular file: `-` is standard input, whatever
/// files exist.
pub open spec fn source_of(input: Seq<char>, names_file: bool) -> InputSource {
    if input == seq!['-'] {
        InputSource::Stdin
    } else if names_file {
        InputSource::File
    } else {
        InputSource::Literal
    }
}

/// The text to translate, where `read` is what was read from the place that
/// `input` names: `read` itself for standard input and for a file, and
/// `input` unchanged where it names neither.
pub open spec fn resolved(input: Seq<char>, names_file: bool, read: Seq<char>) -> Seq<char> {
    match source_of(input, names_file) {
        InputSource::Literal => input,
        _ => read,
    }
}

/// Tells whether `input` is the one character `-`.
fn is_dash(input: &str) -> (b: bool)
    ensures
        b == (input@ == seq!['-']),
{
    if input.unicode_len() == 1 {
        let c = input.get_char(0);
        assert(c == '-' ==> input@ =~= seq!['-']);
        c == '-'
    } else {
        false
    }
}

/// Decides where the text to translate comes from.
pub fn input_source(input: &str, names_file: bool) -> (s: InputSource)
    ensures
        s == source_of(input@, names_file),
{
    if is_dash(input) {
        InputSource::Stdin
    } else if names_file {
        InputSource::File
    } else {
        InputSource::Literal
    }
}

/// Gives the text to translate, from the argument and from what was read
/// for it. An empty text is a text like any other.
pub fn resolve_input(input: &str, names_file: bool, read: &str) -> (t: String)
    ensures
        t@ == resolved(input@, names_file, read@),
{
    match input_source(input, names_file) {
        InputSource::Literal => String::from_str(input),
        _ => String::from_str(read),
    }
}

} // verus!
