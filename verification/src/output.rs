//! Where the translated text goes.

use vstd::prelude::*;

verus! {

/// The place that receives the translated text.
#[derive(Debug, Clone, PartialEq, Eq)]
pub enum Target {
    /// The file at this path, which is overwritten.
    File(String),
    /// Standard output.
    Stdout,
}

/// What is written for one translation.
#[derive(Debug, Clone, PartialEq, Eq)]
pub struct Emission {
    /// The place that is written to.
    pub target: Target,
    /// What is written there.
    pub contents: String,
    /// What is offered to the clipboard.
    pub clipboard: String,
}

/// What is written to the target for `text`: the text itself into a file, the
/// text and a newline to standard output.
pub open spec fn written(text: Seq<char>, to_file: bool) -> Seq<char> {
    if to_file {
        text
    } else {
        text + seq!['\n']
    }
}

/// Decides what is written for the translated `text`, and where: into the
/// file at `output_path` where one is given, to standard output otherwise.
/// The clipboard is offered the text either way.
pub fn emit(text: &str, output_path: &Option<String>) -> (e: Emission)
    ensures
        match output_path {
            Some(p) => e.target matches Target::File(q) && q@ == p@,
            None => e.target is Stdout,
        },
        e.contents@ == written(text@, output_path is Some),
        e.clipboard@ == text@,
{
    match output_path {
        Some(p) => Emission {
            target: Target::File(p.clone()),
            contents: String::from_str(text),
            clipboard: String::from_str(text),
        },
        None => {
            proof {
                reveal_strlit("\n");
                assert("\n"@ =~= seq!['\n']);
            }
            Emission {
                target: Target::Stdout,
                contents: String::from_str(text).concat("\n"),
                clipboard: String::from_str(text),
            }
        },
    }
}

/// What is said once the clipboard was offered the text.
#[derive(Debug, Clone, PartialEq, Eq)]
pub struct Notice {
    /// The line that is shown.
    pub text: String,
    /// Whether the line is a warning, which goes to standard error.
    pub is_warning: bool,
}

/// The line that is shown once the clipboard was offered the text, where
/// `failure` says why the clipboard did not take it, if it did not.
pub open spec fn notice_text(failure: Option<Seq<char>>) -> Seq<char> {
    match failure {
        Some(why) => "Failed to copy to clipboard: "@ + why,
        None => "\nOutput copied to clipboard."@,
    }
}

/// Decides what is said once the clipboard was offered the text. A
/// clipboard that did not take the text is worth a warning and no more: the
/// command does not fail on it.
pub fn clipboard_notice(failure: Option<String>) -> (n: Notice)
    ensures
        n.text@ == notice_text(
            match failure {
                Some(why) => Some(why@),
                None => None,
            },
        ),
        n.is_warning == (failure is Some),
{
    match failure {
        Some(why) => Notice {
            text: String::from_str("Failed to copy to clipboard: ").concat(why.as_str()),
            is_warning: true,
        },
        None => Notice { text: String::from_str("\nOutput copied to clipboard."), is_warning: false },
    }
}

} // verus!
