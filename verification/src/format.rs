//! The document formats, and how a file's name selects one.

use crate::text::same_text;
use vstd::prelude::*;

verus! {

/// A document format that can be read.
#[derive(Clone, Copy, Debug, PartialEq, Eq, Structural)]
pub enum Format {
    /// The legacy binary spreadsheet.
    Xls,
    /// The XML-zipped spreadsheet, macro-enabled or not.
    Xlsx,
    /// The binary-zipped spreadsheet.
    Xlsb,
    /// The open-document spreadsheet.
    Ods,
}

/// Whether a path is a bare file name on every platform: it holds no
/// separator and no colon of a drive.
pub open spec fn is_plain_name(path: Seq<char>) -> bool {
    !path.contains('/') && !path.contains('\\') && !path.contains(':')
}

/// Whether the last dot of `name` is at `at`.
pub open spec fn is_last_dot(name: Seq<char>, at: int) -> bool {
    &&& 0 <= at < name.len()
    &&& name[at] == '.'
    &&& forall|later: int| at < later < name.len() ==> name[later] != '.'
}

/// The extension of a bare file name: the text after its last dot. A name
/// without a dot has none, nor has a name whose only dot is its first
/// character, nor the name `..`.
pub open spec fn plain_extension(name: Seq<char>) -> Option<Seq<char>> {
    if name == seq!['.', '.'] {
        None
    } else if exists|at: int| 0 < at && is_last_dot(name, at) {
        let at = choose|at: int| 0 < at && is_last_dot(name, at);
        Some(name.subrange(at + 1, name.len() as int))
    } else {
        None
    }
}

/// `std::path::Path::extension`: the extension of a path's file name,
/// without the dot.
///
/// Which part of a path is its file name depends on the platform. A path
/// without a separator and without a colon is its own file name on each,
/// and its extension is then the text after its last dot, with the three
/// exceptions that the method documents.
#[verifier::external_body]
pub(crate) fn extension_of(path: &str) -> (extension: Option<String>)
    ensures
        is_plain_name(path@) ==> match plain_extension(path@) {
            Some(text) => extension is Some && extension.unwrap()@ == text,
            None => extension is None,
        },
{
    std::path::Path::new(path).extension().and_then(|e| e.to_str()).map(String::from)
}

impl Format {
    /// The format that a file extension, without its dot, stands for.
    pub open spec fn from_extension_spec(extension: Seq<char>) -> Option<Format> {
        if extension == "xls"@ || extension == "xla"@ {
            Some(Format::Xls)
        } else if extension == "xlsx"@ || extension == "xlsm"@ || extension == "xlam"@ {
            Some(Format::Xlsx)
        } else if extension == "xlsb"@ {
            Some(Format::Xlsb)
        } else if extension == "ods"@ {
            Some(Format::Ods)
        } else {
            None
        }
    }

    /// The format that a file extension, without its dot, stands for. The
    /// match is exact and case-sensitive.
    pub fn from_extension(extension: &str) -> (format: Option<Format>)
        ensures
            format == Self::from_extension_spec(extension@),
    {
        if same_text(extension, "xls") || same_text(extension, "xla") {
            Some(Format::Xls)
        } else if same_text(extension, "xlsx") || same_text(extension, "xlsm") || same_text(
            extension,
            "xlam",
        ) {
            Some(Format::Xlsx)
        } else if same_text(extension, "xlsb") {
            Some(Format::Xlsb)
        } else if same_text(extension, "ods") {
            Some(Format::Ods)
        } else {
            None
        }
    }

    /// The format that decides how the file at `path` is opened: the one
    /// its extension stands for. For a bare file name the extension is the
    /// text after the last dot; for another path it is what the platform
    /// reads from it.
    pub fn for_path(path: &str) -> (chosen: Option<Format>)
        ensures
            is_plain_name(path@) ==> chosen == chosen_format(plain_extension(path@)),
    {
        match extension_of(path) {
            Some(text) => Format::from_extension(text.as_str()),
            None => None,
        }
    }
}

/// The format that decides how a file is opened: the one its extension
/// stands for, or none where it has no extension or an unknown one.
pub open spec fn chosen_format(extension: Option<Seq<char>>) -> Option<Format> {
    match extension {
        Some(text) => Format::from_extension_spec(text),
        None => None,
    }
}

} // verus!
