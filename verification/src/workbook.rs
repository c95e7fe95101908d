//! An open document: its sheets by name.
//!
//! Opening a document and reading a sheet each take one call of a decoder,
//! which the library does not make. It decides what comes before the call
//! and what follows it: which decoder a file is opened with, what the
//! decoder's answer comes to, and whether a sheet is there to be read.

use crate::error::WorkbookError;
use crate::format::Format;
use crate::reader::{list_sheets, sheet_list, Document};
use crate::text::{contains_name, texts};
use vstd::prelude::*;

verus! {

/// An open document. It owns the handle of its reader, which is chosen once,
/// when the document is opened.
pub struct Workbook {
    document: Document,
}

/// The text of an optional decoding result: the document as it is, a cause
/// by its characters.
pub open spec fn decoded_view(decoded: Result<Document, String>) -> Result<Document, Seq<char>> {
    match decoded {
        Ok(document) => Ok(document),
        Err(cause) => Err(cause@),
    }
}

/// What opening a document comes to, once its decoder has answered.
///
/// A document that is decoded opens. One that is not fails with the
/// decoder's cause as an `OpenError` where its name chose the decoder, and
/// as `UnsupportedFormat` where no format was chosen and none was found to
/// match.
pub open spec fn opens_as(
    chosen: Option<Format>,
    decoded: Result<Document, Seq<char>>,
    outcome: Result<Workbook, WorkbookError>,
) -> bool {
    match decoded {
        Ok(document) => outcome matches Ok(book) && book.document() == document,
        Err(cause) => match chosen {
            Some(_) => outcome matches Err(WorkbookError::OpenError(text)) && text@ == cause,
            None => outcome matches Err(WorkbookError::UnsupportedFormat),
        },
    }
}

impl Workbook {
    /// The handle of the document's reader.
    pub closed spec fn document(self) -> Document {
        self.document
    }

    /// The names of the sheets, in document order.
    pub open spec fn sheet_names_spec(self) -> Seq<Seq<char>> {
        sheet_list(self.document())
    }

    /// The workbook that opening comes to. `chosen` is the format that the
    /// file's name stands for, and `decoded` is the answer of that format's
    /// decoder, or of trying every decoder where no format was chosen.
    pub fn opened(chosen: Option<Format>, decoded: Result<Document, String>) -> (outcome: Result<
        Workbook,
        WorkbookError,
    >)
        ensures
            opens_as(chosen, decoded_view(decoded), outcome),
    {
        match decoded {
            Ok(document) => Ok(Workbook { document }),
            Err(cause) => match chosen {
                Some(_) => Err(WorkbookError::OpenError(cause)),
                None => Err(WorkbookError::UnsupportedFormat),
            },
        }
    }

    /// The names of the sheets, in document order.
    pub fn sheet_names(&self) -> (names: Vec<String>)
        ensures
            texts(names@) == self.sheet_names_spec(),
    {
        list_sheets(&self.document)
    }

    /// Whether the document lists a sheet called `name`, compared exactly:
    /// `SheetNotFound` with the name if it does not.
    pub fn find_sheet(&self, name: &str) -> (found: Result<(), WorkbookError>)
        ensures
            match found {
                Ok(_) => self.sheet_names_spec().contains(name@),
                Err(fault) => {
                    &&& !self.sheet_names_spec().contains(name@)
                    &&& fault matches WorkbookError::SheetNotFound(missing) && missing@ == name@
                },
            },
    {
        let names = list_sheets(&self.document);
        if contains_name(&names, name) {
            Ok(())
        } else {
            Err(WorkbookError::SheetNotFound(name.to_owned()))
        }
    }

    /// The reader, to read a sheet with.
    pub fn reader(&mut self) -> (reader: &mut Document)
        ensures
            *reader == old(self).document(),
            final(self).document() == *final(reader),
    {
        &mut self.document
    }
}

/// Opening is determined by the decoder's answer: two openings that are
/// given the same chosen format and the same answer both succeed or both
/// fail, and where they succeed the two workbooks hold the same document
/// and list the same sheets in the same order.
pub proof fn lemma_opening_is_determined(
    chosen: Option<Format>,
    decoded: Result<Document, Seq<char>>,
    first: Result<Workbook, WorkbookError>,
    second: Result<Workbook, WorkbookError>,
)
    requires
        opens_as(chosen, decoded, first),
        opens_as(chosen, decoded, second),
    ensures
        first is Ok <==> second is Ok,
        first is Ok ==> first.unwrap().document() == second.unwrap().document()
            && first.unwrap().sheet_names_spec() == second.unwrap().sheet_names_spec(),
{
}

} // verus!
