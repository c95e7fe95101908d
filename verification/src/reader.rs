//! The document reader: the handle `calamine::Sheets` of an open document.
//!
//! The library holds the handle and asks it for the sheet names. It never
//! runs a decoder: `calamine`'s decoders give up on some malformed
//! documents by panicking, and one of them does not return on some, so no
//! contract could promise a result of them. Whoever opens a document or
//! reads a sheet makes that call and hands the library what came back.
//! Nothing in this file is proved.

use crate::text::texts;
use calamine::Reader;
use vstd::prelude::*;

verus! {

/// `calamine::Sheets`: the reader of an open document, of whichever
/// format, opaque here.
#[verifier::external_type_specification]
#[verifier::external_body]
#[verifier::reject_recursive_types(RS)]
pub struct ExSheets<RS>(calamine::Sheets<RS>);

/// `std::io::Cursor`: the bytes a reader reads from, opaque here.
#[verifier::external_type_specification]
#[verifier::external_body]
#[verifier::reject_recursive_types(T)]
pub struct ExCursor<T>(std::io::Cursor<T>);

/// The handle of an open document whose bytes are held in memory.
pub type Document = calamine::Sheets<std::io::Cursor<Vec<u8>>>;

/// The names of a document's sheets, in the order the document declares
/// them.
pub uninterp spec fn sheet_list(document: Document) -> Seq<Seq<char>>;

/// `calamine::Reader::sheet_names`: the sheet names, in document order. The
/// method copies them out of what was decoded when the document was opened.
#[verifier::external_body]
pub(crate) fn list_sheets(document: &Document) -> (names: Vec<String>)
    ensures
        texts(names@) == sheet_list(*document),
{
    document.sheet_names()
}

} // verus!
