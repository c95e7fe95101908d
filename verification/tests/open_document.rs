use calamine::{open_workbook_auto_from_rs, Ods, Reader, Sheets, Xls, Xlsb, Xlsx};
use pyxlsx_rs::{CellValue, Format, Workbook, WorkbookError, Worksheet};
use std::io::Cursor;

/// Runs the decoder of `chosen`, or every decoder in turn where none is
/// chosen, and gives its answer with a failure as its text.
fn decode(chosen: Option<Format>, content: Vec<u8>) -> Result<Sheets<Cursor<Vec<u8>>>, String> {
    let bytes = Cursor::new(content);
    let decoded = match chosen {
        Some(Format::Xls) => Xls::new(bytes).map(Sheets::Xls).map_err(calamine::Error::Xls),
        Some(Format::Xlsx) => Xlsx::new(bytes).map(Sheets::Xlsx).map_err(calamine::Error::Xlsx),
        Some(Format::Xlsb) => Xlsb::new(bytes).map(Sheets::Xlsb).map_err(calamine::Error::Xlsb),
        Some(Format::Ods) => Ods::new(bytes).map(Sheets::Ods).map_err(calamine::Error::Ods),
        None => open_workbook_auto_from_rs(bytes),
    };
    decoded.map_err(|error| error.to_string())
}

fn open_as(format: Format, content: Vec<u8>) -> Result<Workbook, WorkbookError> {
    Workbook::opened(Some(format), decode(Some(format), content))
}

fn detect(content: Vec<u8>) -> Result<Workbook, WorkbookError> {
    Workbook::opened(None, decode(None, content))
}

fn open(path: &str, content: Vec<u8>) -> Result<Workbook, WorkbookError> {
    let chosen = Format::for_path(path);
    Workbook::opened(chosen, decode(chosen, content))
}

fn get_sheet(book: &mut Workbook, name: &str) -> Result<Worksheet, WorkbookError> {
    book.find_sheet(name)?;
    Worksheet::from_read(book.reader().worksheet_range(name).map_err(|error| error.to_string()))
}

fn table_checksum(bytes: &[u8]) -> u32 {
    let mut sum = 0xFFFF_FFFFu32;
    for byte in bytes {
        sum ^= *byte as u32;
        for _ in 0..8 {
            sum = if sum & 1 == 1 { (sum >> 1) ^ 0xEDB8_8320 } else { sum >> 1 };
        }
    }
    !sum
}

/// A zip archive that holds `entries` as they are, without compression.
fn table_archive(entries: &[(&str, Vec<u8>)]) -> Vec<u8> {
    let mut file = Vec::new();
    let mut directory = Vec::new();
    for (name, data) in entries {
        let offset = file.len() as u32;
        let mut common = Vec::new();
        common.extend_from_slice(&20u16.to_le_bytes());
        common.extend_from_slice(&0u16.to_le_bytes());
        common.extend_from_slice(&0u16.to_le_bytes());
        common.extend_from_slice(&0u16.to_le_bytes());
        common.extend_from_slice(&0x0021u16.to_le_bytes());
        common.extend_from_slice(&table_checksum(data).to_le_bytes());
        common.extend_from_slice(&(data.len() as u32).to_le_bytes());
        common.extend_from_slice(&(data.len() as u32).to_le_bytes());
        common.extend_from_slice(&(name.len() as u16).to_le_bytes());
        common.extend_from_slice(&0u16.to_le_bytes());

        file.extend_from_slice(&0x0403_4B50u32.to_le_bytes());
        file.extend_from_slice(&common);
        file.extend_from_slice(name.as_bytes());
        file.extend_from_slice(data);

        directory.extend_from_slice(&0x0201_4B50u32.to_le_bytes());
        directory.extend_from_slice(&20u16.to_le_bytes());
        directory.extend_from_slice(&common);
        directory.extend_from_slice(&[0; 10]);
        directory.extend_from_slice(&offset.to_le_bytes());
        directory.extend_from_slice(name.as_bytes());
    }
    let start = file.len() as u32;
    let count = entries.len() as u16;
    file.extend_from_slice(&directory);
    file.extend_from_slice(&0x0605_4B50u32.to_le_bytes());
    file.extend_from_slice(&[0; 4]);
    file.extend_from_slice(&count.to_le_bytes());
    file.extend_from_slice(&count.to_le_bytes());
    file.extend_from_slice(&(directory.len() as u32).to_le_bytes());
    file.extend_from_slice(&start.to_le_bytes());
    file.extend_from_slice(&0u16.to_le_bytes());
    file
}

const OFFICE: &str = "urn:oasis:names:tc:opendocument:xmlns:office:1.0";
const TABLE: &str = "urn:oasis:names:tc:opendocument:xmlns:table:1.0";
const TEXT: &str = "urn:oasis:names:tc:opendocument:xmlns:text:1.0";
const MANIFEST: &str = "urn:oasis:names:tc:opendocument:xmlns:manifest:1.0";
const MEDIA: &str = "application/vnd.oasis.opendocument.spreadsheet";

/// A workbook in the open-document format with two sheets, declared in the
/// order "Second", "First".
///
/// "Second" holds 7, "ods text" and TRUE in its first row, and the date
/// 2021-03-04, a blank cell and the duration of one hour in its second.
/// "First" holds no value.
fn two_tables() -> Vec<u8> {
    let second = "<table:table-row>\
                  <table:table-cell office:value-type=\"float\" office:value=\"7\"/>\
                  <table:table-cell office:value-type=\"string\"><text:p>ods text</text:p></table:table-cell>\
                  <table:table-cell office:value-type=\"boolean\" office:boolean-value=\"true\"/>\
                  </table:table-row><table:table-row>\
                  <table:table-cell office:value-type=\"date\" office:date-value=\"2021-03-04\"/>\
                  <table:table-cell/>\
                  <table:table-cell office:value-type=\"time\" office:time-value=\"PT01H00M00S\"/>\
                  </table:table-row>";
    let first = "<table:table-row><table:table-cell/></table:table-row>";
    let content = format!(
        "<office:document-content xmlns:office=\"{}\" xmlns:table=\"{}\" xmlns:text=\"{}\">\
         <office:body><office:spreadsheet>\
         <table:table table:name=\"Second\">{}</table:table>\
         <table:table table:name=\"First\">{}</table:table>\
         </office:spreadsheet></office:body></office:document-content>",
        OFFICE, TABLE, TEXT, second, first
    );
    let manifest = format!(
        "<manifest:manifest xmlns:manifest=\"{}\">\
         <manifest:file-entry manifest:full-path=\"/\" manifest:media-type=\"{}\"/>\
         <manifest:file-entry manifest:full-path=\"content.xml\" manifest:media-type=\"text/xml\"/>\
         </manifest:manifest>",
        MANIFEST, MEDIA
    );
    table_archive(&[
        ("mimetype", MEDIA.as_bytes().to_vec()),
        ("META-INF/manifest.xml", manifest.into_bytes()),
        ("content.xml", content.into_bytes()),
    ])
}

fn open_document(path: &str) -> Workbook {
    match open(path, two_tables()) {
        Ok(book) => book,
        Err(error) => panic!("the workbook does not open: {:?}", error),
    }
}

#[test]
fn open_document_lists_sheets_in_document_order() {
    let book = open_document("book.ods");
    assert_eq!(book.sheet_names(), vec!["Second", "First"]);
}

#[test]
fn open_document_values_are_classified() {
    let mut book = open_document("book.ods");
    let second = get_sheet(&mut book, "Second").ok().expect("the sheet is read");
    assert_eq!(second.size(), (2, 3));
    assert_eq!(second.get_value(0, 0), Some(CellValue::Float(7f64.to_bits())));
    assert_eq!(second.get_value(0, 1), Some(CellValue::Text("ods text".to_string())));
    assert_eq!(second.get_value(0, 2), Some(CellValue::Boolean(true)));
    assert_eq!(second.get_value(1, 0), Some(CellValue::Text("2021-03-04".to_string())));
    assert_eq!(second.get_value(1, 1), Some(CellValue::Empty));
    assert_eq!(second.get_value(1, 2), Some(CellValue::Text("PT01H00M00S".to_string())));
    assert_eq!(second.get_value(2, 0), None);
    assert_eq!(second.get_value(0, 3), None);
}

#[test]
fn open_document_sheet_without_values_has_no_size() {
    let mut book = open_document("book.ods");
    let first = get_sheet(&mut book, "First").ok().expect("the sheet is read");
    assert_eq!(first.size(), (0, 0));
    assert_eq!(first.get_value(0, 0), None);
}

#[test]
fn open_document_missing_sheet_is_not_found() {
    let mut book = open_document("book.ods");
    assert_eq!(
        get_sheet(&mut book, "Third").err(),
        Some(WorkbookError::SheetNotFound("Third".to_string()))
    );
    assert_eq!(
        get_sheet(&mut book, "second").err(),
        Some(WorkbookError::SheetNotFound("second".to_string()))
    );
}

#[test]
fn open_document_is_detected_without_an_extension() {
    let book = detect(two_tables()).ok().expect("the workbook opens");
    assert_eq!(book.sheet_names(), vec!["Second", "First"]);
    let named = open_as(Format::Ods, two_tables()).ok().expect("the workbook opens");
    assert_eq!(named.sheet_names(), vec!["Second", "First"]);
}

#[test]
fn open_document_is_no_other_format() {
    for format in [Format::Xls, Format::Xlsx, Format::Xlsb] {
        assert!(matches!(
            open_as(format, two_tables()),
            Err(WorkbookError::OpenError(_))
        ));
    }
}
