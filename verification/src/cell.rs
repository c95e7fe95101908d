//! Cell values: the closed set of kinds a cell's content is classified into.

use crate::text::same_text;
use vstd::prelude::*;

verus! {

/// A formula error that a spreadsheet keeps in a cell in place of a value.
///
/// Each error has a token: the text by which the reader displays it. A
/// document may spell an error otherwise, or store a number for it; the
/// reader tells the eight apart and displays each by its token.
#[derive(Clone, Copy, Debug, PartialEq, Eq, Structural)]
pub enum ErrorCode {
    /// `#DIV/0!`: a division by zero.
    DivideByZero,
    /// `#N/A`: a value that is not available.
    Unavailable,
    /// `#NAME?`: a name that is not defined.
    InvalidName,
    /// `#NULL!`: an intersection of ranges that do not meet.
    Null,
    /// `#NUM!`: a number that cannot be represented.
    Number,
    /// `#REF!`: a reference to a cell that does not exist.
    InvalidReference,
    /// `#VALUE!`: an operand of the wrong type.
    Value,
    /// `#DATA!`, as the reader displays it: a value that is still being
    /// fetched.
    GettingData,
}

impl ErrorCode {
    /// The token by which the reader displays this error.
    pub open spec fn token_spec(self) -> Seq<char> {
        match self {
            ErrorCode::DivideByZero => "#DIV/0!"@,
            ErrorCode::Unavailable => "#N/A"@,
            ErrorCode::InvalidName => "#NAME?"@,
            ErrorCode::Null => "#NULL!"@,
            ErrorCode::Number => "#NUM!"@,
            ErrorCode::InvalidReference => "#REF!"@,
            ErrorCode::Value => "#VALUE!"@,
            ErrorCode::GettingData => "#DATA!"@,
        }
    }

    /// The error that the reader displays as `token`, if there is one.
    pub open spec fn from_token_spec(token: Seq<char>) -> Option<ErrorCode> {
        if token == "#DIV/0!"@ {
            Some(ErrorCode::DivideByZero)
        } else if token == "#N/A"@ {
            Some(ErrorCode::Unavailable)
        } else if token == "#NAME?"@ {
            Some(ErrorCode::InvalidName)
        } else if token == "#NULL!"@ {
            Some(ErrorCode::Null)
        } else if token == "#NUM!"@ {
            Some(ErrorCode::Number)
        } else if token == "#REF!"@ {
            Some(ErrorCode::InvalidReference)
        } else if token == "#VALUE!"@ {
            Some(ErrorCode::Value)
        } else if token == "#DATA!"@ {
            Some(ErrorCode::GettingData)
        } else {
            None
        }
    }

    /// The token by which the reader displays this error.
    pub fn token(&self) -> (t: &'static str)
        ensures
            t@ == self.token_spec(),
    {
        match self {
            ErrorCode::DivideByZero => "#DIV/0!",
            ErrorCode::Unavailable => "#N/A",
            ErrorCode::InvalidName => "#NAME?",
            ErrorCode::Null => "#NULL!",
            ErrorCode::Number => "#NUM!",
            ErrorCode::InvalidReference => "#REF!",
            ErrorCode::Value => "#VALUE!",
            ErrorCode::GettingData => "#DATA!",
        }
    }

    /// Classifies an error by the token the reader displays it with. The
    /// match is exact and case-sensitive; any other text is no error's
    /// token.
    pub fn from_token(token: &str) -> (code: Option<ErrorCode>)
        ensures
            code == Self::from_token_spec(token@),
    {
        if same_text(token, "#DIV/0!") {
            Some(ErrorCode::DivideByZero)
        } else if same_text(token, "#N/A") {
            Some(ErrorCode::Unavailable)
        } else if same_text(token, "#NAME?") {
            Some(ErrorCode::InvalidName)
        } else if same_text(token, "#NULL!") {
            Some(ErrorCode::Null)
        } else if same_text(token, "#NUM!") {
            Some(ErrorCode::Number)
        } else if same_text(token, "#REF!") {
            Some(ErrorCode::InvalidReference)
        } else if same_text(token, "#VALUE!") {
            Some(ErrorCode::Value)
        } else if same_text(token, "#DATA!") {
            Some(ErrorCode::GettingData)
        } else {
            None
        }
    }
}

/// The content of one cell.
///
/// `Empty` is a cell inside the used area that holds nothing. A position
/// outside the used area has no `CellValue` at all.
#[derive(Debug, PartialEq)]
pub enum CellValue {
    /// A whole number.
    Integer(i64),
    /// A binary64 number, kept as its bit pattern.
    Float(u64),
    /// A text.
    Text(String),
    /// A truth value.
    Boolean(bool),
    /// A blank cell inside the used area.
    Empty,
    /// A formula error.
    Error(ErrorCode),
}

/// What a [`CellValue`] stands for.
pub enum CellModel {
    Integer(i64),
    Float(u64),
    Text(Seq<char>),
    Boolean(bool),
    Empty,
    Error(ErrorCode),
}

impl View for CellValue {
    type V = CellModel;

    open spec fn view(&self) -> CellModel {
        match self {
            CellValue::Integer(i) => CellModel::Integer(*i),
            CellValue::Float(bits) => CellModel::Float(*bits),
            CellValue::Text(text) => CellModel::Text(text@),
            CellValue::Boolean(b) => CellModel::Boolean(*b),
            CellValue::Empty => CellModel::Empty,
            CellValue::Error(code) => CellModel::Error(*code),
        }
    }
}

impl Clone for CellValue {
    fn clone(&self) -> (copy: Self)
        ensures
            copy@ == self@,
    {
        match self {
            CellValue::Integer(i) => CellValue::Integer(*i),
            CellValue::Float(bits) => CellValue::Float(*bits),
            CellValue::Text(text) => CellValue::Text(text.clone()),
            CellValue::Boolean(b) => CellValue::Boolean(*b),
            CellValue::Empty => CellValue::Empty,
            CellValue::Error(code) => CellValue::Error(*code),
        }
    }
}

/// A cell as a document stores it, before it is classified.
///
/// Numbers of binary64 are kept as their bit patterns, an error as the token
/// the reader displays it with.
#[derive(Debug, PartialEq)]
pub enum RawCell {
    /// A whole number.
    Integer(i64),
    /// A binary64 number.
    Float(u64),
    /// A text.
    Text(String),
    /// A truth value.
    Boolean(bool),
    /// A date or time, as the serial number the document stores.
    DateTime(u64),
    /// A date or time, written out in ISO 8601.
    DateTimeIso(String),
    /// A duration, written out in ISO 8601.
    DurationIso(String),
    /// A formula error, by its token.
    Error(String),
    /// A cell without content.
    Empty,
}

/// What a [`RawCell`] stands for.
pub enum RawModel {
    Integer(i64),
    Float(u64),
    Text(Seq<char>),
    Boolean(bool),
    DateTime(u64),
    DateTimeIso(Seq<char>),
    DurationIso(Seq<char>),
    Error(Seq<char>),
    Empty,
}

impl View for RawCell {
    type V = RawModel;

    open spec fn view(&self) -> RawModel {
        match self {
            RawCell::Integer(i) => RawModel::Integer(*i),
            RawCell::Float(bits) => RawModel::Float(*bits),
            RawCell::Text(text) => RawModel::Text(text@),
            RawCell::Boolean(b) => RawModel::Boolean(*b),
            RawCell::DateTime(bits) => RawModel::DateTime(*bits),
            RawCell::DateTimeIso(text) => RawModel::DateTimeIso(text@),
            RawCell::DurationIso(text) => RawModel::DurationIso(text@),
            RawCell::Error(token) => RawModel::Error(token@),
            RawCell::Empty => RawModel::Empty,
        }
    }
}

impl Clone for RawCell {
    fn clone(&self) -> (copy: Self)
        ensures
            copy@ == self@,
    {
        match self {
            RawCell::Integer(i) => RawCell::Integer(*i),
            RawCell::Float(bits) => RawCell::Float(*bits),
            RawCell::Text(text) => RawCell::Text(text.clone()),
            RawCell::Boolean(b) => RawCell::Boolean(*b),
            RawCell::DateTime(bits) => RawCell::DateTime(*bits),
            RawCell::DateTimeIso(text) => RawCell::DateTimeIso(text.clone()),
            RawCell::DurationIso(text) => RawCell::DurationIso(text.clone()),
            RawCell::Error(token) => RawCell::Error(token.clone()),
            RawCell::Empty => RawCell::Empty,
        }
    }
}

impl RawModel {
    /// Whether the cell can be classified: every cell can, but an error whose
    /// token is that of none of the known errors.
    pub open spec fn classifiable(self) -> bool {
        match self {
            RawModel::Error(token) => ErrorCode::from_token_spec(token) is Some,
            _ => true,
        }
    }

    /// The kind the cell is classified into.
    ///
    /// A serial date is the number it is stored as; a date or a duration that
    /// is written out is that text; an error is the one whose token it holds.
    pub open spec fn classify(self) -> Option<CellModel> {
        match self {
            RawModel::Integer(i) => Some(CellModel::Integer(i)),
            RawModel::Float(bits) => Some(CellModel::Float(bits)),
            RawModel::Text(text) => Some(CellModel::Text(text)),
            RawModel::Boolean(b) => Some(CellModel::Boolean(b)),
            RawModel::DateTime(bits) => Some(CellModel::Float(bits)),
            RawModel::DateTimeIso(text) => Some(CellModel::Text(text)),
            RawModel::DurationIso(text) => Some(CellModel::Text(text)),
            RawModel::Error(token) => match ErrorCode::from_token_spec(token) {
                Some(code) => Some(CellModel::Error(code)),
                None => None,
            },
            RawModel::Empty => Some(CellModel::Empty),
        }
    }
}

/// The view of an optional cell value.
pub open spec fn view_of(value: Option<CellValue>) -> Option<CellModel> {
    match value {
        Some(v) => Some(v@),
        None => None,
    }
}

impl CellValue {
    /// Classifies a stored cell. The result is `None` only for an error
    /// whose token is that of none of the known errors.
    pub fn from_raw(raw: RawCell) -> (value: Option<CellValue>)
        ensures
            view_of(value) == raw@.classify(),
    {
        match raw {
            RawCell::Integer(i) => Some(CellValue::Integer(i)),
            RawCell::Float(bits) => Some(CellValue::Float(bits)),
            RawCell::Text(text) => Some(CellValue::Text(text)),
            RawCell::Boolean(b) => Some(CellValue::Boolean(b)),
            RawCell::DateTime(bits) => Some(CellValue::Float(bits)),
            RawCell::DateTimeIso(text) => Some(CellValue::Text(text)),
            RawCell::DurationIso(text) => Some(CellValue::Text(text)),
            RawCell::Error(token) => match ErrorCode::from_token(token.as_str()) {
                Some(code) => Some(CellValue::Error(code)),
                None => None,
            },
            RawCell::Empty => Some(CellValue::Empty),
        }
    }
}

/// Every error is found again from its token.
pub proof fn lemma_token_round_trip(code: ErrorCode)
    ensures
        ErrorCode::from_token_spec(code.token_spec()) == Some(code),
{
    reveal_tokens();
}

/// No two errors share a token.
pub proof fn lemma_tokens_distinct(a: ErrorCode, b: ErrorCode)
    requires
        a.token_spec() == b.token_spec(),
    ensures
        a == b,
{
    lemma_token_round_trip(a);
    lemma_token_round_trip(b);
}

/// A token is classified as an error only if it is that error's token.
pub proof fn lemma_classified_token(token: Seq<char>, code: ErrorCode)
    requires
        ErrorCode::from_token_spec(token) == Some(code),
    ensures
        code.token_spec() == token,
{
}

/// No two tokens are classified as the same error.
pub proof fn lemma_classification_is_injective(first: Seq<char>, second: Seq<char>)
    requires
        ErrorCode::from_token_spec(first) is Some,
        ErrorCode::from_token_spec(first) == ErrorCode::from_token_spec(second),
    ensures
        first == second,
{
    lemma_classified_token(first, ErrorCode::from_token_spec(first).unwrap());
    lemma_classified_token(second, ErrorCode::from_token_spec(second).unwrap());
}

/// A stored error cell whose token is that of `code` is classified as
/// `code`, and as nothing else.
pub proof fn lemma_error_cell_round_trip(code: ErrorCode)
    ensures
        RawModel::Error(code.token_spec()).classify() == Some(CellModel::Error(code)),
{
    lemma_token_round_trip(code);
}

/// The eight tokens, character by character.
proof fn reveal_tokens()
    ensures
        "#DIV/0!"@ == seq!['#', 'D', 'I', 'V', '/', '0', '!'],
        "#N/A"@ == seq!['#', 'N', '/', 'A'],
        "#NAME?"@ == seq!['#', 'N', 'A', 'M', 'E', '?'],
        "#NULL!"@ == seq!['#', 'N', 'U', 'L', 'L', '!'],
        "#NUM!"@ == seq!['#', 'N', 'U', 'M', '!'],
        "#REF!"@ == seq!['#', 'R', 'E', 'F', '!'],
        "#VALUE!"@ == seq!['#', 'V', 'A', 'L', 'U', 'E', '!'],
        "#DATA!"@ == seq!['#', 'D', 'A', 'T', 'A', '!'],
{
    reveal_strlit("#DIV/0!");
    reveal_strlit("#N/A");
    reveal_strlit("#NAME?");
    reveal_strlit("#NULL!");
    reveal_strlit("#NUM!");
    reveal_strlit("#REF!");
    reveal_strlit("#VALUE!");
    reveal_strlit("#DATA!");
    assert("#DIV/0!"@ =~= seq!['#', 'D', 'I', 'V', '/', '0', '!']);
    assert("#N/A"@ =~= seq!['#', 'N', '/', 'A']);
    assert("#NAME?"@ =~= seq!['#', 'N', 'A', 'M', 'E', '?']);
    assert("#NULL!"@ =~= seq!['#', 'N', 'U', 'L', 'L', '!']);
    assert("#NUM!"@ =~= seq!['#', 'N', 'U', 'M', '!']);
    assert("#REF!"@ =~= seq!['#', 'R', 'E', 'F', '!']);
    assert("#VALUE!"@ =~= seq!['#', 'V', 'A', 'L', 'U', 'E', '!']);
    assert("#DATA!"@ =~= seq!['#', 'D', 'A', 'T', 'A', '!']);
}

} // verus!
