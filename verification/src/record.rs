//! One row of an action table: its seven columns, how the text of each is
//! decoded into a typed value, and how a record is written back.

use crate::number::{
    decimal_text, format_i32, format_u32, format_u64, i32_of, lemma_decimal_reads_back,
    lemma_decimal_digits, parse_i32, parse_u32, parse_u64, u32_of, u64_of,
};
use vstd::prelude::*;

verus! {

/// The number of columns in a row.
pub const COLUMNS: usize = 7;

/// The columns of a row, in the order in which they stand.
#[derive(Clone, Copy, Debug, PartialEq, Eq, Structural)]
pub enum Column {
    Action,
    XPosition,
    YPosition,
    DelayMs,
    Button,
    Modifiers,
    RepeatCount,
}

/// Why a row could not be decoded.
#[derive(Clone, Copy, Debug, PartialEq, Eq, Structural)]
pub enum FieldError {
    /// The row does not have seven fields.
    FieldCount,
    /// The field of this column is not empty and is no integer of the
    /// column's type.
    Invalid(Column),
}

/// One decoded row. A numeric or optional text column whose field is empty
/// is absent.
#[derive(Clone, Debug, PartialEq, Eq)]
pub struct MouseAction {
    pub action: String,
    pub x_position: Option<i32>,
    pub y_position: Option<i32>,
    pub delay_ms: Option<u64>,
    pub button: Option<String>,
    pub modifiers: Option<String>,
    pub repeat_count: Option<u32>,
}

/// A record as plain values.
pub ghost struct MouseActionView {
    pub action: Seq<char>,
    pub x_position: Option<i32>,
    pub y_position: Option<i32>,
    pub delay_ms: Option<u64>,
    pub button: Option<Seq<char>>,
    pub modifiers: Option<Seq<char>>,
    pub repeat_count: Option<u32>,
}

/// An optional text as plain values.
pub open spec fn text_view(t: Option<String>) -> Option<Seq<char>> {
    match t {
        Some(s) => Some(s@),
        None => None,
    }
}

impl View for MouseAction {
    type V = MouseActionView;

    open spec fn view(&self) -> MouseActionView {
        MouseActionView {
            action: self.action@,
            x_position: self.x_position,
            y_position: self.y_position,
            delay_ms: self.delay_ms,
            button: text_view(self.button),
            modifiers: text_view(self.modifiers),
            repeat_count: self.repeat_count,
        }
    }
}

impl MouseActionView {
    /// No optional text is present and empty: an empty field means absent.
    pub open spec fn wf(self) -> bool {
        self.button != Some(Seq::<char>::empty()) && self.modifiers != Some(Seq::<char>::empty())
    }
}

/// The fields of a row as plain values.
pub open spec fn texts(fields: Seq<String>) -> Seq<Seq<char>> {
    fields.map_values(|s: String| s@)
}

/// An optional text column: an empty field is absent.
pub open spec fn optional_text(s: Seq<char>) -> Option<Seq<char>> {
    if s.len() == 0 {
        None
    } else {
        Some(s)
    }
}

/// The first column, in column order, whose field cannot be decoded.
pub open spec fn first_invalid(fields: Seq<Seq<char>>) -> Option<Column> {
    if fields[1].len() > 0 && i32_of(fields[1]) is None {
        Some(Column::XPosition)
    } else if fields[2].len() > 0 && i32_of(fields[2]) is None {
        Some(Column::YPosition)
    } else if fields[3].len() > 0 && u64_of(fields[3]) is None {
        Some(Column::DelayMs)
    } else if fields[6].len() > 0 && u32_of(fields[6]) is None {
        Some(Column::RepeatCount)
    } else {
        None
    }
}

/// What a row of fields decodes to. The action and the optional texts are
/// taken as they stand; a numeric field is absent where it is empty and must
/// else be an integer of its column's type.
pub open spec fn decode_spec(fields: Seq<Seq<char>>) -> Result<MouseActionView, FieldError> {
    if fields.len() != COLUMNS {
        Err(FieldError::FieldCount)
    } else if first_invalid(fields) is Some {
        Err(FieldError::Invalid(first_invalid(fields)->0))
    } else {
        Ok(
            MouseActionView {
                action: fields[0],
                x_position: if fields[1].len() == 0 {
                    None
                } else {
                    i32_of(fields[1])
                },
                y_position: if fields[2].len() == 0 {
                    None
                } else {
                    i32_of(fields[2])
                },
                delay_ms: if fields[3].len() == 0 {
                    None
                } else {
                    u64_of(fields[3])
                },
                button: optional_text(fields[4]),
                modifiers: optional_text(fields[5]),
                repeat_count: if fields[6].len() == 0 {
                    None
                } else {
                    u32_of(fields[6])
                },
            },
        )
    }
}

/// The field that writes an optional signed integer.
pub open spec fn optional_i32_text(v: Option<i32>) -> Seq<char> {
    match v {
        Some(n) => decimal_text(n as int),
        None => Seq::empty(),
    }
}

/// The field that writes an optional unsigned integer.
pub open spec fn optional_u64_text(v: Option<u64>) -> Seq<char> {
    match v {
        Some(n) => decimal_text(n as int),
        None => Seq::empty(),
    }
}

/// The field that writes an optional unsigned integer.
pub open spec fn optional_u32_text(v: Option<u32>) -> Seq<char> {
    match v {
        Some(n) => decimal_text(n as int),
        None => Seq::empty(),
    }
}

/// The field that writes an optional text.
pub open spec fn optional_text_field(v: Option<Seq<char>>) -> Seq<char> {
    match v {
        Some(s) => s,
        None => Seq::empty(),
    }
}

/// The seven fields that write a record: texts as they are, integers in
/// decimal, an absent value as an empty field.
pub open spec fn encode_spec(a: MouseActionView) -> Seq<Seq<char>> {
    seq![
        a.action,
        optional_i32_text(a.x_position),
        optional_i32_text(a.y_position),
        optional_u64_text(a.delay_ms),
        optional_text_field(a.button),
        optional_text_field(a.modifiers),
        optional_u32_text(a.repeat_count),
    ]
}

/// Reads an optional signed 32-bit field: `Ok(None)` where it is empty.
fn decode_optional_i32(field: &String) -> (r: Result<Option<i32>, ()>)
    ensures
        r is Err <==> field@.len() > 0 && i32_of(field@) is None,
        r is Ok ==> r->Ok_0 == if field@.len() == 0 {
            None
        } else {
            i32_of(field@)
        },
{
    if field.as_str().is_empty() {
        return Ok(None);
    }
    match parse_i32(field.as_str()) {
        Some(v) => Ok(Some(v)),
        None => Err(()),
    }
}

/// Reads an optional unsigned 64-bit field: `Ok(None)` where it is empty.
fn decode_optional_u64(field: &String) -> (r: Result<Option<u64>, ()>)
    ensures
        r is Err <==> field@.len() > 0 && u64_of(field@) is None,
        r is Ok ==> r->Ok_0 == if field@.len() == 0 {
            None
        } else {
            u64_of(field@)
        },
{
    if field.as_str().is_empty() {
        return Ok(None);
    }
    match parse_u64(field.as_str()) {
        Some(v) => Ok(Some(v)),
        None => Err(()),
    }
}

/// Reads an optional unsigned 32-bit field: `Ok(None)` where it is empty.
fn decode_optional_u32(field: &String) -> (r: Result<Option<u32>, ()>)
    ensures
        r is Err <==> field@.len() > 0 && u32_of(field@) is None,
        r is Ok ==> r->Ok_0 == if field@.len() == 0 {
            None
        } else {
            u32_of(field@)
        },
{
    if field.as_str().is_empty() {
        return Ok(None);
    }
    match parse_u32(field.as_str()) {
        Some(v) => Ok(Some(v)),
        None => Err(()),
    }
}

/// Reads an optional text field: `None` where it is empty.
fn decode_optional_text(field: &String) -> (r: Option<String>)
    ensures
        text_view(r) == optional_text(field@),
{
    if field.as_str().is_empty() {
        None
    } else {
        Some(field.clone())
    }
}

/// Decodes one row of seven fields into a record, or says which column
/// stands in the way.
pub fn decode_fields(fields: &Vec<String>) -> (r: Result<MouseAction, FieldError>)
    ensures
        match r {
            Ok(a) => decode_spec(texts(fields@)) == Ok::<MouseActionView, FieldError>(a@),
            Err(e) => decode_spec(texts(fields@)) == Err::<MouseActionView, FieldError>(e),
        },
        r is Ok ==> r->Ok_0@.wf(),
{
    if fields.len() != COLUMNS {
        return Err(FieldError::FieldCount);
    }
    let ghost t = texts(fields@);
    assert(forall|i: int| 0 <= i < 7 ==> t[i] == fields@[i]@);
    let x_position = match decode_optional_i32(&fields[1]) {
        Ok(v) => v,
        Err(_) => {
            return Err(FieldError::Invalid(Column::XPosition));
        },
    };
    let y_position = match decode_optional_i32(&fields[2]) {
        Ok(v) => v,
        Err(_) => {
            return Err(FieldError::Invalid(Column::YPosition));
        },
    };
    let delay_ms = match decode_optional_u64(&fields[3]) {
        Ok(v) => v,
        Err(_) => {
            return Err(FieldError::Invalid(Column::DelayMs));
        },
    };
    let repeat_count = match decode_optional_u32(&fields[6]) {
        Ok(v) => v,
        Err(_) => {
            return Err(FieldError::Invalid(Column::RepeatCount));
        },
    };
    Ok(
        MouseAction {
            action: fields[0].clone(),
            x_position,
            y_position,
            delay_ms,
            button: decode_optional_text(&fields[4]),
            modifiers: decode_optional_text(&fields[5]),
            repeat_count,
        },
    )
}

/// Writes a record as its seven fields.
pub fn encode_fields(a: &MouseAction) -> (fields: Vec<String>)
    ensures
        texts(fields@) == encode_spec(a@),
{
    let mut fields: Vec<String> = Vec::new();
    fields.push(a.action.clone());
    fields.push(
        match a.x_position {
            Some(n) => format_i32(n),
            None => String::new(),
        },
    );
    fields.push(
        match a.y_position {
            Some(n) => format_i32(n),
            None => String::new(),
        },
    );
    fields.push(
        match a.delay_ms {
            Some(n) => format_u64(n),
            None => String::new(),
        },
    );
    fields.push(
        match &a.button {
            Some(s) => s.clone(),
            None => String::new(),
        },
    );
    fields.push(
        match &a.modifiers {
            Some(s) => s.clone(),
            None => String::new(),
        },
    );
    fields.push(
        match a.repeat_count {
            Some(n) => format_u32(n),
            None => String::new(),
        },
    );
    assert(texts(fields@) =~= encode_spec(a@));
    fields
}

/// The decimal text of an integer is never empty.
proof fn lemma_decimal_text_nonempty(v: int)
    ensures
        decimal_text(v).len() > 0,
{
    lemma_decimal_digits(
        if v < 0 {
            (-v) as nat
        } else {
            v as nat
        },
    );
}

/// Written out and decoded again, a record comes back as it was: every
/// record without an empty text in an optional column.
pub proof fn lemma_encode_then_decode(a: MouseActionView)
    requires
        a.wf(),
    ensures
        decode_spec(encode_spec(a)) == Ok::<MouseActionView, FieldError>(a),
{
    let f = encode_spec(a);
    if a.x_position is Some {
        lemma_decimal_text_nonempty(a.x_position->0 as int);
        lemma_decimal_reads_back(a.x_position->0 as int, true);
    }
    if a.y_position is Some {
        lemma_decimal_text_nonempty(a.y_position->0 as int);
        lemma_decimal_reads_back(a.y_position->0 as int, true);
    }
    if a.delay_ms is Some {
        lemma_decimal_text_nonempty(a.delay_ms->0 as int);
        lemma_decimal_reads_back(a.delay_ms->0 as int, false);
    }
    if a.repeat_count is Some {
        lemma_decimal_text_nonempty(a.repeat_count->0 as int);
        lemma_decimal_reads_back(a.repeat_count->0 as int, false);
    }
    if a.button is Some && a.button->0.len() == 0 {
        assert(a.button->0 =~= Seq::<char>::empty());
    }
    if a.modifiers is Some && a.modifiers->0.len() == 0 {
        assert(a.modifiers->0 =~= Seq::<char>::empty());
    }
    assert(first_invalid(f) is None);
    assert(optional_text(f[4]) == a.button);
    assert(optional_text(f[5]) == a.modifiers);
}

/// Decoding a row and writing the record back keeps every value: the
/// written row decodes to the same record, its text columns are the fields
/// that were decoded, and a numeric column is written empty exactly where
/// the decoded field was empty.
pub proof fn lemma_decode_then_encode(fields: Seq<Seq<char>>)
    requires
        decode_spec(fields) is Ok,
    ensures
        decode_spec(fields)->Ok_0.wf(),
        decode_spec(encode_spec(decode_spec(fields)->Ok_0)) == decode_spec(fields),
        encode_spec(decode_spec(fields)->Ok_0)[0] == fields[0],
        encode_spec(decode_spec(fields)->Ok_0)[4] == fields[4],
        encode_spec(decode_spec(fields)->Ok_0)[5] == fields[5],
        forall|i: int|
            0 <= i < 7 ==> (#[trigger] encode_spec(decode_spec(fields)->Ok_0)[i].len() == 0
                <==> fields[i].len() == 0),
{
    let a = decode_spec(fields)->Ok_0;
    lemma_encode_then_decode(a);
    let g = encode_spec(a);
    assert(g[4] =~= fields[4]);
    assert(g[5] =~= fields[5]);
    if a.x_position is Some {
        lemma_decimal_text_nonempty(a.x_position->0 as int);
    }
    if a.y_position is Some {
        lemma_decimal_text_nonempty(a.y_position->0 as int);
    }
    if a.delay_ms is Some {
        lemma_decimal_text_nonempty(a.delay_ms->0 as int);
    }
    if a.repeat_count is Some {
        lemma_decimal_text_nonempty(a.repeat_count->0 as int);
    }
}

/// No action name is ever refused: whether a row decodes does not depend
/// on its first field, and the record takes that field as it stands.
pub proof fn lemma_any_action_decodes(fields: Seq<Seq<char>>, name: Seq<char>)
    requires
        fields.len() == COLUMNS,
    ensures
        decode_spec(fields.update(0, name)) is Ok <==> decode_spec(fields) is Ok,
        decode_spec(fields.update(0, name)) is Ok ==> decode_spec(fields.update(0, name))->Ok_0
            == (MouseActionView { action: name, ..decode_spec(fields)->Ok_0 }),
        decode_spec(fields.update(0, name)) is Err ==> decode_spec(fields.update(0, name))
            == decode_spec(fields),
{
}

} // verus!
