//! An action table as a whole: the bytes of a comma-separated file are split
//! into records, the header is checked, and the rows are decoded in order up
//! to the first one that fails.

use crate::record::{
    decode_fields, decode_spec, encode_spec, lemma_encode_then_decode, texts, FieldError,
    MouseAction, MouseActionView,
};
use crate::text::same_text;
use vstd::prelude::*;

verus! {

/// Why the reading of a table stopped. A row is counted from the header,
/// which is row 0.
#[derive(Clone, Copy, Debug, PartialEq, Eq, Structural)]
pub enum ScriptError {
    /// The record could not be split into fields of text, or has another
    /// number of fields than the first one.
    Malformed { row: usize },
    /// The first record is not the header of an action table.
    Header,
    /// The row was split into fields, and one of them cannot be decoded.
    Field { row: usize, error: FieldError },
}

/// What was read of a table: the records of the rows before the first
/// failure, in file order, and that failure if there was one.
#[derive(Debug)]
pub struct Script {
    pub actions: Vec<MouseAction>,
    pub failure: Option<ScriptError>,
}

/// A script as plain values.
pub ghost struct ScriptView {
    pub actions: Seq<MouseActionView>,
    pub failure: Option<ScriptError>,
}

impl View for Script {
    type V = ScriptView;

    open spec fn view(&self) -> ScriptView {
        ScriptView {
            actions: self.actions@.map_values(|a: MouseAction| a@),
            failure: self.failure,
        }
    }
}

/// The records into which the `csv` crate splits `data`, read without
/// treating the first one as a header: the fields of each record, or `None`
/// for a record on which the reader reports an error.
pub uninterp spec fn csv_records(data: Seq<u8>) -> Seq<Option<Seq<Seq<char>>>>;

/// One split record as plain values.
pub open spec fn record_view(record: Option<Vec<String>>) -> Option<Seq<Seq<char>>> {
    match record {
        Some(fields) => Some(texts(fields@)),
        None => None,
    }
}

/// Split records as plain values.
pub open spec fn table_view(records: Seq<Option<Vec<String>>>) -> Seq<Option<Seq<Seq<char>>>> {
    records.map_values(|r: Option<Vec<String>>| record_view(r))
}

/// Runs a `csv::Reader`, built by `csv::ReaderBuilder` with `has_headers`
/// off and every other setting at its default, over `data` and collects what
/// its `into_records` iterator yields: the fields of each record as owned
/// strings, `None` in place of each error. Nothing is claimed of the split
/// beyond its being a function of the bytes.
#[verifier::external_body]
fn read_records(data: &[u8]) -> (records: Vec<Option<Vec<String>>>)
    ensures
        table_view(records@) == csv_records(data@),
{
    let reader = csv::ReaderBuilder::new().has_headers(false).from_reader(data);
    let mut records: Vec<Option<Vec<String>>> = Vec::new();
    for result in reader.into_records() {
        records.push(result.ok().map(|record| record.iter().map(String::from).collect()));
    }
    records
}

/// The header of an action table: the names of the seven columns.
pub open spec fn header_spec() -> Seq<Seq<char>> {
    seq![
        "action"@,
        "x_position"@,
        "y_position"@,
        "delay_ms"@,
        "button"@,
        "modifiers"@,
        "repeat_count"@,
    ]
}

/// The row was split and decodes into a record.
pub open spec fn row_decodes(row: Option<Seq<Seq<char>>>) -> bool {
    row is Some && decode_spec(row->0) is Ok
}

/// The first row from `from` on that does not decode, or the number of rows
/// where each does.
pub open spec fn first_failure(rows: Seq<Option<Seq<Seq<char>>>>, from: int) -> int
    decreases rows.len() - from,
{
    if from >= rows.len() {
        rows.len() as int
    } else if !row_decodes(rows[from]) {
        from
    } else {
        first_failure(rows, from + 1)
    }
}

/// Every row from `from` up to the first failure decodes, and the row at the
/// first failure, where there is one, does not: rows are taken strictly in
/// file order and none is skipped.
pub proof fn lemma_first_failure(rows: Seq<Option<Seq<Seq<char>>>>, from: int)
    requires
        0 <= from <= rows.len(),
    ensures
        from <= first_failure(rows, from) <= rows.len(),
        forall|k: int| from <= k < first_failure(rows, from) ==> row_decodes(#[trigger] rows[k]),
        first_failure(rows, from) < rows.len() ==> !row_decodes(rows[first_failure(rows, from)]),
    decreases rows.len() - from,
{
    if from < rows.len() && row_decodes(rows[from]) {
        lemma_first_failure(rows, from + 1);
    }
}

/// The failure that a row which does not decode stands for.
pub open spec fn row_error(row: Option<Seq<Seq<char>>>, index: usize) -> ScriptError {
    if row is None {
        ScriptError::Malformed { row: index }
    } else {
        ScriptError::Field { row: index, error: decode_spec(row->0)->Err_0 }
    }
}

/// The script that a sequence of split records stands for. No record at
/// all is an empty script. Else the first record must be the header; the
/// rows after it are decoded in order, and the first that fails ends the
/// script.
pub open spec fn script_spec(rows: Seq<Option<Seq<Seq<char>>>>) -> ScriptView {
    if rows.len() == 0 {
        ScriptView { actions: Seq::empty(), failure: None }
    } else if rows[0] is None {
        ScriptView { actions: Seq::empty(), failure: Some(ScriptError::Malformed { row: 0 }) }
    } else if rows[0]->0 != header_spec() {
        ScriptView { actions: Seq::empty(), failure: Some(ScriptError::Header) }
    } else {
        let stop = first_failure(rows, 1);
        ScriptView {
            actions: Seq::new((stop - 1) as nat, |i: int| decode_spec(rows[i + 1]->0)->Ok_0),
            failure: if stop < rows.len() {
                Some(row_error(rows[stop], stop as usize))
            } else {
                None
            },
        }
    }
}

/// Whether `fields` is the header of an action table.
pub fn is_header(fields: &Vec<String>) -> (r: bool)
    ensures
        r == (texts(fields@) == header_spec()),
{
    let ghost t = texts(fields@);
    if fields.len() != 7 {
        assert(t.len() != header_spec().len());
        return false;
    }
    assert(forall|i: int| 0 <= i < 7 ==> t[i] == fields@[i]@);
    let r = same_text(fields[0].as_str(), "action") && same_text(fields[1].as_str(), "x_position")
        && same_text(fields[2].as_str(), "y_position") && same_text(
        fields[3].as_str(),
        "delay_ms",
    ) && same_text(fields[4].as_str(), "button") && same_text(fields[5].as_str(), "modifiers")
        && same_text(fields[6].as_str(), "repeat_count");
    proof {
        let h = header_spec();
        if r {
            assert(t =~= h);
        } else {
            assert(exists|i: int| 0 <= i < 7 && t[i] != h[i]);
        }
    }
    r
}

/// Decodes split records into a script: the header is checked, then each
/// row is decoded until one fails.
pub fn decode_table(records: &Vec<Option<Vec<String>>>) -> (script: Script)
    ensures
        script@ == script_spec(table_view(records@)),
{
    let ghost rows = table_view(records@);
    let n: usize = records.len();
    let mut actions: Vec<MouseAction> = Vec::new();
    assert(actions@.map_values(|a: MouseAction| a@) =~= Seq::<MouseActionView>::empty());
    if n == 0 {
        return Script { actions, failure: None };
    }
    match &records[0] {
        None => {
            return Script { actions, failure: Some(ScriptError::Malformed { row: 0 }) };
        },
        Some(fields) => {
            if !is_header(fields) {
                return Script { actions, failure: Some(ScriptError::Header) };
            }
        },
    }
    let mut i: usize = 1;
    let mut failure: Option<ScriptError> = None;
    while i < n && failure.is_none()
        invariant
            1 <= i <= n,
            n == records@.len(),
            rows == table_view(records@),
            failure is None ==> first_failure(rows, 1) == first_failure(rows, i as int),
            failure is None ==> actions@.len() == i - 1,
            failure is Some ==> first_failure(rows, 1) < n,
            failure is Some ==> actions@.len() == first_failure(rows, 1) - 1,
            failure is Some ==> failure->0 == row_error(
                rows[first_failure(rows, 1)],
                first_failure(rows, 1) as usize,
            ),
            forall|k: int|
                0 <= k < actions@.len() ==> (#[trigger] actions@[k])@ == decode_spec(
                    rows[k + 1]->0,
                )->Ok_0,
        decreases
            n - i + if failure is None {
                1int
            } else {
                0int
            },
    {
        match &records[i] {
            None => {
                failure = Some(ScriptError::Malformed { row: i });
            },
            Some(fields) => {
                match decode_fields(fields) {
                    Ok(action) => {
                        actions.push(action);
                        i = i + 1;
                    },
                    Err(error) => {
                        failure = Some(ScriptError::Field { row: i, error });
                    },
                }
            },
        }
    }
    let script = Script { actions, failure };
    assert(script@.actions =~= script_spec(rows).actions);
    script
}

/// Reads the bytes of an action table into a script.
pub fn parse_script(data: &[u8]) -> (script: Script)
    ensures
        script@ == script_spec(csv_records(data@)),
{
    let records = read_records(data);
    decode_table(&records)
}

/// The records of a table that holds `actions`: the header, then each
/// action written as its seven fields.
pub open spec fn written_rows(actions: Seq<MouseActionView>) -> Seq<Option<Seq<Seq<char>>>> {
    seq![Some(header_spec())] + actions.map_values(|a: MouseActionView| Some(encode_spec(a)))
}

/// Where every row from `from` on decodes, there is no failure.
proof fn lemma_no_failure(rows: Seq<Option<Seq<Seq<char>>>>, from: int)
    requires
        0 <= from <= rows.len(),
        forall|k: int| from <= k < rows.len() ==> row_decodes(#[trigger] rows[k]),
    ensures
        first_failure(rows, from) == rows.len(),
    decreases rows.len() - from,
{
    if from < rows.len() {
        lemma_no_failure(rows, from + 1);
    }
}

/// A table written from records reads back as those records, in the same
/// order and without failure: every sequence of records of which none has
/// an empty text in an optional column.
pub proof fn lemma_written_table_reads_back(actions: Seq<MouseActionView>)
    requires
        forall|i: int| 0 <= i < actions.len() ==> (#[trigger] actions[i]).wf(),
    ensures
        script_spec(written_rows(actions)) == (ScriptView { actions, failure: None }),
{
    let rows = written_rows(actions);
    assert forall|k: int| 1 <= k < rows.len() implies row_decodes(#[trigger] rows[k])
        && decode_spec(rows[k]->0)->Ok_0 == actions[k - 1] by {
        assert(rows[k] == Some(encode_spec(actions[k - 1])));
        lemma_encode_then_decode(actions[k - 1]);
    }
    lemma_no_failure(rows, 1);
    assert(rows[0]->0 == header_spec());
    assert(script_spec(rows).actions =~= actions);
}

} // verus!
