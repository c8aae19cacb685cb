//! The result table: its header, one row of text fields per result, and
//! its encoding as CSV bytes.
use vstd::prelude::*;
use vstd::string::StringExecFns;

use crate::task::{status_label, TaskOutput};

verus! {

/// The character of a decimal digit.
pub open spec fn digit_char(d: nat) -> char {
    seq!['0', '1', '2', '3', '4', '5', '6', '7', '8', '9'][d as int]
}

/// The decimal text of `n`, without sign or leading zeros.
pub open spec fn decimal_of(n: nat) -> Seq<char>
    decreases n,
{
    if n < 10 {
        seq![digit_char(n)]
    } else {
        decimal_of(n / 10) + seq![digit_char(n % 10)]
    }
}

/// The column names of the result table.
pub open spec fn header_model() -> Seq<Seq<char>> {
    seq!["task_id"@, "final_status"@, "error_info"@]
}

/// The fields of the row of one result.
pub open spec fn row_model(o: TaskOutput) -> Seq<Seq<char>> {
    seq![decimal_of(o.task_id as nat), status_label(o.final_status), o.error_info@]
}

/// The whole table of a result list: the header, then one row per result
/// in list order.
pub open spec fn table_model(results: Seq<TaskOutput>) -> Seq<Seq<Seq<char>>> {
    seq![header_model()] + results.map_values(|o: TaskOutput| row_model(o))
}

/// The text of each field of each row.
pub open spec fn rows_view(rows: Seq<Vec<String>>) -> Seq<Seq<Seq<char>>> {
    rows.map_values(|row: Vec<String>| row@.map_values(|f: String| f@))
}

/// The bytes that the csv writer, with its default settings, produces for
/// these records.
pub uninterp spec fn csv_bytes_of(rows: Seq<Seq<Seq<char>>>) -> Seq<u8>;

/// Relies on csv::Writer (`from_writer`, `write_record`, `into_inner`)
/// writing into memory: on success the bytes are the CSV text of the
/// records, which depends on the records alone. The default writer is not
/// flexible, so its one error is a record whose field count differs from
/// the first one's; writing into a `Vec` cannot fail.
#[verifier::external_body]
fn write_csv(rows: &Vec<Vec<String>>) -> (r: Option<Vec<u8>>)
    ensures
        r matches Some(bytes) ==> bytes@ == csv_bytes_of(rows_view(rows@)),
        (forall|i: int| 0 <= i < rows@.len() ==> #[trigger] rows@[i]@.len() == rows@[0]@.len())
            ==> r is Some,
{
    let mut writer = csv::Writer::from_writer(Vec::new());
    for row in rows {
        if writer.write_record(row).is_err() {
            return None;
        }
    }
    writer.into_inner().ok()
}

fn digit_text(d: u64) -> (r: &'static str)
    requires
        d < 10,
    ensures
        r@ == seq![digit_char(d as nat)],
{
    if d == 0 {
        proof { reveal_strlit("0"); }
        "0"
    } else if d == 1 {
        proof { reveal_strlit("1"); }
        "1"
    } else if d == 2 {
        proof { reveal_strlit("2"); }
        "2"
    } else if d == 3 {
        proof { reveal_strlit("3"); }
        "3"
    } else if d == 4 {
        proof { reveal_strlit("4"); }
        "4"
    } else if d == 5 {
        proof { reveal_strlit("5"); }
        "5"
    } else if d == 6 {
        proof { reveal_strlit("6"); }
        "6"
    } else if d == 7 {
        proof { reveal_strlit("7"); }
        "7"
    } else if d == 8 {
        proof { reveal_strlit("8"); }
        "8"
    } else {
        proof { reveal_strlit("9"); }
        "9"
    }
}

/// The decimal text of `n`.
pub fn decimal_text(n: u64) -> (r: String)
    ensures
        r@ == decimal_of(n as nat),
    decreases n,
{
    if n < 10 {
        String::from_str(digit_text(n))
    } else {
        let mut s = decimal_text(n / 10);
        s.append(digit_text(n % 10));
        s
    }
}

/// The column names of the result table.
pub fn result_header() -> (r: Vec<String>)
    ensures
        r@.map_values(|f: String| f@) == header_model(),
{
    let mut h: Vec<String> = Vec::new();
    h.push(String::from_str("task_id"));
    h.push(String::from_str("final_status"));
    h.push(String::from_str("error_info"));
    assert(h@.map_values(|f: String| f@) =~= header_model());
    h
}

/// The fields of the row of one result: its identifier in decimal, its
/// status label and its detail.
pub fn result_row(o: &TaskOutput) -> (r: Vec<String>)
    ensures
        r@.map_values(|f: String| f@) == row_model(*o),
{
    let mut row: Vec<String> = Vec::new();
    row.push(decimal_text(o.task_id));
    row.push(o.final_status.label());
    row.push(o.error_info.clone());
    assert(row@.map_values(|f: String| f@) =~= row_model(*o));
    row
}

/// The rows of the result table, header first.
pub fn result_table(results: &Vec<TaskOutput>) -> (r: Vec<Vec<String>>)
    ensures
        rows_view(r@) == table_model(results@),
{
    let mut rows: Vec<Vec<String>> = Vec::new();
    rows.push(result_header());
    let mut k: usize = 0;
    while k < results.len()
        invariant
            k <= results@.len(),
            rows_view(rows@) == table_model(results@.take(k as int)),
        decreases results@.len() - k,
    {
        let row = result_row(&results[k]);
        let ghost before = rows@;
        rows.push(row);
        assert(rows_view(rows@) =~= rows_view(before).push(row@.map_values(|f: String| f@)));
        assert(results@.take(k + 1).map_values(|o: TaskOutput| row_model(o)) =~= results@.take(
            k as int,
        ).map_values(|o: TaskOutput| row_model(o)).push(row_model(results@[k as int])));
        assert(table_model(results@.take(k + 1)) =~= table_model(results@.take(k as int)).push(
            row_model(results@[k as int]),
        ));
        k = k + 1;
    }
    assert(results@.take(results@.len() as int) =~= results@);
    rows
}

/// Encodes the result table as CSV bytes: the header row, then one row per
/// result in list order. With no results the table is the header alone.
/// Every row has the same three fields, so the encoding always succeeds.
pub fn encode_results(results: &Vec<TaskOutput>) -> (r: Option<Vec<u8>>)
    ensures
        r is Some,
        r matches Some(bytes) ==> bytes@ == csv_bytes_of(table_model(results@)),
{
    let rows = result_table(results);
    assert forall|i: int| 0 <= i < rows@.len() implies #[trigger] rows@[i]@.len() == rows@[0]@.len() by {
        assert(rows_view(rows@)[i] == rows@[i]@.map_values(|f: String| f@));
        assert(rows_view(rows@)[0] == rows@[0]@.map_values(|f: String| f@));
        assert(table_model(results@)[0] == header_model());
        if i > 0 {
            let rest = results@.map_values(|o: TaskOutput| row_model(o));
            assert(rows_view(rows@).len() == rows@.len());
            assert((seq![header_model()] + rest)[i] == rest[i - 1]);
            assert(table_model(results@)[i] == row_model(results@[i - 1]));
        }
    }
    write_csv(&rows)
}

} // verus!
