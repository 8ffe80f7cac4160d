//! Reading the upstream payload: comma-separated records of two or three
//! integers, one record per line.

use crate::error::ApiError;
use crate::error::ApiResult;
use crate::error::Failure;
use crate::hiscore::RawHiscoreRow;
use vstd::prelude::*;

verus! {

/// The records, each a sequence of fields, that the `csv` reader finds in a
/// text when it reads without a header row and accepts records of any
/// width; where the reader reports an error, the text of that error.
pub uninterp spec fn csv_records(text: Seq<char>) -> Result<Seq<Seq<Seq<char>>>, Seq<char>>;

/// What the `csv` deserializer makes of one field that is to hold an integer
/// or nothing: `Ok(None)` for a field it takes as holding nothing,
/// `Ok(Some(n))` for one it reads as the integer `n`, and for one it
/// rejects the text of its error.
pub uninterp spec fn csv_optional_integer(field: Seq<char>) -> Result<Option<i64>, Seq<char>>;

/// Runs a `csv::Reader`, built without headers and flexible about record
/// width, over `text` and collects the fields of every record
/// (`Reader::records`); an error of the reader comes back as its text. The
/// contract only names the outcome: it is whatever the reader yields for
/// this text.
#[verifier::external_body]
fn read_records(text: &str) -> (records: Result<Vec<Vec<String>>, String>)
    ensures
        match records {
            Ok(found) => csv_records(text@) == Ok::<Seq<Seq<Seq<char>>>, Seq<char>>(
                found.deep_view(),
            ),
            Err(why) => csv_records(text@) == Err::<Seq<Seq<Seq<char>>>, Seq<char>>(why@),
        },
{
    let mut reader =
        csv::ReaderBuilder::new().has_headers(false).flexible(true).from_reader(text.as_bytes());
    reader.records().map(
        |record|
            match record {
                Ok(fields) => Ok(fields.iter().map(String::from).collect()),
                Err(failure) => Err(failure.to_string()),
            },
    ).collect()
}

/// Deserializes a record that holds the single field `field` as an optional
/// integer (`csv::StringRecord::deserialize`); an error of the deserializer
/// comes back as its text. The contract only names the outcome: it is
/// whatever the deserializer yields for this field.
#[verifier::external_body]
fn read_optional_integer(field: &str) -> (value: Result<Option<i64>, String>)
    ensures
        match value {
            Ok(found) => csv_optional_integer(field@) == Ok::<Option<i64>, Seq<char>>(found),
            Err(why) => csv_optional_integer(field@) == Err::<Option<i64>, Seq<char>>(why@),
        },
{
    match csv::StringRecord::from(vec![field]).deserialize::<Option<i64>>(None) {
        Ok(found) => Ok(found),
        Err(failure) => Err(failure.to_string()),
    }
}

/// What one position of a record holds, where it holds nothing wrong.
#[derive(Clone, Copy, Debug, PartialEq, Eq)]
pub enum Field {
    /// The record ends before this position.
    Absent,
    /// The field is there and holds nothing.
    Empty,
    /// The field holds this integer.
    Integer(i64),
}

/// What is said of a record in which rank or score is absent or empty.
pub open spec fn incomplete_record() -> Seq<char> {
    "a row needs an integer rank and an integer score"@
}

/// The content of position `index` of a record, or why the field there is
/// not acceptable.
pub open spec fn field_at(fields: Seq<Seq<char>>, index: int) -> Result<Field, Seq<char>> {
    if 0 <= index < fields.len() {
        match csv_optional_integer(fields[index]) {
            Ok(Some(n)) => Ok(Field::Integer(n)),
            Ok(None) => Ok(Field::Empty),
            Err(why) => Err(why),
        }
    } else {
        Ok(Field::Absent)
    }
}

/// The row that three field contents make up. Rank and score must be
/// integers. Experience may be absent or empty, which is not a failure.
pub open spec fn row_of(rank: Field, score: Field, xp: Field) -> Option<RawHiscoreRow> {
    match (rank, score, xp) {
        (Field::Integer(rank), Field::Integer(score), Field::Integer(xp)) => Some(
            RawHiscoreRow { rank, score, xp: Some(xp) },
        ),
        (Field::Integer(rank), Field::Integer(score), _) => Some(
            RawHiscoreRow { rank, score, xp: None },
        ),
        _ => None,
    }
}

/// The row that a record stands for, or why it stands for none. Its first
/// three positions are read, any further ones are ignored. A field that is
/// not acceptable fails the record, the first such field giving the
/// reason; a record whose fields are acceptable fails where rank or score
/// is absent or empty.
pub open spec fn row_of_record(fields: Seq<Seq<char>>) -> Result<RawHiscoreRow, Seq<char>> {
    match (field_at(fields, 0), field_at(fields, 1), field_at(fields, 2)) {
        (Err(why), _, _) => Err(why),
        (Ok(_), Err(why), _) => Err(why),
        (Ok(_), Ok(_), Err(why)) => Err(why),
        (Ok(rank), Ok(score), Ok(xp)) => match row_of(rank, score, xp) {
            Some(row) => Ok(row),
            None => Err(incomplete_record()),
        },
    }
}

/// The rows that the first `n` records stand for, or why the first record
/// among them that stands for none does so.
pub open spec fn rows_through(records: Seq<Seq<Seq<char>>>, n: nat) -> Result<
    Seq<RawHiscoreRow>,
    Seq<char>,
>
    recommends
        n <= records.len(),
    decreases n,
{
    if n == 0 {
        Ok(Seq::empty())
    } else {
        match rows_through(records, (n - 1) as nat) {
            Err(why) => Err(why),
            Ok(rows) => match row_of_record(records[n - 1]) {
                Ok(row) => Ok(rows.push(row)),
                Err(why) => Err(why),
            },
        }
    }
}

/// The rows that a sequence of records stands for: one row per record, in
/// order, provided every record stands for one.
pub open spec fn rows_of_records(records: Seq<Seq<Seq<char>>>) -> Result<
    Seq<RawHiscoreRow>,
    Seq<char>,
> {
    rows_through(records, records.len())
}

/// The rows that a payload stands for, or why it is not well-formed.
pub open spec fn rows_of_text(text: Seq<char>) -> Result<Seq<RawHiscoreRow>, Seq<char>> {
    match csv_records(text) {
        Ok(records) => rows_of_records(records),
        Err(why) => Err(why),
    }
}

/// A failure among the first records is the failure of the whole.
pub proof fn lemma_first_failure_stays(records: Seq<Seq<Seq<char>>>, m: nat, n: nat)
    requires
        m <= n,
        rows_through(records, m) is Err,
    ensures
        rows_through(records, n) == rows_through(records, m),
    decreases n,
{
    if m < n {
        lemma_first_failure_stays(records, m, (n - 1) as nat);
    }
}

/// Well-formed records give one row each: row `i` is that of record `i`.
pub proof fn lemma_one_row_per_record(records: Seq<Seq<Seq<char>>>, n: nat)
    requires
        n <= records.len(),
        rows_through(records, n) is Ok,
    ensures
        rows_through(records, n)->Ok_0.len() == n,
        forall|i: int|
            0 <= i < n ==> row_of_record(#[trigger] records[i]) == Ok::<RawHiscoreRow, Seq<char>>(
                rows_through(records, n)->Ok_0[i],
            ),
    decreases n,
{
    if n > 0 {
        lemma_one_row_per_record(records, (n - 1) as nat);
    }
}

/// One record that stands for no row fails the payload, wherever it
/// stands.
pub proof fn lemma_one_bad_record_fails_all(records: Seq<Seq<Seq<char>>>, i: int)
    requires
        0 <= i < records.len(),
        row_of_record(records[i]) is Err,
    ensures
        rows_of_records(records) is Err,
{
    if rows_through(records, i as nat) is Err {
        lemma_first_failure_stays(records, i as nat, records.len());
    } else {
        lemma_first_failure_stays(records, (i + 1) as nat, records.len());
    }
}

impl RawHiscoreRow {
    /// Assembles a row from the contents of its three positions.
    pub fn from_fields(rank: Field, score: Field, xp: Field) -> (row: Option<Self>)
        ensures
            row == row_of(rank, score, xp),
    {
        match (rank, score) {
            (Field::Integer(rank), Field::Integer(score)) => match xp {
                Field::Integer(xp) => Some(RawHiscoreRow { rank, score, xp: Some(xp) }),
                Field::Absent | Field::Empty => Some(RawHiscoreRow { rank, score, xp: None }),
            },
            _ => None,
        }
    }
}

/// What `outcome` holds, seen as a value of the model.
pub open spec fn text_view<T>(outcome: Result<T, String>) -> Result<T, Seq<char>> {
    match outcome {
        Ok(value) => Ok(value),
        Err(why) => Err(why@),
    }
}

/// Reads position `index` of a record.
pub fn read_field(record: &Vec<String>, index: usize) -> (field: Result<Field, String>)
    ensures
        text_view(field) == field_at(record.deep_view(), index as int),
{
    if index < record.len() {
        assert(record.deep_view()[index as int] == record@[index as int]@);
        match read_optional_integer(record[index].as_str()) {
            Ok(Some(n)) => Ok(Field::Integer(n)),
            Ok(None) => Ok(Field::Empty),
            Err(why) => Err(why),
        }
    } else {
        Ok(Field::Absent)
    }
}

/// Reads one record as a row.
pub fn parse_record(record: &Vec<String>) -> (row: Result<RawHiscoreRow, String>)
    ensures
        text_view(row) == row_of_record(record.deep_view()),
{
    let rank = read_field(record, 0);
    let score = read_field(record, 1);
    let xp = read_field(record, 2);
    match (rank, score, xp) {
        (Err(why), _, _) => Err(why),
        (Ok(_), Err(why), _) => Err(why),
        (Ok(_), Ok(_), Err(why)) => Err(why),
        (Ok(rank), Ok(score), Ok(xp)) => match RawHiscoreRow::from_fields(rank, score, xp) {
            Some(row) => Ok(row),
            None => Err("a row needs an integer rank and an integer score".to_owned()),
        },
    }
}

/// Reads every record as a row. One record that is not a row fails the
/// whole payload, however many rows came before it.
pub fn parse_records(records: &Vec<Vec<String>>) -> (rows: ApiResult<Vec<RawHiscoreRow>>)
    ensures
        match rows {
            Ok(rows) => rows_of_records(records.deep_view()) == Ok::<
                Seq<RawHiscoreRow>,
                Seq<char>,
            >(rows@),
            Err(failure) => rows_of_records(records.deep_view()) matches Err(why) && failure@ == (
            Failure::Csv { message: why }),
        },
{
    let mut rows: Vec<RawHiscoreRow> = Vec::new();
    let mut i: usize = 0;
    while i < records.len()
        invariant
            i <= records@.len(),
            records.deep_view().len() == records@.len(),
            rows_through(records.deep_view(), i as nat) == Ok::<Seq<RawHiscoreRow>, Seq<char>>(
                rows@,
            ),
        decreases records@.len() - i,
    {
        assert(records.deep_view()[i as int] == records@[i as int].deep_view());
        match parse_record(&records[i]) {
            Ok(row) => {
                rows.push(row);
            },
            Err(message) => {
                proof {
                    lemma_first_failure_stays(
                        records.deep_view(),
                        (i + 1) as nat,
                        records.deep_view().len(),
                    );
                }
                return Err(ApiError::Csv { message });
            },
        }
        i += 1;
    }
    Ok(rows)
}

/// Parses the payload of the upstream service into rows.
pub fn load_hiscore_rows(csv_text: &str) -> (rows: ApiResult<Vec<RawHiscoreRow>>)
    ensures
        match rows {
            Ok(rows) => rows_of_text(csv_text@) == Ok::<Seq<RawHiscoreRow>, Seq<char>>(rows@),
            Err(failure) => rows_of_text(csv_text@) matches Err(why) && failure@ == (Failure::Csv {
                message: why,
            }),
        },
{
    match read_records(csv_text) {
        Ok(records) => parse_records(&records),
        Err(message) => Err(ApiError::Csv { message }),
    }
}

} // verus!
