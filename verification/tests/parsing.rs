use osrs_hiscore_proxy::error::ApiError;
use osrs_hiscore_proxy::hiscore::RawHiscoreRow;
use osrs_hiscore_proxy::parse::load_hiscore_rows;
use osrs_hiscore_proxy::parse::parse_record;
use osrs_hiscore_proxy::parse::parse_records;
use osrs_hiscore_proxy::parse::read_field;
use osrs_hiscore_proxy::parse::Field;

fn record(fields: &[&str]) -> Vec<String> {
    fields.iter().map(|f| f.to_string()).collect()
}

const NOT_A_NUMBER: &str = "CSV deserialize error: field 0: invalid digit found in string";
const TOO_LARGE: &str =
    "CSV deserialize error: field 0: number too large to fit in target type";
const INCOMPLETE: &str = "a row needs an integer rank and an integer score";

fn failure(message: &str) -> ApiError {
    ApiError::Csv { message: String::from(message) }
}

#[test]
fn rows_of_three_and_of_two_fields() {
    let rows = load_hiscore_rows("1,2,3\n4,5\n-1,-1,-1\n-1,-1\n").unwrap();
    assert_eq!(
        rows,
        vec![
            RawHiscoreRow { rank: 1, score: 2, xp: Some(3) },
            RawHiscoreRow { rank: 4, score: 5, xp: None },
            RawHiscoreRow { rank: -1, score: -1, xp: Some(-1) },
            RawHiscoreRow { rank: -1, score: -1, xp: None },
        ]
    );
}

#[test]
fn the_first_line_is_data_not_a_header() {
    let rows = load_hiscore_rows("7,8,9\n").unwrap();
    assert_eq!(rows, vec![RawHiscoreRow { rank: 7, score: 8, xp: Some(9) }]);
}

#[test]
fn the_last_line_needs_no_newline() {
    let rows = load_hiscore_rows("1,2,3\n4,5,6").unwrap();
    assert_eq!(rows.len(), 2);
    assert_eq!(rows[1], RawHiscoreRow { rank: 4, score: 5, xp: Some(6) });
}

#[test]
fn an_empty_payload_has_no_rows() {
    assert_eq!(load_hiscore_rows("").unwrap(), vec![]);
}

#[test]
fn an_empty_third_field_is_no_experience() {
    let rows = load_hiscore_rows("1,2,\n").unwrap();
    assert_eq!(rows, vec![RawHiscoreRow { rank: 1, score: 2, xp: None }]);
}

#[test]
fn fields_beyond_the_third_are_ignored() {
    let rows = load_hiscore_rows("1,2,3,junk,5\n").unwrap();
    assert_eq!(rows, vec![RawHiscoreRow { rank: 1, score: 2, xp: Some(3) }]);
}

#[test]
fn a_row_of_one_field_is_a_parse_failure() {
    assert_eq!(load_hiscore_rows("1\n"), Err(failure(INCOMPLETE)));
    assert_eq!(load_hiscore_rows("1,2,3\n4\n"), Err(failure(INCOMPLETE)));
}

#[test]
fn a_non_integer_field_is_a_parse_failure() {
    assert_eq!(load_hiscore_rows("a,2,3\n"), Err(failure(NOT_A_NUMBER)));
    assert_eq!(load_hiscore_rows("1,b,3\n"), Err(failure(NOT_A_NUMBER)));
    assert_eq!(load_hiscore_rows("1,2,c\n"), Err(failure(NOT_A_NUMBER)));
    assert_eq!(load_hiscore_rows("1,2.5\n"), Err(failure(NOT_A_NUMBER)));
    assert_eq!(load_hiscore_rows("1, 2\n"), Err(failure(NOT_A_NUMBER)));
    assert_eq!(load_hiscore_rows("1,,3\n"), Err(failure(INCOMPLETE)));
    assert_eq!(load_hiscore_rows(",2,3\n"), Err(failure(INCOMPLETE)));
}

#[test]
fn a_failure_in_a_late_row_fails_everything() {
    assert_eq!(
        load_hiscore_rows("1,2,3\n4,5,6\n7,8,9\n10,eleven\n12,13\n"),
        Err(failure(NOT_A_NUMBER))
    );
}

#[test]
fn an_integer_out_of_range_is_a_parse_failure() {
    assert_eq!(load_hiscore_rows("9223372036854775808,1\n"), Err(failure(TOO_LARGE)));
    let rows = load_hiscore_rows("9223372036854775807,-9223372036854775808\n").unwrap();
    assert_eq!(rows, vec![RawHiscoreRow { rank: i64::MAX, score: i64::MIN, xp: None }]);
}

#[test]
fn fields_read_as_the_reader_reads_them() {
    assert_eq!(read_field(&record(&["12", "-1", ""]), 0), Ok(Field::Integer(12)));
    assert_eq!(read_field(&record(&["12", "-1", ""]), 1), Ok(Field::Integer(-1)));
    assert_eq!(read_field(&record(&["12", "-1", ""]), 2), Ok(Field::Empty));
    assert_eq!(read_field(&record(&["12", "-1", ""]), 3), Ok(Field::Absent));
    assert_eq!(read_field(&record(&["twelve"]), 0), Err(String::from(NOT_A_NUMBER)));
    assert_eq!(read_field(&record(&["+5"]), 0), Ok(Field::Integer(5)));
    assert_eq!(read_field(&record(&["0x10"]), 0), Ok(Field::Integer(16)));
    assert_eq!(read_field(&record(&[]), 0), Ok(Field::Absent));
}

#[test]
fn the_first_field_that_is_not_acceptable_gives_the_reason() {
    assert_eq!(
        parse_record(&record(&["99999999999999999999", "x", "y"])),
        Err(String::from(TOO_LARGE))
    );
    assert_eq!(
        parse_record(&record(&["1", "x", "99999999999999999999"])),
        Err(String::from(NOT_A_NUMBER))
    );
    // A field that is not acceptable is reported before a missing one.
    assert_eq!(parse_record(&record(&["", "x"])), Err(String::from(NOT_A_NUMBER)));
    assert_eq!(parse_record(&record(&["", "2"])), Err(String::from(INCOMPLETE)));
}

#[test]
fn the_first_record_that_is_no_row_gives_the_reason() {
    assert_eq!(load_hiscore_rows("1,2\n3\n4,x\n"), Err(failure(INCOMPLETE)));
    assert_eq!(load_hiscore_rows("1,2\n3,x\n4\n"), Err(failure(NOT_A_NUMBER)));
}

#[test]
fn quoted_fields_are_unquoted_by_the_reader() {
    let rows = load_hiscore_rows("\"1\",\"2\",\"3\"\n").unwrap();
    assert_eq!(rows, vec![RawHiscoreRow { rank: 1, score: 2, xp: Some(3) }]);
}

#[test]
fn blank_lines_are_no_records() {
    let rows = load_hiscore_rows("1,2,3\n\n4,5\n").unwrap();
    assert_eq!(rows.len(), 2);
}

#[test]
fn carriage_returns_end_a_line_too() {
    let rows = load_hiscore_rows("1,2,3\r\n4,5\r\n").unwrap();
    assert_eq!(
        rows,
        vec![
            RawHiscoreRow { rank: 1, score: 2, xp: Some(3) },
            RawHiscoreRow { rank: 4, score: 5, xp: None },
        ]
    );
}

#[test]
fn a_row_is_assembled_from_three_positions() {
    let one = Field::Integer(1);
    let two = Field::Integer(2);
    assert_eq!(
        RawHiscoreRow::from_fields(one, two, Field::Integer(3)),
        Some(RawHiscoreRow { rank: 1, score: 2, xp: Some(3) })
    );
    assert_eq!(
        RawHiscoreRow::from_fields(one, two, Field::Absent),
        Some(RawHiscoreRow { rank: 1, score: 2, xp: None })
    );
    assert_eq!(
        RawHiscoreRow::from_fields(one, two, Field::Empty),
        Some(RawHiscoreRow { rank: 1, score: 2, xp: None })
    );
    assert_eq!(RawHiscoreRow::from_fields(Field::Absent, two, Field::Absent), None);
    assert_eq!(RawHiscoreRow::from_fields(Field::Empty, two, Field::Absent), None);
    assert_eq!(RawHiscoreRow::from_fields(one, Field::Absent, Field::Absent), None);
    assert_eq!(RawHiscoreRow::from_fields(one, Field::Empty, Field::Integer(3)), None);
    assert_eq!(RawHiscoreRow::from_fields(Field::Absent, Field::Absent, Field::Integer(3)), None);
}

#[test]
fn records_become_rows() {
    assert_eq!(
        parse_record(&record(&["3", "4", "5"])),
        Ok(RawHiscoreRow { rank: 3, score: 4, xp: Some(5) })
    );
    assert_eq!(parse_record(&record(&["3"])), Err(String::from(INCOMPLETE)));
    assert_eq!(parse_record(&record(&[])), Err(String::from(INCOMPLETE)));
    assert_eq!(
        parse_records(&vec![record(&["3", "4"]), record(&["5", "6", "7"])]),
        Ok(vec![
            RawHiscoreRow { rank: 3, score: 4, xp: None },
            RawHiscoreRow { rank: 5, score: 6, xp: Some(7) },
        ])
    );
    assert_eq!(
        parse_records(&vec![record(&["3", "4"]), record(&["x", "6"])]),
        Err(failure(NOT_A_NUMBER))
    );
    assert_eq!(parse_records(&vec![]), Ok(vec![]));
}
