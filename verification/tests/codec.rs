use std::collections::HashMap;

use upload_info_store::codec::{
    decode_row, encode_row, encode_row_with, from_column, parts_column, to_column,
};
use upload_info_store::row::{row_column_types, InfoRow};
use upload_info_store::value::{ColumnType, SqlValue};
use upload_info_store::error::ErrorKind;
use upload_info_store::json::{read_metadata, write_metadata};
use upload_info_store::record::{copy_optional_text, copy_text, copy_texts, Timestamp, UploadRecord};

fn metadata_of(pairs: &[(&str, &str)]) -> HashMap<String, String> {
    pairs.iter().map(|(key, value)| (key.to_string(), value.to_string())).collect()
}

fn record() -> UploadRecord {
    UploadRecord {
        id: "abc".to_string(),
        offset: 12,
        length: Some(100),
        path: Some("data/abc".to_string()),
        created_at: Timestamp { seconds: 1_700_000_000, nanoseconds: 123_456_789 },
        deferred_size: false,
        is_partial: false,
        is_final: true,
        parts: Some(vec!["p2".to_string(), "p1".to_string()]),
        storage: "local".to_string(),
        metadata: metadata_of(&[("filename", "a.txt"), ("author", "me")]),
    }
}

fn row() -> InfoRow {
    InfoRow {
        id: "abc".to_string(),
        offset: 12,
        length: Some(100),
        path: Some("data/abc".to_string()),
        created_at: Timestamp { seconds: 1_700_000_000, nanoseconds: 123_456_789 },
        deferred_size: false,
        is_partial: false,
        is_final: true,
        parts: Some(vec!["p2".to_string(), "p1".to_string()]),
        storage: "local".to_string(),
        metadata: "{\"author\":\"me\",\"filename\":\"a.txt\"}".to_string(),
    }
}

#[test]
fn metadata_is_written_as_a_json_object_with_sorted_keys() {
    assert_eq!(
        write_metadata(&metadata_of(&[("filename", "a.txt")])),
        Some("{\"filename\":\"a.txt\"}".to_string())
    );
    assert_eq!(
        write_metadata(&metadata_of(&[("b", "2"), ("a", "1"), ("c", "3")])),
        Some("{\"a\":\"1\",\"b\":\"2\",\"c\":\"3\"}".to_string())
    );
    assert_eq!(write_metadata(&HashMap::new()), Some("{}".to_string()));
}

#[test]
fn metadata_is_escaped_and_read_back() {
    let entries = metadata_of(&[("quote\"d", "line\nbreak"), ("", "\u{e9}t\u{e9} \\ \u{1F600}")]);
    let text = write_metadata(&entries).unwrap();
    assert_eq!(read_metadata(&text), Some(entries));
}

#[test]
fn metadata_is_read_whatever_the_order_and_spacing() {
    let expected = metadata_of(&[("filename", "a.txt"), ("author", "me")]);
    assert_eq!(read_metadata("{\"author\":\"me\",\"filename\":\"a.txt\"}"), Some(expected.clone()));
    assert_eq!(
        read_metadata(" { \"filename\" : \"a.txt\" ,\n \"author\" : \"me\" } "),
        Some(expected)
    );
    assert_eq!(read_metadata("{}"), Some(HashMap::new()));
}

#[test]
fn metadata_that_is_no_object_of_strings_is_not_read() {
    assert_eq!(read_metadata(""), None);
    assert_eq!(read_metadata("{"), None);
    assert_eq!(read_metadata("{\"a\":1}"), None);
    assert_eq!(read_metadata("{\"a\":null}"), None);
    assert_eq!(read_metadata("{\"a\":{\"b\":\"c\"}}"), None);
    assert_eq!(read_metadata("[\"a\",\"b\"]"), None);
    assert_eq!(read_metadata("\"a\""), None);
    assert_eq!(read_metadata("null"), None);
    assert_eq!(read_metadata("{\"a\":\"b\"} x"), None);
}

#[test]
fn counts_fit_a_signed_column_up_to_its_maximum() {
    assert_eq!(to_column(0), Some(0));
    assert_eq!(to_column(50), Some(50));
    assert_eq!(to_column(9_223_372_036_854_775_807), Some(i64::MAX));
    assert_eq!(to_column(9_223_372_036_854_775_808), None);
    assert_eq!(to_column(u64::MAX), None);
}

#[test]
fn a_negative_column_holds_no_count() {
    assert_eq!(from_column(0), Some(0));
    assert_eq!(from_column(50), Some(50));
    assert_eq!(from_column(i64::MAX), Some(9_223_372_036_854_775_807));
    assert_eq!(from_column(-1), None);
    assert_eq!(from_column(i64::MIN), None);
}

#[test]
fn an_empty_list_of_parts_is_null() {
    assert_eq!(parts_column(&None), None);
    assert_eq!(parts_column(&Some(vec![])), None);
    assert_eq!(
        parts_column(&Some(vec!["b".to_string(), "a".to_string()])),
        Some(vec!["b".to_string(), "a".to_string()])
    );
}

#[test]
fn a_record_becomes_its_row() {
    assert_eq!(encode_row(&record()), Ok(row()));
}

#[test]
fn a_row_is_made_from_the_metadata_text_given() {
    let mut expected = row();
    expected.metadata = "{}".to_string();
    assert_eq!(encode_row_with(&record(), Some("{}".to_string())), Ok(expected));
    assert_eq!(encode_row_with(&record(), None), Err(ErrorKind::SerializationError));
}

#[test]
fn absent_fields_become_null_columns() {
    let mut plain = record();
    plain.length = None;
    plain.path = None;
    plain.parts = Some(vec![]);
    let mut expected = row();
    expected.length = None;
    expected.path = None;
    expected.parts = None;
    assert_eq!(encode_row(&plain), Ok(expected));
}

#[test]
fn a_count_beyond_the_signed_range_has_no_row() {
    let mut large = record();
    large.offset = 9_223_372_036_854_775_808;
    assert_eq!(encode_row(&large), Err(ErrorKind::SerializationError));

    let mut long = record();
    long.length = Some(u64::MAX);
    assert_eq!(encode_row(&long), Err(ErrorKind::SerializationError));

    let mut edge = record();
    edge.offset = 9_223_372_036_854_775_807;
    edge.length = Some(9_223_372_036_854_775_807);
    let encoded = encode_row(&edge).unwrap();
    assert_eq!(encoded.offset, i64::MAX);
    assert_eq!(encoded.length, Some(i64::MAX));
}

#[test]
fn a_row_becomes_its_record() {
    assert_eq!(decode_row(row()), Ok(record()));
}

#[test]
fn a_row_keeps_its_parts_as_they_are() {
    let mut empty = row();
    empty.parts = Some(vec![]);
    assert_eq!(decode_row(empty).unwrap().parts, Some(vec![]));
    let mut null = row();
    null.parts = None;
    assert_eq!(decode_row(null).unwrap().parts, None);
}

#[test]
fn a_row_with_a_negative_count_holds_no_record() {
    let mut negative = row();
    negative.offset = -1;
    assert_eq!(decode_row(negative), Err(ErrorKind::SerializationError));

    let mut short = row();
    short.length = Some(-5);
    assert_eq!(decode_row(short), Err(ErrorKind::SerializationError));
}

#[test]
fn a_row_with_malformed_metadata_holds_no_record() {
    let mut broken = row();
    broken.metadata = "{\"filename\":".to_string();
    assert_eq!(decode_row(broken), Err(ErrorKind::SerializationError));

    let mut numbers = row();
    numbers.metadata = "{\"size\":3}".to_string();
    assert_eq!(decode_row(numbers), Err(ErrorKind::SerializationError));
}

#[test]
fn encoding_then_decoding_gives_the_record() {
    let before = record();
    assert_eq!(decode_row(encode_row(&before).unwrap()), Ok(before));

    let mut plain = record();
    plain.length = None;
    plain.path = None;
    plain.parts = None;
    plain.metadata = HashMap::new();
    assert_eq!(decode_row(encode_row(&plain).unwrap()), Ok(plain));
}

#[test]
fn an_empty_list_of_parts_comes_back_as_none() {
    let mut empty = record();
    empty.parts = Some(vec![]);
    let mut expected = record();
    expected.parts = None;
    assert_eq!(decode_row(encode_row(&empty).unwrap()), Ok(expected));
}

#[test]
fn copies_are_equal() {
    assert_eq!(copy_text(&"abc".to_string()), "abc");
    assert_eq!(copy_optional_text(&Some("abc".to_string())), Some("abc".to_string()));
    assert_eq!(copy_optional_text(&None), None);
    assert_eq!(
        copy_texts(&vec!["b".to_string(), "a".to_string()]),
        vec!["b".to_string(), "a".to_string()]
    );
    assert_eq!(copy_texts(&vec![]), Vec::<String>::new());
}

fn values() -> Vec<SqlValue> {
    vec![
        SqlValue::Text(Some("abc".to_string())),
        SqlValue::BigInt(Some(12)),
        SqlValue::BigInt(Some(100)),
        SqlValue::Text(Some("data/abc".to_string())),
        SqlValue::TimestampTz(Some(Timestamp { seconds: 1_700_000_000, nanoseconds: 123_456_789 })),
        SqlValue::Boolean(Some(false)),
        SqlValue::Boolean(Some(false)),
        SqlValue::Boolean(Some(true)),
        SqlValue::TextArray(Some(vec!["p2".to_string(), "p1".to_string()])),
        SqlValue::Text(Some("local".to_string())),
        SqlValue::Jsonb(Some("{\"author\":\"me\",\"filename\":\"a.txt\"}".to_string())),
    ]
}

#[test]
fn a_row_gives_its_values_in_the_order_of_the_columns() {
    assert_eq!(row().values(), values());
}

#[test]
fn null_columns_are_null_values() {
    let mut plain = row();
    plain.length = None;
    plain.path = None;
    plain.parts = None;
    let mut expected = values();
    expected[2] = SqlValue::BigInt(None);
    expected[3] = SqlValue::Text(None);
    expected[8] = SqlValue::TextArray(None);
    assert_eq!(plain.values(), expected);
    assert_eq!(InfoRow::from_values(expected), Some(plain));
}

#[test]
fn values_make_up_their_row() {
    assert_eq!(InfoRow::from_values(values()), Some(row()));
    assert_eq!(InfoRow::from_values(row().values()), Some(row()));
}

#[test]
fn every_value_is_of_its_columns_type() {
    let types: Vec<ColumnType> = values().iter().map(|value| value.column_type()).collect();
    assert_eq!(types, row_column_types());
    assert_eq!(
        row_column_types(),
        vec![
            ColumnType::Text,
            ColumnType::BigInt,
            ColumnType::BigInt,
            ColumnType::Text,
            ColumnType::TimestampTz,
            ColumnType::Boolean,
            ColumnType::Boolean,
            ColumnType::Boolean,
            ColumnType::TextArray,
            ColumnType::Text,
            ColumnType::Jsonb,
        ]
    );
}

#[test]
fn too_few_or_too_many_values_make_up_no_row() {
    let mut short = values();
    short.pop();
    assert_eq!(InfoRow::from_values(short), None);
    let mut long = values();
    long.push(SqlValue::Boolean(Some(true)));
    assert_eq!(InfoRow::from_values(long), None);
    assert_eq!(InfoRow::from_values(vec![]), None);
}

#[test]
fn a_null_in_a_column_that_has_none_makes_up_no_row() {
    let nulls = [
        (0, SqlValue::Text(None)),
        (1, SqlValue::BigInt(None)),
        (4, SqlValue::TimestampTz(None)),
        (5, SqlValue::Boolean(None)),
        (6, SqlValue::Boolean(None)),
        (7, SqlValue::Boolean(None)),
        (9, SqlValue::Text(None)),
        (10, SqlValue::Jsonb(None)),
    ];
    for (index, null) in nulls {
        let mut broken = values();
        broken[index] = null;
        assert_eq!(InfoRow::from_values(broken), None);
    }
}

#[test]
fn a_value_of_another_type_makes_up_no_row() {
    for index in 0..11 {
        let mut broken = values();
        broken[index] = match broken[index] {
            SqlValue::Boolean(_) => SqlValue::BigInt(Some(1)),
            _ => SqlValue::Boolean(Some(true)),
        };
        assert_eq!(InfoRow::from_values(broken), None);
    }
    let mut swapped = values();
    swapped[10] = SqlValue::Text(Some("{}".to_string()));
    assert_eq!(InfoRow::from_values(swapped), None);
}

#[test]
fn every_map_of_strings_has_its_text() {
    let maps = [
        metadata_of(&[]),
        metadata_of(&[("", "")]),
        metadata_of(&[("key", "value"), ("\u{0}", "\u{7f}"), ("tab\t", "\"\\/")]),
        metadata_of(&[("\u{10FFFF}", "\u{2028}\u{2029}"), ("a b", "{\"nested\":1}")]),
    ];
    for entries in maps {
        let text = write_metadata(&entries);
        assert!(text.is_some());
        assert_eq!(read_metadata(&text.unwrap()), Some(entries));
    }
}
