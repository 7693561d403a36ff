use pgoutput::events::base::begin::Begin;
use pgoutput::events::base::commit::Commit;
use pgoutput::events::base::delete::{DeleteWithStreamingEnabled, DeleteWithoutStreamingEnabled};
use pgoutput::events::base::event::{BaseEvent, BaseEventType};
use pgoutput::events::base::insert::{InsertWithStreamingEnabled, InsertWithoutStreamingEnabled};
use pgoutput::events::base::relation::{
    RelationWithStreamingEnabled, RelationWithoutStreamingEnabled,
};
use pgoutput::events::base::relation_column::parse_relation_columns;
use pgoutput::events::base::truncate::{
    TruncateWithStreamingEnabled, TruncateWithoutStreamingEnabled,
};
use pgoutput::events::base::tuple_data::{
    parse_old_data_or_primary_key, parse_tuple_column, parse_tuple_data, tuple_column_size,
    tuple_data_size,
    OldDataOrPrimaryKeyTupleData, PGValue, TupleDataColumn,
};
use pgoutput::events::base::type_::{TypeWithStreamingEnabled, TypeWithoutStreamingEnabled};
use pgoutput::events::base::update::{UpdateWithStreamingEnabled, UpdateWithoutStreamingEnabled};
use pgoutput::events::message::{MessageWithStreamingEnabled, MessageWithoutStreamingEnabled};
use pgoutput::events::origin::Origin;
use pgoutput::options::{
    BinaryValueTraitOff, BinaryValueTraitOn, StreamingValueTraitOff, StreamingValueTraitOn,
};
use pgoutput::utils::{
    parse_dynamic_size_event, parse_static_size_event, try_parse_dynamic_size_event,
    DynamicSizeEvent,
};

fn text_column(column: &TupleDataColumn<BinaryValueTraitOff>) -> Option<&str> {
    match column {
        TupleDataColumn::Value(v) => Some(v.as_str()),
        _ => None,
    }
}

fn is_null(column: &TupleDataColumn<BinaryValueTraitOff>) -> bool {
    matches!(column, TupleDataColumn::PGNull(_))
}

/// A row of three columns: NULL, unchanged TOAST, and the text "abc".
fn sample_row() -> Vec<u8> {
    let mut b = vec![0, 3, b'n', b'u', b't'];
    b.extend_from_slice(&3i32.to_be_bytes());
    b.extend_from_slice(b"abc");
    b
}

#[test]
fn begin_decodes_its_fields() {
    let mut b = Vec::new();
    b.extend_from_slice(&0x0102030405060708i64.to_be_bytes());
    b.extend_from_slice(&(-2i64).to_be_bytes());
    b.extend_from_slice(&77i32.to_be_bytes());
    let begin = parse_static_size_event::<Begin>(&b).unwrap();
    assert_eq!(
        begin,
        Begin { final_transaction_lsn: 0x0102030405060708, commit_timestamp: -2, transaction_id: 77 }
    );
}

#[test]
fn begin_of_the_wrong_size_is_an_error() {
    let b = vec![0u8; 19];
    let err = parse_static_size_event::<Begin>(&b).unwrap_err();
    assert_eq!(err, "pgoutput::events::base::begin::Begin event buffer size must be 20");
    assert!(parse_static_size_event::<Begin>(&vec![0u8; 21]).is_err());
}

#[test]
fn commit_decodes_its_fields() {
    let mut b = vec![0xff];
    b.extend_from_slice(&1i64.to_be_bytes());
    b.extend_from_slice(&2i64.to_be_bytes());
    b.extend_from_slice(&(-3i64).to_be_bytes());
    let commit = parse_static_size_event::<Commit>(&b).unwrap();
    assert_eq!(commit, Commit { flags: -1, lsn: 1, end_lsn: 2, timestamp: -3 });
}

#[test]
fn tuple_data_decodes_null_unchanged_and_text() {
    let mut b = sample_row();
    b.extend_from_slice(b"trailing");
    let (data, read) = parse_tuple_data::<BinaryValueTraitOff>(&b);
    assert_eq!(read, 2 + 1 + 1 + 5 + 3);
    assert_eq!(data.len(), 3);
    assert!(is_null(&data[0]));
    assert!(matches!(data[1], TupleDataColumn::PGUnchangedToastedValue(_)));
    assert_eq!(text_column(&data[2]), Some("abc"));
}

#[test]
fn tuple_data_with_no_columns_takes_two_bytes() {
    let (data, read) = parse_tuple_data::<BinaryValueTraitOff>(&[0, 0, b't']);
    assert!(data.is_empty());
    assert_eq!(read, 2);
    let (data, read) = parse_tuple_data::<BinaryValueTraitOff>(&[0xff, 0xff]);
    assert!(data.is_empty());
    assert_eq!(read, 2);
}

#[test]
fn binary_column_keeps_its_bytes() {
    let mut b = vec![b'b'];
    b.extend_from_slice(&2i32.to_be_bytes());
    b.extend_from_slice(&[0xff, 0x00, 0x7f]);
    let (column, read) = parse_tuple_column::<BinaryValueTraitOn>(&b);
    assert_eq!(read, 7);
    match column {
        TupleDataColumn::Value(v) => assert_eq!(v, vec![0xff, 0x00]),
        _ => panic!("expected a value"),
    }
}

#[test]
fn text_column_replaces_ill_formed_utf8() {
    let mut b = vec![b't'];
    b.extend_from_slice(&2i32.to_be_bytes());
    b.extend_from_slice(&[b'a', 0xff]);
    let (column, read) = parse_tuple_column::<BinaryValueTraitOff>(&b);
    assert_eq!(read, 7);
    assert_eq!(text_column(&column), Some("a\u{FFFD}"));
}

#[test]
fn pg_value_parse_counts_the_header() {
    let (value, read) = BinaryValueTraitOff::parse(b't', b"xyz");
    assert_eq!(value, "xyz");
    assert_eq!(read, 8);
    let (value, read) = BinaryValueTraitOn::parse(b'b', &[1, 2]);
    assert_eq!(value, vec![1, 2]);
    assert_eq!(read, 7);
}

#[test]
fn old_data_or_primary_key_kinds() {
    let mut key = vec![b'K'];
    key.extend_from_slice(&sample_row());
    match parse_old_data_or_primary_key::<BinaryValueTraitOff>(&key) {
        Some((OldDataOrPrimaryKeyTupleData::PrimaryKeyTupleData(d), read)) => {
            assert_eq!(d.len(), 3);
            assert_eq!(read, key.len());
        }
        _ => panic!("expected a key"),
    }
    let mut old = vec![b'O'];
    old.extend_from_slice(&sample_row());
    match parse_old_data_or_primary_key::<BinaryValueTraitOff>(&old) {
        Some((OldDataOrPrimaryKeyTupleData::OldTupleData(d), read)) => {
            assert_eq!(text_column(&d[2]), Some("abc"));
            assert_eq!(read, old.len());
        }
        _ => panic!("expected an old row"),
    }
    assert!(parse_old_data_or_primary_key::<BinaryValueTraitOff>(&[b'N', 0, 0]).is_none());
    assert!(parse_old_data_or_primary_key::<BinaryValueTraitOff>(&[]).is_none());
}

#[test]
fn insert_without_streaming() {
    let mut b = 42i32.to_be_bytes().to_vec();
    b.push(b'N');
    b.extend_from_slice(&sample_row());
    let insert =
        parse_dynamic_size_event::<InsertWithoutStreamingEnabled<BinaryValueTraitOff>>(&b).unwrap();
    assert_eq!(insert.oid, 42);
    assert_eq!(insert.data.len(), 3);
    assert_eq!(text_column(&insert.data[2]), Some("abc"));
}

#[test]
fn insert_with_streaming_is_the_id_then_the_insert() {
    let mut body = 42i32.to_be_bytes().to_vec();
    body.push(b'N');
    body.extend_from_slice(&sample_row());
    let mut b = 9i32.to_be_bytes().to_vec();
    b.extend_from_slice(&body);
    let with =
        parse_dynamic_size_event::<InsertWithStreamingEnabled<BinaryValueTraitOff>>(&b).unwrap();
    let without =
        parse_dynamic_size_event::<InsertWithoutStreamingEnabled<BinaryValueTraitOff>>(&body)
            .unwrap();
    assert_eq!(with.transaction_id, 9);
    assert_eq!(with.oid, without.oid);
    assert_eq!(with.data.len(), without.data.len());
    assert_eq!(text_column(&with.data[2]), text_column(&without.data[2]));
}

#[test]
fn insert_shorter_than_its_minimum_is_an_error() {
    let err = parse_dynamic_size_event::<InsertWithoutStreamingEnabled<BinaryValueTraitOff>>(&[
        0, 0, 0, 1, b'N',
    ])
    .unwrap_err();
    assert_eq!(
        err,
        "pgoutput::events::base::insert::InsertWithoutStreamingEnabled event buffer size must be gte 6"
    );
}

#[test]
fn update_with_and_without_old_row() {
    let mut plain = 7i32.to_be_bytes().to_vec();
    plain.push(b'N');
    plain.extend_from_slice(&sample_row());
    let update =
        parse_dynamic_size_event::<UpdateWithoutStreamingEnabled<BinaryValueTraitOff>>(&plain)
            .unwrap();
    assert_eq!(update.oid, 7);
    assert!(update.old_data_or_primary_key.is_none());
    assert_eq!(update.data.len(), 3);

    let mut with_old = 7i32.to_be_bytes().to_vec();
    with_old.push(b'O');
    with_old.extend_from_slice(&[0, 1, b'n']);
    with_old.push(b'N');
    with_old.extend_from_slice(&sample_row());
    let update =
        parse_dynamic_size_event::<UpdateWithoutStreamingEnabled<BinaryValueTraitOff>>(&with_old)
            .unwrap();
    match &update.old_data_or_primary_key {
        Some(OldDataOrPrimaryKeyTupleData::OldTupleData(d)) => {
            assert_eq!(d.len(), 1);
            assert!(is_null(&d[0]));
        }
        _ => panic!("expected an old row"),
    }
    assert_eq!(update.data.len(), 3);
    assert_eq!(text_column(&update.data[2]), Some("abc"));

    let mut streamed = 5i32.to_be_bytes().to_vec();
    streamed.extend_from_slice(&with_old);
    let update =
        parse_dynamic_size_event::<UpdateWithStreamingEnabled<BinaryValueTraitOff>>(&streamed)
            .unwrap();
    assert_eq!(update.transaction_id, 5);
    assert_eq!(update.oid, 7);
    assert!(update.old_data_or_primary_key.is_some());
    assert_eq!(update.data.len(), 3);
}

#[test]
fn delete_with_key_and_without() {
    let mut b = 3i32.to_be_bytes().to_vec();
    b.push(b'K');
    b.extend_from_slice(&sample_row());
    let delete =
        parse_dynamic_size_event::<DeleteWithoutStreamingEnabled<BinaryValueTraitOff>>(&b).unwrap();
    assert_eq!(delete.oid, 3);
    assert!(matches!(
        delete.old_data_or_primary_key,
        Some(OldDataOrPrimaryKeyTupleData::PrimaryKeyTupleData(_))
    ));

    let mut streamed = 11i32.to_be_bytes().to_vec();
    streamed.extend_from_slice(&3i32.to_be_bytes());
    let delete =
        parse_dynamic_size_event::<DeleteWithStreamingEnabled<BinaryValueTraitOff>>(&streamed)
            .unwrap();
    assert_eq!(delete.transaction_id, 11);
    assert_eq!(delete.oid, 3);
    assert!(delete.old_data_or_primary_key.is_none());
}

fn relation_body() -> Vec<u8> {
    let mut b = b"public\0files\0f".to_vec();
    b.extend_from_slice(&1i16.to_be_bytes());
    b.extend_from_slice(b"\x01id\0");
    b.extend_from_slice(&2950i32.to_be_bytes());
    b.extend_from_slice(&(-1i32).to_be_bytes());
    b
}

#[test]
fn relation_without_streaming() {
    let mut b = 16697i32.to_be_bytes().to_vec();
    b.extend_from_slice(&relation_body());
    let relation = parse_dynamic_size_event::<RelationWithoutStreamingEnabled>(&b).unwrap();
    assert_eq!(relation.oid, 16697);
    assert_eq!(relation.relation_namespace, "public");
    assert_eq!(relation.name, "files");
    assert_eq!(relation.replica_identity, b'f' as i8);
    // The columns are read from the second byte of the column count on.
    assert_eq!(relation.columns.len(), 1);
    assert_eq!(relation.columns[0].flags, 1);
    assert_eq!(relation.columns[0].name, "\u{1}id");
    assert_eq!(relation.columns[0].oid, 2950);
    assert_eq!(relation.columns[0].type_modifier, -1);
}

#[test]
fn relation_with_streaming_is_the_id_then_the_relation() {
    let mut b = 8i32.to_be_bytes().to_vec();
    b.extend_from_slice(&16697i32.to_be_bytes());
    b.extend_from_slice(&relation_body());
    let relation = parse_dynamic_size_event::<RelationWithStreamingEnabled>(&b).unwrap();
    assert_eq!(relation.transaction_id, 8);
    assert_eq!(relation.oid, 16697);
    assert_eq!(relation.relation_namespace, "public");
    assert_eq!(relation.name, "files");
    assert_eq!(relation.columns.len(), 1);
    assert_eq!(relation.columns[0].name, "\u{1}id");
}

#[test]
fn relation_of_the_sample_stream() {
    let b = base64::Engine::decode(
        &base64::engine::general_purpose::STANDARD,
        "UgAAQTlwdWJsaWMAZmlsZXMAZgALAWlkAAAAC4b/////AWNyZWF0ZWRfYXQAAAAEWv////8BdXBkYXRlZF9hdAAAAARa/////wFwYXRoAAAABBP/////AXR5cGUAAAAEE/////8BbmFtZQAAAAQTAAAB+AFzaXplAAAAABf/////AWNoZWNrc3VtAAAABBMAAAAkAXVzZXJfaWQAAAALhv////8BaXNfcHJvY2Vzc2VkAAAAABD/////AXBhcmVudF9pZAAAAAuG/////w==",
    )
    .unwrap();
    let relation = parse_dynamic_size_event::<RelationWithoutStreamingEnabled>(&b[1..]).unwrap();
    assert_eq!(relation.oid, 16697);
    assert_eq!(relation.columns.len(), 11);
    let second = &relation.columns[1];
    assert_eq!((second.flags, second.name.as_str(), second.oid, second.type_modifier), (99, "reated_at", 1114, -1));
    let sixth = &relation.columns[5];
    assert_eq!((sixth.flags, sixth.name.as_str(), sixth.oid, sixth.type_modifier), (110, "ame", 1043, 504));
}

#[test]
fn relation_columns_of_an_empty_buffer() {
    assert!(parse_relation_columns(3, &[]).is_empty());
    assert!(parse_relation_columns(0, &[1, 2, 3]).is_empty());
}

#[test]
fn truncate_reads_at_most_count_ids() {
    let mut b = 4i32.to_be_bytes().to_vec();
    b.extend_from_slice(&2i32.to_be_bytes());
    b.push(1);
    for oid in [10i32, 20, 30] {
        b.extend_from_slice(&oid.to_be_bytes());
    }
    b.push(0xaa);
    let t = parse_dynamic_size_event::<TruncateWithStreamingEnabled>(&b).unwrap();
    assert_eq!(t.transaction_id, 4);
    assert_eq!(t.flags, 1);
    assert_eq!(t.oids, vec![10, 20]);

    let without = parse_dynamic_size_event::<TruncateWithoutStreamingEnabled>(&b[4..]).unwrap();
    assert_eq!(without.flags, 1);
    assert_eq!(without.oids, vec![10, 20]);
}

#[test]
fn truncate_reads_only_whole_ids() {
    let mut b = 5i32.to_be_bytes().to_vec();
    b.push(0);
    b.extend_from_slice(&10i32.to_be_bytes());
    b.extend_from_slice(&[1, 2]);
    let t = parse_dynamic_size_event::<TruncateWithoutStreamingEnabled>(&b).unwrap();
    assert_eq!(t.oids, vec![10]);

    let mut negative = (-1i32).to_be_bytes().to_vec();
    negative.push(0);
    negative.extend_from_slice(&10i32.to_be_bytes());
    negative.extend_from_slice(&11i32.to_be_bytes());
    let t = parse_dynamic_size_event::<TruncateWithoutStreamingEnabled>(&negative).unwrap();
    assert_eq!(t.oids, vec![10, 11]);
}

#[test]
fn truncate_without_streaming_minimum() {
    let err = parse_dynamic_size_event::<TruncateWithoutStreamingEnabled>(&[0, 0, 0]).unwrap_err();
    assert_eq!(
        err,
        "pgoutput::events::base::truncate::TruncateWithoutStreamingEnabled event buffer size must be gte 4"
    );
}

#[test]
fn type_with_and_without_streaming() {
    let mut b = 25i32.to_be_bytes().to_vec();
    b.extend_from_slice(b"pg_catalog\0int4\0");
    let t = parse_dynamic_size_event::<TypeWithoutStreamingEnabled>(&b).unwrap();
    assert_eq!(t.oid, 25);
    assert_eq!(t.type_namespace, "pg_catalog");
    assert_eq!(t.name, "int4");

    let mut s = 3i32.to_be_bytes().to_vec();
    s.extend_from_slice(&b);
    let t = parse_dynamic_size_event::<TypeWithStreamingEnabled>(&s).unwrap();
    assert_eq!(t.transaction_id, 3);
    assert_eq!(t.oid, 25);
    assert_eq!(t.type_namespace, "pg_catalog");
    assert_eq!(t.name, "int4");
}

#[test]
fn type_without_nul_has_empty_names() {
    let b = [0, 0, 0, 25, b'a', b'b'];
    let t = parse_dynamic_size_event::<TypeWithoutStreamingEnabled>(&b).unwrap();
    assert_eq!(t.type_namespace, "");
    assert_eq!(t.name, "");
}

fn message_body() -> Vec<u8> {
    let mut b = vec![1];
    b.extend_from_slice(&99i64.to_be_bytes());
    b.extend_from_slice(b"my_prefix\0");
    b.extend_from_slice(&3i32.to_be_bytes());
    b.extend_from_slice(b"xyz");
    b.resize(40, 0);
    b
}

#[test]
fn message_with_and_without_streaming() {
    let b = message_body();
    let m = parse_dynamic_size_event::<MessageWithoutStreamingEnabled>(&b).unwrap();
    assert_eq!(m.flags, 1);
    assert_eq!(m.lsn, 99);
    assert_eq!(m.prefix, "my_prefix");
    assert_eq!(m.content, b"xyz".to_vec());

    let mut s = 6i32.to_be_bytes().to_vec();
    s.extend_from_slice(&b);
    let m = parse_dynamic_size_event::<MessageWithStreamingEnabled>(&s).unwrap();
    assert_eq!(m.transaction_id, 6);
    assert_eq!(m.flags, 1);
    assert_eq!(m.lsn, 99);
    assert_eq!(m.prefix, "my_prefix");
    assert_eq!(m.content, b"xyz".to_vec());
}

#[test]
fn message_shorter_than_its_minimum_is_an_error() {
    let err = parse_dynamic_size_event::<MessageWithoutStreamingEnabled>(&[0; 36]).unwrap_err();
    assert_eq!(
        err,
        "pgoutput::events::message::MessageWithoutStreamingEnabled event buffer size must be gte 37"
    );
}

#[test]
fn origin_decodes_lsn_and_name() {
    let mut b = 0x10i64.to_be_bytes().to_vec();
    b.extend_from_slice(b"node_a\0");
    let o = parse_dynamic_size_event::<Origin>(&b).unwrap();
    assert_eq!(o.commit_lsn, 16);
    assert_eq!(o.origin, "node_a");
}

#[test]
fn base_event_parse_dispatches_on_kind() {
    let mut b = Vec::new();
    b.extend_from_slice(&1i64.to_be_bytes());
    b.extend_from_slice(&2i64.to_be_bytes());
    b.extend_from_slice(&3i32.to_be_bytes());
    let e = BaseEvent::<BinaryValueTraitOff, StreamingValueTraitOff>::parse(&BaseEventType::BEGIN, &b)
        .unwrap();
    match e {
        BaseEvent::Begin(v) => assert_eq!(v.transaction_id, 3),
        _ => panic!("expected a begin"),
    }
    let err = BaseEvent::<BinaryValueTraitOff, StreamingValueTraitOn>::parse(
        &BaseEventType::COMMIT,
        &b,
    )
    .unwrap_err();
    assert_eq!(err, "pgoutput::events::base::commit::Commit event buffer size must be 25");
}

#[test]
fn checked_parse_refuses_what_would_read_past_the_end() {
    // Neither name has a NUL, so both are empty, and the column count that
    // follows announces columns that are not there.
    let b = [0, 0, 0, 1, b'a', b'a', b'a', b'a', b'a'];
    assert!(!<RelationWithoutStreamingEnabled as DynamicSizeEvent>::is_decodable(&b));
    assert!(try_parse_dynamic_size_event::<RelationWithoutStreamingEnabled>(&b).is_none());
    assert!(BaseEvent::<BinaryValueTraitOff, StreamingValueTraitOff>::parse_checked(
        &BaseEventType::RELATION,
        &b
    )
    .is_none());
    // Too short for the size check: the checked parse answers with the error.
    let short = BaseEvent::<BinaryValueTraitOff, StreamingValueTraitOff>::parse_checked(
        &BaseEventType::RELATION,
        &b[..8],
    );
    assert!(matches!(short, Some(Err(_))));

    let mut ok = 16697i32.to_be_bytes().to_vec();
    ok.extend_from_slice(&relation_body());
    assert!(<RelationWithoutStreamingEnabled as DynamicSizeEvent>::is_decodable(&ok));
    match BaseEvent::<BinaryValueTraitOff, StreamingValueTraitOff>::parse_checked(
        &BaseEventType::RELATION,
        &ok,
    ) {
        Some(Ok(BaseEvent::Relation(r))) => assert_eq!(r.name, "files"),
        _ => panic!("expected a relation"),
    }
}

#[test]
fn row_and_column_sizes() {
    let row = sample_row();
    assert_eq!(tuple_data_size::<BinaryValueTraitOff>(&row), Some(row.len()));
    assert_eq!(tuple_data_size::<BinaryValueTraitOn>(&row), None);
    assert_eq!(tuple_data_size::<BinaryValueTraitOff>(&row[..row.len() - 1]), None);
    assert_eq!(tuple_column_size::<BinaryValueTraitOff>(&[b'n']), Some(1));
    assert_eq!(tuple_column_size::<BinaryValueTraitOff>(&[b't', 0, 0, 0]), None);
    let mut update = 7i32.to_be_bytes().to_vec();
    update.push(b'O');
    update.extend_from_slice(&[0, 1, b'n']);
    assert!(
        !<UpdateWithoutStreamingEnabled<BinaryValueTraitOff> as DynamicSizeEvent>::is_decodable(
            &update
        )
    );
    update.push(b'N');
    update.extend_from_slice(&row);
    assert!(
        <UpdateWithoutStreamingEnabled<BinaryValueTraitOff> as DynamicSizeEvent>::is_decodable(
            &update
        )
    );
}

#[test]
fn message_decoder_reads_bodies_below_the_minimum() {
    let b = [1, 0, 0, 0, 0, 0, 0, 0, 5, b'p', 0, 0, 0, 0, 2, b'h', b'i', 9, 9];
    assert!(<MessageWithoutStreamingEnabled as DynamicSizeEvent>::is_decodable(&b));
    let m = <MessageWithoutStreamingEnabled as DynamicSizeEvent>::from_buffer(&b);
    assert_eq!((m.flags, m.lsn), (1, 5));
    assert_eq!(m.prefix, "p");
    assert_eq!(m.content, vec![b'h', b'i']);
    assert!(!<MessageWithoutStreamingEnabled as DynamicSizeEvent>::is_decodable(&b[..16]));
}

#[test]
fn decoders_read_bodies_without_a_trailing_string() {
    let origin = 3i64.to_be_bytes();
    assert!(<Origin as DynamicSizeEvent>::is_decodable(&origin));
    let o = <Origin as DynamicSizeEvent>::from_buffer(&origin);
    assert_eq!(o.commit_lsn, 3);
    assert_eq!(o.origin, "");
    assert!(!<Origin as DynamicSizeEvent>::is_decodable(&origin[..7]));

    let t = [0, 0, 0, 25, b'x'];
    assert!(<TypeWithoutStreamingEnabled as DynamicSizeEvent>::is_decodable(&t));
    let t = <TypeWithoutStreamingEnabled as DynamicSizeEvent>::from_buffer(&t);
    assert_eq!((t.oid, t.type_namespace.as_str(), t.name.as_str()), (25, "", ""));
}

#[test]
fn relation_column_round_trip() {
    let mut b = vec![0xfe];
    b.extend_from_slice(b"created_at\0");
    b.extend_from_slice(&1114i32.to_be_bytes());
    b.extend_from_slice(&(-1i32).to_be_bytes());
    b.extend_from_slice(&[7, 7, 7]);
    let columns = parse_relation_columns(1, &b);
    assert_eq!(columns.len(), 1);
    assert_eq!(columns[0].flags, -2);
    assert_eq!(columns[0].name, "created_at");
    assert_eq!(columns[0].oid, 1114);
    assert_eq!(columns[0].type_modifier, -1);
}
