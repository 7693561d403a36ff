use pgoutput::events::base::event::BaseEventType;
use pgoutput::events::event::{Event, EventType};
use pgoutput::events::stream::{
    parse_streaming_event, StreamAbortWithParallel, StreamAbortWithoutParallel, StreamCommit,
    StreamEvent, StreamEventType, StreamStart,
};
use pgoutput::events::stream_and_two_phase::StreamPrepare;
use pgoutput::events::twophase::{
    parse_two_phase_commit_event, TwoPhaseCommitEvent, TwoPhaseCommitEventType,
};
use pgoutput::options::{
    build_pgoutput_static_options_string_parts, BinaryValueTrait, BinaryValueTraitOff,
    BinaryValueTraitOn, MessagesValueTrait, MessagesValueTraitOff, MessagesValueTraitOn,
    OriginValueTrait, OriginValueTraitAny, OriginValueTraitNone, StreamingValueTrait,
    StreamingValueTraitOff, StreamingValueTraitOn, StreamingValueTraitParallel,
    TwoPhaseValueTrait, TwoPhaseValueTraitOff, TwoPhaseValueTraitOn,
};
use pgoutput::events::twophase::RollbackPrepared;
use pgoutput::utils::{
    parse_dynamic_size_event, parse_static_size_event, DynamicSizeEvent, StaticSizeEvent,
};

fn prepared_body(gid: &str) -> Vec<u8> {
    let mut b = vec![0];
    b.extend_from_slice(&100i64.to_be_bytes());
    b.extend_from_slice(&200i64.to_be_bytes());
    b.extend_from_slice(&300i64.to_be_bytes());
    b.extend_from_slice(&77i32.to_be_bytes());
    b.extend_from_slice(gid.as_bytes());
    b.push(0);
    b
}

#[test]
fn stream_start_and_commit() {
    let mut b = 12i32.to_be_bytes().to_vec();
    b.push(1);
    let start = parse_static_size_event::<StreamStart>(&b).unwrap();
    assert_eq!(start, StreamStart { transaction_id: 12, flags: 1 });

    let mut c = 12i32.to_be_bytes().to_vec();
    c.push(0);
    c.extend_from_slice(&1i64.to_be_bytes());
    c.extend_from_slice(&2i64.to_be_bytes());
    c.extend_from_slice(&3i64.to_be_bytes());
    let commit = parse_static_size_event::<StreamCommit>(&c).unwrap();
    assert_eq!(
        commit,
        StreamCommit { transaction_id: 12, flags: 0, lsn: 1, end_lsn: 2, timestamp: 3 }
    );
}

#[test]
fn stream_stop_ignores_its_buffer() {
    let e = parse_streaming_event::<StreamingValueTraitOn>(&StreamEventType::StreamStop, &[1, 2, 3])
        .unwrap();
    assert!(matches!(e, StreamEvent::Stop(_)));
}

#[test]
fn stream_abort_by_configuration() {
    let mut b = 1i32.to_be_bytes().to_vec();
    b.extend_from_slice(&2i32.to_be_bytes());
    let e = parse_streaming_event::<StreamingValueTraitOn>(&StreamEventType::StreamAbort, &b)
        .unwrap();
    match e {
        StreamEvent::Abort(a) => assert_eq!(
            a,
            StreamAbortWithoutParallel { transaction_id: 1, sub_transaction_id: 2 }
        ),
        _ => panic!("expected an abort"),
    }
    b.extend_from_slice(&3i64.to_be_bytes());
    b.extend_from_slice(&4i64.to_be_bytes());
    let err = parse_streaming_event::<StreamingValueTraitParallel>(&StreamEventType::StreamAbort, &b)
        .unwrap_err();
    assert_eq!(
        err,
        "pgoutput::events::stream::StreamAbortWithParallel event buffer size must be 16"
    );
    let a = <StreamAbortWithParallel as StaticSizeEvent>::from_buffer(&b);
    assert_eq!(
        a,
        StreamAbortWithParallel { transaction_id: 1, sub_transaction_id: 2, lsn: 3, timestamp: 4 }
    );
    assert!(<StreamAbortWithParallel as StaticSizeEvent>::is_decodable(&b));
    assert!(!<StreamAbortWithParallel as StaticSizeEvent>::is_decodable(&b[..16]));
    assert!(Event::<BinaryValueTraitOn, StreamingValueTraitParallel>::parse_checked(
        &EventType::Stream(StreamEventType::StreamAbort),
        &b[..16],
    )
    .is_none());
}

#[test]
fn stream_prepare_decodes_gid() {
    let b = prepared_body("tx-1");
    let p = parse_dynamic_size_event::<StreamPrepare>(&b).unwrap();
    assert_eq!((p.flags, p.lsn, p.end_lsn, p.timestamp, p.transaction_id), (0, 100, 200, 300, 77));
    assert_eq!(p.gid, "tx-1");
}

#[test]
fn two_phase_events() {
    let mut bp = 100i64.to_be_bytes().to_vec();
    bp.extend_from_slice(&200i64.to_be_bytes());
    bp.extend_from_slice(&300i64.to_be_bytes());
    bp.extend_from_slice(&77i32.to_be_bytes());
    bp.extend_from_slice(b"g\0");
    match parse_two_phase_commit_event(&TwoPhaseCommitEventType::BeginPrepare, &bp).unwrap() {
        TwoPhaseCommitEvent::BeginPrepare(v) => {
            assert_eq!((v.lsn, v.end_lsn, v.timestamp, v.transaction_id), (100, 200, 300, 77));
            assert_eq!(v.gid, "g");
        }
        _ => panic!("expected a begin prepare"),
    }
    let b = prepared_body("gid");
    match parse_two_phase_commit_event(&TwoPhaseCommitEventType::Prepare, &b).unwrap() {
        TwoPhaseCommitEvent::Prepare(v) => {
            assert_eq!(v.transaction_id, 77);
            assert_eq!(v.gid, "gid");
        }
        _ => panic!("expected a prepare"),
    }
    match parse_two_phase_commit_event(&TwoPhaseCommitEventType::CommitPrepared, &b).unwrap() {
        TwoPhaseCommitEvent::CommitPrepared(v) => assert_eq!(v.end_lsn, 200),
        _ => panic!("expected a commit prepared"),
    }
    let mut r = vec![0];
    for x in [1i64, 2, 3, 4] {
        r.extend_from_slice(&x.to_be_bytes());
    }
    r.extend_from_slice(&5i32.to_be_bytes());
    r.extend_from_slice(b"rb\0");
    match parse_two_phase_commit_event(&TwoPhaseCommitEventType::RollbackPrepared, &r).unwrap() {
        TwoPhaseCommitEvent::RollbackPrepared(v) => {
            assert_eq!(
                (v.lsn, v.end_lsn, v.prepare_timestamp, v.rollback_timestamp, v.transaction_id),
                (1, 2, 3, 4, 5)
            );
            assert_eq!(v.gid, "rb");
        }
        _ => panic!("expected a rollback prepared"),
    }
    let err = parse_two_phase_commit_event(&TwoPhaseCommitEventType::RollbackPrepared, &b)
        .unwrap_err();
    assert_eq!(err, "pgoutput::events::twophase::RollbackPrepared event buffer size must be gte 38");
}

#[test]
fn event_type_from_char_covers_every_kind() {
    let expected = [
        (b'B', EventType::Base(BaseEventType::BEGIN)),
        (b'C', EventType::Base(BaseEventType::COMMIT)),
        (b'R', EventType::Base(BaseEventType::RELATION)),
        (b'Y', EventType::Base(BaseEventType::TYPE)),
        (b'I', EventType::Base(BaseEventType::INSERT)),
        (b'U', EventType::Base(BaseEventType::UPDATE)),
        (b'D', EventType::Base(BaseEventType::DELETE)),
        (b'T', EventType::Base(BaseEventType::TRUNCATE)),
        (b'M', EventType::Message),
        (b'O', EventType::Origin),
        (b'S', EventType::Stream(StreamEventType::StreamStart)),
        (b'E', EventType::Stream(StreamEventType::StreamStop)),
        (b'c', EventType::Stream(StreamEventType::StreamCommit)),
        (b'A', EventType::Stream(StreamEventType::StreamAbort)),
        (b'b', EventType::TwoPhase(TwoPhaseCommitEventType::BeginPrepare)),
        (b'P', EventType::TwoPhase(TwoPhaseCommitEventType::Prepare)),
        (b'K', EventType::TwoPhase(TwoPhaseCommitEventType::CommitPrepared)),
        (b'r', EventType::TwoPhase(TwoPhaseCommitEventType::RollbackPrepared)),
        (b'p', EventType::StreamPrepare),
    ];
    for (c, t) in expected {
        assert_eq!(EventType::from_char(c), Some(t));
    }
    let mut known = 0;
    for c in 0..=255u8 {
        if EventType::from_char(c).is_some() {
            known += 1;
        }
    }
    assert_eq!(known, expected.len());
    assert_eq!(EventType::from_char(b'Z'), None);
}

#[test]
fn kind_bytes_round_trip() {
    for t in [
        BaseEventType::BEGIN,
        BaseEventType::COMMIT,
        BaseEventType::RELATION,
        BaseEventType::TYPE,
        BaseEventType::INSERT,
        BaseEventType::UPDATE,
        BaseEventType::DELETE,
        BaseEventType::TRUNCATE,
    ] {
        assert_eq!(BaseEventType::from_char(t.to_char()), Some(t));
    }
    assert_eq!(BaseEventType::BEGIN.to_char(), b'B');
    for t in [
        StreamEventType::StreamStart,
        StreamEventType::StreamStop,
        StreamEventType::StreamCommit,
        StreamEventType::StreamAbort,
    ] {
        assert_eq!(StreamEventType::from_char(t.to_char()), Some(t));
    }
    assert_eq!(StreamEventType::StreamCommit.to_char(), b'c');
    for t in [
        TwoPhaseCommitEventType::BeginPrepare,
        TwoPhaseCommitEventType::Prepare,
        TwoPhaseCommitEventType::CommitPrepared,
        TwoPhaseCommitEventType::RollbackPrepared,
    ] {
        assert_eq!(TwoPhaseCommitEventType::from_char(t.to_char()), Some(t));
    }
    assert_eq!(TwoPhaseCommitEventType::RollbackPrepared.to_char(), b'r');
    assert_eq!(BaseEventType::from_char(b'x'), None);
    assert_eq!(StreamEventType::from_char(b'x'), None);
    assert_eq!(TwoPhaseCommitEventType::from_char(b'x'), None);
}

#[test]
fn event_parse_of_each_family() {
    let mut origin = 5i64.to_be_bytes().to_vec();
    origin.extend_from_slice(b"o\0");
    match Event::<BinaryValueTraitOff, StreamingValueTraitOff>::parse(&EventType::Origin, &origin)
        .unwrap()
    {
        Event::Origin(o) => assert_eq!(o.origin, "o"),
        _ => panic!("expected an origin"),
    }
    let b = prepared_body("x");
    match Event::<BinaryValueTraitOn, StreamingValueTraitOn>::parse(&EventType::StreamPrepare, &b)
        .unwrap()
    {
        Event::StreamPrepare(p) => assert_eq!(p.gid, "x"),
        _ => panic!("expected a stream prepare"),
    }
    match Event::<BinaryValueTraitOn, StreamingValueTraitOn>::parse(
        &EventType::TwoPhase(TwoPhaseCommitEventType::Prepare),
        &b,
    )
    .unwrap()
    {
        Event::TwoPhase(TwoPhaseCommitEvent::Prepare(p)) => assert_eq!(p.lsn, 100),
        _ => panic!("expected a prepare"),
    }
    match Event::<BinaryValueTraitOn, StreamingValueTraitOn>::parse(
        &EventType::Stream(StreamEventType::StreamStop),
        &[],
    )
    .unwrap()
    {
        Event::Stream(StreamEvent::Stop(_)) => {}
        _ => panic!("expected a stream stop"),
    }
    let mut m = 6i32.to_be_bytes().to_vec();
    m.push(0);
    m.extend_from_slice(&1i64.to_be_bytes());
    m.extend_from_slice(b"p\0");
    m.extend_from_slice(&0i32.to_be_bytes());
    m.resize(41, 0);
    match Event::<BinaryValueTraitOn, StreamingValueTraitParallel>::parse(&EventType::Message, &m)
        .unwrap()
    {
        Event::Message(msg) => {
            assert_eq!(msg.transaction_id, 6);
            assert_eq!(msg.prefix, "p");
            assert!(msg.content.is_empty());
        }
        _ => panic!("expected a message"),
    }
    let err = Event::<BinaryValueTraitOff, StreamingValueTraitOff>::parse(&EventType::Origin, &[0; 8])
        .unwrap_err();
    assert_eq!(err, "pgoutput::events::origin::Origin event buffer size must be gte 9");
}

#[test]
fn options_string() {
    let s = build_pgoutput_static_options_string_parts::<
        BinaryValueTraitOff,
        StreamingValueTraitParallel,
        MessagesValueTraitOn,
        TwoPhaseValueTraitOff,
        OriginValueTraitAny,
    >();
    assert_eq!(
        s,
        "proto_version '4', binary 'false', messages: 'true', streaming: 'parallel', two_phase: 'false', origin: 'any'"
    );
    let s = build_pgoutput_static_options_string_parts::<
        BinaryValueTraitOn,
        StreamingValueTraitOff,
        MessagesValueTraitOff,
        TwoPhaseValueTraitOn,
        OriginValueTraitNone,
    >();
    assert_eq!(
        s,
        "proto_version '4', binary 'true', messages: 'false', streaming: 'off', two_phase: 'true', origin: 'none'"
    );
}

#[test]
fn option_values() {
    assert_eq!(<StreamingValueTraitOn as StreamingValueTrait>::to_str(), "on");
    assert_eq!(<StreamingValueTraitParallel as StreamingValueTrait>::to_str(), "parallel");
    assert_eq!(<StreamingValueTraitOff as StreamingValueTrait>::to_str(), "off");
    assert!(<StreamingValueTraitOn as StreamingValueTrait>::ENABLED);
    assert!(<StreamingValueTraitParallel as StreamingValueTrait>::ENABLED);
    assert!(!<StreamingValueTraitOff as StreamingValueTrait>::ENABLED);
    assert_eq!(<BinaryValueTraitOn as BinaryValueTrait>::to_str(), "true");
    assert_eq!(<BinaryValueTraitOff as BinaryValueTrait>::to_str(), "false");
    assert!(<BinaryValueTraitOn as BinaryValueTrait>::BINARY);
    assert!(!<BinaryValueTraitOff as BinaryValueTrait>::BINARY);
    assert_eq!(format!("{:?}", BinaryValueTraitOn {}), "BinaryValueTraitOn");
    assert_eq!(format!("{:?}", BinaryValueTraitOff {}), "BinaryValueTraitOff");
    assert_eq!(<MessagesValueTraitOn as MessagesValueTrait>::to_str(), "true");
    assert_eq!(<MessagesValueTraitOff as MessagesValueTrait>::to_str(), "false");
    assert_eq!(<TwoPhaseValueTraitOn as TwoPhaseValueTrait>::to_str(), "true");
    assert_eq!(<TwoPhaseValueTraitOff as TwoPhaseValueTrait>::to_str(), "false");
    assert_eq!(<OriginValueTraitAny as OriginValueTrait>::to_str(), "any");
    assert_eq!(<OriginValueTraitNone as OriginValueTrait>::to_str(), "none");
}

#[test]
fn rollback_prepared_round_trip() {
    let mut b = vec![(-3i8) as u8];
    for x in [i64::MIN, -1i64, 0, i64::MAX] {
        b.extend_from_slice(&x.to_be_bytes());
    }
    b.extend_from_slice(&(-77i32).to_be_bytes());
    b.extend_from_slice("gïd".as_bytes());
    b.push(0);
    b.extend_from_slice(b"rest");
    let r = <RollbackPrepared as DynamicSizeEvent>::from_buffer(&b);
    assert_eq!(
        (r.flags, r.lsn, r.end_lsn, r.prepare_timestamp, r.rollback_timestamp, r.transaction_id),
        (-3, i64::MIN, -1, 0, i64::MAX, -77)
    );
    assert_eq!(r.gid, "gïd");
}
