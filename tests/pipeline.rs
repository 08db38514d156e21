use dsa::{BigUint, Components, SigningKey, VerifyingKey};
use rust_decimal::Decimal;
use simple::aggregator::Aggregator;
use simple::decimal::{Dec, MAX_MANTISSA};
use simple::error::PipelineError;
use simple::feed::{SubscriptionRequest, TickerData, TickerResponse};
use simple::framing::{frame, split_lines, NEWLINE};
use simple::mean::Accumulator;
use simple::record::FileFormat;
use simple::signing::AggMessage;
use simple::worker::ClientWorker;

const P: &[u8] = b"81ce5864fe75121623eaed5a50b9a7b1472bbc96b03e4ad10b3bfa33f9a5d876b6c5e29b85a4cc5c691a2b659e18d08cc004a3dc40ca3a67a70cfadb030fda93df48b5f0935bd02228aea96296f7191af8c68e14a84b308dc266da94c7efc41d83179b6435f517808dfea35bcae31561fbaf1c4d35200ccec71ae5d118fa8359";
const Q: &[u8] = b"8bf7a4bdc458272f498dbfa8af06bcf7e91457db";
const G: &[u8] = b"2dc35faea658fa00b9b3a9e002cdd6c281d268751f46da790add6fe7113ca613f8037909f7b601bc7178a5372309394ad45caf0a91eba84fdd86aac9f16c189c9a044c3a409824e317185efa871a1e569851d8aa21d1dd3a787fbf215b7cfccc49956cb54fb2f5c24cbbe9ce13f90229c8431a6e2bc7a8e20c7dd01cedaa3c3d";

/// Fixed 1024/160-bit DSA parameters, so that tests need not search for primes.
fn components() -> Components {
    let big = |hex: &[u8]| BigUint::parse_bytes(hex, 16).unwrap();
    Components::from_components(big(P), big(Q), big(G)).unwrap()
}

fn keys() -> (SigningKey, VerifyingKey) {
    keys_from(components())
}

fn keys_from(components: Components) -> (SigningKey, VerifyingKey) {
    let mut rng = rand::thread_rng();
    let signing = SigningKey::generate(&mut rng, components);
    let verifying = signing.verifying_key().clone();
    (signing, verifying)
}

fn dec(mantissa: i128, scale: u32) -> Dec {
    Dec::new(mantissa, scale).unwrap()
}

fn value(d: Dec) -> Decimal {
    Decimal::from_i128_with_scale(d.mantissa, d.scale)
}

fn worker_with(id: usize, prices: &[Dec]) -> (ClientWorker, Vec<FileFormat>) {
    let mut w = ClientWorker::new(id);
    let mut log = Vec::new();
    for p in prices {
        log.push(w.observe(*p).unwrap());
    }
    (w, log)
}

#[test]
fn worker_average_is_exact_mean() {
    let (w, _) = worker_with(0, &[dec(1050, 2), dec(2025, 2), dec(3000, 2)]);
    assert_eq!(w.count(), 3);
    assert_eq!(value(w.average().unwrap()), Decimal::new(2025, 2));
}

#[test]
fn worker_average_keeps_fractions() {
    let (w, _) = worker_with(0, &[dec(1, 0), dec(2, 0)]);
    assert_eq!(value(w.average().unwrap()), Decimal::new(15, 1));
}

#[test]
fn worker_average_of_one_price_is_that_price() {
    let (w, _) = worker_with(4, &[dec(6712345, 2)]);
    assert_eq!(value(w.average().unwrap()), Decimal::new(6712345, 2));
}

#[test]
fn observe_returns_data_point() {
    let mut w = ClientWorker::new(7);
    let r = w.observe(dec(42, 0)).unwrap();
    assert_eq!(r, FileFormat::DataPoint { client_id: 7, price: dec(42, 0) });
    assert_eq!(w.id(), 7);
    assert_eq!(w.count(), 1);
}

#[test]
fn observe_overflow_keeps_state() {
    let mut w = ClientWorker::new(1);
    w.observe(dec(MAX_MANTISSA, 0)).unwrap();
    assert_eq!(w.observe(dec(MAX_MANTISSA, 0)), Err(PipelineError::Overflow));
    assert_eq!(w.count(), 1);
    assert_eq!(value(w.average().unwrap()), value(dec(MAX_MANTISSA, 0)));
}

#[test]
fn empty_window_fails() {
    let (signing, _) = keys();
    let w = ClientWorker::new(2);
    assert_eq!(w.average(), Err(PipelineError::NoPrices));
    assert!(matches!(w.close(&signing), Err(PipelineError::NoPrices)));
}

#[test]
fn signed_average_verifies_with_matching_key() {
    let (signing, verifying) = keys();
    let msg = AggMessage::with_key(dec(2025, 2), &signing).unwrap();
    assert_eq!(msg.avg(), dec(2025, 2));
    assert!(msg.verify(&verifying));
}

#[test]
fn signed_average_fails_with_other_key() {
    let (signing, _) = keys();
    let (_, other) = keys();
    let msg = AggMessage::with_key(dec(2025, 2), &signing).unwrap();
    assert!(!msg.verify(&other));
}

#[test]
fn signed_average_fails_when_mutated() {
    let (signing, verifying) = keys();
    let msg = AggMessage::with_key(dec(2025, 2), &signing).unwrap();
    let tampered = msg.with_avg(dec(2026, 2));
    assert_eq!(tampered.avg(), dec(2026, 2));
    assert!(!tampered.verify(&verifying));
}

#[test]
fn aggregate_mean_ignores_order() {
    let avgs = [dec(20, 0), dec(45, 0), dec(100, 0)];
    let mut forward = Aggregator::new();
    let mut backward = Aggregator::new();
    for a in avgs.iter() {
        forward.accept(*a, true).unwrap();
    }
    for a in avgs.iter().rev() {
        backward.accept(*a, true).unwrap();
    }
    let f = forward.finish().unwrap();
    let b = backward.finish().unwrap();
    assert_eq!(f, b);
    match f {
        FileFormat::AggAvg(d) => assert_eq!(value(d), Decimal::from(55)),
        _ => panic!("expected an aggregate average"),
    }
}

#[test]
fn aggregator_rejects_invalid_without_change() {
    let mut agg = Aggregator::new();
    agg.accept(dec(10, 0), true).unwrap();
    assert_eq!(agg.accept(dec(99, 0), false), Err(PipelineError::InvalidSignature));
    assert_eq!(agg.finish(), Ok(FileFormat::AggAvg(agg_mean_of(&[dec(10, 0)]))));
}

fn agg_mean_of(avgs: &[Dec]) -> Dec {
    let mut acc = Accumulator::new();
    for a in avgs {
        acc.add(*a).unwrap();
    }
    acc.mean().unwrap()
}

#[test]
fn aggregator_without_input_fails() {
    let agg = Aggregator::new();
    assert_eq!(agg.finish(), Err(PipelineError::NoAverages));
}

#[test]
fn three_workers_scenario() {
    let (signing, verifying) = keys();
    let windows: [&[Dec]; 3] = [
        &[dec(10, 0), dec(20, 0), dec(30, 0)],
        &[dec(40, 0), dec(50, 0)],
        &[dec(100, 0)],
    ];
    let expected = [20, 45, 100];
    let mut log = Vec::new();
    let mut agg = Aggregator::new();
    for (id, prices) in windows.iter().enumerate() {
        let (w, points) = worker_with(id, prices);
        log.extend(points);
        let (msg, record) = w.close(&signing).unwrap();
        assert_eq!(value(msg.avg()), Decimal::from(expected[id]));
        assert_eq!(record, FileFormat::ClientAverage { client_id: id, avg: msg.avg() });
        log.push(record);
        agg.receive(&msg, &verifying).unwrap();
    }
    let total = agg.finish().unwrap();
    match total {
        FileFormat::AggAvg(d) => assert_eq!(value(d), Decimal::from(55)),
        _ => panic!("expected an aggregate average"),
    }
    log.push(total);
    let points = log.iter().filter(|r| matches!(r, FileFormat::DataPoint { .. })).count();
    let clients = log.iter().filter(|r| matches!(r, FileFormat::ClientAverage { .. })).count();
    let aggs = log.iter().filter(|r| matches!(r, FileFormat::AggAvg(_))).count();
    assert_eq!((points, clients, aggs), (6, 3, 1));
}

#[test]
fn corrupted_average_aborts_aggregation() {
    let (signing, verifying) = keys();
    let mut agg = Aggregator::new();
    let good = AggMessage::with_key(dec(20, 0), &signing).unwrap();
    agg.receive(&good, &verifying).unwrap();
    let bad = AggMessage::with_key(dec(45, 0), &signing).unwrap().with_avg(dec(46, 0));
    assert_eq!(agg.receive(&bad, &verifying), Err(PipelineError::InvalidSignature));
}

#[test]
fn dec_new_checks_range() {
    assert_eq!(Dec::new(5, 1), Some(Dec { mantissa: 5, scale: 1 }));
    assert_eq!(Dec::new(MAX_MANTISSA + 1, 0), None);
    assert_eq!(Dec::new(-MAX_MANTISSA - 1, 0), None);
    assert_eq!(Dec::new(1, 29), None);
    assert_eq!(Dec::from_int(-3), Dec { mantissa: -3, scale: 0 });
    assert_eq!(Dec::zero(), Dec { mantissa: 0, scale: 0 });
}

#[test]
fn accumulator_sums_mixed_scales() {
    let mut acc = Accumulator::new();
    acc.add(dec(15, 1)).unwrap();
    acc.add(dec(25, 2)).unwrap();
    assert_eq!(acc.count(), 2);
    assert_eq!(value(acc.mean().unwrap()), Decimal::new(875, 3));
}

#[test]
fn record_builders() {
    assert_eq!(FileFormat::data_point(1, dec(5, 0)), FileFormat::DataPoint { client_id: 1, price: dec(5, 0) });
    assert_eq!(FileFormat::client_average(2, dec(6, 0)), FileFormat::ClientAverage { client_id: 2, avg: dec(6, 0) });
    assert_eq!(FileFormat::agg_avg(dec(7, 0)), FileFormat::AggAvg(dec(7, 0)));
}

#[test]
fn subscription_request_subscribes() {
    let r = SubscriptionRequest::new(vec!["tickers.BTCUSDT".to_string()]);
    assert_eq!(r.op, "subscribe");
    assert_eq!(r.args, vec!["tickers.BTCUSDT".to_string()]);
}

#[test]
fn ticker_price_is_last_price() {
    let t = TickerResponse { data: TickerData { last_price: dec(6712345, 2) } };
    assert_eq!(t.price(), dec(6712345, 2));
}

#[test]
fn error_messages_differ() {
    assert_eq!(PipelineError::InvalidSignature.message(), "invalid signature");
    assert_ne!(PipelineError::NoPrices.message(), PipelineError::NoAverages.message());
}

#[test]
fn frame_ends_record_with_newline() {
    assert_eq!(frame(&b"{\"AggAvg\":\"55\"}".to_vec()), b"{\"AggAvg\":\"55\"}\n".to_vec());
    assert_eq!(frame(&Vec::new()), vec![NEWLINE]);
}

#[test]
fn split_lines_keeps_partial_tail() {
    let (lines, rest) = split_lines(&b"a\nbc\n\nde".to_vec());
    assert_eq!(lines, vec![b"a".to_vec(), b"bc".to_vec(), Vec::new()]);
    assert_eq!(rest, b"de".to_vec());
}

#[test]
fn split_lines_of_empty_log() {
    let (lines, rest) = split_lines(&Vec::new());
    assert!(lines.is_empty());
    assert!(rest.is_empty());
}

#[test]
fn framed_records_read_back() {
    let records = [b"{\"DataPoint\":{\"client_id\":0,\"price\":\"10\"}}".to_vec(), b"{\"AggAvg\":\"55\"}".to_vec()];
    let mut log = Vec::new();
    for r in records.iter() {
        log.extend(frame(r));
    }
    let (lines, rest) = split_lines(&log);
    assert_eq!(lines, records.to_vec());
    assert!(rest.is_empty());
}

#[test]
fn exact_mean_keeps_scale() {
    let (w, _) = worker_with(3, &[dec(150, 2), dec(250, 2)]);
    assert_eq!(w.average(), Ok(dec(200, 2)));
}

#[test]
fn mixed_scale_sums_keep_value() {
    let mut a = Accumulator::new();
    let mut b = Accumulator::new();
    for d in [dec(10, 1), dec(-10, 1), dec(5, 0)] {
        a.add(d).unwrap();
    }
    for d in [dec(5, 0), dec(10, 1), dec(-10, 1)] {
        b.add(d).unwrap();
    }
    assert_eq!(value(a.mean().unwrap()), value(b.mean().unwrap()));
}

#[test]
fn every_error_has_its_message() {
    assert_eq!(PipelineError::NoPrices.message(), "no price observed in the window");
    assert_eq!(PipelineError::NoAverages.message(), "no signed average received");
    assert_eq!(PipelineError::SigningFailed.message(), "signing failed");
    assert_eq!(PipelineError::Overflow.message(), "running sum overflowed");
}

#[test]
fn signing_is_deterministic() {
    let (signing, verifying) = keys();
    let a = AggMessage::with_key(dec(45, 0), &signing).unwrap();
    let b = AggMessage::with_key(dec(45, 0), &signing).unwrap();
    let swapped = a.with_avg(dec(45, 0));
    assert!(swapped.verify(&verifying));
    assert!(b.verify(&verifying));
}
