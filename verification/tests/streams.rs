//! The head subscription, the response streams and their metrics.

use starkstream_dna::data_stream::metrics::{ActiveStreamGuard, DataStreamMetrics};
use starkstream_dna::provider::felt::{decode_hex_felt, FromHexError};
use starkstream_dna::provider::ws::{
    ConfirmedBlockId, Cursor, HeadPoll, NewHeadMessage, NewHeadsStream, SocketMessage,
    SocketPoll, StarknetProviderError, SubscribeRequest, WsBlockResult, WsMessage, WsParams,
};
use starkstream_dna::server::stream_with_heartbeat::{
    IdlePoll, MissedTicks, ResponsePoll, ResponseStep, ResponseStreamWithHeartbeat,
};

#[test]
fn felts_are_decoded() {
    assert_eq!(decode_hex_felt("0x1234"), Ok(vec![0x12, 0x34]));
    assert_eq!(decode_hex_felt("1234"), Ok(vec![0x12, 0x34]));
    assert_eq!(decode_hex_felt("0x123"), Ok(vec![0x01, 0x23]));
    assert_eq!(decode_hex_felt("0xaBcDeF"), Ok(vec![0xab, 0xcd, 0xef]));
    assert_eq!(decode_hex_felt("0x0x7"), Ok(vec![0x07]));
    assert_eq!(decode_hex_felt("0x"), Ok(vec![]));
    assert_eq!(decode_hex_felt(""), Ok(vec![]));
    assert_eq!(decode_hex_felt("0"), Ok(vec![0]));
    assert_eq!(decode_hex_felt("0x00"), Ok(vec![0]));
}

#[test]
fn bad_digits_are_located() {
    assert_eq!(
        decode_hex_felt("0x12g4"),
        Err(FromHexError::InvalidHexCharacter { c: 'g', index: 2 })
    );
    assert_eq!(
        decode_hex_felt("0xz"),
        Err(FromHexError::InvalidHexCharacter { c: 'z', index: 1 })
    );
    assert_eq!(
        decode_hex_felt("0X12"),
        Err(FromHexError::InvalidHexCharacter { c: 'X', index: 1 })
    );
    assert_eq!(
        decode_hex_felt("é"),
        Err(FromHexError::InvalidHexCharacter { c: 'Ã', index: 0 })
    );
    assert_eq!(
        decode_hex_felt("1€"),
        Err(FromHexError::InvalidHexCharacter { c: 'â', index: 1 })
    );
}

fn notification(block_number: u64, block_hash: &str) -> SocketMessage {
    SocketMessage::Text(Some(WsMessage {
        params: Some(WsParams {
            result: WsBlockResult { block_hash: block_hash.to_string(), block_number },
        }),
    }))
}

#[test]
fn heads_are_read_out_of_messages() {
    let head = NewHeadMessage::try_from_message(notification(7, "0x1ff")).unwrap().unwrap();
    assert_eq!(head, NewHeadMessage { block_number: 7, block_hash: starkstream_dna::provider::ws::Hash(vec![1, 0xff]) });
    assert_eq!(head.cursor(), Cursor { number: 7, hash: starkstream_dna::provider::ws::Hash(vec![1, 0xff]) });
    assert_eq!(NewHeadMessage::try_from_message(SocketMessage::Other), Ok(None));
    let reply = SocketMessage::Text(Some(WsMessage { params: None }));
    assert_eq!(NewHeadMessage::try_from_message(reply), Ok(None));
    assert_eq!(
        NewHeadMessage::try_from_message(SocketMessage::Text(None)),
        Err(StarknetProviderError::Request)
    );
    assert_eq!(
        NewHeadMessage::try_from_message(notification(7, "0xhash")),
        Err(StarknetProviderError::Request)
    );
}

#[test]
fn heads_are_polled() {
    let heads = NewHeadsStream;
    assert_eq!(
        heads.poll_next(SocketPoll::Pending),
        HeadPoll::Pending { poll_again: false }
    );
    assert_eq!(heads.poll_next(SocketPoll::Closed), HeadPoll::End);
    assert_eq!(
        heads.poll_next(SocketPoll::Failed),
        HeadPoll::Item(Err(StarknetProviderError::Request))
    );
    assert_eq!(
        heads.poll_next(SocketPoll::Message(SocketMessage::Other)),
        HeadPoll::Pending { poll_again: true }
    );
    assert_eq!(
        heads.poll_next(SocketPoll::Message(SocketMessage::Text(None))),
        HeadPoll::Item(Err(StarknetProviderError::Request))
    );
    assert_eq!(
        heads.poll_next(SocketPoll::Message(notification(1, "0x2"))),
        HeadPoll::Item(Ok(NewHeadMessage { block_number: 1, block_hash: starkstream_dna::provider::ws::Hash(vec![2]) }))
    );
}

#[test]
fn subscription_is_a_call() {
    assert_eq!(
        NewHeadsStream::connect().into_string(),
        "{\"id\":0,\"jsonrpc\":\"2.0\",\"method\":\"starknet_subscribeNewHeads\",\
         \"params\":[\"latest\"]}"
    );
    let params = |block_id: ConfirmedBlockId| {
        let text = SubscribeRequest { block_id }.into_string();
        text[text.find("\"params\":").unwrap()..].to_string()
    };
    assert_eq!(params(ConfirmedBlockId::L1Accepted), "\"params\":[\"l1_accepted\"]}");
    assert_eq!(params(ConfirmedBlockId::Number(5)), "\"params\":[{\"block_number\":5}]}");
    let mut hash = [0u8; 32];
    hash[30] = 0x12;
    hash[31] = 0x34;
    assert_eq!(
        params(ConfirmedBlockId::Hash(hash)),
        "\"params\":[{\"block_hash\":\"0x1234\"}]}"
    );
    assert_eq!(
        params(ConfirmedBlockId::Hash([0; 32])),
        "\"params\":[{\"block_hash\":\"0x0\"}]}"
    );
    assert_eq!(
        params(ConfirmedBlockId::Hash([0xff; 32])),
        "\"params\":[{\"block_hash\":\
         \"0x7fffffffffffdf0ffffffffffffffffffffffffffffffffffffffffffffffe0\"}]}"
    );
    let mut prime = [0u8; 32];
    prime[0] = 0x08;
    prime[7] = 0x11;
    prime[31] = 0x01;
    assert_eq!(
        params(ConfirmedBlockId::Hash(prime)),
        "\"params\":[{\"block_hash\":\"0x0\"}]}"
    );
}

#[test]
fn active_stream_guard_balances_metric() {
    let mut active: i64 = 0;
    let (guard, change) = ActiveStreamGuard::new();
    active += change;
    assert_eq!(active, 1);

    active += guard.released();
    assert_eq!(active, 0);
}

#[test]
fn metric_counts_live_guards() {
    let mut active: i64 = 0;
    let mut guards = Vec::new();
    for _ in 0..3 {
        let (guard, change) = ActiveStreamGuard::new();
        active += change;
        guards.push(guard);
    }
    assert_eq!(active, 3);
    active += guards.pop().unwrap().released();
    assert_eq!(active, 2);
    for guard in guards {
        active += guard.released();
    }
    assert_eq!(active, 0);
}

#[test]
fn bounds_rise() {
    let metrics = DataStreamMetrics::default();
    for bounds in [metrics.block_size.boundaries, metrics.time_in_queue.boundaries] {
        assert!(bounds.windows(2).all(|pair| pair[0] < pair[1]));
    }
}

#[test]
fn metrics_are_described() {
    let metrics = DataStreamMetrics::default();
    assert_eq!(metrics.active.name, "dna.data_stream.active");
    assert_eq!(metrics.active.description, "number of active client data streams");
    assert_eq!(metrics.active.unit, Some("{connection}"));
    assert_eq!(metrics.worker_active.name, "dna.data_stream.worker_active");
    assert_eq!(metrics.block_size.instrument.name, "dna.data_stream.block_size");
    assert_eq!(metrics.block_size.boundaries.len(), 10);
    assert_eq!(metrics.fragment_size.boundaries, metrics.block_size.boundaries);
    assert_eq!(metrics.group_cache_hit.unit, None);
    for instrument in [
        metrics.active,
        metrics.worker_active,
        metrics.block_size.instrument,
        metrics.fragment_size.instrument,
        metrics.time_in_queue.instrument,
        metrics.group_cache_hit,
    ] {
        assert_eq!(instrument.meter, "dna_data_stream");
    }
    let seconds: Vec<f64> = metrics
        .time_in_queue
        .boundaries
        .iter()
        .map(|micros| *micros as f64 / 1_000_000.0)
        .collect();
    assert_eq!(
        seconds,
        [0.0005, 0.001, 0.005, 0.01, 0.05, 0.1, 0.25, 0.5, 0.75, 1.0, 5.0, 10.0, 30.0]
    );
    let bytes: Vec<f64> = metrics.block_size.boundaries.iter().map(|b| *b as f64).collect();
    assert_eq!(
        bytes,
        [
            1_000.0,
            10_000.0,
            100_000.0,
            1_000_000.0,
            5_000_000.0,
            10_000_000.0,
            25_000_000.0,
            50_000_000.0,
            100_000_000.0,
            1_000_000_000.0,
        ]
    );
    for (request, name) in [
        (&metrics.block_download, "dna.data_stream.block_download"),
        (&metrics.segment_download, "dna.data_stream.segment_download"),
        (&metrics.segment_wait, "dna.data_stream.segment_wait"),
        (&metrics.group_download, "dna.data_stream.group_download"),
        (&metrics.group_wait, "dna.data_stream.group_wait"),
    ] {
        assert_eq!(request.meter, "dna_data_stream");
        assert_eq!(request.name, name);
        assert_eq!(request.boundaries, metrics.time_in_queue.boundaries);
    }
}

#[test]
fn dropping_response_stream_cancels_worker() {
    let mut stream = ResponseStreamWithHeartbeat::new(30_000);
    assert!(!stream.cancelled);
    stream.dropped();
    assert!(stream.cancelled);
    assert_eq!(stream.period_ms, 30_000);
    assert_eq!(stream.missed_ticks, MissedTicks::Delay);
    assert!(stream.starts_reset);
}

#[test]
fn responses_are_not_lost() {
    let stream = ResponseStreamWithHeartbeat::new(1);
    let mut responses = vec!["a", "b", "c"].into_iter();
    let mut sent = Vec::new();
    for (ready, ticked) in [
        (false, true),
        (true, true),
        (false, false),
        (true, false),
        (false, true),
        (true, true),
    ] {
        let polled = if ready {
            ResponsePoll::Ready(responses.next())
        } else {
            ResponsePoll::Pending
        };
        match stream.poll_next(polled) {
            ResponseStep::ResetAndReturn(data) => sent.push(data.unwrap()),
            ResponseStep::PollInterval => {
                if stream.poll_interval(ticked) == IdlePoll::Heartbeat {
                    sent.push("heartbeat");
                }
            }
        }
    }
    assert_eq!(sent, ["heartbeat", "a", "b", "heartbeat", "c"]);
}

#[test]
fn responses_come_before_heartbeats() {
    let stream = ResponseStreamWithHeartbeat::new(1);
    assert!(matches!(
        stream.poll_next(ResponsePoll::Ready(Some("data"))),
        ResponseStep::ResetAndReturn(Some("data"))
    ));
    assert!(matches!(
        stream.poll_next::<&str>(ResponsePoll::Ready(None)),
        ResponseStep::ResetAndReturn(None)
    ));
    assert!(matches!(
        stream.poll_next::<&str>(ResponsePoll::Pending),
        ResponseStep::PollInterval
    ));
    assert_eq!(stream.poll_interval(true), IdlePoll::Heartbeat);
    assert_eq!(stream.poll_interval(false), IdlePoll::Pending);
}
