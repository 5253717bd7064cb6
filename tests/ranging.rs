use dw1000::mac::Address;
use dw1000::ranging::{
    compute_distance_mm, Ping, PingData, Request, RequestData, Response, ResponseData, RxFrame,
    RxMessage,
};
use dw1000::{Duration, Error, Instant, TIME_MAX};

fn instant(v: u64) -> Instant {
    Instant::new(v).unwrap()
}

fn duration(v: u64) -> Duration {
    Duration::new(v).unwrap()
}

fn frame(payload: Vec<u8>, rx_time: u64, source: Address) -> RxFrame {
    RxFrame { payload, rx_time: instant(rx_time), source }
}

const NODE_A: Address = Address { pan_id: 0x0d57, short_addr: 0x000a };
const NODE_B: Address = Address { pan_id: 0x0d57, short_addr: 0x000b };

#[test]
fn preludes_name_the_message() {
    assert_eq!(Ping::prelude().0, b"RANGING PING".to_vec());
    assert_eq!(Request::prelude().0, b"RANGING REQUEST".to_vec());
    assert_eq!(Response::prelude().0, b"RANGING RESPONSE".to_vec());
    assert_eq!(Ping::LEN, 20);
    assert_eq!(Request::LEN, 39);
    assert_eq!(Response::LEN, 48);
}

#[test]
fn ping_encodes_prelude_then_little_endian_time() {
    let ping = Ping::new(instant(0x01_0203_0405), duration(0)).payload;
    let bytes = ping.encode();
    let mut expected = b"RANGING PING".to_vec();
    let t = ping.data().ping_tx_time.value();
    assert_eq!(t, 0x01_0203_0405 + 10_000_000);
    expected.extend_from_slice(&t.to_le_bytes());
    assert_eq!(bytes, expected);
}

#[test]
fn ping_round_trip_at_boundaries() {
    for now in [0u64, 1, TIME_MAX - 10_000_000, TIME_MAX] {
        let ping = Ping::new(instant(now), duration(TIME_MAX)).payload;
        let bytes = ping.encode();
        assert_eq!(bytes.len(), Ping::LEN);
        let rx = Ping::decode(&frame(bytes, 7, NODE_A)).unwrap().unwrap();
        assert_eq!(rx.payload, *ping.data());
        assert_eq!(rx.rx_time, instant(7));
        assert_eq!(rx.source, NODE_A);
    }
}

#[test]
fn request_round_trip_at_boundaries() {
    let ping = RxMessage {
        rx_time: instant(TIME_MAX),
        source: NODE_A,
        payload: PingData { ping_tx_time: instant(0) },
    };
    let request = Request::new(instant(TIME_MAX), duration(TIME_MAX), ping).payload;
    let bytes = request.encode();
    assert_eq!(bytes.len(), Request::LEN);
    let rx = Request::decode(&frame(bytes, 0, NODE_B)).unwrap().unwrap();
    assert_eq!(rx.payload, *request.data());
    assert_eq!(rx.source, NODE_B);
}

#[test]
fn response_round_trip_at_boundaries() {
    let request = RxMessage {
        rx_time: instant(0),
        source: NODE_B,
        payload: RequestData {
            ping_tx_time: instant(TIME_MAX),
            ping_reply_time: duration(TIME_MAX),
            request_tx_time: instant(0),
        },
    };
    let response = Response::new(instant(0), duration(0), request).payload;
    assert_eq!(response.data().ping_round_trip_time.value(), 1);
    let bytes = response.encode();
    assert_eq!(bytes.len(), Response::LEN);
    let rx = Response::decode(&frame(bytes, TIME_MAX, NODE_A)).unwrap().unwrap();
    assert_eq!(rx.payload, *response.data());
    assert_eq!(rx.rx_time, instant(TIME_MAX));
}

#[test]
fn other_prelude_is_no_match() {
    let ping = Ping::new(instant(5), duration(5)).payload.encode();
    assert!(matches!(Request::decode(&frame(ping.clone(), 0, NODE_A)), Ok(None)));
    assert!(matches!(Response::decode(&frame(ping, 0, NODE_A)), Ok(None)));
    assert!(matches!(Ping::decode(&frame(Vec::new(), 0, NODE_A)), Ok(None)));
    assert!(matches!(Ping::decode(&frame(b"RANGING PIN".to_vec(), 0, NODE_A)), Ok(None)));
    let mut long = b"RANGING PONG".to_vec();
    long.extend_from_slice(&[0u8; 100]);
    assert!(matches!(Ping::decode(&frame(long, 0, NODE_A)), Ok(None)));
}

#[test]
fn right_prelude_wrong_length_is_an_error() {
    let mut short = b"RANGING PING".to_vec();
    short.extend_from_slice(&[1, 2, 3]);
    assert!(matches!(
        Ping::decode(&frame(short, 0, NODE_A)),
        Err(Error::FrameLength { required_len: 20 })
    ));
    let mut long = b"RANGING RESPONSE".to_vec();
    long.extend_from_slice(&[0u8; 40]);
    assert!(matches!(
        Response::decode(&frame(long, 0, NODE_A)),
        Err(Error::FrameLength { required_len: 48 })
    ));
    assert!(matches!(
        Request::decode(&frame(b"RANGING REQUEST".to_vec(), 0, NODE_A)),
        Err(Error::FrameLength { required_len: 39 })
    ));
}

#[test]
fn time_over_forty_bits_is_rejected() {
    let mut bytes = b"RANGING PING".to_vec();
    bytes.extend_from_slice(&(TIME_MAX + 1).to_le_bytes());
    assert!(matches!(Ping::decode(&frame(bytes, 0, NODE_A)), Err(Error::TimeOutOfRange)));
}

fn response_with(
    ping_reply: u64,
    ping_round_trip: u64,
    request_round_trip: u64,
    request_reply: u64,
) -> RxMessage<ResponseData> {
    let request_tx_time = 1_000;
    RxMessage {
        rx_time: instant(request_tx_time + request_round_trip),
        source: NODE_A,
        payload: ResponseData {
            ping_reply_time: duration(ping_reply),
            ping_round_trip_time: duration(ping_round_trip),
            request_tx_time: instant(request_tx_time),
            request_reply_time: duration(request_reply),
        },
    }
}

#[test]
fn distance_of_symmetric_exchange() {
    // time of flight (2000 * 2000 - 1000 * 1000) / 6000 = 500 ticks
    let response = response_with(1_000, 2_000, 2_000, 1_000);
    assert_eq!(compute_distance_mm(&response), Some(500 * 299_792_458 / 64 / 1_000_000));
    assert_eq!(compute_distance_mm(&response), Some(2342));
}

#[test]
fn distance_overflow_is_no_result() {
    let response = response_with(1, TIME_MAX, TIME_MAX - 2_000, 1);
    assert_eq!(compute_distance_mm(&response), None);
    let response = response_with(TIME_MAX, 1, 1, TIME_MAX);
    assert_eq!(compute_distance_mm(&response), None);
}

#[test]
fn distance_with_replies_longer_than_round_trips_is_no_result() {
    let response = response_with(3_000, 2_000, 2_000, 3_000);
    assert_eq!(compute_distance_mm(&response), None);
}

#[test]
fn distance_of_zero_intervals_is_no_result() {
    let response = response_with(0, 0, 0, 0);
    assert_eq!(compute_distance_mm(&response), None);
}

#[test]
fn distance_across_clock_wraparound() {
    let request_tx_time = TIME_MAX - 999;
    let response = RxMessage {
        rx_time: instant(1_000),
        source: NODE_A,
        payload: ResponseData {
            ping_reply_time: duration(1_000),
            ping_round_trip_time: duration(2_000),
            request_tx_time: instant(request_tx_time),
            request_reply_time: duration(1_000),
        },
    };
    assert_eq!(compute_distance_mm(&response), Some(2342));
}

#[test]
fn three_message_exchange() {
    let antenna_a = duration(100);
    let antenna_b = duration(200);
    let flight = 1_000;

    // Node A sends a ping.
    let ping = Ping::new(instant(1_000_000), antenna_a);
    assert_eq!(ping.payload.tx_time().value(), 11_000_000);
    assert_eq!(ping.payload.recipient(), Address::broadcast());
    let ping_tx_time = ping.payload.data().ping_tx_time.value();
    assert_eq!(ping_tx_time, 11_000_100);

    // Node B receives it and answers with a request.
    let received = frame(ping.payload.encode(), 5_000_000, NODE_A);
    let ping_rx = Ping::decode(&received).unwrap().unwrap();
    assert_eq!(ping_rx.payload.ping_tx_time.value(), 11_000_100);
    let request = Request::new(instant(5_500_000), antenna_b, ping_rx);
    assert_eq!(request.payload.recipient(), NODE_A);
    assert_eq!(request.payload.tx_time().value(), 15_500_000);
    let data = request.payload.data();
    assert_eq!(data.ping_tx_time.value(), 11_000_100);
    assert_eq!(data.request_tx_time.value(), 15_500_200);
    assert_eq!(data.ping_reply_time.value(), 10_500_200);

    // Node A receives the request and answers with a response.
    let request_rx_time = ping_tx_time + flight + 10_500_200 + flight;
    assert_eq!(request_rx_time, 21_502_300);
    let received = frame(request.payload.encode(), request_rx_time, NODE_B);
    let request_rx = Request::decode(&received).unwrap().unwrap();
    let response = Response::new(instant(21_600_000), antenna_a, request_rx);
    assert_eq!(response.payload.recipient(), NODE_B);
    assert_eq!(response.payload.tx_time().value(), 31_600_000);
    let data = response.payload.data();
    assert_eq!(data.ping_reply_time.value(), 10_500_200);
    assert_eq!(data.ping_round_trip_time.value(), 10_502_200);
    assert_eq!(data.request_tx_time.value(), 15_500_200);
    assert_eq!(data.request_reply_time.value(), 10_097_800);

    // Node B receives the response and computes the distance.
    let response_rx_time = 15_500_200 + flight + 10_097_800 + flight;
    assert_eq!(response_rx_time, 25_600_000);
    let received = frame(response.payload.encode(), response_rx_time, NODE_A);
    let response_rx = Response::decode(&received).unwrap().unwrap();
    // time of flight: (10_502_200 * 10_099_800 - 10_500_200 * 10_097_800) / 41_200_000 = 1000
    assert_eq!(compute_distance_mm(&response_rx), Some(1_000 * 299_792_458 / 64 / 1_000_000));
    assert_eq!(compute_distance_mm(&response_rx), Some(4684));
}
