//! Double-sided two-way ranging with three messages.
//!
//! A node sends a [`Ping`] to every node. A node that receives it answers
//! with a [`Request`]; the pinging node answers that with a [`Response`].
//! The node that receives the response has the four intervals that
//! [`compute_distance_mm`] needs. Each message is built by a pure function
//! from the message it answers, the current time and the antenna delay; it
//! is left to the caller to send it before its transmission time.
use vstd::prelude::*;

use crate::codec::{decode_frame, decode_outcome, encode_frame, fields_in_range, frame_bytes,
    lemma_frame_round_trip};
use crate::hl::Error;
use crate::mac::Address;
use crate::time::{forward_duration, time_from_delay, wrapping_sum, Duration, Instant};

verus! {

/// The transmission delay: 10 ms on the 64 GHz clock, enough to finish the
/// preparation of a message and send it.
pub const TX_DELAY: u32 = 10_000_000;

/// Sent before a message's data to identify the message
pub struct Prelude(pub Vec<u8>);

/// A frame that was received: its payload and what the radio reported with it
pub struct RxFrame {
    /// The bytes of the frame
    pub payload: Vec<u8>,
    /// The time the frame was received
    pub rx_time: Instant,
    /// The source of the frame
    pub source: Address,
}

/// An incoming ranging message
///
/// Contains the received payload, as well as some metadata that's required to
/// create a reply to the message.
pub struct RxMessage<T> {
    /// The time the message was received
    pub rx_time: Instant,
    /// The source of the message
    pub source: Address,
    /// The message data
    pub payload: T,
}

/// An outgoing ranging message
pub struct TxMessage<T> {
    /// The actual message payload
    pub payload: T,
}

/// The transmission time of a message built at `now`.
pub open spec fn scheduled_tx_time(now: Instant) -> int {
    wrapping_sum(now@ as int, TX_DELAY as int)
}

/// The time stamp that a message built at `now` carries: its transmission
/// time, corrected by the transmit antenna delay.
pub open spec fn stamped_tx_time(now: Instant, tx_antenna_delay: Duration) -> int {
    wrapping_sum(scheduled_tx_time(now), tx_antenna_delay@ as int)
}

/// "RANGING PING"
pub open spec fn ping_prelude() -> Seq<u8> {
    seq![82u8, 65, 78, 71, 73, 78, 71, 32, 80, 73, 78, 71]
}

/// "RANGING REQUEST"
pub open spec fn request_prelude() -> Seq<u8> {
    seq![82u8, 65, 78, 71, 73, 78, 71, 32, 82, 69, 81, 85, 69, 83, 84]
}

/// "RANGING RESPONSE"
pub open spec fn response_prelude() -> Seq<u8> {
    seq![82u8, 65, 78, 71, 73, 78, 71, 32, 82, 69, 83, 80, 79, 78, 83, 69]
}

/// A ranging ping
///
/// Sent out regularly by anchors.
#[derive(Clone, Copy, Debug, PartialEq, Eq, Structural)]
pub struct PingData {
    /// When the ping was sent, in local sender time
    pub ping_tx_time: Instant,
}

impl PingData {
    /// The fields of the ping in the order of the wire format.
    pub open spec fn fields(self) -> Seq<u64> {
        seq![self.ping_tx_time@]
    }

    fn to_fields(&self) -> (r: Vec<u64>)
        ensures
            r@ == self.fields(),
    {
        let mut r: Vec<u64> = Vec::new();
        r.push(self.ping_tx_time.value());
        assert(r@ =~= self.fields());
        r
    }

    /// Pings with the same fields are the same.
    pub proof fn lemma_same_fields(self, other: PingData)
        requires
            self.fields() == other.fields(),
        ensures
            self == other,
    {
        assert(self.fields()[0] == self.ping_tx_time@);
        assert(other.fields()[0] == other.ping_tx_time@);
        self.ping_tx_time.lemma_view_eq(other.ping_tx_time);
    }

    /// Decoding an encoded ping gives back its fields, and the only ping with
    /// those fields is this one.
    pub proof fn lemma_round_trip(self)
        requires
            fields_in_range(self.fields()),
        ensures
            decode_outcome(frame_bytes(ping_prelude(), self.fields()), ping_prelude(), 1)
                == Ok::<Option<Seq<u64>>, Error>(Some(self.fields())),
            forall|d: PingData| #[trigger] d.fields() == self.fields() ==> d == self,
    {
        lemma_frame_round_trip(ping_prelude(), self.fields());
        assert forall|d: PingData| #[trigger] d.fields() == self.fields() implies d == self by {
            d.lemma_same_fields(self);
        }
    }
}

/// Ranging ping message
#[derive(Debug)]
pub struct Ping {
    tx_time: Instant,
    data: PingData,
}

impl Ping {
    /// The length of the ping's prelude
    pub const PRELUDE_LEN: usize = 12;

    /// The length of the whole message, including prelude and data
    pub const LEN: usize = 20;

    /// The transmission time of this message.
    pub closed spec fn spec_tx_time(&self) -> Instant {
        self.tx_time
    }

    /// This message's data.
    pub closed spec fn spec_data(&self) -> PingData {
        self.data
    }

    /// A prelude that identifies the message
    pub fn prelude() -> (r: Prelude)
        ensures
            r.0@ == ping_prelude(),
            r.0@.len() == Self::PRELUDE_LEN,
    {
        Prelude(vec![82u8, 65, 78, 71, 73, 78, 71, 32, 80, 73, 78, 71])
    }

    /// Creates a new ping message at time `now`
    ///
    /// Only creates the message, but doesn't yet send it. Sets the transmission
    /// time to 10 milliseconds after `now`. Make sure to send the message
    /// within that time frame, or the distance measurement will be negatively
    /// affected.
    pub fn new(now: Instant, tx_antenna_delay: Duration) -> (r: TxMessage<Ping>)
        ensures
            r.payload.spec_tx_time()@ == scheduled_tx_time(now),
            r.payload.spec_data().ping_tx_time@ == stamped_tx_time(now, tx_antenna_delay),
    {
        let tx_time = time_from_delay(now, TX_DELAY);
        let data = PingData { ping_tx_time: tx_time.wrapping_add(tx_antenna_delay) };
        TxMessage { payload: Ping { tx_time, data } }
    }

    /// Returns this message's data
    pub fn data(&self) -> (r: &PingData)
        ensures
            *r == self.spec_data(),
    {
        &self.data
    }

    /// Returns this message's recipient: every node
    pub fn recipient(&self) -> (r: Address)
        ensures
            r == Address::spec_broadcast(),
    {
        Address::broadcast()
    }

    /// Returns the transmission time of this message
    pub fn tx_time(&self) -> (r: Instant)
        ensures
            r == self.spec_tx_time(),
    {
        self.tx_time
    }

    /// Encodes this message: its prelude, then its data
    pub fn encode(&self) -> (r: Vec<u8>)
        ensures
            r@ == frame_bytes(ping_prelude(), self.spec_data().fields()),
            r@.len() == Self::LEN,
    {
        let prelude = Self::prelude();
        let r = encode_frame(&prelude.0, &self.data.to_fields());
        proof {
            crate::codec::lemma_frame_len(ping_prelude(), self.data.fields());
        }
        r
    }

    /// Decodes a received frame as a ping
    ///
    /// Returns `Ok(None)` where the frame does not start with the ping's
    /// prelude, whatever its length.
    pub fn decode(frame: &RxFrame) -> (r: Result<Option<RxMessage<PingData>>, Error>)
        ensures
            match decode_outcome(frame.payload@, ping_prelude(), 1) {
                Ok(Some(fields)) => r matches Ok(Some(m)) && m.payload.fields() == fields
                    && m.rx_time == frame.rx_time && m.source == frame.source,
                Ok(None) => r matches Ok(None),
                Err(e) => r matches Err(x) && x == e,
            },
    {
        let prelude = Self::prelude();
        match decode_frame(&prelude.0, 1, &frame.payload) {
            Ok(Some(fields)) => {
                let payload = PingData { ping_tx_time: Instant::new(fields[0]).unwrap() };
                assert(payload.fields() =~= fields@);
                Ok(Some(RxMessage { rx_time: frame.rx_time, source: frame.source, payload }))
            },
            Ok(None) => Ok(None),
            Err(e) => Err(e),
        }
    }
}

/// A ranging request
///
/// Sent by tags in response to a ping.
#[derive(Clone, Copy, Debug, PartialEq, Eq, Structural)]
pub struct RequestData {
    /// When the ping was sent, in local time on the anchor
    pub ping_tx_time: Instant,
    /// The time between the ping being received and the reply being sent
    pub ping_reply_time: Duration,
    /// When the ranging request was sent, in local sender time
    pub request_tx_time: Instant,
}

impl RequestData {
    /// The fields of the request in the order of the wire format.
    pub open spec fn fields(self) -> Seq<u64> {
        seq![self.ping_tx_time@, self.ping_reply_time@, self.request_tx_time@]
    }

    fn to_fields(&self) -> (r: Vec<u64>)
        ensures
            r@ == self.fields(),
    {
        let mut r: Vec<u64> = Vec::new();
        r.push(self.ping_tx_time.value());
        r.push(self.ping_reply_time.value());
        r.push(self.request_tx_time.value());
        assert(r@ =~= self.fields());
        r
    }

    /// Requests with the same fields are the same.
    pub proof fn lemma_same_fields(self, other: RequestData)
        requires
            self.fields() == other.fields(),
        ensures
            self == other,
    {
        assert(self.fields()[0] == self.ping_tx_time@ && other.fields()[0] == other.ping_tx_time@);
        assert(self.fields()[1] == self.ping_reply_time@ && other.fields()[1]
            == other.ping_reply_time@);
        assert(self.fields()[2] == self.request_tx_time@ && other.fields()[2]
            == other.request_tx_time@);
        self.ping_tx_time.lemma_view_eq(other.ping_tx_time);
        self.ping_reply_time.lemma_view_eq(other.ping_reply_time);
        self.request_tx_time.lemma_view_eq(other.request_tx_time);
    }

    /// Decoding an encoded request gives back its fields, and the only request
    /// with those fields is this one.
    pub proof fn lemma_round_trip(self)
        requires
            fields_in_range(self.fields()),
        ensures
            decode_outcome(frame_bytes(request_prelude(), self.fields()), request_prelude(), 3)
                == Ok::<Option<Seq<u64>>, Error>(Some(self.fields())),
            forall|d: RequestData| #[trigger] d.fields() == self.fields() ==> d == self,
    {
        lemma_frame_round_trip(request_prelude(), self.fields());
        assert forall|d: RequestData| #[trigger] d.fields() == self.fields() implies d == self by {
            d.lemma_same_fields(self);
        }
    }
}

/// Ranging request message
#[derive(Debug)]
pub struct Request {
    recipient: Address,
    tx_time: Instant,
    data: RequestData,
}

impl Request {
    /// The length of the request's prelude
    pub const PRELUDE_LEN: usize = 15;

    /// The length of the whole message, including prelude and data
    pub const LEN: usize = 39;

    /// The recipient of this message.
    pub closed spec fn spec_recipient(&self) -> Address {
        self.recipient
    }

    /// The transmission time of this message.
    pub closed spec fn spec_tx_time(&self) -> Instant {
        self.tx_time
    }

    /// This message's data.
    pub closed spec fn spec_data(&self) -> RequestData {
        self.data
    }

    /// A prelude that identifies the message
    pub fn prelude() -> (r: Prelude)
        ensures
            r.0@ == request_prelude(),
            r.0@.len() == Self::PRELUDE_LEN,
    {
        Prelude(vec![82u8, 65, 78, 71, 73, 78, 71, 32, 82, 69, 81, 85, 69, 83, 84])
    }

    /// Creates a new ranging request at time `now`, in answer to `ping`
    ///
    /// Only creates the message, but doesn't yet send it. Sets the transmission
    /// time to 10 milliseconds after `now`. Make sure to send the message
    /// within that time frame, or the distance measurement will be negatively
    /// affected.
    pub fn new(now: Instant, tx_antenna_delay: Duration, ping: RxMessage<PingData>) -> (r: TxMessage<
        Request,
    >)
        ensures
            r.payload.spec_recipient() == ping.source,
            r.payload.spec_tx_time()@ == scheduled_tx_time(now),
            r.payload.spec_data().ping_tx_time == ping.payload.ping_tx_time,
            r.payload.spec_data().request_tx_time@ == stamped_tx_time(now, tx_antenna_delay),
            r.payload.spec_data().ping_reply_time@ == forward_duration(
                ping.rx_time@ as int,
                stamped_tx_time(now, tx_antenna_delay),
            ),
    {
        let tx_time = time_from_delay(now, TX_DELAY);
        let request_tx_time = tx_time.wrapping_add(tx_antenna_delay);
        let ping_reply_time = request_tx_time.duration_since(ping.rx_time);
        let data = RequestData {
            ping_tx_time: ping.payload.ping_tx_time,
            ping_reply_time,
            request_tx_time,
        };
        TxMessage { payload: Request { recipient: ping.source, tx_time, data } }
    }

    /// Returns this message's data
    pub fn data(&self) -> (r: &RequestData)
        ensures
            *r == self.spec_data(),
    {
        &self.data
    }

    /// Returns this message's recipient
    pub fn recipient(&self) -> (r: Address)
        ensures
            r == self.spec_recipient(),
    {
        self.recipient
    }

    /// Returns the transmission time of this message
    pub fn tx_time(&self) -> (r: Instant)
        ensures
            r == self.spec_tx_time(),
    {
        self.tx_time
    }

    /// Encodes this message: its prelude, then its data
    pub fn encode(&self) -> (r: Vec<u8>)
        ensures
            r@ == frame_bytes(request_prelude(), self.spec_data().fields()),
            r@.len() == Self::LEN,
    {
        let prelude = Self::prelude();
        let r = encode_frame(&prelude.0, &self.data.to_fields());
        proof {
            crate::codec::lemma_frame_len(request_prelude(), self.data.fields());
        }
        r
    }

    /// Decodes a received frame as a ranging request
    ///
    /// Returns `Ok(None)` where the frame does not start with the request's
    /// prelude, whatever its length.
    pub fn decode(frame: &RxFrame) -> (r: Result<Option<RxMessage<RequestData>>, Error>)
        ensures
            match decode_outcome(frame.payload@, request_prelude(), 3) {
                Ok(Some(fields)) => r matches Ok(Some(m)) && m.payload.fields() == fields
                    && m.rx_time == frame.rx_time && m.source == frame.source,
                Ok(None) => r matches Ok(None),
                Err(e) => r matches Err(x) && x == e,
            },
    {
        let prelude = Self::prelude();
        match decode_frame(&prelude.0, 3, &frame.payload) {
            Ok(Some(fields)) => {
                assert(fields@[0] <= crate::time::TIME_MAX && fields@[1] <= crate::time::TIME_MAX
                    && fields@[2] <= crate::time::TIME_MAX);
                let payload = RequestData {
                    ping_tx_time: Instant::new(fields[0]).unwrap(),
                    ping_reply_time: Duration::new(fields[1]).unwrap(),
                    request_tx_time: Instant::new(fields[2]).unwrap(),
                };
                assert(payload.fields() =~= fields@);
                Ok(Some(RxMessage { rx_time: frame.rx_time, source: frame.source, payload }))
            },
            Ok(None) => Ok(None),
            Err(e) => Err(e),
        }
    }
}

/// A ranging response
///
/// Sent by anchors in response to a ranging request.
#[derive(Clone, Copy, Debug, PartialEq, Eq, Structural)]
pub struct ResponseData {
    /// The time between the ping being received and the reply being sent
    pub ping_reply_time: Duration,
    /// The time between the ping being sent and the reply being received
    pub ping_round_trip_time: Duration,
    /// The time the ranging request was sent, in local sender time
    pub request_tx_time: Instant,
    /// The time between the request being received and a reply being sent
    pub request_reply_time: Duration,
}

impl ResponseData {
    /// The fields of the response in the order of the wire format.
    pub open spec fn fields(self) -> Seq<u64> {
        seq![
            self.ping_reply_time@,
            self.ping_round_trip_time@,
            self.request_tx_time@,
            self.request_reply_time@,
        ]
    }

    fn to_fields(&self) -> (r: Vec<u64>)
        ensures
            r@ == self.fields(),
    {
        let mut r: Vec<u64> = Vec::new();
        r.push(self.ping_reply_time.value());
        r.push(self.ping_round_trip_time.value());
        r.push(self.request_tx_time.value());
        r.push(self.request_reply_time.value());
        assert(r@ =~= self.fields());
        r
    }

    /// Responses with the same fields are the same.
    pub proof fn lemma_same_fields(self, other: ResponseData)
        requires
            self.fields() == other.fields(),
        ensures
            self == other,
    {
        assert(self.fields()[0] == self.ping_reply_time@ && other.fields()[0]
            == other.ping_reply_time@);
        assert(self.fields()[1] == self.ping_round_trip_time@ && other.fields()[1]
            == other.ping_round_trip_time@);
        assert(self.fields()[2] == self.request_tx_time@ && other.fields()[2]
            == other.request_tx_time@);
        assert(self.fields()[3] == self.request_reply_time@ && other.fields()[3]
            == other.request_reply_time@);
        self.ping_reply_time.lemma_view_eq(other.ping_reply_time);
        self.ping_round_trip_time.lemma_view_eq(other.ping_round_trip_time);
        self.request_tx_time.lemma_view_eq(other.request_tx_time);
        self.request_reply_time.lemma_view_eq(other.request_reply_time);
    }

    /// Decoding an encoded response gives back its fields, and the only
    /// response with those fields is this one.
    pub proof fn lemma_round_trip(self)
        requires
            fields_in_range(self.fields()),
        ensures
            decode_outcome(frame_bytes(response_prelude(), self.fields()), response_prelude(), 4)
                == Ok::<Option<Seq<u64>>, Error>(Some(self.fields())),
            forall|d: ResponseData| #[trigger] d.fields() == self.fields() ==> d == self,
    {
        lemma_frame_round_trip(response_prelude(), self.fields());
        assert forall|d: ResponseData| #[trigger] d.fields() == self.fields() implies d == self by {
            d.lemma_same_fields(self);
        }
    }
}

/// A ranging response message
#[derive(Debug)]
pub struct Response {
    recipient: Address,
    tx_time: Instant,
    data: ResponseData,
}

impl Response {
    /// The length of the response's prelude
    pub const PRELUDE_LEN: usize = 16;

    /// The length of the whole message, including prelude and data
    pub const LEN: usize = 48;

    /// The recipient of this message.
    pub closed spec fn spec_recipient(&self) -> Address {
        self.recipient
    }

    /// The transmission time of this message.
    pub closed spec fn spec_tx_time(&self) -> Instant {
        self.tx_time
    }

    /// This message's data.
    pub closed spec fn spec_data(&self) -> ResponseData {
        self.data
    }

    /// A prelude that identifies the message
    pub fn prelude() -> (r: Prelude)
        ensures
            r.0@ == response_prelude(),
            r.0@.len() == Self::PRELUDE_LEN,
    {
        Prelude(vec![82u8, 65, 78, 71, 73, 78, 71, 32, 82, 69, 83, 80, 79, 78, 83, 69])
    }

    /// Creates a new ranging response at time `now`, in answer to `request`
    ///
    /// Only creates the message, but doesn't yet send it. Sets the transmission
    /// time to 10 milliseconds after `now`. Make sure to send the message
    /// within that time frame, or the distance measurement will be negatively
    /// affected.
    pub fn new(now: Instant, tx_antenna_delay: Duration, request: RxMessage<RequestData>) -> (r:
        TxMessage<Response>)
        ensures
            r.payload.spec_recipient() == request.source,
            r.payload.spec_tx_time()@ == scheduled_tx_time(now),
            r.payload.spec_data().ping_reply_time == request.payload.ping_reply_time,
            r.payload.spec_data().ping_round_trip_time@ == forward_duration(
                request.payload.ping_tx_time@ as int,
                request.rx_time@ as int,
            ),
            r.payload.spec_data().request_tx_time == request.payload.request_tx_time,
            r.payload.spec_data().request_reply_time@ == forward_duration(
                request.rx_time@ as int,
                stamped_tx_time(now, tx_antenna_delay),
            ),
    {
        let tx_time = time_from_delay(now, TX_DELAY);
        let response_tx_time = tx_time.wrapping_add(tx_antenna_delay);
        let ping_round_trip_time = request.rx_time.duration_since(request.payload.ping_tx_time);
        let request_reply_time = response_tx_time.duration_since(request.rx_time);
        let data = ResponseData {
            ping_reply_time: request.payload.ping_reply_time,
            ping_round_trip_time,
            request_tx_time: request.payload.request_tx_time,
            request_reply_time,
        };
        TxMessage { payload: Response { recipient: request.source, tx_time, data } }
    }

    /// Returns this message's data
    pub fn data(&self) -> (r: &ResponseData)
        ensures
            *r == self.spec_data(),
    {
        &self.data
    }

    /// Returns this message's recipient
    pub fn recipient(&self) -> (r: Address)
        ensures
            r == self.spec_recipient(),
    {
        self.recipient
    }

    /// Returns the transmission time of this message
    pub fn tx_time(&self) -> (r: Instant)
        ensures
            r == self.spec_tx_time(),
    {
        self.tx_time
    }

    /// Encodes this message: its prelude, then its data
    pub fn encode(&self) -> (r: Vec<u8>)
        ensures
            r@ == frame_bytes(response_prelude(), self.spec_data().fields()),
            r@.len() == Self::LEN,
    {
        let prelude = Self::prelude();
        let r = encode_frame(&prelude.0, &self.data.to_fields());
        proof {
            crate::codec::lemma_frame_len(response_prelude(), self.data.fields());
        }
        r
    }

    /// Decodes a received frame as a ranging response
    ///
    /// Returns `Ok(None)` where the frame does not start with the response's
    /// prelude, whatever its length.
    pub fn decode(frame: &RxFrame) -> (r: Result<Option<RxMessage<ResponseData>>, Error>)
        ensures
            match decode_outcome(frame.payload@, response_prelude(), 4) {
                Ok(Some(fields)) => r matches Ok(Some(m)) && m.payload.fields() == fields
                    && m.rx_time == frame.rx_time && m.source == frame.source,
                Ok(None) => r matches Ok(None),
                Err(e) => r matches Err(x) && x == e,
            },
    {
        let prelude = Self::prelude();
        match decode_frame(&prelude.0, 4, &frame.payload) {
            Ok(Some(fields)) => {
                assert(fields@[0] <= crate::time::TIME_MAX && fields@[1] <= crate::time::TIME_MAX
                    && fields@[2] <= crate::time::TIME_MAX && fields@[3] <= crate::time::TIME_MAX);
                let payload = ResponseData {
                    ping_reply_time: Duration::new(fields[0]).unwrap(),
                    ping_round_trip_time: Duration::new(fields[1]).unwrap(),
                    request_tx_time: Instant::new(fields[2]).unwrap(),
                    request_reply_time: Duration::new(fields[3]).unwrap(),
                };
                assert(payload.fields() =~= fields@);
                Ok(Some(RxMessage { rx_time: frame.rx_time, source: frame.source, payload }))
            },
            Ok(None) => Ok(None),
            Err(e) => Err(e),
        }
    }
}

/// The speed of light, in m/s or nm/ns
pub const SPEED_OF_LIGHT: u64 = 299_792_458;

/// The time of flight by the double-sided two-way-ranging formula, in ticks
/// of the 64 GHz clock.
pub open spec fn time_of_flight(
    ping_round_trip: int,
    request_round_trip: int,
    ping_reply: int,
    request_reply: int,
) -> int {
    (ping_round_trip * request_round_trip - ping_reply * request_reply) / (ping_round_trip
        + request_round_trip + ping_reply + request_reply)
}

/// The distance in millimetres that a time of flight of `tof` ticks of the
/// 64 GHz clock stands for.
pub open spec fn distance_of_flight(tof: int) -> int {
    tof * SPEED_OF_LIGHT / 64 / 1_000_000
}

/// The distance that four intervals give, or `None` where a product
/// overflows 64 bits, the replies outlast the round trips, or all four are
/// zero.
pub open spec fn distance_mm(
    ping_round_trip: int,
    request_round_trip: int,
    ping_reply: int,
    request_reply: int,
) -> Option<int> {
    let tof = time_of_flight(ping_round_trip, request_round_trip, ping_reply, request_reply);
    if ping_round_trip * request_round_trip > u64::MAX || ping_reply * request_reply > u64::MAX
        || ping_reply * request_reply > ping_round_trip * request_round_trip || ping_round_trip
        + request_round_trip + ping_reply + request_reply == 0 || tof * SPEED_OF_LIGHT
        > u64::MAX {
        None
    } else {
        Some(distance_of_flight(tof))
    }
}

/// The distance that a received response gives.
pub open spec fn response_distance_mm(response: RxMessage<ResponseData>) -> Option<int> {
    distance_mm(
        response.payload.ping_round_trip_time@ as int,
        forward_duration(response.payload.request_tx_time@ as int, response.rx_time@ as int),
        response.payload.ping_reply_time@ as int,
        response.payload.request_reply_time@ as int,
    )
}

/// Computes the distance to another node from a ranging response
///
/// Returns `None`, if the computed time of flight is so large the distance
/// calculation would overflow.
pub fn compute_distance_mm(response: &RxMessage<ResponseData>) -> (r: Option<u64>)
    ensures
        match response_distance_mm(*response) {
            Some(d) => r == Some(d as u64),
            None => r is None,
        },
{
    let request_round_trip_time = response.rx_time.duration_since(
        response.payload.request_tx_time,
    );
    let ping_round_trip = response.payload.ping_round_trip_time.value();
    let request_round_trip = request_round_trip_time.value();
    let ping_reply = response.payload.ping_reply_time.value();
    let request_reply = response.payload.request_reply_time.value();

    let rtt_product = ping_round_trip.checked_mul(request_round_trip)?;
    let reply_time_product = ping_reply.checked_mul(request_reply)?;
    let complete_sum = ping_round_trip + request_round_trip + ping_reply + request_reply;
    let difference = rtt_product.checked_sub(reply_time_product)?;
    let time_of_flight = difference.checked_div(complete_sum)?;

    // Nominally, all time units are based on a 64 Ghz clock, meaning each time
    // unit is 1/64 ns.
    let distance_nm_times_64 = SPEED_OF_LIGHT.checked_mul(time_of_flight)?;
    let distance_mm = distance_nm_times_64 / 64 / 1_000_000;
    Some(distance_mm)
}

/// Where both round trips last twice as long as both replies, the time of
/// flight is half a reply time, rounded down, and the distance is that
/// converted to millimetres.
pub proof fn lemma_symmetric_exchange(reply: int)
    requires
        0 < reply,
        4 * reply * reply <= u64::MAX,
        reply / 2 * SPEED_OF_LIGHT <= u64::MAX,
    ensures
        time_of_flight(2 * reply, 2 * reply, reply, reply) == reply / 2,
        distance_mm(2 * reply, 2 * reply, reply, reply) == Some(distance_of_flight(reply / 2)),
{
    let x = reply;
    assert((2 * x) * (2 * x) == 4 * (x * x)) by (nonlinear_arith);
    assert(4 * x * x == 4 * (x * x)) by (nonlinear_arith);
    assert(x * x <= 4 * (x * x)) by (nonlinear_arith)
        requires
            x > 0,
    ;
    assert((4 * (x * x) - x * x) / (6 * x) == x / 2) by (nonlinear_arith)
        requires
            x > 0,
    {
        assert(4 * (x * x) - x * x == 3 * (x * x));
        let q = x / 2;
        let m = x % 2;
        assert(x == 2 * q + m);
        assert(3 * (x * x) == (6 * x) * q + 3 * x * m);
        assert(0 <= 3 * x * m < 6 * x);
    }
    assert(time_of_flight(2 * x, 2 * x, x, x) == x / 2);
    assert(2 * x + 2 * x + x + x == 6 * x);
}

/// Where the product of the round trips does not fit in 64 bits, there is
/// no result.
pub proof fn lemma_overflow_gives_none(
    ping_round_trip: int,
    request_round_trip: int,
    ping_reply: int,
    request_reply: int,
)
    requires
        ping_round_trip * request_round_trip > u64::MAX
            || ping_reply * request_reply > u64::MAX,
    ensures
        distance_mm(ping_round_trip, request_round_trip, ping_reply, request_reply) is None,
{
}

} // verus!
