//! Wire protocol decoder: one binary message becomes one typed event.
//!
//! A message starts with a type tag (`0x00` init, `0x01` stylus, `0x02`
//! finger) followed by the fields of that variant, little-endian throughout.
//! Bytes after the last field are ignored.
use vstd::prelude::*;

verus! {

/// Bytes that follow the tag of an init message.
pub const INIT_LEN: usize = 4;

/// Bytes that follow the tag of a stylus message.
pub const STYLUS_LEN: usize = 15;

/// Bytes that follow the tag of a finger message.
pub const FINGER_LEN: usize = 11;

/// Screen geometry sent by the phone before any input.
#[derive(Clone, Copy, Debug, PartialEq, Eq, Structural)]
pub struct Init {
    pub width: u16,
    pub height: u16,
}

/// One sample of the pen.
#[derive(Clone, Copy, Debug, PartialEq, Eq, Structural)]
pub struct Stylus {
    pub down: bool,
    pub button: bool,
    pub hover: bool,
    pub pressure: i16,
    pub tilt_x: i16,
    pub tilt_y: i16,
    pub x: i16,
    pub y: i16,
    pub timestamp: i32,
}

/// One update of a touch contact slot.
#[derive(Clone, Copy, Debug, PartialEq, Eq, Structural)]
pub struct Finger {
    pub slot: u8,
    pub down: bool,
    pub total_down: u8,
    pub tracking_id: i32,
    pub x: i16,
    pub y: i16,
}

/// A decoded message.
#[derive(Clone, Copy, Debug, PartialEq, Eq, Structural)]
pub enum Event {
    Init(Init),
    Stylus(Stylus),
    Finger(Finger),
}

/// Unsigned little-endian 16-bit value at `i`.
pub open spec fn u16_at(b: Seq<u8>, i: int) -> int {
    b[i] as int + 256 * (b[i + 1] as int)
}

/// Two's-complement little-endian 16-bit value at `i`.
pub open spec fn i16_at(b: Seq<u8>, i: int) -> int {
    let u = u16_at(b, i);
    if u < 0x8000 {
        u
    } else {
        u - 0x1_0000
    }
}

/// Unsigned little-endian 32-bit value at `i`.
pub open spec fn u32_at(b: Seq<u8>, i: int) -> int {
    u16_at(b, i) + 0x1_0000 * u16_at(b, i + 2)
}

/// Two's-complement little-endian 32-bit value at `i`.
pub open spec fn i32_at(b: Seq<u8>, i: int) -> int {
    let u = u32_at(b, i);
    if u < 0x8000_0000 {
        u
    } else {
        u - 0x1_0000_0000
    }
}

/// The init fields that start at `at`.
pub open spec fn init_at(b: Seq<u8>, at: int) -> Init {
    Init { width: u16_at(b, at) as u16, height: u16_at(b, at + 2) as u16 }
}

/// The stylus fields that start at `at`; the flags byte holds down (bit 0),
/// button (bit 1) and hover (bit 2).
pub open spec fn stylus_at(b: Seq<u8>, at: int) -> Stylus {
    Stylus {
        down: b[at] & 1 != 0,
        button: b[at] & 2 != 0,
        hover: b[at] & 4 != 0,
        pressure: i16_at(b, at + 1) as i16,
        tilt_x: i16_at(b, at + 3) as i16,
        tilt_y: i16_at(b, at + 5) as i16,
        x: i16_at(b, at + 7) as i16,
        y: i16_at(b, at + 9) as i16,
        timestamp: i32_at(b, at + 11) as i32,
    }
}

/// The finger fields that start at `at`.
pub open spec fn finger_at(b: Seq<u8>, at: int) -> Finger {
    Finger {
        slot: b[at],
        down: b[at + 1] != 0,
        total_down: b[at + 2],
        tracking_id: i32_at(b, at + 3) as i32,
        x: i16_at(b, at + 7) as i16,
        y: i16_at(b, at + 9) as i16,
    }
}

/// The event a message holds, or `None` when the message is empty, has an
/// unknown tag, or ends before the last field of its variant.
pub open spec fn decode(b: Seq<u8>) -> Option<Event> {
    if b.len() == 0 {
        None
    } else if b[0] == 0 && b.len() >= 1 + INIT_LEN {
        Some(Event::Init(init_at(b, 1)))
    } else if b[0] == 1 && b.len() >= 1 + STYLUS_LEN {
        Some(Event::Stylus(stylus_at(b, 1)))
    } else if b[0] == 2 && b.len() >= 1 + FINGER_LEN {
        Some(Event::Finger(finger_at(b, 1)))
    } else {
        None
    }
}

/// Whether the first byte of a non-empty message names a known variant.
pub open spec fn known_tag(b: Seq<u8>) -> bool {
    b.len() > 0 && b[0] <= 2
}

/// The error text for a message whose tag names no variant.
pub open spec fn unknown_tag_message() -> Seq<char> {
    "Got unexpected event type"@
}

/// The error text for a message that ends before its last field.
pub open spec fn truncated_message() -> Seq<char> {
    "Unexpected end of event data"@
}

fn unknown_tag_error() -> (r: String)
    ensures
        r@ == unknown_tag_message(),
{
    String::from_str("Got unexpected event type")
}

fn truncated_error() -> (r: String)
    ensures
        r@ == truncated_message(),
{
    String::from_str("Unexpected end of event data")
}

fn read_u16(b: &[u8], i: usize) -> (r: u16)
    requires
        i + 2 <= b@.len(),
    ensures
        r as int == u16_at(b@, i as int),
{
    b[i] as u16 + (b[i + 1] as u16) * 256
}

fn read_i16(b: &[u8], i: usize) -> (r: i16)
    requires
        i + 2 <= b@.len(),
    ensures
        r as int == i16_at(b@, i as int),
{
    let u = read_u16(b, i);
    if u < 0x8000 {
        u as i16
    } else {
        (u as i32 - 0x1_0000) as i16
    }
}

fn read_i32(b: &[u8], i: usize) -> (r: i32)
    requires
        i + 4 <= b@.len() <= usize::MAX,
    ensures
        r as int == i32_at(b@, i as int),
{
    let lo = read_u16(b, i) as u32;
    let hi = read_u16(b, i + 2) as u32;
    let u = lo + hi * 0x1_0000;
    if u < 0x8000_0000 {
        u as i32
    } else {
        (u as i64 - 0x1_0000_0000) as i32
    }
}

impl Init {
    /// Reads the init fields that start at `at`.
    pub fn new(buf: &[u8], at: usize) -> (r: Result<Init, String>)
        ensures
            r is Ok <==> at + INIT_LEN <= buf@.len(),
            r is Ok ==> r->Ok_0 == init_at(buf@, at as int),
            r is Err ==> r->Err_0@ == truncated_message(),
    {
        if at > buf.len() || buf.len() - at < INIT_LEN {
            return Err(truncated_error());
        }
        Ok(Init { width: read_u16(buf, at), height: read_u16(buf, at + 2) })
    }
}

impl Stylus {
    /// Reads the stylus fields that start at `at`.
    pub fn new(buf: &[u8], at: usize) -> (r: Result<Stylus, String>)
        ensures
            r is Ok <==> at + STYLUS_LEN <= buf@.len(),
            r is Ok ==> r->Ok_0 == stylus_at(buf@, at as int),
            r is Err ==> r->Err_0@ == truncated_message(),
    {
        if at > buf.len() || buf.len() - at < STYLUS_LEN {
            return Err(truncated_error());
        }
        let flags = buf[at];
        Ok(
            Stylus {
                down: flags & 1 != 0,
                button: flags & 2 != 0,
                hover: flags & 4 != 0,
                pressure: read_i16(buf, at + 1),
                tilt_x: read_i16(buf, at + 3),
                tilt_y: read_i16(buf, at + 5),
                x: read_i16(buf, at + 7),
                y: read_i16(buf, at + 9),
                timestamp: read_i32(buf, at + 11),
            },
        )
    }
}

impl Finger {
    /// Reads the finger fields that start at `at`.
    pub fn new(buf: &[u8], at: usize) -> (r: Result<Finger, String>)
        ensures
            r is Ok <==> at + FINGER_LEN <= buf@.len(),
            r is Ok ==> r->Ok_0 == finger_at(buf@, at as int),
            r is Err ==> r->Err_0@ == truncated_message(),
    {
        if at > buf.len() || buf.len() - at < FINGER_LEN {
            return Err(truncated_error());
        }
        Ok(
            Finger {
                slot: buf[at],
                down: buf[at + 1] != 0,
                total_down: buf[at + 2],
                tracking_id: read_i32(buf, at + 3),
                x: read_i16(buf, at + 7),
                y: read_i16(buf, at + 9),
            },
        )
    }
}

impl Event {
    /// Decodes one message. Fails, without reading past the message, when it
    /// is empty, has an unknown tag, or ends early.
    pub fn parse(buf: &[u8]) -> (r: Result<Event, String>)
        ensures
            r is Ok <==> decode(buf@) is Some,
            r is Ok ==> r->Ok_0 == decode(buf@)->0,
            r is Err ==> (if known_tag(buf@) || buf@.len() == 0 {
                r->Err_0@ == truncated_message()
            } else {
                r->Err_0@ == unknown_tag_message()
            }),
    {
        if buf.len() == 0 {
            return Err(truncated_error());
        }
        let tag = buf[0];
        if tag == 0 {
            match Init::new(buf, 1) {
                Ok(init) => Ok(Event::Init(init)),
                Err(e) => Err(e),
            }
        } else if tag == 1 {
            match Stylus::new(buf, 1) {
                Ok(stylus) => Ok(Event::Stylus(stylus)),
                Err(e) => Err(e),
            }
        } else if tag == 2 {
            match Finger::new(buf, 1) {
                Ok(finger) => Ok(Event::Finger(finger)),
                Err(e) => Err(e),
            }
        } else {
            Err(unknown_tag_error())
        }
    }
}

/// The 16-bit pattern of a value in `-0x8000..0x1_0000`.
pub open spec fn bits16(v: int) -> int {
    if v < 0 {
        v + 0x1_0000
    } else {
        v
    }
}

/// The 32-bit pattern of a value in `-0x8000_0000..0x1_0000_0000`.
pub open spec fn bits32(v: int) -> int {
    if v < 0 {
        v + 0x1_0000_0000
    } else {
        v
    }
}

/// Little-endian bytes of a 16-bit pattern.
pub open spec fn le16(u: int) -> Seq<u8> {
    seq![(u % 0x100) as u8, (u / 0x100) as u8]
}

/// Little-endian bytes of a 32-bit pattern.
pub open spec fn le32(u: int) -> Seq<u8> {
    le16(u % 0x1_0000) + le16(u / 0x1_0000)
}

/// The flags byte of a stylus sample.
pub open spec fn flags_byte(s: Stylus) -> u8 {
    ((if s.down { 1int } else { 0 }) + (if s.button { 2int } else { 0 }) + (if s.hover {
        4int
    } else {
        0
    })) as u8
}

/// The message that carries an event.
pub open spec fn encode(e: Event) -> Seq<u8> {
    match e {
        Event::Init(i) => seq![0u8] + le16(i.width as int) + le16(i.height as int),
        Event::Stylus(s) => seq![1u8, flags_byte(s)] + le16(bits16(s.pressure as int)) + le16(
            bits16(s.tilt_x as int),
        ) + le16(bits16(s.tilt_y as int)) + le16(bits16(s.x as int)) + le16(bits16(s.y as int))
            + le32(bits32(s.timestamp as int)),
        Event::Finger(f) => seq![2u8, f.slot, if f.down { 1u8 } else { 0u8 }, f.total_down]
            + le32(bits32(f.tracking_id as int)) + le16(bits16(f.x as int)) + le16(
            bits16(f.y as int),
        ),
    }
}

proof fn lemma_u16_round_trip(b: Seq<u8>, i: int, u: int)
    requires
        0 <= u < 0x1_0000,
        0 <= i,
        i + 2 <= b.len(),
        b[i] == (u % 0x100) as u8,
        b[i + 1] == (u / 0x100) as u8,
    ensures
        u16_at(b, i) == u,
{
}

proof fn lemma_i16_round_trip(b: Seq<u8>, i: int, v: i16)
    requires
        0 <= i,
        i + 2 <= b.len(),
        b.subrange(i, i + 2) == le16(bits16(v as int)),
    ensures
        i16_at(b, i) == v as int,
{
    let u = bits16(v as int);
    assert(b[i] == b.subrange(i, i + 2)[0]);
    assert(b[i + 1] == b.subrange(i, i + 2)[1]);
    lemma_u16_round_trip(b, i, u);
}

proof fn lemma_i32_round_trip(b: Seq<u8>, i: int, v: i32)
    requires
        0 <= i,
        i + 4 <= b.len(),
        b.subrange(i, i + 4) == le32(bits32(v as int)),
    ensures
        i32_at(b, i) == v as int,
{
    let u = bits32(v as int);
    let w = b.subrange(i, i + 4);
    assert(b[i] == w[0] && b[i + 1] == w[1] && b[i + 2] == w[2] && b[i + 3] == w[3]);
    lemma_u16_round_trip(b, i, u % 0x1_0000);
    lemma_u16_round_trip(b, i + 2, u / 0x1_0000);
}

proof fn lemma_flag_bits(a: u8, b: u8, c: u8)
    requires
        a <= 1,
        b <= 1,
        c <= 1,
    ensures
        (a + 2 * b + 4 * c) as u8 & 1 != 0 <==> a == 1,
        (a + 2 * b + 4 * c) as u8 & 2 != 0 <==> b == 1,
        (a + 2 * b + 4 * c) as u8 & 4 != 0 <==> c == 1,
{
    assert(((a + 2 * b + 4 * c) as u8 & 1 != 0 <==> a == 1) && ((a + 2 * b + 4 * c) as u8 & 2
        != 0 <==> b == 1) && ((a + 2 * b + 4 * c) as u8 & 4 != 0 <==> c == 1)) by (bit_vector)
        requires
            a <= 1,
            b <= 1,
            c <= 1,
    ;
}

/// Every event survives encoding and decoding unchanged, and every proper
/// prefix of its message fails to decode.
pub proof fn lemma_decode_round_trip(e: Event)
    ensures
        decode(encode(e)) == Some(e),
        forall|n: int| 0 <= n < encode(e).len() ==> decode(#[trigger] encode(e).take(n)) is None,
{
    let b = encode(e);
    match e {
        Event::Init(i) => {
            assert(b.len() == 1 + INIT_LEN);
            lemma_u16_round_trip(b, 1, i.width as int);
            lemma_u16_round_trip(b, 3, i.height as int);
            assert(init_at(b, 1) == i);
        },
        Event::Stylus(s) => {
            assert(b.len() == 1 + STYLUS_LEN);
            let a: u8 = if s.down { 1 } else { 0 };
            let bt: u8 = if s.button { 1 } else { 0 };
            let c: u8 = if s.hover { 1 } else { 0 };
            lemma_flag_bits(a, bt, c);
            assert(b[1] == (a + 2 * bt + 4 * c) as u8);
            assert(b.subrange(2, 4) == le16(bits16(s.pressure as int)));
            assert(b.subrange(4, 6) == le16(bits16(s.tilt_x as int)));
            assert(b.subrange(6, 8) == le16(bits16(s.tilt_y as int)));
            assert(b.subrange(8, 10) == le16(bits16(s.x as int)));
            assert(b.subrange(10, 12) == le16(bits16(s.y as int)));
            assert(b.subrange(12, 16) == le32(bits32(s.timestamp as int)));
            lemma_i16_round_trip(b, 2, s.pressure);
            lemma_i16_round_trip(b, 4, s.tilt_x);
            lemma_i16_round_trip(b, 6, s.tilt_y);
            lemma_i16_round_trip(b, 8, s.x);
            lemma_i16_round_trip(b, 10, s.y);
            lemma_i32_round_trip(b, 12, s.timestamp);
            assert(stylus_at(b, 1) == s);
        },
        Event::Finger(f) => {
            assert(b.len() == 1 + FINGER_LEN);
            assert(b.subrange(4, 8) == le32(bits32(f.tracking_id as int)));
            assert(b.subrange(8, 10) == le16(bits16(f.x as int)));
            assert(b.subrange(10, 12) == le16(bits16(f.y as int)));
            lemma_i32_round_trip(b, 4, f.tracking_id);
            lemma_i16_round_trip(b, 8, f.x);
            lemma_i16_round_trip(b, 10, f.y);
            assert(finger_at(b, 1) == f);
        },
    }
    assert forall|n: int| 0 <= n < b.len() implies decode(#[trigger] b.take(n)) is None by {
        if n > 0 {
            assert(b.take(n)[0] == b[0]);
        }
    }
}

/// A message whose first byte names no variant never decodes.
pub proof fn lemma_unknown_tag_rejected(b: Seq<u8>)
    requires
        b.len() > 0,
        b[0] > 2,
    ensures
        decode(b) is None,
        !known_tag(b),
{
}

} // verus!
