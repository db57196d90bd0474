use vstd::prelude::*;

verus! {

/// Whether a packet belongs to a stream of packets.
#[derive(Copy, Clone, Debug, PartialEq, Eq, Structural)]
pub enum IsStream {
    No,
    Yes,
}

/// Whether a packet ends its stream.
#[derive(Copy, Clone, Debug, PartialEq, Eq, Structural)]
pub enum IsEnd {
    No,
    Yes,
}

/// How the body of a packet is to be read.
#[derive(Copy, Clone, Debug, PartialEq, Eq, Structural)]
pub enum BodyType {
    Binary,
    Utf8String,
    Json,
}

/// Bit of the flag byte that marks a stream packet.
pub const STREAM_BIT: u8 = 0x08;

/// Bit of the flag byte that marks the end of a stream.
pub const END_BIT: u8 = 0x04;

/// Bits of the flag byte that give the body type.
pub const TYPE_MASK: u8 = 0x03;

/// The stream flag that a flag byte carries.
pub open spec fn is_stream_of(flags: u8) -> IsStream {
    if flags & STREAM_BIT == STREAM_BIT {
        IsStream::Yes
    } else {
        IsStream::No
    }
}

/// The end flag that a flag byte carries.
pub open spec fn is_end_of(flags: u8) -> IsEnd {
    if flags & END_BIT == END_BIT {
        IsEnd::Yes
    } else {
        IsEnd::No
    }
}

/// The body type that a flag byte carries; the reserved pattern `0b11` reads as binary.
pub open spec fn body_type_of(flags: u8) -> BodyType {
    let t = flags & TYPE_MASK;
    if t == 1 {
        BodyType::Utf8String
    } else if t == 2 {
        BodyType::Json
    } else {
        BodyType::Binary
    }
}

/// The flag byte that carries the three classifications.
pub open spec fn flag_byte(s: IsStream, e: IsEnd, t: BodyType) -> u8 {
    let sb: u8 = if s == IsStream::Yes { STREAM_BIT } else { 0 };
    let eb: u8 = if e == IsEnd::Yes { END_BIT } else { 0 };
    let tb: u8 = match t {
        BodyType::Binary => 0,
        BodyType::Utf8String => 1,
        BodyType::Json => 2,
    };
    sb | eb | tb
}

/// Reading back the flag byte of three classifications gives the same three.
pub proof fn lemma_flag_byte_round_trip(s: IsStream, e: IsEnd, t: BodyType)
    ensures
        is_stream_of(flag_byte(s, e, t)) == s,
        is_end_of(flag_byte(s, e, t)) == e,
        body_type_of(flag_byte(s, e, t)) == t,
{
    assert(forall|sb: u8, eb: u8, tb: u8|
        (sb == 0 || sb == 8) && (eb == 0 || eb == 4) && tb < 3 ==> {
            &&& ((sb | eb | tb) & 8u8 == 8u8) == (sb == 8)
            &&& ((sb | eb | tb) & 4u8 == 4u8) == (eb == 4)
            &&& (sb | eb | tb) & 3u8 == tb
        }) by (bit_vector);
}

impl From<u8> for IsStream {
    fn from(flags: u8) -> (r: IsStream)
        ensures
            r == is_stream_of(flags),
    {
        if flags & STREAM_BIT == STREAM_BIT {
            IsStream::Yes
        } else {
            IsStream::No
        }
    }
}

impl vstd::std_specs::convert::FromSpecImpl<u8> for IsStream {
    open spec fn obeys_from_spec() -> bool {
        true
    }

    open spec fn from_spec(flags: u8) -> IsStream {
        is_stream_of(flags)
    }
}

impl From<u8> for IsEnd {
    fn from(flags: u8) -> (r: IsEnd)
        ensures
            r == is_end_of(flags),
    {
        if flags & END_BIT == END_BIT {
            IsEnd::Yes
        } else {
            IsEnd::No
        }
    }
}

impl vstd::std_specs::convert::FromSpecImpl<u8> for IsEnd {
    open spec fn obeys_from_spec() -> bool {
        true
    }

    open spec fn from_spec(flags: u8) -> IsEnd {
        is_end_of(flags)
    }
}

impl From<u8> for BodyType {
    fn from(flags: u8) -> (r: BodyType)
        ensures
            r == body_type_of(flags),
    {
        let t: u8 = flags & TYPE_MASK;
        if t == 1 {
            BodyType::Utf8String
        } else if t == 2 {
            BodyType::Json
        } else {
            BodyType::Binary
        }
    }
}

impl vstd::std_specs::convert::FromSpecImpl<u8> for BodyType {
    open spec fn obeys_from_spec() -> bool {
        true
    }

    open spec fn from_spec(flags: u8) -> BodyType {
        body_type_of(flags)
    }
}

/// One decoded protocol unit.
#[derive(Clone, Debug)]
pub struct Packet {
    pub stream: IsStream,
    pub end: IsEnd,
    pub body_type: BodyType,
    pub id: i32,
    pub body: Vec<u8>,
}

impl Packet {
    pub fn new(stream: IsStream, end: IsEnd, body_type: BodyType, id: i32, body: Vec<u8>) -> (r:
        Packet)
        ensures
            r.stream == stream,
            r.end == end,
            r.body_type == body_type,
            r.id == id,
            r.body@ == body@,
    {
        Packet { stream, end, body_type, id, body }
    }
}

} // verus!
