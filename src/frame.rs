use crate::packet::{
    body_type_of, flag_byte, is_end_of, is_stream_of, lemma_flag_byte_round_trip, BodyType, IsEnd,
    IsStream, Packet,
};
use vstd::arithmetic::div_mod::{lemma_fundamental_div_mod, lemma_mod_pos_bound};
use byteorder::{BigEndian, ByteOrder};
use vstd::prelude::*;

verus! {

/// Length of the fixed header that precedes every body.
pub const HEADER_LEN: usize = 9;

/// The unsigned integer that four bytes give, most significant first.
pub open spec fn be_u32(b: Seq<u8>) -> nat {
    b[0] as nat * 0x1000000 + b[1] as nat * 0x10000 + b[2] as nat * 0x100 + b[3] as nat
}

/// The signed two's-complement integer that four bytes give, most significant first.
pub open spec fn be_i32(b: Seq<u8>) -> int {
    if be_u32(b) >= 0x80000000 {
        be_u32(b) - 0x100000000
    } else {
        be_u32(b) as int
    }
}

/// The body length that a header declares.
pub open spec fn body_len_of(h: Seq<u8>) -> nat {
    be_u32(h.subrange(1, 5))
}

/// The identifier that a header carries.
pub open spec fn id_of(h: Seq<u8>) -> int {
    be_i32(h.subrange(5, 9))
}

/// Whether the first nine bytes are the all-zero goodbye marker.
pub open spec fn is_goodbye(h: Seq<u8>) -> bool {
    &&& h.len() >= HEADER_LEN
    &&& forall|i: int| 0 <= i < HEADER_LEN ==> h[i] == 0
}

/// Whether `got`, the bytes of a frame received so far, still waits for more.
pub open spec fn pending(got: Seq<u8>) -> bool {
    got.len() < HEADER_LEN || (!is_goodbye(got) && got.len() < HEADER_LEN + body_len_of(got))
}

/// How many more bytes the frame begun by `got` needs.
pub open spec fn wanted(got: Seq<u8>) -> nat {
    if got.len() < HEADER_LEN {
        (HEADER_LEN - got.len()) as nat
    } else {
        (HEADER_LEN + body_len_of(got) - got.len()) as nat
    }
}

/// Where one decode attempt stands.
pub enum Progress {
    /// More bytes are needed; these are the bytes of the frame so far.
    Partial(Seq<u8>),
    /// The goodbye marker was read.
    Goodbye,
    /// A whole frame was read: header and body.
    Complete(Seq<u8>),
    /// The source ended before the first byte of a header.
    NoGoodbye,
    /// The source failed or ended inside a header.
    HeaderFailed,
    /// The source failed or ended inside a body of the given declared size.
    BodyFailed(nat),
}

/// What the bytes received so far amount to.
pub open spec fn settle(got: Seq<u8>) -> Progress {
    if got.len() < HEADER_LEN {
        Progress::Partial(got)
    } else if is_goodbye(got) {
        Progress::Goodbye
    } else if got.len() == HEADER_LEN + body_len_of(got) {
        Progress::Complete(got)
    } else {
        Progress::Partial(got)
    }
}

/// The failure that a failed read, or a read at the end of the source, causes
/// once `got` has been received.
pub open spec fn failure(got: Seq<u8>) -> Progress {
    if got.len() < HEADER_LEN {
        Progress::HeaderFailed
    } else {
        Progress::BodyFailed(body_len_of(got))
    }
}

/// One read while `got` has been received: `None` for a failed read, else the
/// bytes read (none when the source has ended).
pub open spec fn advance(got: Seq<u8>, read: Option<Seq<u8>>) -> Progress {
    match read {
        None => failure(got),
        Some(chunk) => if chunk.len() == 0 {
            if got.len() == 0 {
                Progress::NoGoodbye
            } else {
                failure(got)
            }
        } else {
            settle(got + chunk)
        },
    }
}

/// Whether `p` is the packet that the complete frame `f` holds.
pub open spec fn decodes_to(f: Seq<u8>, p: Packet) -> bool {
    &&& p.stream == is_stream_of(f[0])
    &&& p.end == is_end_of(f[0])
    &&& p.body_type == body_type_of(f[0])
    &&& p.id as int == id_of(f)
    &&& p.body@ == f.subrange(HEADER_LEN as int, f.len() as int)
}

/// The four bytes of `n`, most significant first.
pub open spec fn be_bytes(n: nat) -> Seq<u8> {
    let q1 = n / 0x100;
    let q2 = q1 / 0x100;
    let q3 = q2 / 0x100;
    seq![(q3 % 0x100) as u8, (q2 % 0x100) as u8, (q1 % 0x100) as u8, (n % 0x100) as u8]
}

/// The 32-bit two's-complement pattern of `id`, as an unsigned number.
pub open spec fn twos_complement(id: i32) -> nat {
    if id < 0 {
        (id + 0x100000000) as nat
    } else {
        id as nat
    }
}

/// The frame that carries a packet: flag byte, body length, identifier, body.
pub open spec fn encode_frame(s: IsStream, e: IsEnd, t: BodyType, id: i32, body: Seq<u8>) -> Seq<
    u8,
> {
    seq![flag_byte(s, e, t)] + be_bytes(body.len()) + be_bytes(twos_complement(id)) + body
}

/// Reading four big-endian bytes back gives the number they were written from.
pub proof fn lemma_be_bytes(n: nat)
    requires
        n < 0x100000000,
    ensures
        be_bytes(n).len() == 4,
        be_u32(be_bytes(n)) == n,
{
    let q1 = n / 0x100;
    let q2 = q1 / 0x100;
    let q3 = q2 / 0x100;
    lemma_fundamental_div_mod(n as int, 0x100);
    lemma_fundamental_div_mod(q1 as int, 0x100);
    lemma_fundamental_div_mod(q2 as int, 0x100);
    lemma_fundamental_div_mod(q3 as int, 0x100);
    lemma_mod_pos_bound(n as int, 0x100);
    lemma_mod_pos_bound(q1 as int, 0x100);
    lemma_mod_pos_bound(q2 as int, 0x100);
    lemma_mod_pos_bound(q3 as int, 0x100);
    assert(q3 < 0x100);
    assert(q3 / 0x100 == 0);
}

/// Reading a written identifier back as two's complement gives the identifier.
pub proof fn lemma_be_bytes_signed(id: i32)
    ensures
        be_i32(be_bytes(twos_complement(id))) == id as int,
{
    lemma_be_bytes(twos_complement(id));
}

/// Relies on byteorder's `BigEndian::read_u32`: the first four bytes, most significant first.
#[verifier::external_body]
fn read_u32_be(b: &[u8]) -> (r: u32)
    requires
        b@.len() >= 4,
    ensures
        r as nat == be_u32(b@),
{
    BigEndian::read_u32(b)
}

/// Relies on byteorder's `BigEndian::read_i32`: the first four bytes, most significant
/// first, as two's complement.
#[verifier::external_body]
fn read_i32_be(b: &[u8]) -> (r: i32)
    requires
        b@.len() >= 4,
    ensures
        r as int == be_i32(b@),
{
    BigEndian::read_i32(b)
}

/// The body length that a complete header declares.
pub fn header_body_len(head: &Vec<u8>) -> (r: u32)
    requires
        head@.len() == HEADER_LEN,
    ensures
        r as nat == body_len_of(head@),
{
    let field = vstd::slice::slice_subrange(head.as_slice(), 1, 5);
    read_u32_be(field)
}

/// The identifier that a complete header carries.
pub fn header_id(head: &Vec<u8>) -> (r: i32)
    requires
        head@.len() == HEADER_LEN,
    ensures
        r as int == id_of(head@),
{
    let field = vstd::slice::slice_subrange(head.as_slice(), 5, 9);
    read_i32_be(field)
}

/// Whether a complete header is the goodbye marker.
pub fn header_is_goodbye(head: &Vec<u8>) -> (r: bool)
    requires
        head@.len() == HEADER_LEN,
    ensures
        r == is_goodbye(head@),
{
    let mut i: usize = 0;
    while i < HEADER_LEN
        invariant
            0 <= i <= HEADER_LEN,
            head@.len() == HEADER_LEN,
            forall|j: int| 0 <= j < i ==> head@[j] == 0,
        decreases HEADER_LEN - i,
    {
        if head[i] != 0 {
            return false;
        }
        i = i + 1;
    }
    true
}


/// Decoding what encoding a packet wrote gives the packet back: the header,
/// delivered whole, completes the frame at once when the body is empty and
/// otherwise asks for the body, which completes it; and the packet that the
/// frame holds has the flags, identifier and body that were written. The one
/// frame left out is the one whose header is all zero: that is the goodbye
/// marker.
pub proof fn lemma_round_trip(s: IsStream, e: IsEnd, t: BodyType, id: i32, body: Seq<u8>, p: Packet)
    requires
        body.len() < 0x100000000,
        !(flag_byte(s, e, t) == 0 && id == 0 && body.len() == 0),
        decodes_to(encode_frame(s, e, t, id, body), p),
    ensures
        ({
            let f = encode_frame(s, e, t, id, body);
            let h = f.subrange(0, HEADER_LEN as int);
            &&& body.len() == 0 ==> advance(Seq::empty(), Some(h)) == Progress::Complete(f)
            &&& body.len() > 0 ==> advance(Seq::empty(), Some(h)) == Progress::Partial(h)
            &&& body.len() > 0 ==> advance(h, Some(body)) == Progress::Complete(f)
        }),
        p.stream == s,
        p.end == e,
        p.body_type == t,
        p.id == id,
        p.body@ == body,
{
    let f = encode_frame(s, e, t, id, body);
    let h = f.subrange(0, HEADER_LEN as int);
    lemma_be_bytes(body.len());
    lemma_be_bytes_signed(id);
    lemma_flag_byte_round_trip(s, e, t);
    assert(f.subrange(1, 5) =~= be_bytes(body.len()));
    assert(f.subrange(5, 9) =~= be_bytes(twos_complement(id)));
    assert(h.subrange(1, 5) =~= f.subrange(1, 5));
    assert(f.subrange(HEADER_LEN as int, f.len() as int) =~= body);
    assert(!is_goodbye(f)) by {
        if is_goodbye(f) {
            assert(f[0] == 0 && f[1] == 0 && f[2] == 0 && f[3] == 0 && f[4] == 0);
            assert(f[5] == 0 && f[6] == 0 && f[7] == 0 && f[8] == 0);
        }
    }
    assert(!is_goodbye(h)) by {
        if is_goodbye(h) {
            assert forall|i: int| 0 <= i < HEADER_LEN implies f[i] == 0 by {
                assert(h[i] == f[i]);
            }
        }
    }
    assert(Seq::<u8>::empty() + h =~= h);
    if body.len() == 0 {
        assert(h =~= f);
    } else {
        assert(h + body =~= f);
    }
}

/// The all-zero header ends the stream, however its nine bytes are split
/// between reads.
pub proof fn lemma_goodbye(got: Seq<u8>, chunk: Seq<u8>)
    requires
        pending(got),
        chunk.len() > 0,
        got + chunk =~= Seq::new(HEADER_LEN as nat, |i: int| 0u8),
    ensures
        advance(got, Some(chunk)) == Progress::Goodbye,
{
    assert(is_goodbye(got + chunk));
}

/// A source that ends before the first byte of a header ended without the
/// goodbye marker; one that ends, or fails, later inside a header fails the
/// header.
pub proof fn lemma_end_before_header(got: Seq<u8>)
    requires
        got.len() < HEADER_LEN,
    ensures
        advance(Seq::empty(), Some(Seq::empty())) == Progress::NoGoodbye,
        advance(got, None) == Progress::HeaderFailed,
        got.len() > 0 ==> advance(got, Some(Seq::empty())) == Progress::HeaderFailed,
{
}

/// Bytes are accumulated across reads: a read of `a` leaves the attempt waiting
/// on the bytes so far followed by `a`, and a read of `b` after it has the same
/// outcome as one read of `a` followed by `b`.
pub proof fn lemma_split_read(got: Seq<u8>, a: Seq<u8>, b: Seq<u8>)
    requires
        pending(got),
        a.len() > 0,
        b.len() > 0,
        a.len() + b.len() <= wanted(got),
    ensures
        advance(got, Some(a)) == Progress::Partial(got + a),
        pending(got + a),
        wanted(got + a) == wanted(got) - a.len(),
        advance(got + a, Some(b)) == advance(got, Some(a + b)),
{
    let g = got + a;
    if got.len() >= HEADER_LEN {
        assert(g.subrange(1, 5) =~= got.subrange(1, 5));
        assert(is_goodbye(g) == is_goodbye(got)) by {
            if is_goodbye(g) {
                assert forall|i: int| 0 <= i < HEADER_LEN implies got[i] == 0 by {
                    assert(g[i] == got[i]);
                }
            }
        }
    }
    assert(g + b =~= got + (a + b));
}

/// A header that declares an empty body completes its frame: the packet has an
/// empty body and no read of a body is asked for.
pub proof fn lemma_empty_body(got: Seq<u8>, chunk: Seq<u8>)
    requires
        pending(got),
        chunk.len() > 0,
        (got + chunk).len() == HEADER_LEN,
        !is_goodbye(got + chunk),
        body_len_of(got + chunk) == 0,
    ensures
        advance(got, Some(chunk)) == Progress::Complete(got + chunk),
        (got + chunk).subrange(HEADER_LEN as int, HEADER_LEN as int) =~= Seq::<u8>::empty(),
{
}

} // verus!
