use crate::frame::{
    advance, body_len_of, decodes_to, header_body_len, header_id, header_is_goodbye, is_goodbye,
    pending, wanted, Progress, HEADER_LEN,
};
use crate::packet::{BodyType, IsEnd, IsStream, Packet};
use vstd::prelude::*;

verus! {

#[verifier::external_type_specification]
#[verifier::external_body]
pub struct ExIoError(std::io::Error);

/// Relies on std's `From<io::ErrorKind> for io::Error`: the error of kind
/// `UnexpectedEof` that stands for a source that ended too early.
#[verifier::external_body]
fn unexpected_eof() -> std::io::Error {
    std::io::Error::from(std::io::ErrorKind::UnexpectedEof)
}

/// Why decoding failed.
#[derive(Debug)]
pub enum Error {
    /// A failure to receive a packet at all; the decoder itself reports the
    /// more precise kinds below.
    Recv { source: std::io::Error },
    /// The source failed, or ended, inside a header.
    Header { source: std::io::Error },
    /// The source failed, or ended, inside a body of the given declared size.
    Body { size: usize, source: std::io::Error },
    /// The source ended before a header began, without the goodbye marker.
    NoGoodbye {},
}

/// What a poll of the stream reports, or asks of its driver.
#[derive(Debug)]
pub enum Step {
    /// Read up to this many bytes from the source and hand the outcome to `resume`.
    Read(usize),
    /// The next item of the stream: a packet or the error that ended the stream.
    Item(Result<Packet, Error>),
    /// The stream has finished and yields nothing more.
    Finished,
}

/// The abstract state of a decoder.
pub enum Phase {
    /// Idle, between packets.
    Ready,
    /// Inside a decode attempt; these are the bytes of the frame received so far.
    Waiting(Seq<u8>),
    /// Finished for good.
    Closed,
    /// The transient placeholder of a transition.
    Invalid,
}

/// A decode attempt in flight: it owns the source until it completes.
struct Recv<R> {
    source: R,
    head: Vec<u8>,
    body: Vec<u8>,
    body_len: usize,
}

impl<R> Recv<R> {
    spec fn got(&self) -> Seq<u8> {
        self.head@ + self.body@
    }

    spec fn wf(&self) -> bool {
        &&& self.head@.len() <= HEADER_LEN
        &&& self.head@.len() < HEADER_LEN ==> self.body@.len() == 0
        &&& self.head@.len() == HEADER_LEN ==> self.body_len == body_len_of(
            self.head@,
        )
        &&& pending(self.got())
    }
}

enum State<R> {
    Ready(R),
    Waiting(Recv<R>),
    Closed(R),
    Invalid,
}

impl<R> State<R> {
    fn take(&mut self) -> (r: Self)
        ensures
            r == *old(self),
            *final(self) == State::<R>::Invalid,
    {
        let mut out = State::Invalid;
        core::mem::swap(self, &mut out);
        out
    }
}

spec fn phase_of<R>(s: &State<R>) -> Phase {
    match s {
        State::Ready(_) => Phase::Ready,
        State::Waiting(rc) => Phase::Waiting(rc.got()),
        State::Closed(_) => Phase::Closed,
        State::Invalid => Phase::Invalid,
    }
}

spec fn source_of<R>(s: &State<R>) -> R {
    match s {
        State::Ready(r) => *r,
        State::Waiting(rc) => rc.source,
        State::Closed(r) => *r,
        State::Invalid => vstd::pervasive::arbitrary(),
    }
}

spec fn state_wf<R>(s: &State<R>) -> bool {
    match s {
        State::Waiting(rc) => rc.wf(),
        State::Invalid => false,
        _ => true,
    }
}

/// What a read does to a decode attempt: `None` for a failed read, else the bytes read.
pub open spec fn read_view(read: &Result<Vec<u8>, std::io::Error>) -> Option<Seq<u8>> {
    match read {
        Ok(v) => Some(v@),
        Err(_) => None,
    }
}

/// Whether the phase `after` and the report `step` are what the outcome `p` of the
/// read `read` calls for.
pub open spec fn reports(
    p: Progress,
    read: &Result<Vec<u8>, std::io::Error>,
    after: Phase,
    step: &Step,
) -> bool {
    match p {
        Progress::Partial(g) => after == Phase::Waiting(g) && *step == Step::Read(
            wanted(g) as usize,
        ),
        Progress::Goodbye => after == Phase::Closed && *step == Step::Finished,
        Progress::Complete(f) => after == Phase::Ready && match step {
            Step::Item(Ok(packet)) => decodes_to(f, *packet),
            _ => false,
        },
        Progress::NoGoodbye => after == Phase::Closed && match step {
            Step::Item(Err(Error::NoGoodbye {  })) => true,
            _ => false,
        },
        Progress::HeaderFailed => after == Phase::Closed && match step {
            Step::Item(Err(Error::Header { source })) => match read {
                Err(e) => *source == *e,
                Ok(_) => true,
            },
            _ => false,
        },
        Progress::BodyFailed(n) => after == Phase::Closed && match step {
            Step::Item(Err(Error::Body { size, source })) => *size as nat == n && match read {
                Err(e) => *source == *e,
                Ok(_) => true,
            },
            _ => false,
        },
    }
}

/// The packet that a complete header and its body make.
fn make_packet(head: &Vec<u8>, body: Vec<u8>) -> (p: Packet)
    requires
        head@.len() == HEADER_LEN,
    ensures
        decodes_to(head@ + body@, p),
{
    let ghost f = head@ + body@;
    let flags: u8 = head[0];
    let id = header_id(head);
    proof {
        assert(f.subrange(5, 9) =~= head@.subrange(5, 9));
        assert(f.subrange(HEADER_LEN as int, f.len() as int) =~= body@);
    }
    Packet::new(IsStream::from(flags), IsEnd::from(flags), BodyType::from(flags), id, body)
}

impl<R> Recv<R> {
    fn wanted(&self) -> (n: usize)
        requires
            self.wf(),
        ensures
            n as nat == wanted(self.got()),
    {
        proof {
            if self.head@.len() == HEADER_LEN {
                assert(self.got().subrange(1, 5) =~= self.head@.subrange(1, 5));
            }
        }
        if self.head.len() < HEADER_LEN {
            HEADER_LEN - self.head.len()
        } else {
            self.body_len - self.body.len()
        }
    }

    /// Hands one read to the attempt: returns the state that follows and what it reports.
    fn feed(self, read: Result<Vec<u8>, std::io::Error>) -> (res: (State<R>, Step))
        requires
            self.wf(),
            read is Ok ==> read->Ok_0@.len() <= wanted(self.got()),
        ensures
            state_wf(&res.0),
            source_of(&res.0) == self.source,
            reports(advance(self.got(), read_view(&read)), &read, phase_of(&res.0), &res.1),
    {
        let ghost got = self.got();
        proof {
            if self.head@.len() == HEADER_LEN {
                assert(got.subrange(1, 5) =~= self.head@.subrange(1, 5));
            }
        }
        let Recv { source, mut head, mut body, body_len } = self;
        match read {
            Err(e) => {
                let err = if head.len() < HEADER_LEN {
                    Error::Header { source: e }
                } else {
                    Error::Body { size: body_len, source: e }
                };
                (State::Closed(source), Step::Item(Err(err)))
            },
            Ok(mut chunk) => {
                if chunk.len() == 0 {
                    let err = if head.len() == 0 {
                        Error::NoGoodbye {  }
                    } else if head.len() < HEADER_LEN {
                        Error::Header { source: unexpected_eof() }
                    } else {
                        Error::Body { size: body_len, source: unexpected_eof() }
                    };
                    (State::Closed(source), Step::Item(Err(err)))
                } else if head.len() < HEADER_LEN {
                    let ghost next = got + chunk@;
                    head.append(&mut chunk);
                    assert(head@ =~= next);
                    if head.len() < HEADER_LEN {
                        let n = HEADER_LEN - head.len();
                        (State::Waiting(Recv { source, head, body, body_len }), Step::Read(n))
                    } else if header_is_goodbye(&head) {
                        (State::Closed(source), Step::Finished)
                    } else {
                        let len = header_body_len(&head) as usize;
                        if len == 0 {
                            assert(head@ + body@ =~= head@);
                            let p = make_packet(&head, body);
                            (State::Ready(source), Step::Item(Ok(p)))
                        } else {
                            let rc = Recv { source, head, body, body_len: len };
                            assert(rc.got() =~= next);
                            (State::Waiting(rc), Step::Read(len))
                        }
                    }
                } else {
                    let ghost next = got + chunk@;
                    body.append(&mut chunk);
                    assert(head@ + body@ =~= next);
                    assert(next.subrange(1, 5) =~= head@.subrange(1, 5));
                    assert(is_goodbye(next) == is_goodbye(head@));
                    if body.len() == body_len {
                        let p = make_packet(&head, body);
                        (State::Ready(source), Step::Item(Ok(p)))
                    } else {
                        let n = body_len - body.len();
                        (State::Waiting(Recv { source, head, body, body_len }), Step::Read(n))
                    }
                }
            },
        }
    }
}

/// Decodes the packets of a byte source.
pub struct PacketStream<R> {
    state: State<R>,
}

impl<R> PacketStream<R> {
    /// The abstract state of the decoder.
    pub closed spec fn phase(&self) -> Phase {
        phase_of(&self.state)
    }

    /// The byte source that the decoder holds, or that its decode attempt holds.
    pub closed spec fn source(&self) -> R {
        source_of(&self.state)
    }

    /// The decoder is in one of its real states, and a decode attempt in flight
    /// still waits for bytes.
    pub closed spec fn wf(&self) -> bool {
        state_wf(&self.state)
    }

    /// A decoder, ready, over the source `r`.
    pub fn new(r: R) -> (s: PacketStream<R>)
        ensures
            s.wf(),
            s.phase() == Phase::Ready,
            s.source() == r,
    {
        PacketStream { state: State::Ready(r) }
    }

    /// Whether the decoder has finished for good.
    pub fn is_closed(&self) -> (r: bool)
        ensures
            r == (self.phase() == Phase::Closed),
    {
        match &self.state {
            State::Closed(_) => true,
            _ => false,
        }
    }

    /// Whether a decode attempt is in flight: the source is then not to be taken back.
    pub fn is_waiting(&self) -> (r: bool)
        ensures
            r == (self.phase() is Waiting),
    {
        match &self.state {
            State::Waiting(_) => true,
            _ => false,
        }
    }

    /// Whether the stream is known to yield nothing more.
    pub fn is_terminated(&self) -> (r: bool)
        ensures
            r == (self.phase() == Phase::Closed),
    {
        self.is_closed()
    }

    /// Takes the decoder apart and gives the source back, with whatever it has
    /// consumed; not while a decode attempt is in flight.
    pub fn into_inner(self) -> (r: R)
        requires
            self.phase() == Phase::Ready || self.phase() == Phase::Closed,
        ensures
            r == self.source(),
    {
        let mut s = self;
        match s.state.take() {
            State::Ready(r) => r,
            State::Closed(r) => r,
            _ => vstd::pervasive::unreached(),
        }
    }

    /// The source, for the driver to read from as a `Step::Read` asks.
    pub fn source_mut(&mut self) -> (r: &mut R)
        requires
            old(self).wf(),
        ensures
            *r == old(self).source(),
            final(self).wf(),
            final(self).phase() == old(self).phase(),
            final(self).source() == *final(r),
    {
        match &mut self.state {
            State::Ready(r) => r,
            State::Waiting(rc) => &mut rc.source,
            State::Closed(r) => r,
            State::Invalid => vstd::pervasive::unreached(),
        }
    }

    /// Polls the stream: a ready decoder begins a decode attempt and asks for the
    /// nine bytes of a header; one in an attempt asks again for what it still
    /// wants; a closed one reports the end, and never reads again.
    pub fn poll_next(&mut self) -> (step: Step)
        requires
            old(self).wf(),
        ensures
            final(self).wf(),
            final(self).source() == old(self).source(),
            match old(self).phase() {
                Phase::Ready => final(self).phase() == Phase::Waiting(Seq::empty()) && step
                    == Step::Read(HEADER_LEN),
                Phase::Waiting(got) => final(self).phase() == old(self).phase() && step
                    == Step::Read(wanted(got) as usize),
                Phase::Closed => final(self).phase() == Phase::Closed && step == Step::Finished,
                Phase::Invalid => false,
            },
    {
        let (next, step) = match self.state.take() {
            State::Ready(r) => {
                let rc = Recv { source: r, head: Vec::new(), body: Vec::new(), body_len: 0 };
                assert(rc.got() =~= Seq::empty());
                (State::Waiting(rc), Step::Read(HEADER_LEN))
            },
            State::Waiting(rc) => {
                let n = rc.wanted();
                (State::Waiting(rc), Step::Read(n))
            },
            State::Closed(r) => (State::Closed(r), Step::Finished),
            State::Invalid => vstd::pervasive::unreached(),
        };
        self.state = next;
        step
    }

    /// Hands the outcome of the read that a `Step::Read` asked for to the decode
    /// attempt in flight: `Ok` with the bytes read (none when the source has
    /// ended), or the error of the read.
    pub fn resume(&mut self, read: Result<Vec<u8>, std::io::Error>) -> (step: Step)
        requires
            old(self).wf(),
            old(self).phase() is Waiting,
            read is Ok ==> read->Ok_0@.len() <= wanted(old(self).phase()->Waiting_0),
        ensures
            final(self).wf(),
            final(self).source() == old(self).source(),
            reports(
                advance(old(self).phase()->Waiting_0, read_view(&read)),
                &read,
                final(self).phase(),
                &step,
            ),
    {
        let (next, step) = match self.state.take() {
            State::Waiting(rc) => rc.feed(read),
            _ => vstd::pervasive::unreached(),
        };
        self.state = next;
        step
    }
}

} // verus!
