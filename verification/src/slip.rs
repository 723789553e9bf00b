//! SLIP deframing: turns a stream of raw bytes, handed over in chunks of any
//! size, into frames.
//!
//! The decoder keeps the bytes of the chunk it was last given, with a cursor
//! into them, and a buffer in which it assembles the frame. A complete frame
//! is lent from that buffer until the next call. Reading the byte source is
//! the caller's part: [`Slip::read`] says when it wants another chunk.

use crate::hex::{hex_pair, push_hex};
use vstd::prelude::*;
use vstd::string::StringExecFns;

verus! {

/// Ends a frame.
pub const END: u8 = 0xc0;

/// Announces an escaped byte.
pub const ESC: u8 = 0xdb;

/// After [`ESC`]: a literal [`END`].
pub const ESC_END: u8 = 0xdc;

/// After [`ESC`]: a literal [`ESC`].
pub const ESC_ESC: u8 = 0xdd;

/// Why the decoder gave up on the frame under assembly, or on the source.
#[derive(Debug, PartialEq, Eq)]
pub enum SlipError {
    /// A byte arrived while the frame buffer was full.
    Overflow,
    /// A terminator arrived with fewer than two bytes assembled.
    EmptyCommand,
    /// In escape mode, a byte that is neither [`ESC_END`] nor [`ESC_ESC`].
    InvalidEscape(u8),
    /// The byte source failed; the text is the source's own.
    Io(String),
}

impl SlipError {
    /// The error in words.
    pub open spec fn text(self) -> Seq<char> {
        match self {
            SlipError::Overflow => "push_byte overflow"@,
            SlipError::EmptyCommand => "empty command"@,
            SlipError::InvalidEscape(byte) => "invalid escape sequence: "@ + hex_pair(byte, false),
            SlipError::Io(text) => text@,
        }
    }

    /// The error in words, for a log or a caller that passes text on.
    pub fn message(&self) -> (r: String)
        ensures
            r@ == self.text(),
    {
        match self {
            SlipError::Overflow => String::from_str("push_byte overflow"),
            SlipError::EmptyCommand => String::from_str("empty command"),
            SlipError::InvalidEscape(byte) => {
                let mut text = String::from_str("invalid escape sequence: ");
                push_hex(&mut text, *byte, false);
                text
            },
            SlipError::Io(text) => text.clone(),
        }
    }
}

/// What one read of the byte source produced.
pub enum Chunk<'a> {
    /// The bytes read, possibly none.
    Bytes(&'a [u8]),
    /// The read timed out before any byte arrived.
    TimedOut,
    /// The read failed for another reason.
    Failed(String),
}

/// What the caller of [`Slip::read`] is to do next.
#[derive(Debug, Clone, Copy, PartialEq, Eq)]
pub enum Step<'a> {
    /// A frame is complete. It is lent from the decoder's frame buffer, which
    /// the next frame will overwrite.
    Frame(&'a [u8]),
    /// The source had nothing: there is no frame for now.
    Idle,
    /// Every byte handed over has been consumed: read the source and call
    /// again with what it produced.
    NeedInput,
}

/// A frame, or the reason one was dropped.
pub type Event = Result<Seq<u8>, SlipError>;

/// The protocol state between two bytes: whether the last byte was an
/// unanswered [`ESC`], and the bytes assembled so far.
pub struct Decoder {
    pub escaped: bool,
    pub partial: Seq<u8>,
}

/// The state before the first byte and after every event.
pub open spec fn idle() -> Decoder {
    Decoder { escaped: false, partial: Seq::empty() }
}

/// Appends a literal byte to the frame under assembly, unless `cap` bytes are
/// assembled already.
pub open spec fn store(cap: nat, partial: Seq<u8>, byte: u8) -> (Decoder, Option<Event>) {
    if partial.len() >= cap {
        (idle(), Some(Err(SlipError::Overflow)))
    } else {
        (Decoder { escaped: false, partial: partial.push(byte) }, None)
    }
}

/// One byte of input: the next state and the event, if the byte caused one.
/// `cap` is the capacity of the frame buffer.
pub open spec fn step(cap: nat, d: Decoder, byte: u8) -> (Decoder, Option<Event>) {
    if d.escaped {
        if byte == ESC_END {
            store(cap, d.partial, END)
        } else if byte == ESC_ESC {
            store(cap, d.partial, ESC)
        } else {
            (idle(), Some(Err(SlipError::InvalidEscape(byte))))
        }
    } else if byte == END {
        if d.partial.len() > 1 {
            (idle(), Some(Ok(d.partial)))
        } else {
            (idle(), Some(Err(SlipError::EmptyCommand)))
        }
    } else if byte == ESC {
        (Decoder { escaped: true, partial: d.partial }, None)
    } else {
        store(cap, d.partial, byte)
    }
}

/// Where a scan stops: the state reached, the bytes not looked at, and the
/// event that stopped it (none when the bytes ran out).
pub struct Scanned {
    pub decoder: Decoder,
    pub rest: Seq<u8>,
    pub event: Option<Event>,
}

/// Feeds `bytes` one by one until a byte causes an event.
pub open spec fn scanned(cap: nat, d: Decoder, bytes: Seq<u8>) -> Scanned
    decreases bytes.len(),
{
    if bytes.len() == 0 {
        Scanned { decoder: d, rest: bytes, event: None }
    } else {
        let (next, event) = step(cap, d, bytes[0]);
        if event is Some {
            Scanned { decoder: next, rest: bytes.skip(1), event }
        } else {
            scanned(cap, next, bytes.skip(1))
        }
    }
}

/// Mathematical model of a [`Slip`].
pub struct SlipView {
    /// The protocol state: escape mode and the frame under assembly.
    pub decoder: Decoder,
    /// Bytes handed over and not consumed yet.
    pub pending: Seq<u8>,
}

enum SlipState {
    Normal,
    Escape,
}

/// A SLIP decoder that holds up to `N` raw bytes between calls and assembles
/// frames of up to `M` bytes.
pub struct Slip<const N: usize, const M: usize> {
    state: SlipState,
    buf: [u8; N],
    rmax: usize,
    rpos: usize,
    frame: [u8; M],
    wpos: usize,
}

impl<const N: usize, const M: usize> View for Slip<N, M> {
    type V = SlipView;

    closed spec fn view(&self) -> SlipView {
        SlipView {
            decoder: Decoder {
                escaped: self.state is Escape,
                partial: self.frame@.take(self.wpos as int),
            },
            pending: self.buf@.subrange(self.rpos as int, self.rmax as int),
        }
    }
}

impl<const N: usize, const M: usize> Slip<N, M> {
    #[verifier::type_invariant]
    spec fn cursors_in_range(self) -> bool {
        &&& self.rpos <= self.rmax <= N
        &&& self.wpos <= M
    }

    /// A decoder with nothing pending and nothing assembled.
    pub fn new() -> (r: Self)
        ensures
            r@ == (SlipView { decoder: idle(), pending: Seq::empty() }),
    {
        let r = Self {
            state: SlipState::Normal,
            buf: [0; N],
            rmax: 0,
            rpos: 0,
            frame: [0; M],
            wpos: 0,
        };
        assert(r@.pending =~= Seq::<u8>::empty());
        assert(r@.decoder.partial =~= Seq::<u8>::empty());
        r
    }

    /// Whether every byte handed over has been consumed: the source is to be
    /// read before the next call of [`Slip::read`].
    pub fn is_drained(&self) -> (r: bool)
        ensures
            r == (self@.pending.len() == 0),
    {
        proof {
            use_type_invariant(self);
        }
        self.rpos >= self.rmax
    }

    /// Appends `byte` to the frame under assembly. When the frame buffer is
    /// full the frame is dropped and the overflow reported.
    fn push_byte(&mut self, byte: u8) -> (r: Result<(), SlipError>)
        ensures
            final(self)@.pending == old(self)@.pending,
            final(self)@.decoder.escaped == old(self)@.decoder.escaped,
            old(self)@.decoder.partial.len() >= M ==> {
                &&& r == Err::<(), SlipError>(SlipError::Overflow)
                &&& final(self)@.decoder.partial == Seq::<u8>::empty()
            },
            old(self)@.decoder.partial.len() < M ==> {
                &&& r == Ok::<(), SlipError>(())
                &&& final(self)@.decoder.partial == old(self)@.decoder.partial.push(byte)
            },
    {
        proof {
            use_type_invariant(&*self);
        }
        if self.wpos >= M {
            self.wpos = 0;
            assert(self@.decoder.partial =~= Seq::<u8>::empty());
            return Err(SlipError::Overflow);
        }
        self.frame[self.wpos] = byte;
        self.wpos += 1;
        assert(self@.decoder.partial =~= old(self)@.decoder.partial.push(byte));
        Ok(())
    }

    /// Takes over what one read of the byte source produced. Returns whether
    /// there are bytes to scan now; a timeout counts as a read of no bytes.
    fn fill(&mut self, chunk: Chunk<'_>) -> (r: Result<bool, SlipError>)
        requires
            old(self)@.pending.len() == 0,
            chunk matches Chunk::Bytes(data) ==> data@.len() <= N,
        ensures
            final(self)@.decoder == old(self)@.decoder,
            match chunk {
                Chunk::Bytes(data) => {
                    &&& r == Ok::<bool, SlipError>(data@.len() > 0)
                    &&& final(self)@.pending == data@
                },
                Chunk::TimedOut => {
                    &&& r == Ok::<bool, SlipError>(false)
                    &&& final(self)@.pending == Seq::<u8>::empty()
                },
                Chunk::Failed(text) => {
                    &&& r == Err::<bool, SlipError>(SlipError::Io(text))
                    &&& final(self)@.pending == Seq::<u8>::empty()
                },
            },
    {
        proof {
            use_type_invariant(&*self);
        }
        self.rpos = 0;
        self.rmax = 0;
        assert(self@.pending =~= Seq::<u8>::empty());
        match chunk {
            Chunk::Bytes(data) => {
                let n = data.len();
                let mut i: usize = 0;
                while i < n
                    invariant
                        n == data@.len(),
                        n <= N,
                        i <= n,
                        self.rpos == 0,
                        self.rmax == 0,
                        self.wpos == old(self).wpos,
                        self.wpos <= M,
                        self.frame == old(self).frame,
                        self.state == old(self).state,
                        self.buf@.take(i as int) == data@.take(i as int),
                    decreases n - i,
                {
                    self.buf[i] = data[i];
                    i += 1;
                    assert(self.buf@.take(i as int) =~= data@.take(i as int)) by {
                        assert forall|k: int| 0 <= k < i implies self.buf@[k] == data@[k] by {
                            if k < i - 1 {
                                assert(self.buf@[k] == self.buf@.take(i - 1)[k]);
                                assert(data@[k] == data@.take(i - 1)[k]);
                            }
                        }
                    }
                }
                self.rmax = n;
                assert(self@.pending =~= data@);
                Ok(n > 0)
            },
            Chunk::TimedOut => Ok(false),
            Chunk::Failed(text) => Err(SlipError::Io(text)),
        }
    }

    /// Consumes pending bytes up to the first that ends a frame or causes an
    /// error. A frame is returned by its length: it is the front of the frame
    /// buffer.
    fn scan(&mut self) -> (r: Result<Option<usize>, SlipError>)
        ensures
            ({
                let s = scanned(M as nat, old(self)@.decoder, old(self)@.pending);
                &&& final(self)@.decoder == s.decoder
                &&& final(self)@.pending == s.rest
                &&& match s.event {
                    None => r == Ok::<Option<usize>, SlipError>(None),
                    Some(Ok(frame)) => {
                        &&& r matches Ok(Some(n))
                        &&& n == frame.len()
                        &&& n <= M
                        &&& final(self).frame@.take(n as int) == frame
                    },
                    Some(Err(e)) => r == Err::<Option<usize>, SlipError>(e),
                }
            }),
    {
        let ghost goal = scanned(M as nat, self@.decoder, self@.pending);
        loop
            invariant
                goal == scanned(M as nat, old(self)@.decoder, old(self)@.pending),
                scanned(M as nat, self@.decoder, self@.pending) == goal,
            decreases self@.pending.len(),
        {
            proof {
                use_type_invariant(&*self);
            }
            if self.rpos >= self.rmax {
                assert(self@.pending.len() == 0);
                return Ok(None);
            }
            let byte = self.buf[self.rpos];
            let ghost before = self@.decoder;
            let ghost pending = self@.pending;
            assert(pending[0] == byte);
            assert(pending.skip(1) =~= self.buf@.subrange(self.rpos + 1, self.rmax as int));
            self.rpos += 1;
            assert(self@.pending == pending.skip(1));
            let literal = match self.state {
                SlipState::Normal => {
                    if byte == END {
                        let end = self.wpos;
                        self.wpos = 0;
                        assert(self@.decoder.partial =~= idle().partial);
                        if end > 1 {
                            return Ok(Some(end));
                        }
                        return Err(SlipError::EmptyCommand);
                    } else if byte == ESC {
                        self.state = SlipState::Escape;
                        assert(self@.decoder == step(M as nat, before, byte).0);
                        continue ;
                    } else {
                        byte
                    }
                },
                SlipState::Escape => {
                    self.state = SlipState::Normal;
                    if byte == ESC_END {
                        END
                    } else if byte == ESC_ESC {
                        ESC
                    } else {
                        self.wpos = 0;
                        assert(self@.decoder.partial =~= idle().partial);
                        return Err(SlipError::InvalidEscape(byte));
                    }
                },
            };
            assert(step(M as nat, before, byte) == store(M as nat, before.partial, literal));
            match self.push_byte(literal) {
                Ok(()) => {},
                Err(e) => {
                    return Err(e);
                },
            }
        }
    }

    /// One turn of the decoder. `chunk` is what the byte source produced if
    /// it was read for this turn; it may be given only when the decoder is
    /// drained. The decoder scans the bytes it holds up to the first event
    /// and says what comes next: a frame, nothing for now, or another read.
    pub fn read<'a>(&'a mut self, chunk: Option<Chunk<'_>>) -> (r: Result<Step<'a>, SlipError>)
        requires
            chunk is Some ==> old(self)@.pending.len() == 0,
            chunk matches Some(Chunk::Bytes(data)) ==> data@.len() <= N,
        ensures
            match chunk {
                Some(Chunk::Failed(text)) => {
                    &&& r == Err::<Step<'_>, SlipError>(SlipError::Io(text))
                    &&& final(self)@ == old(self)@
                },
                Some(Chunk::TimedOut) => {
                    &&& r == Ok::<Step<'_>, SlipError>(Step::Idle)
                    &&& final(self)@ == old(self)@
                },
                Some(Chunk::Bytes(data)) if data@.len() == 0 => {
                    &&& r == Ok::<Step<'_>, SlipError>(Step::Idle)
                    &&& final(self)@ == old(self)@
                },
                _ => {
                    let bytes = match chunk {
                        Some(Chunk::Bytes(data)) => data@,
                        _ => old(self)@.pending,
                    };
                    let s = scanned(M as nat, old(self)@.decoder, bytes);
                    &&& final(self)@.decoder == s.decoder
                    &&& final(self)@.pending == s.rest
                    &&& match s.event {
                        None => r == Ok::<Step<'_>, SlipError>(Step::NeedInput),
                        Some(Ok(frame)) => r matches Ok(Step::Frame(bytes)) && bytes@ == frame,
                        Some(Err(e)) => r == Err::<Step<'_>, SlipError>(e),
                    }
                },
            },
    {
        if let Some(c) = chunk {
            match self.fill(c) {
                Ok(true) => {},
                Ok(false) => {
                    assert(self@.pending =~= old(self)@.pending);
                    return Ok(Step::Idle);
                },
                Err(e) => {
                    assert(self@.pending =~= old(self)@.pending);
                    return Err(e);
                },
            }
        }
        match self.scan() {
            Ok(Some(n)) => {
                let frame = &self.frame[0..n];
                assert(frame@ =~= self.frame@.take(n as int));
                Ok(Step::Frame(frame))
            },
            Ok(None) => Ok(Step::NeedInput),
            Err(e) => Err(e),
        }
    }
}

} // verus!
