//! The decoder over whole streams: what a sequence of bytes decodes to, how the
//! device encodes frames, and the laws that tie the two together.

use crate::slip::{idle, scanned, step, Decoder, Event, SlipError, END, ESC, ESC_END, ESC_ESC};
use vstd::prelude::*;

verus! {

/// The outcome of feeding a run of bytes: the state reached and the events
/// caused on the way, in order.
pub struct Run {
    pub decoder: Decoder,
    pub events: Seq<Event>,
}

/// One run followed by another.
pub open spec fn then(first: Run, second: Run) -> Run {
    Run { decoder: second.decoder, events: first.events + second.events }
}

/// Feeds all of `bytes` to a decoder in state `d`.
pub open spec fn run(cap: nat, d: Decoder, bytes: Seq<u8>) -> Run
    decreases bytes.len(),
{
    if bytes.len() == 0 {
        Run { decoder: d, events: Seq::empty() }
    } else {
        let (next, event) = step(cap, d, bytes[0]);
        let head = Run {
            decoder: next,
            events: match event {
                Some(e) => seq![e],
                None => Seq::empty(),
            },
        };
        then(head, run(cap, next, bytes.skip(1)))
    }
}

/// Feeds the chunks one after the other, as separate reads of the source do.
pub open spec fn run_chunks(cap: nat, d: Decoder, chunks: Seq<Seq<u8>>) -> Run
    decreases chunks.len(),
{
    if chunks.len() == 0 {
        Run { decoder: d, events: Seq::empty() }
    } else {
        let head = run(cap, d, chunks[0]);
        then(head, run_chunks(cap, head.decoder, chunks.skip(1)))
    }
}

/// The chunks laid end to end.
pub open spec fn joined(chunks: Seq<Seq<u8>>) -> Seq<u8>
    decreases chunks.len(),
{
    if chunks.len() == 0 {
        Seq::empty()
    } else {
        chunks[0] + joined(chunks.skip(1))
    }
}

/// How one byte of a frame travels: the two special bytes are escaped.
pub open spec fn escaped_byte(byte: u8) -> Seq<u8> {
    if byte == END {
        seq![ESC, ESC_END]
    } else if byte == ESC {
        seq![ESC, ESC_ESC]
    } else {
        seq![byte]
    }
}

/// The bytes of a frame, escaped, without the terminator.
pub open spec fn encode_body(frame: Seq<u8>) -> Seq<u8>
    decreases frame.len(),
{
    if frame.len() == 0 {
        Seq::empty()
    } else {
        escaped_byte(frame[0]) + encode_body(frame.skip(1))
    }
}

/// A frame as it travels: escaped and terminated.
pub open spec fn encode(frame: Seq<u8>) -> Seq<u8> {
    encode_body(frame).push(END)
}

/// The frames as they travel, one after the other.
pub open spec fn stream(frames: Seq<Seq<u8>>) -> Seq<u8>
    decreases frames.len(),
{
    if frames.len() == 0 {
        Seq::empty()
    } else {
        encode(frames[0]) + stream(frames.skip(1))
    }
}

/// A frame that a decoder with a frame buffer of `cap` bytes delivers: more
/// than one byte, and no more than the buffer holds.
pub open spec fn deliverable(cap: nat, frame: Seq<u8>) -> bool {
    1 < frame.len() <= cap
}

/// The events of a stream in which every frame is delivered.
pub open spec fn delivered(frames: Seq<Seq<u8>>) -> Seq<Event> {
    Seq::new(frames.len(), |i: int| Ok(frames[i]))
}

/// Feeding `a` and then `b` is feeding `a + b`: where a stream is cut into
/// chunks makes no difference.
pub proof fn lemma_run_append(cap: nat, d: Decoder, a: Seq<u8>, b: Seq<u8>)
    ensures
        run(cap, d, a + b) == then(run(cap, d, a), run(cap, run(cap, d, a).decoder, b)),
    decreases a.len(),
{
    let whole = run(cap, d, a + b);
    let parts = then(run(cap, d, a), run(cap, run(cap, d, a).decoder, b));
    if a.len() == 0 {
        assert(a + b =~= b);
        assert(parts.events =~= whole.events);
    } else {
        let (next, event) = step(cap, d, a[0]);
        assert((a + b)[0] == a[0]);
        assert((a + b).skip(1) =~= a.skip(1) + b);
        lemma_run_append(cap, next, a.skip(1), b);
        assert(parts.events =~= whole.events);
    }
}

/// Feeding chunk after chunk is feeding the chunks laid end to end.
pub proof fn lemma_run_chunks(cap: nat, d: Decoder, chunks: Seq<Seq<u8>>)
    ensures
        run_chunks(cap, d, chunks) == run(cap, d, joined(chunks)),
    decreases chunks.len(),
{
    if chunks.len() > 0 {
        let head = run(cap, d, chunks[0]);
        lemma_run_chunks(cap, head.decoder, chunks.skip(1));
        lemma_run_append(cap, d, chunks[0], joined(chunks.skip(1)));
    }
}

/// A scan returns the first event of the bytes it was given and leaves the
/// rest: the events of a run are what successive scans return.
pub proof fn lemma_scan_heads_run(cap: nat, d: Decoder, bytes: Seq<u8>)
    ensures
        ({
            let s = scanned(cap, d, bytes);
            run(cap, d, bytes) == match s.event {
                None => Run { decoder: s.decoder, events: Seq::empty() },
                Some(e) => then(
                    Run { decoder: s.decoder, events: seq![e] },
                    run(cap, s.decoder, s.rest),
                ),
            }
        }),
        scanned(cap, d, bytes).event is None ==> scanned(cap, d, bytes).rest.len() == 0,
    decreases bytes.len(),
{
    if bytes.len() > 0 {
        let (next, event) = step(cap, d, bytes[0]);
        let s = scanned(cap, d, bytes);
        if event is Some {
            assert(run(cap, d, bytes).events =~= seq![event.unwrap()] + run(
                cap,
                s.decoder,
                s.rest,
            ).events);
        } else {
            lemma_scan_heads_run(cap, next, bytes.skip(1));
            assert(run(cap, d, bytes).events =~= run(cap, next, bytes.skip(1)).events);
        }
    }
}

/// The escaped bytes of `frame` are assembled behind what is assembled
/// already, without an event, as long as everything fits.
proof fn lemma_body_is_assembled(cap: nat, partial: Seq<u8>, frame: Seq<u8>, rest: Seq<u8>)
    requires
        partial.len() + frame.len() <= cap,
    ensures
        run(cap, Decoder { escaped: false, partial }, encode_body(frame) + rest) == run(
            cap,
            Decoder { escaped: false, partial: partial + frame },
            rest,
        ),
    decreases frame.len(),
{
    let d = Decoder { escaped: false, partial };
    if frame.len() == 0 {
        assert(encode_body(frame) + rest =~= rest);
        assert(partial + frame =~= partial);
    } else {
        let byte = frame[0];
        let tail = encode_body(frame.skip(1)) + rest;
        let after = Decoder { escaped: false, partial: partial.push(byte) };
        assert(encode_body(frame) + rest =~= escaped_byte(byte) + tail);
        lemma_run_append(cap, d, escaped_byte(byte), tail);
        reveal_with_fuel(run, 3);
        assert(run(cap, d, escaped_byte(byte)) == Run { decoder: after, events: Seq::empty() })
            by {
            let r = run(cap, d, escaped_byte(byte));
            if byte == END || byte == ESC {
                assert(escaped_byte(byte).skip(1).skip(1) =~= Seq::<u8>::empty());
            } else {
                assert(escaped_byte(byte).skip(1) =~= Seq::<u8>::empty());
            }
            assert(r.events =~= Seq::<Event>::empty());
        }
        assert(run(cap, d, escaped_byte(byte) + tail).events =~= run(cap, after, tail).events);
        lemma_body_is_assembled(cap, partial.push(byte), frame.skip(1), rest);
        assert(partial.push(byte) + frame.skip(1) =~= partial + frame);
    }
}

/// An encoded frame that the decoder can deliver is delivered, whatever
/// follows it, and leaves the decoder idle.
pub proof fn lemma_frame_is_delivered(cap: nat, frame: Seq<u8>, rest: Seq<u8>)
    requires
        deliverable(cap, frame),
    ensures
        run(cap, idle(), encode(frame) + rest) == then(
            Run { decoder: idle(), events: seq![Ok(frame)] },
            run(cap, idle(), rest),
        ),
{
    let tail = seq![END] + rest;
    assert(encode(frame) + rest =~= encode_body(frame) + tail);
    lemma_body_is_assembled(cap, Seq::empty(), frame, tail);
    assert(Seq::<u8>::empty() + frame =~= frame);
    let d = Decoder { escaped: false, partial: frame };
    assert(tail.skip(1) =~= rest);
    assert(run(cap, d, tail).events =~= seq![Ok(frame)] + run(cap, idle(), rest).events);
}

/// Encoding a frame and decoding the result gives the frame back, byte for
/// byte, also where it holds the terminator or the escape byte.
pub proof fn lemma_encode_round_trip(cap: nat, frame: Seq<u8>)
    requires
        deliverable(cap, frame),
    ensures
        run(cap, idle(), encode(frame)) == (Run { decoder: idle(), events: seq![Ok(frame)] }),
{
    lemma_frame_is_delivered(cap, frame, Seq::empty());
    assert(encode(frame) + Seq::<u8>::empty() =~= encode(frame));
    assert(seq![Ok(frame)] + Seq::<Event>::empty() =~= seq![Ok(frame)]);
}

/// A stream of encoded frames decodes to those frames, in order.
pub proof fn lemma_stream_is_delivered(cap: nat, frames: Seq<Seq<u8>>)
    requires
        forall|i: int| 0 <= i < frames.len() ==> deliverable(cap, #[trigger] frames[i]),
    ensures
        run(cap, idle(), stream(frames)) == (Run { decoder: idle(), events: delivered(frames) }),
    decreases frames.len(),
{
    if frames.len() == 0 {
        assert(delivered(frames) =~= Seq::<Event>::empty());
    } else {
        let tail = frames.skip(1);
        assert forall|i: int| 0 <= i < tail.len() implies deliverable(cap, #[trigger] tail[i]) by {
            assert(tail[i] == frames[i + 1]);
        }
        lemma_stream_is_delivered(cap, tail);
        lemma_frame_is_delivered(cap, frames[0], stream(tail));
        assert(delivered(frames) =~= seq![Ok(frames[0])] + delivered(tail));
    }
}

/// A stream of encoded frames, cut into chunks at any places (single bytes
/// and empty chunks included) and fed chunk by chunk, decodes to exactly the
/// frames that were encoded, in order.
pub proof fn lemma_chunked_stream_is_delivered(
    cap: nat,
    frames: Seq<Seq<u8>>,
    chunks: Seq<Seq<u8>>,
)
    requires
        forall|i: int| 0 <= i < frames.len() ==> deliverable(cap, #[trigger] frames[i]),
        joined(chunks) == stream(frames),
    ensures
        run_chunks(cap, idle(), chunks) == (Run { decoder: idle(), events: delivered(frames) }),
{
    lemma_run_chunks(cap, idle(), chunks);
    lemma_stream_is_delivered(cap, frames);
}

/// A terminator that finds fewer than two bytes assembled gives an error and
/// no frame.
pub proof fn lemma_short_frame_is_rejected(cap: nat, d: Decoder)
    requires
        !d.escaped,
        d.partial.len() <= 1,
    ensures
        step(cap, d, END) == (idle(), Some(Err::<Seq<u8>, SlipError>(SlipError::EmptyCommand))),
{
}

/// Every event, a frame or an error, leaves the decoder idle.
pub proof fn lemma_event_resets(cap: nat, d: Decoder, byte: u8)
    ensures
        step(cap, d, byte).1 is Some ==> step(cap, d, byte).0 == idle(),
{
}

/// A frame with more bytes than the frame buffer holds is answered with an
/// overflow, before any other event.
pub proof fn lemma_overflow_is_reported(cap: nat, frame: Seq<u8>, rest: Seq<u8>)
    requires
        frame.len() > cap,
    ensures
        scanned(cap, idle(), encode(frame) + rest).event == Some(
            Err::<Seq<u8>, SlipError>(SlipError::Overflow),
        ),
{
    let tail = seq![END] + rest;
    assert(encode(frame) + rest =~= encode_body(frame) + tail);
    lemma_body_overflows(cap, Seq::empty(), frame, tail);
}

proof fn lemma_body_overflows(cap: nat, partial: Seq<u8>, frame: Seq<u8>, rest: Seq<u8>)
    requires
        partial.len() <= cap,
        partial.len() + frame.len() > cap,
    ensures
        scanned(cap, Decoder { escaped: false, partial }, encode_body(frame) + rest).event
            == Some(Err::<Seq<u8>, SlipError>(SlipError::Overflow)),
    decreases frame.len(),
{
    let d = Decoder { escaped: false, partial };
    let byte = frame[0];
    let tail = encode_body(frame.skip(1)) + rest;
    let bytes = encode_body(frame) + rest;
    assert(bytes =~= escaped_byte(byte) + tail);
    reveal_with_fuel(scanned, 3);
    if byte == END || byte == ESC {
        assert(bytes.skip(1).skip(1) =~= tail);
    } else {
        assert(bytes.skip(1) =~= tail);
    }
    if partial.len() < cap {
        lemma_body_overflows(cap, partial.push(byte), frame.skip(1), rest);
    }
}

/// The escaped bytes of a frame never leave the decoder in escape mode.
proof fn lemma_body_ends_unescaped(cap: nat, d: Decoder, frame: Seq<u8>)
    requires
        !d.escaped,
    ensures
        !run(cap, d, encode_body(frame)).decoder.escaped,
    decreases frame.len(),
{
    if frame.len() > 0 {
        let byte = frame[0];
        let tail = encode_body(frame.skip(1));
        lemma_run_append(cap, d, escaped_byte(byte), tail);
        reveal_with_fuel(run, 3);
        let after = run(cap, d, escaped_byte(byte)).decoder;
        if byte == END || byte == ESC {
            assert(escaped_byte(byte).skip(1).skip(1) =~= Seq::<u8>::empty());
        } else {
            assert(escaped_byte(byte).skip(1) =~= Seq::<u8>::empty());
        }
        assert(!after.escaped);
        lemma_body_ends_unescaped(cap, after, frame.skip(1));
    }
}

/// The decoder recovers from a frame that it could not deliver: whatever
/// frame came before, of any length and content, once its terminator has
/// passed the decoder is idle and the frame that follows is delivered.
pub proof fn lemma_decoder_recovers(cap: nat, broken: Seq<u8>, frame: Seq<u8>)
    requires
        deliverable(cap, frame),
    ensures
        run(cap, idle(), encode(broken)).decoder == idle(),
        run(cap, idle(), encode(broken) + encode(frame)) == (Run {
            decoder: idle(),
            events: run(cap, idle(), encode(broken)).events.push(Ok(frame)),
        }),
{
    let body = run(cap, idle(), encode_body(broken));
    lemma_body_ends_unescaped(cap, idle(), broken);
    assert(encode(broken) =~= encode_body(broken) + seq![END]);
    lemma_run_append(cap, idle(), encode_body(broken), seq![END]);
    assert(run(cap, body.decoder, seq![END]).decoder == idle()) by {
        reveal_with_fuel(run, 2);
        assert(seq![END].skip(1) =~= Seq::<u8>::empty());
    }
    lemma_run_append(cap, idle(), encode(broken), encode(frame));
    lemma_encode_round_trip(cap, frame);
    assert(run(cap, idle(), encode(broken)).events + seq![Ok(frame)] =~= run(
        cap,
        idle(),
        encode(broken),
    ).events.push(Ok(frame)));
}

} // verus!
