//! The device session without its serial port: the commands that the device
//! sends, decoded from frames, and the state that the host sends back.

use crate::hex::{hex_pair, push_hex};
use crate::slip::{idle, scanned, Chunk, Decoder, Slip, SlipError, Step};
use crate::value::{assigned, lowered, raised, Value, ValueView};
use vstd::prelude::*;
use vstd::string::StringExecFns;

verus! {

/// USB vendor id of the device.
pub const VENDOR_ID: u16 = 0x16c0;

/// USB product id of the device.
pub const PRODUCT_ID: u16 = 0x048a;

/// Tag of a joypad frame.
pub const JOYPAD_CMD: u8 = 0xfb;

/// Tag of a waveform frame.
pub const WAVEFORM_CMD: u8 = 0xfc;

/// Tag of a character frame.
pub const CHARACTER_CMD: u8 = 0xfd;

/// Tag of a rectangle frame.
pub const RECTANGLE_CMD: u8 = 0xfe;

/// Width of the device's screen, in pixels.
pub const SCREEN_WIDTH: u32 = 320;

/// Height of the device's screen, in pixels.
pub const SCREEN_HEIGHT: u32 = 240;

/// Height of the strip in which the waveform is drawn, in pixels.
pub const WAVEFORM_HEIGHT: u32 = 22;

pub const MIN_OCTAVE: u8 = 0;

pub const MAX_OCTAVE: u8 = 10;

pub const MIN_VELOCITY: u8 = 0;

pub const MAX_VELOCITY: u8 = 127;

/// The note value that means "no note".
pub const NOTE_OFF: u8 = 255;

pub const KEYS_EDIT: u8 = 0x01;

pub const KEYS_OPTION: u8 = 0x02;

pub const KEYS_RIGHT: u8 = 0x04;

pub const KEYS_PLAY: u8 = 0x08;

pub const KEYS_SHIFT: u8 = 0x10;

pub const KEYS_DOWN: u8 = 0x20;

pub const KEYS_UP: u8 = 0x40;

pub const KEYS_LEFT: u8 = 0x80;

/// The four direction keys together.
pub const KEYS_DIR: u8 = 0xe4;

/// Length of the longest frame: a waveform with one sample per column.
pub const FRAME_CAPACITY: usize = 324;

/// How many raw bytes one read of the port may bring.
pub const READ_CAPACITY: usize = 1024;

/// A command of the device. The samples of a waveform are borrowed from the
/// frame that was decoded.
#[derive(Debug, Clone, Copy, PartialEq, Eq)]
pub enum Command<'a> {
    Joypad(u8),
    Waveform((u8, u8, u8), &'a [u8]),
    Character(u8, u16, u16, (u8, u8, u8), (u8, u8, u8)),
    Rectangle(u16, u16, u16, u16, (u8, u8, u8)),
}

/// A command with its samples as a sequence.
pub enum CommandView {
    Joypad(u8),
    Waveform((u8, u8, u8), Seq<u8>),
    Character(u8, u16, u16, (u8, u8, u8), (u8, u8, u8)),
    Rectangle(u16, u16, u16, u16, (u8, u8, u8)),
}

impl View for Command<'_> {
    type V = CommandView;

    open spec fn view(&self) -> CommandView {
        match *self {
            Command::Joypad(keys) => CommandView::Joypad(keys),
            Command::Waveform(color, samples) => CommandView::Waveform(color, samples@),
            Command::Character(c, x, y, fg, bg) => CommandView::Character(c, x, y, fg, bg),
            Command::Rectangle(x, y, w, h, bg) => CommandView::Rectangle(x, y, w, h, bg),
        }
    }
}

/// Why a read, a frame or a write was refused.
#[derive(Debug, PartialEq, Eq)]
pub enum M8Error {
    /// The decoder or the port behind it failed.
    Read(SlipError),
    /// A frame without a single byte.
    EmptyCommand,
    /// A joypad frame that is not 3 bytes long.
    InvalidJoypad,
    /// A waveform frame that is neither 4 nor 324 bytes long.
    InvalidWaveform,
    /// A character frame that is not 12 bytes long.
    InvalidCharacter,
    /// A rectangle frame that is not 12 bytes long.
    InvalidRectangle,
    /// A frame with a tag that no command has.
    UnknownCommand(u8),
    /// The port took fewer bytes than the command has.
    WriteIncomplete,
    /// The port refused the write; the text is the port's own.
    WriteFailed(String),
}

/// The rendering that `Debug` gives a string: its text between quotes, with
/// the characters escaped that a string literal would need escaped.
pub uninterp spec fn debug_quoted(text: Seq<char>) -> Seq<char>;

/// Quotes `text` by the standard library's `Debug` formatting of `str`,
/// called through `format!`. The contract is believed, not proved: it claims
/// only that the result is the rendering of the text that `debug_quoted`
/// names, which depends on the text alone.
#[verifier::external_body]
fn quote(text: &str) -> (r: String)
    ensures
        r@ == debug_quoted(text@),
{
    format!("{:?}", text)
}

impl M8Error {
    /// The error in words.
    pub open spec fn text(self) -> Seq<char> {
        match self {
            M8Error::Read(e) => "read failed: "@ + debug_quoted(e.text()),
            M8Error::EmptyCommand => "empty command"@,
            M8Error::InvalidJoypad => "invalid joypad command"@,
            M8Error::InvalidWaveform => "invalid waveform command"@,
            M8Error::InvalidCharacter => "invalid character command"@,
            M8Error::InvalidRectangle => "invalid rectangle command"@,
            M8Error::UnknownCommand(tag) => "unknown command "@ + hex_pair(tag, true),
            M8Error::WriteIncomplete => "failed to write command"@,
            M8Error::WriteFailed(text) => "write failed: "@ + text@,
        }
    }

    /// The error in words, for a log or a caller that passes text on.
    pub fn message(&self) -> (r: String)
        ensures
            r@ == self.text(),
    {
        match self {
            M8Error::Read(e) => {
                let inner = e.message();
                let quoted = quote(inner.as_str());
                let mut text = String::from_str("read failed: ");
                text.append(quoted.as_str());
                text
            },
            M8Error::EmptyCommand => String::from_str("empty command"),
            M8Error::InvalidJoypad => String::from_str("invalid joypad command"),
            M8Error::InvalidWaveform => String::from_str("invalid waveform command"),
            M8Error::InvalidCharacter => String::from_str("invalid character command"),
            M8Error::InvalidRectangle => String::from_str("invalid rectangle command"),
            M8Error::UnknownCommand(tag) => {
                let mut text = String::from_str("unknown command ");
                push_hex(&mut text, *tag, true);
                text
            },
            M8Error::WriteIncomplete => String::from_str("failed to write command"),
            M8Error::WriteFailed(inner) => {
                let mut text = String::from_str("write failed: ");
                text.append(inner.as_str());
                text
            },
        }
    }
}

/// The 16-bit number that two bytes hold, low byte first.
pub open spec fn le16(lo: u8, hi: u8) -> u16 {
    (lo + 256 * hi) as u16
}

/// Reads a 16-bit little-endian number from a slice of exactly two bytes.
pub fn read16(bytes: &[u8]) -> (r: u16)
    requires
        bytes@.len() == 2,
    ensures
        r == le16(bytes@[0], bytes@[1]),
{
    bytes[0] as u16 + bytes[1] as u16 * 256
}

/// What a frame means: a command, nothing (a joypad frame is checked and
/// dropped), or the reason why it is refused.
pub open spec fn decoded(frame: Seq<u8>) -> Result<Option<CommandView>, M8Error> {
    if frame.len() == 0 {
        Err(M8Error::EmptyCommand)
    } else if frame[0] == JOYPAD_CMD {
        if frame.len() == 3 {
            Ok(None)
        } else {
            Err(M8Error::InvalidJoypad)
        }
    } else if frame[0] == WAVEFORM_CMD {
        if frame.len() == 4 || frame.len() == 324 {
            Ok(Some(CommandView::Waveform((frame[1], frame[2], frame[3]), frame.skip(4))))
        } else {
            Err(M8Error::InvalidWaveform)
        }
    } else if frame[0] == CHARACTER_CMD {
        if frame.len() == 12 {
            Ok(
                Some(
                    CommandView::Character(
                        frame[1],
                        le16(frame[2], frame[3]),
                        le16(frame[4], frame[5]),
                        (frame[6], frame[7], frame[8]),
                        (frame[9], frame[10], frame[11]),
                    ),
                ),
            )
        } else {
            Err(M8Error::InvalidCharacter)
        }
    } else if frame[0] == RECTANGLE_CMD {
        if frame.len() == 12 {
            Ok(
                Some(
                    CommandView::Rectangle(
                        le16(frame[1], frame[2]),
                        le16(frame[3], frame[4]),
                        le16(frame[5], frame[6]),
                        le16(frame[7], frame[8]),
                        (frame[9], frame[10], frame[11]),
                    ),
                ),
            )
        } else {
            Err(M8Error::InvalidRectangle)
        }
    } else {
        Err(M8Error::UnknownCommand(frame[0]))
    }
}

/// The outcome of decoding, with the command by its view.
pub open spec fn decoding_view(r: Result<Option<Command<'_>>, M8Error>) -> Result<
    Option<CommandView>,
    M8Error,
> {
    match r {
        Ok(Some(command)) => Ok(Some(command@)),
        Ok(None) => Ok(None),
        Err(e) => Err(e),
    }
}

/// Decodes one complete frame.
pub fn decode<'a>(frame: &'a [u8]) -> (r: Result<Option<Command<'a>>, M8Error>)
    ensures
        decoding_view(r) == decoded(frame@),
{
    let len = frame.len();
    if len == 0 {
        return Err(M8Error::EmptyCommand);
    }
    let tag = frame[0];
    if tag == JOYPAD_CMD {
        if len == 3 {
            Ok(None)
        } else {
            Err(M8Error::InvalidJoypad)
        }
    } else if tag == WAVEFORM_CMD {
        if len == 4 || len == 324 {
            let samples = &frame[4..len];
            assert(samples@ =~= frame@.skip(4));
            Ok(Some(Command::Waveform((frame[1], frame[2], frame[3]), samples)))
        } else {
            Err(M8Error::InvalidWaveform)
        }
    } else if tag == CHARACTER_CMD {
        if len == 12 {
            Ok(
                Some(
                    Command::Character(
                        frame[1],
                        read16(&frame[2..4]),
                        read16(&frame[4..6]),
                        (frame[6], frame[7], frame[8]),
                        (frame[9], frame[10], frame[11]),
                    ),
                ),
            )
        } else {
            Err(M8Error::InvalidCharacter)
        }
    } else if tag == RECTANGLE_CMD {
        if len == 12 {
            Ok(
                Some(
                    Command::Rectangle(
                        read16(&frame[1..3]),
                        read16(&frame[3..5]),
                        read16(&frame[5..7]),
                        read16(&frame[7..9]),
                        (frame[9], frame[10], frame[11]),
                    ),
                ),
            )
        } else {
            Err(M8Error::InvalidRectangle)
        }
    } else {
        Err(M8Error::UnknownCommand(tag))
    }
}

/// What the caller of [`M8::read`] is to do next.
#[derive(Debug, Clone, Copy, PartialEq, Eq)]
pub enum Reading<'a> {
    /// The device sent this command.
    Command(Command<'a>),
    /// Nothing to act on: the port had no bytes, or the frame was one that
    /// is checked and dropped.
    Nothing,
    /// Read the port and call again with what it produced.
    NeedInput,
}

/// What [`M8::read`] returns for a complete frame.
pub open spec fn reading_matches(r: Result<Reading<'_>, M8Error>, frame: Seq<u8>) -> bool {
    match decoded(frame) {
        Ok(Some(command)) => r matches Ok(Reading::Command(c)) && c@ == command,
        Ok(None) => r == Ok::<Reading<'_>, M8Error>(Reading::Nothing),
        Err(e) => r == Err::<Reading<'_>, M8Error>(e),
    }
}

/// Mathematical model of an [`M8`].
pub struct M8View {
    /// The protocol state of the decoder.
    pub decoder: Decoder,
    /// Bytes read from the port and not decoded yet.
    pub pending: Seq<u8>,
    pub keyjazz: ValueView<bool>,
    pub note: ValueView<u8>,
    pub octave: ValueView<u8>,
    pub velocity: ValueView<u8>,
    pub keys: ValueView<u8>,
}

/// A session with the device, without the port: the decoder for what the
/// device sends, and the values that the host sends when they change.
pub struct M8 {
    slip: Slip<READ_CAPACITY, FRAME_CAPACITY>,
    pub keyjazz: Value<bool>,
    pub note: Value<u8>,
    pub octave: Value<u8>,
    pub velocity: Value<u8>,
    pub keys: Value<u8>,
}

impl View for M8 {
    type V = M8View;

    closed spec fn view(&self) -> M8View {
        M8View {
            decoder: self.slip@.decoder,
            pending: self.slip@.pending,
            keyjazz: self.keyjazz@,
            note: self.note@,
            octave: self.octave@,
            velocity: self.velocity@,
            keys: self.keys@,
        }
    }
}

/// Whether a USB device with these ids is the tracker.
pub fn is_m8(vid: u16, pid: u16) -> (r: bool)
    ensures
        r == (vid == VENDOR_ID && pid == PRODUCT_ID),
{
    vid == VENDOR_ID && pid == PRODUCT_ID
}

/// Whether a write that took `count` bytes of a command of `len` bytes sent
/// the command.
pub fn written(count: usize, len: usize) -> (r: Result<(), M8Error>)
    ensures
        r == if count == len {
            Ok::<(), M8Error>(())
        } else {
            Err::<(), M8Error>(M8Error::WriteIncomplete)
        },
{
    if count != len {
        Err(M8Error::WriteIncomplete)
    } else {
        Ok(())
    }
}

/// The step by which a value moves: sixteen when `fast`, else one.
pub open spec fn stride(fast: bool) -> u8 {
    if fast {
        16
    } else {
        1
    }
}

/// The bytes that report the note: with the velocity, unless the note is off.
pub open spec fn keyjazz_command(note: u8, velocity: u8) -> Seq<u8> {
    if note == NOTE_OFF {
        seq![0x4bu8, note]
    } else {
        seq![0x4bu8, note, velocity]
    }
}

impl M8 {
    /// A session as it starts: nothing received, key jazz off, no note,
    /// octave 3, velocity 100, no key pressed, no value marked as changed.
    pub fn new() -> (r: Self)
        ensures
            r@ == (M8View {
                decoder: idle(),
                pending: Seq::empty(),
                keyjazz: ValueView { value: false, modified: false },
                note: ValueView { value: NOTE_OFF, modified: false },
                octave: ValueView { value: 3, modified: false },
                velocity: ValueView { value: 100, modified: false },
                keys: ValueView { value: 0, modified: false },
            }),
    {
        let r = Self {
            slip: Slip::new(),
            keyjazz: Value::new(false),
            note: Value::new(NOTE_OFF),
            octave: Value::new(3),
            velocity: Value::new(100),
            keys: Value::new(0),
        };
        r
    }

    /// The keys held, for reading.
    pub fn keys(&self) -> (r: &Value<u8>)
        ensures
            r@ == self@.keys,
    {
        &self.keys
    }

    /// The keys held, for changing.
    pub fn keys_mut(&mut self) -> (r: &mut Value<u8>)
        ensures
            r@ == old(self)@.keys,
            final(self)@ == (M8View { keys: final(r)@, ..old(self)@ }),
    {
        &mut self.keys
    }

    /// Key jazz, for reading.
    pub fn keyjazz(&self) -> (r: &Value<bool>)
        ensures
            r@ == self@.keyjazz,
    {
        &self.keyjazz
    }

    /// Key jazz, for changing.
    pub fn keyjazz_mut(&mut self) -> (r: &mut Value<bool>)
        ensures
            r@ == old(self)@.keyjazz,
            final(self)@ == (M8View { keyjazz: final(r)@, ..old(self)@ }),
    {
        &mut self.keyjazz
    }

    /// Whether the port is to be read before the next call of [`M8::read`].
    pub fn wants_input(&self) -> (r: bool)
        ensures
            r == (self@.pending.len() == 0),
    {
        self.slip.is_drained()
    }

    /// One turn of the session's receiving side. `chunk` is what the port
    /// produced if it was read for this turn; it may be given only when
    /// [`M8::wants_input`] holds. Bytes are decoded up to the first complete
    /// frame, and the frame is decoded to a command.
    pub fn read<'a>(&'a mut self, chunk: Option<Chunk<'_>>) -> (r: Result<Reading<'a>, M8Error>)
        requires
            chunk is Some ==> old(self)@.pending.len() == 0,
            chunk matches Some(Chunk::Bytes(data)) ==> data@.len() <= READ_CAPACITY,
        ensures
            final(self)@.keyjazz == old(self)@.keyjazz,
            final(self)@.note == old(self)@.note,
            final(self)@.octave == old(self)@.octave,
            final(self)@.velocity == old(self)@.velocity,
            final(self)@.keys == old(self)@.keys,
            match chunk {
                Some(Chunk::Failed(text)) => {
                    &&& r == Err::<Reading<'_>, M8Error>(M8Error::Read(SlipError::Io(text)))
                    &&& final(self)@ == old(self)@
                },
                Some(Chunk::TimedOut) => {
                    &&& r == Ok::<Reading<'_>, M8Error>(Reading::Nothing)
                    &&& final(self)@ == old(self)@
                },
                Some(Chunk::Bytes(data)) if data@.len() == 0 => {
                    &&& r == Ok::<Reading<'_>, M8Error>(Reading::Nothing)
                    &&& final(self)@ == old(self)@
                },
                _ => {
                    let bytes = match chunk {
                        Some(Chunk::Bytes(data)) => data@,
                        _ => old(self)@.pending,
                    };
                    let s = scanned(FRAME_CAPACITY as nat, old(self)@.decoder, bytes);
                    &&& final(self)@.decoder == s.decoder
                    &&& final(self)@.pending == s.rest
                    &&& match s.event {
                        None => r == Ok::<Reading<'_>, M8Error>(Reading::NeedInput),
                        Some(Ok(frame)) => reading_matches(r, frame),
                        Some(Err(e)) => r == Err::<Reading<'_>, M8Error>(M8Error::Read(e)),
                    }
                },
            },
    {
        match self.slip.read(chunk) {
            Ok(Step::Frame(frame)) => match decode(frame) {
                Ok(Some(command)) => Ok(Reading::Command(command)),
                Ok(None) => Ok(Reading::Nothing),
                Err(e) => Err(e),
            },
            Ok(Step::Idle) => Ok(Reading::Nothing),
            Ok(Step::NeedInput) => Ok(Reading::NeedInput),
            Err(e) => Err(M8Error::Read(e)),
        }
    }

    /// The bytes that switch the device's display output on and reset it.
    pub fn enable_and_reset_display(&self) -> (r: Vec<u8>)
        ensures
            r@ == seq![0x45u8, 0x52u8],
    {
        vec![0x45u8, 0x52u8]
    }

    /// The bytes that reset the device's display output.
    pub fn reset_display(&self) -> (r: Vec<u8>)
        ensures
            r@ == seq![0x52u8],
    {
        vec![0x52u8]
    }

    /// The bytes that tell the device that the host leaves.
    pub fn disconnect(&self) -> (r: Vec<u8>)
        ensures
            r@ == seq![0x44u8],
    {
        vec![0x44u8]
    }

    /// The bytes that report the note held.
    pub fn send_keyjazz(&self) -> (r: Vec<u8>)
        ensures
            r@ == keyjazz_command(self@.note.value, self@.velocity.value),
    {
        let note = self.note.get();
        if note == NOTE_OFF {
            vec![0x4bu8, note]
        } else {
            vec![0x4bu8, note, self.velocity.get()]
        }
    }

    /// The bytes that report the keys held.
    pub fn send_keys(&self) -> (r: Vec<u8>)
        ensures
            r@ == seq![0x43u8, self@.keys.value],
    {
        vec![0x43u8, self.keys.get()]
    }

    /// One octave down, not below [`MIN_OCTAVE`].
    pub fn dec_octave(&mut self)
        ensures
            final(self)@ == (M8View {
                octave: lowered(old(self)@.octave, 1, MIN_OCTAVE),
                ..old(self)@
            }),
    {
        self.octave.sub(1, MIN_OCTAVE)
    }

    /// One octave up, not above [`MAX_OCTAVE`].
    pub fn inc_octave(&mut self)
        ensures
            final(self)@ == (M8View {
                octave: raised(old(self)@.octave, 1, MAX_OCTAVE),
                ..old(self)@
            }),
    {
        self.octave.add(1, MAX_OCTAVE)
    }

    /// The velocity down by one, or by sixteen when `fast`, not below
    /// [`MIN_VELOCITY`].
    pub fn dec_velocity(&mut self, fast: bool)
        ensures
            final(self)@ == (M8View {
                velocity: lowered(old(self)@.velocity, stride(fast), MIN_VELOCITY),
                ..old(self)@
            }),
    {
        self.velocity.sub(if fast { 16 } else { 1 }, MIN_VELOCITY)
    }

    /// The velocity up by one, or by sixteen when `fast`, not above
    /// [`MAX_VELOCITY`].
    pub fn inc_velocity(&mut self, fast: bool)
        ensures
            final(self)@ == (M8View {
                velocity: raised(old(self)@.velocity, stride(fast), MAX_VELOCITY),
                ..old(self)@
            }),
    {
        self.velocity.add(if fast { 16 } else { 1 }, MAX_VELOCITY)
    }

    /// No note is held any more.
    pub fn set_note_off(&mut self)
        ensures
            final(self)@ == (M8View {
                note: assigned(old(self)@.note, NOTE_OFF, old(self)@.note.value == NOTE_OFF),
                ..old(self)@
            }),
    {
        self.note.set(NOTE_OFF)
    }

    /// The note `note` of the octave held is played: twelve notes per octave.
    pub fn set_note(&mut self, note: u8)
        requires
            note + old(self)@.octave.value * 12 <= u8::MAX,
        ensures
            final(self)@ == (M8View {
                note: assigned(
                    old(self)@.note,
                    (note + old(self)@.octave.value * 12) as u8,
                    old(self)@.note.value == note + old(self)@.octave.value * 12,
                ),
                ..old(self)@
            }),
    {
        let pitch: u8 = note + self.octave.get() * 12;
        self.note.set(pitch)
    }
}

} // verus!
