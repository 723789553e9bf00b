//! The arguments of the command line.

use vstd::prelude::*;
use vstd::string::StringExecFns;
use vstd::utf8::encode_utf8;

verus! {

/// What the arguments read so far ask for.
#[derive(Debug, Clone, PartialEq, Eq)]
pub struct Options {
    /// The file of the configuration, where one was named.
    pub config_file: Option<String>,
    /// The port of the device, where one was named.
    pub device: Option<String>,
    /// The capture device, where one was named.
    pub capture: Option<String>,
    /// The number of samples of the audio buffer, where one was given.
    pub samples: Option<u16>,
    /// Audio is switched off.
    pub noaudio: bool,
}

/// What the caller is to do before the arguments are read on.
#[derive(Debug, Clone, PartialEq, Eq)]
pub enum Request {
    /// Print the version and end.
    Version,
    /// Print the usage and end.
    Help,
    /// List the devices and end.
    List,
    /// Write the configuration to this file and end.
    WriteConfig(String),
    /// Write the configuration to the standard output and end.
    DumpConfig,
    /// Read the configuration from this file, then read on.
    ReadConfig(String),
    /// Every argument was read: run the program.
    Run,
}

/// Why the arguments cannot be used.
#[derive(Debug, Clone, PartialEq, Eq)]
pub enum CliError {
    MissingConfigFile,
    MissingDevice,
    MissingCapture,
    MissingSamples,
    InvalidSamples,
    Unknown(String),
}

impl CliError {
    /// The error in words.
    pub open spec fn text(self) -> Seq<char> {
        match self {
            CliError::MissingConfigFile => "Error: missing config file argument"@,
            CliError::MissingDevice => "Error: missing device argument"@,
            CliError::MissingCapture => "Error: missing capture argument"@,
            CliError::MissingSamples => "Error: missing samples argument"@,
            CliError::InvalidSamples => "Error: invalid samples argument"@,
            CliError::Unknown(arg) => "Error: unknown argument: "@ + arg@,
        }
    }

    /// The error in words.
    pub fn message(&self) -> (r: String)
        ensures
            r@ == self.text(),
    {
        match self {
            CliError::MissingConfigFile => String::from_str(
                "Error: missing config file argument",
            ),
            CliError::MissingDevice => String::from_str("Error: missing device argument"),
            CliError::MissingCapture => String::from_str("Error: missing capture argument"),
            CliError::MissingSamples => String::from_str("Error: missing samples argument"),
            CliError::InvalidSamples => String::from_str("Error: invalid samples argument"),
            CliError::Unknown(arg) => {
                let mut text = String::from_str("Error: unknown argument: ");
                text.append(arg.as_str());
                text
            },
        }
    }
}

/// The number that the first `n` of `bytes` spell in decimal digits; none
/// where one of them is no digit.
pub open spec fn decimal_value(bytes: Seq<u8>, n: int) -> Option<int>
    decreases n,
{
    if n <= 0 {
        Some(0)
    } else if 0x30 <= bytes[n - 1] <= 0x39 {
        match decimal_value(bytes, n - 1) {
            Some(v) => Some(v * 10 + (bytes[n - 1] - 0x30)),
            None => None,
        }
    } else {
        None
    }
}

/// The number of samples that the bytes of an argument spell: decimal
/// digits, at least one, with a plus sign before them or none, and a value
/// that sixteen bits hold.
pub open spec fn samples_value(bytes: Seq<u8>) -> Option<u16> {
    let digits = if bytes.len() > 0 && bytes[0] == 0x2b {
        bytes.skip(1)
    } else {
        bytes
    };
    if digits.len() == 0 {
        None
    } else {
        match decimal_value(digits, digits.len() as int) {
            Some(v) => if v <= u16::MAX {
                Some(v as u16)
            } else {
                None
            },
            None => None,
        }
    }
}

/// A longer run of digits spells no smaller number.
proof fn lemma_decimal_grows(bytes: Seq<u8>, n: int, m: int)
    requires
        0 <= n <= m,
        decimal_value(bytes, m) is Some,
    ensures
        decimal_value(bytes, n) is Some,
        decimal_value(bytes, n).unwrap() <= decimal_value(bytes, m).unwrap(),
        decimal_value(bytes, n).unwrap() >= 0,
    decreases m,
{
    if n < m {
        lemma_decimal_grows(bytes, n, m - 1);
    } else {
        if m > 0 {
            lemma_decimal_grows(bytes, m - 1, m - 1);
        }
    }
}

/// Where a digit is no digit, the bytes spell no number.
proof fn lemma_decimal_fails(bytes: Seq<u8>, n: int, m: int)
    requires
        0 <= n <= m,
        decimal_value(bytes, n) is None,
    ensures
        decimal_value(bytes, m) is None,
    decreases m,
{
    if n < m {
        lemma_decimal_fails(bytes, n, m - 1);
    }
}

/// Reads a number of samples.
pub fn parse_samples(text: &str) -> (r: Option<u16>)
    ensures
        r == samples_value(encode_utf8(text@)),
{
    let bytes = text.as_bytes();
    let start: usize = if bytes.len() > 0 && bytes[0] == 0x2b {
        1
    } else {
        0
    };
    if start >= bytes.len() {
        return None;
    }
    let ghost digits = if bytes@.len() > 0 && bytes@[0] == 0x2b {
        bytes@.skip(1)
    } else {
        bytes@
    };
    let mut value: u32 = 0;
    let mut i: usize = start;
    while i < bytes.len()
        invariant
            start <= i <= bytes@.len(),
            start < bytes@.len(),
            bytes@ == encode_utf8(text@),
            start == if bytes@.len() > 0 && bytes@[0] == 0x2b {
                1int
            } else {
                0int
            },
            digits == if bytes@.len() > 0 && bytes@[0] == 0x2b {
                bytes@.skip(1)
            } else {
                bytes@
            },
            digits.len() == bytes@.len() - start,
            decimal_value(digits, i - start) == Some(value as int),
            value <= u16::MAX,
        decreases bytes@.len() - i,
    {
        let byte = bytes[i];
        assert(digits[i - start] == byte);
        if byte < 0x30 || byte > 0x39 {
            proof {
                lemma_decimal_fails(digits, i - start + 1, digits.len() as int);
            }
            return None;
        }
        let next: u32 = value * 10 + (byte - 0x30) as u32;
        if next > 65535 {
            proof {
                if decimal_value(digits, digits.len() as int) is Some {
                    lemma_decimal_grows(digits, i - start + 1, digits.len() as int);
                }
            }
            return None;
        }
        value = next;
        i += 1;
    }
    Some(value as u16)
}

/// The arguments as sequences of characters.
pub open spec fn texts(args: Seq<String>) -> Seq<Seq<char>> {
    Seq::new(args.len(), |i: int| args[i]@)
}

/// Mathematical model of [`Options`].
pub struct OptionsView {
    pub config_file: Option<Seq<char>>,
    pub device: Option<Seq<char>>,
    pub capture: Option<Seq<char>>,
    pub samples: Option<u16>,
    pub noaudio: bool,
}

/// Mathematical model of [`Request`].
pub enum RequestView {
    Version,
    Help,
    List,
    WriteConfig(Seq<char>),
    DumpConfig,
    ReadConfig(Seq<char>),
    Run,
}

/// Mathematical model of [`CliError`].
pub enum CliErrorView {
    MissingConfigFile,
    MissingDevice,
    MissingCapture,
    MissingSamples,
    InvalidSamples,
    Unknown(Seq<char>),
}

/// A text that may be there, as a sequence of characters.
pub open spec fn text_of(text: Option<String>) -> Option<Seq<char>> {
    match text {
        Some(t) => Some(t@),
        None => None,
    }
}

impl View for Options {
    type V = OptionsView;

    open spec fn view(&self) -> OptionsView {
        OptionsView {
            config_file: text_of(self.config_file),
            device: text_of(self.device),
            capture: text_of(self.capture),
            samples: self.samples,
            noaudio: self.noaudio,
        }
    }
}

impl View for Request {
    type V = RequestView;

    open spec fn view(&self) -> RequestView {
        match *self {
            Request::Version => RequestView::Version,
            Request::Help => RequestView::Help,
            Request::List => RequestView::List,
            Request::WriteConfig(file) => RequestView::WriteConfig(file@),
            Request::DumpConfig => RequestView::DumpConfig,
            Request::ReadConfig(file) => RequestView::ReadConfig(file@),
            Request::Run => RequestView::Run,
        }
    }
}

impl View for CliError {
    type V = CliErrorView;

    open spec fn view(&self) -> CliErrorView {
        match *self {
            CliError::MissingConfigFile => CliErrorView::MissingConfigFile,
            CliError::MissingDevice => CliErrorView::MissingDevice,
            CliError::MissingCapture => CliErrorView::MissingCapture,
            CliError::MissingSamples => CliErrorView::MissingSamples,
            CliError::InvalidSamples => CliErrorView::InvalidSamples,
            CliError::Unknown(arg) => CliErrorView::Unknown(arg@),
        }
    }
}

/// Where the reading of the arguments stops.
pub struct Handled {
    /// The place of the argument to read next.
    pub at: int,
    pub options: OptionsView,
    pub outcome: Result<RequestView, CliErrorView>,
}

/// Reads the arguments from place `at` until one asks for work outside, is
/// wrong, or none is left. The arguments that set an option are taken over
/// on the way; a file that is read or written becomes the file of the
/// configuration.
pub open spec fn handled(args: Seq<Seq<char>>, at: int, options: OptionsView) -> Handled
    decreases args.len() - at,
{
    if at < 0 || at >= args.len() {
        Handled { at, options, outcome: Ok(RequestView::Run) }
    } else {
        let arg = args[at];
        let value = if at + 1 < args.len() {
            Some(args[at + 1])
        } else {
            None
        };
        if arg == "-version"@ {
            Handled { at: at + 1, options, outcome: Ok(RequestView::Version) }
        } else if arg == "-help"@ {
            Handled { at: at + 1, options, outcome: Ok(RequestView::Help) }
        } else if arg == "-list"@ {
            Handled { at: at + 1, options, outcome: Ok(RequestView::List) }
        } else if arg == "-wc"@ {
            match value {
                Some(file) => Handled {
                    at: at + 2,
                    options: OptionsView { config_file: Some(file), ..options },
                    outcome: Ok(RequestView::WriteConfig(file)),
                },
                None => Handled { at: at + 1, options, outcome: Ok(RequestView::DumpConfig) },
            }
        } else if arg == "-rc"@ {
            match value {
                Some(file) => Handled {
                    at: at + 2,
                    options: OptionsView { config_file: Some(file), ..options },
                    outcome: Ok(RequestView::ReadConfig(file)),
                },
                None => Handled {
                    at: at + 1,
                    options,
                    outcome: Err(CliErrorView::MissingConfigFile),
                },
            }
        } else if arg == "-noaudio"@ {
            handled(args, at + 1, OptionsView { noaudio: true, ..options })
        } else if arg == "-dev"@ {
            match value {
                Some(dev) => handled(args, at + 2, OptionsView { device: Some(dev), ..options }),
                None => Handled { at: at + 1, options, outcome: Err(CliErrorView::MissingDevice) },
            }
        } else if arg == "-cap"@ {
            match value {
                Some(cap) => handled(args, at + 2, OptionsView { capture: Some(cap), ..options }),
                None => Handled {
                    at: at + 1,
                    options,
                    outcome: Err(CliErrorView::MissingCapture),
                },
            }
        } else if arg == "-smp"@ {
            match value {
                Some(smp) => match samples_value(encode_utf8(smp)) {
                    Some(n) => handled(
                        args,
                        at + 2,
                        OptionsView { samples: Some(n), ..options },
                    ),
                    None => Handled {
                        at: at + 2,
                        options,
                        outcome: Err(CliErrorView::InvalidSamples),
                    },
                },
                None => Handled {
                    at: at + 1,
                    options,
                    outcome: Err(CliErrorView::MissingSamples),
                },
            }
        } else {
            Handled { at: at + 1, options, outcome: Err(CliErrorView::Unknown(arg)) }
        }
    }
}

/// The outcome of reading arguments, by its view.
pub open spec fn outcome_view(r: Result<Request, CliError>) -> Result<RequestView, CliErrorView> {
    match r {
        Ok(request) => Ok(request@),
        Err(e) => Err(e@),
    }
}

fn is(arg: &String, word: &str) -> (r: bool)
    ensures
        r == (arg@ == word@),
{
    *arg == String::from_str(word)
}

impl Options {
    /// No option set.
    pub fn new() -> (r: Self)
        ensures
            r@ == (OptionsView {
                config_file: None,
                device: None,
                capture: None,
                samples: None,
                noaudio: false,
            }),
    {
        Self { config_file: None, device: None, capture: None, samples: None, noaudio: false }
    }
}

/// Reads the arguments from the place `at` on (the name of the program is
/// not among them), and stops where the caller has work to do. After
/// [`Request::ReadConfig`] the caller reads on with another call; the other
/// requests but [`Request::Run`] end the program.
pub fn handle_command_line(args: &Vec<String>, at: &mut usize, options: &mut Options) -> (r: Result<
    Request,
    CliError,
>)
    ensures
        ({
            let h = handled(texts(args@), *old(at) as int, old(options)@);
            &&& *final(at) == h.at || (*old(at) > args@.len() && *final(at) == *old(at))
            &&& final(options)@ == h.options
            &&& outcome_view(r) == h.outcome
        }),
{
    let ghost goal = handled(texts(args@), *at as int, options@);
    loop
        invariant
            goal == handled(texts(args@), *old(at) as int, old(options)@),
            *at >= args@.len() || goal == handled(texts(args@), *at as int, options@),
            *at >= args@.len() ==> goal.outcome == Ok::<RequestView, CliErrorView>(
                RequestView::Run,
            ) && goal.options == options@ && (goal.at == *at || (*old(at) > args@.len() && *at
                == *old(at))),
        decreases args@.len() - *at,
    {
        if *at >= args.len() {
            return Ok(Request::Run);
        }
        let i: usize = *at;
        assert(texts(args@)[i as int] == args@[i as int]@);
        let arg = &args[i];
        let has_value = i + 1 < args.len();
        proof {
            if has_value {
                assert(texts(args@)[i + 1] == args@[i + 1]@);
            }
        }
        if is(arg, "-version") {
            *at = i + 1;
            return Ok(Request::Version);
        } else if is(arg, "-help") {
            *at = i + 1;
            return Ok(Request::Help);
        } else if is(arg, "-list") {
            *at = i + 1;
            return Ok(Request::List);
        } else if is(arg, "-wc") {
            if has_value {
                *at = i + 2;
                options.config_file = Some(args[i + 1].clone());
                return Ok(Request::WriteConfig(args[i + 1].clone()));
            }
            *at = i + 1;
            return Ok(Request::DumpConfig);
        } else if is(arg, "-rc") {
            if has_value {
                *at = i + 2;
                options.config_file = Some(args[i + 1].clone());
                return Ok(Request::ReadConfig(args[i + 1].clone()));
            }
            *at = i + 1;
            return Err(CliError::MissingConfigFile);
        } else if is(arg, "-noaudio") {
            options.noaudio = true;
            *at = i + 1;
        } else if is(arg, "-dev") {
            if !has_value {
                *at = i + 1;
                return Err(CliError::MissingDevice);
            }
            options.device = Some(args[i + 1].clone());
            *at = i + 2;
        } else if is(arg, "-cap") {
            if !has_value {
                *at = i + 1;
                return Err(CliError::MissingCapture);
            }
            options.capture = Some(args[i + 1].clone());
            *at = i + 2;
        } else if is(arg, "-smp") {
            if !has_value {
                *at = i + 1;
                return Err(CliError::MissingSamples);
            }
            *at = i + 2;
            match parse_samples(args[i + 1].as_str()) {
                Some(n) => {
                    options.samples = Some(n);
                },
                None => {
                    return Err(CliError::InvalidSamples);
                },
            }
        } else {
            *at = i + 1;
            return Err(CliError::Unknown(arg.clone()));
        }
    }
}

} // verus!
