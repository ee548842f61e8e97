//! The recorder's options.
use vstd::arithmetic::power::pow;
use vstd::prelude::*;
use crate::paths::{
    extension, law_dot_at_the_end_is_no_extension, law_extension_follows_the_last_dot,
    law_extension_of_a_bare_name, law_trailing_slash_changes_nothing, lower, lower_byte,
    lower_bytes, path_extension,
};
use crate::text::{
    after_plus, all_digits, chars_of, decimal, is_digit, law_decimal_reads_back,
    lemma_leading_zeros, lemma_radix_reads_back, positional, push_radix, push_zero_padded, radix, read_unsigned, same_text, unsigned, zero_pad,
};

verus! {

/// Frames per second where nothing else is asked for.
pub const DEFAULT_FRAMERATE: u32 = 30;

/// The video bitrate in kbps where nothing else is asked for.
pub const DEFAULT_BITRATE_KBPS: u32 = 8000;

/// The encoder's speed preset where nothing else is asked for.
pub const DEFAULT_SPEED_PRESET: &'static str = "veryfast";

/// A parsed command line.
#[derive(Debug)]
pub struct Cli {
    pub command: Command,
}

/// What the program is asked to do.
#[derive(Debug)]
pub enum Command {
    /// Record the screen to a file.
    Record(RecordArgs),
    /// List available capture sources (monitors/windows).
    ListSources,
    /// Launch the graphical interface.
    Gui,
}

/// A length of time: whole seconds, and nanoseconds short of one more.
#[derive(Debug, Clone, Copy, PartialEq, Eq, Structural)]
pub struct Span {
    pub secs: u64,
    pub nanos: u32,
}

impl Span {
    /// Whether the nanoseconds are fewer than a second's.
    pub open spec fn valid(self) -> bool {
        self.nanos < 1_000_000_000
    }

    /// The length in nanoseconds.
    pub open spec fn total(self) -> nat {
        self.secs as nat * 1_000_000_000 + self.nanos as nat
    }
}

/// What to record and how.
#[derive(Debug)]
pub struct RecordArgs {
    /// The bytes of the output path.
    pub output: Vec<u8>,
    /// How long to record.
    pub duration: Span,
    pub framerate: u32,
    /// Target video bitrate in kbps.
    pub bitrate: u32,
    pub speed_preset: String,
    /// Container format; inferred from the output path if `None`.
    pub container: Option<Container>,
    /// The monitor to capture. Can't be combined with `window`.
    pub monitor: Option<u32>,
    /// The window to capture. Can't be combined with `monitor`.
    pub window: Option<u64>,
    pub audio: AudioMode,
    /// The PulseAudio device to use instead of the default one.
    pub audio_device: Option<String>,
}

/// What audio, if any, to capture alongside the video.
#[derive(Debug, Clone, Copy, PartialEq, Eq, Structural)]
pub enum AudioMode {
    /// Video only.
    Off,
    /// The default microphone / input source.
    Mic,
    /// Desktop/system audio, via the default sink's PulseAudio monitor.
    System,
    /// Mic and system audio mixed together.
    Both,
}

impl AudioMode {
    /// How the mode is spelled on the command line and in saved settings.
    pub open spec fn spelling(self) -> Seq<char> {
        match self {
            AudioMode::Off => "none"@,
            AudioMode::Mic => "mic"@,
            AudioMode::System => "system"@,
            AudioMode::Both => "both"@,
        }
    }

    /// How the mode is spelled on the command line and in saved settings.
    pub fn name(self) -> (name: &'static str)
        ensures
            name@ == self.spelling(),
    {
        match self {
            AudioMode::Off => "none",
            AudioMode::Mic => "mic",
            AudioMode::System => "system",
            AudioMode::Both => "both",
        }
    }

    /// The mode that is spelled `name`.
    pub fn from_name(name: &str) -> (mode: Option<AudioMode>)
        ensures
            match mode {
                Some(m) => name@ == m.spelling(),
                None => forall|m: AudioMode| name@ != #[trigger] m.spelling(),
            },
    {
        if same_text(name, "none") {
            Some(AudioMode::Off)
        } else if same_text(name, "mic") {
            Some(AudioMode::Mic)
        } else if same_text(name, "system") {
            Some(AudioMode::System)
        } else if same_text(name, "both") {
            Some(AudioMode::Both)
        } else {
            None
        }
    }
}

/// No two modes are spelled alike, so a mode's spelling names that mode.
pub proof fn law_audio_spelling_names_the_mode(a: AudioMode, b: AudioMode)
    requires
        a.spelling() == b.spelling(),
    ensures
        a == b,
{
    reveal_strlit("none");
    reveal_strlit("mic");
    reveal_strlit("system");
    reveal_strlit("both");
    assert("none"@.len() == 4 && "mic"@.len() == 3 && "system"@.len() == 6 && "both"@.len() == 4);
    assert("none"@[0] == 'n' && "both"@[0] == 'b');
    assert('n' != 'b');
}

/// The file format that pictures and sound are put into.
#[derive(Debug, Clone, Copy, PartialEq, Eq, Structural)]
pub enum Container {
    Mkv,
    Mp4,
}

/// The container for an output path: MP4 for the extensions `mp4`, `m4v`
/// and `mov` in any letter case, Matroska for every other path.
pub open spec fn container_for(path: Seq<u8>) -> Container {
    match extension(path) {
        Some(ext) => if lower(ext) == seq![0x6du8, 0x70u8, 0x34u8] || lower(ext) == seq![
            0x6du8,
            0x34u8,
            0x76u8,
        ] || lower(ext) == seq![0x6du8, 0x6fu8, 0x76u8] {
            Container::Mp4
        } else {
            Container::Mkv
        },
        None => Container::Mkv,
    }
}

impl Container {
    /// The kind of element that writes this container.
    pub open spec fn muxer(self) -> Seq<char> {
        match self {
            Container::Mkv => "matroskamux"@,
            Container::Mp4 => "qtmux"@,
        }
    }

    /// The kind of element that writes this container.
    pub fn mux_element_name(self) -> (name: &'static str)
        ensures
            name@ == self.muxer(),
    {
        match self {
            Container::Mkv => "matroskamux",
            Container::Mp4 => "qtmux",
        }
    }

    /// Infers a container from an output path's extension, defaulting to
    /// Matroska for unrecognized/missing extensions.
    pub fn infer_from_path(path: &[u8]) -> (container: Container)
        ensures
            container == container_for(path@),
    {
        match path_extension(path) {
            Some(ext) => {
                let e = lower_bytes(&ext);
                if e.len() == 3 && e[0] == 0x6d && ((e[1] == 0x70 && e[2] == 0x34) || (e[1] == 0x34
                    && e[2] == 0x76) || (e[1] == 0x6f && e[2] == 0x76)) {
                    proof {
                        assert(e@ =~= seq![e[0], e[1], e[2]]);
                    }
                    Container::Mp4
                } else {
                    proof {
                        let mp4 = seq![0x6du8, 0x70u8, 0x34u8];
                        let m4v = seq![0x6du8, 0x34u8, 0x76u8];
                        let mov = seq![0x6du8, 0x6fu8, 0x76u8];
                        assert(mp4[0] == 0x6d && mp4[1] == 0x70 && mp4[2] == 0x34);
                        assert(m4v[0] == 0x6d && m4v[1] == 0x34 && m4v[2] == 0x76);
                        assert(mov[0] == 0x6d && mov[1] == 0x6f && mov[2] == 0x76);
                    }
                    Container::Mkv
                }
            },
            None => Container::Mkv,
        }
    }
}

/// Whether `s` begins with `0x` or `0X`.
pub open spec fn hex_prefixed(s: Seq<char>) -> bool {
    s.len() >= 2 && s[0] == '0' && (s[1] == 'x' || s[1] == 'X')
}

/// The window id that `s` spells: hexadecimal behind `0x` or `0X`, decimal
/// otherwise.
pub open spec fn window_id(s: Seq<char>) -> Option<nat> {
    if hex_prefixed(s) {
        unsigned(s.skip(2), 16)
    } else {
        unsigned(s, 10)
    }
}

/// A window id as list-sources prints it: `0x`, then at least eight digits.
pub open spec fn window_id_text(xid: u64) -> Seq<char> {
    "0x"@ + zero_pad(radix(xid as nat, 16), 8)
}

/// Parses a window id as hex behind a "0x"/"0X" prefix, and as plain
/// decimal without one.
pub fn parse_window_id(s: &str) -> (id: Result<u64, String>)
    ensures
        match id {
            Ok(n) => window_id(s@) == Some(n as nat),
            Err(message) => window_id(s@) is None && message@ == "invalid window id '"@ + s@
                + "' (expected e.g. \"0x2c00003\" or a decimal number)"@,
        },
{
    let chars = chars_of(s);
    let value = if chars.len() >= 2 && chars[0] == '0' && (chars[1] == 'x' || chars[1] == 'X') {
        read_unsigned(&chars, 2, 16)
    } else {
        assert(chars@.skip(0) =~= chars@);
        read_unsigned(&chars, 0, 10)
    };
    match value {
        Some(n) => Ok(n),
        None => {
            let mut message = String::new();
            message.append("invalid window id '");
            message.append(s);
            message.append("' (expected e.g. \"0x2c00003\" or a decimal number)");
            assert(message@ =~= "invalid window id '"@ + s@
                + "' (expected e.g. \"0x2c00003\" or a decimal number)"@);
            Err(message)
        },
    }
}

/// Appends a window id as list-sources prints it.
pub fn push_window_id(out: &mut String, xid: u64)
    ensures
        final(out)@ == old(out)@ + window_id_text(xid),
{
    let mut digits = String::new();
    push_radix(&mut digits, xid, 16);
    assert(digits@ =~= radix(xid as nat, 16));
    out.append("0x");
    push_zero_padded(out, digits.as_str(), 8);
    assert(out@ =~= old(out)@ + window_id_text(xid));
}

/// A window id can be given as list-sources prints it.
pub proof fn law_listed_window_id_is_accepted(xid: u64)
    ensures
        window_id(window_id_text(xid)) == Some(xid as nat),
{
    reveal_strlit("0x");
    let digits = radix(xid as nat, 16);
    let padded = zero_pad(digits, 8);
    let text = window_id_text(xid);
    lemma_radix_reads_back(xid as nat, 16);
    assert(text[0] == '0' && text[1] == 'x');
    assert(text.skip(2) =~= padded);
    if digits.len() < 8 {
        lemma_leading_zeros((8 - digits.len()) as nat, digits, 16);
    }
    assert forall|i: int| 0 <= i < padded.len() implies is_digit(#[trigger] padded[i], 16) by {
        if digits.len() < 8 {
            let k = 8 - digits.len();
            if i < k {
                assert(padded[i] == '0');
            } else {
                assert(padded[i] == digits[i - k]);
            }
        }
    }
    assert(is_digit(padded[0], 16));
    assert(after_plus(padded) == padded);
}

/// Whether `b` is the letter `small`, in either case.
pub open spec fn is_letter(b: u8, small: u8) -> bool {
    b == small || b + 0x20 == small
}

/// Whether `path` ends in `.mp4`, `.m4v` or `.mov`, in any letter case.
pub open spec fn ends_like_mp4(path: Seq<u8>) -> bool {
    let n = path.len();
    &&& n >= 4 && path[n - 4] == 0x2e
    &&& is_letter(path[n - 3], 0x6d)
    &&& {
        ||| is_letter(path[n - 2], 0x70) && path[n - 1] == 0x34
        ||| path[n - 2] == 0x34 && is_letter(path[n - 1], 0x76)
        ||| is_letter(path[n - 2], 0x6f) && is_letter(path[n - 1], 0x76)
    }
}

proof fn lemma_mp4_names(ext: Seq<u8>)
    ensures
        (lower(ext) == seq![0x6du8, 0x70u8, 0x34u8] || lower(ext) == seq![0x6du8, 0x34u8, 0x76u8]
            || lower(ext) == seq![0x6du8, 0x6fu8, 0x76u8]) <==> (ext.len() == 3 && is_letter(
            ext[0],
            0x6d,
        ) && (is_letter(ext[1], 0x70) && ext[2] == 0x34 || ext[1] == 0x34 && is_letter(ext[2], 0x76)
            || is_letter(ext[1], 0x6f) && is_letter(ext[2], 0x76))),
{
    let mp4 = seq![0x6du8, 0x70u8, 0x34u8];
    let m4v = seq![0x6du8, 0x34u8, 0x76u8];
    let mov = seq![0x6du8, 0x6fu8, 0x76u8];
    assert(mp4[0] == 0x6d && mp4[1] == 0x70 && mp4[2] == 0x34);
    assert(m4v[0] == 0x6d && m4v[1] == 0x34 && m4v[2] == 0x76);
    assert(mov[0] == 0x6d && mov[1] == 0x6f && mov[2] == 0x76);
    let l = lower(ext);
    assert(l.len() == ext.len());
    if ext.len() == 3 {
        assert(l[0] == lower_byte(ext[0]) && l[1] == lower_byte(ext[1]) && l[2] == lower_byte(ext[2]));
        assert(l =~= seq![l[0], l[1], l[2]]);
    }
}

/// A path that names a file is recorded into MP4 exactly where it ends in
/// `.mp4`, `.m4v` or `.mov`, in any letter case, behind something of a name;
/// into Matroska otherwise.
pub proof fn law_container_goes_by_how_the_path_ends(path: Seq<u8>)
    requires
        path.len() > 0,
        path.last() != 0x2f && path.last() != 0x2e,
    ensures
        container_for(path) == Container::Mp4 <==> ends_like_mp4(path) && path.len() > 4
            && path[path.len() - 5] != 0x2f,
        container_for(path) == Container::Mp4 || container_for(path) == Container::Mkv,
{
    let n = path.len();
    if ends_like_mp4(path) {
        let dot = n - 4;
        law_extension_follows_the_last_dot(path, dot);
        if n > 4 && path[n - 5] != 0x2f {
            let ext = path.skip(dot + 1);
            lemma_mp4_names(ext);
            assert(ext[0] == path[n - 3] && ext[1] == path[n - 2] && ext[2] == path[n - 1]);
        }
    } else {
        let dot = last_mark(path, n as int);
        lemma_last_mark(path, n as int);
        if dot >= 0 {
            law_extension_follows_the_last_dot(path, dot);
            if path[dot] == 0x2e && dot > 0 && path[dot - 1] != 0x2f {
                let ext = path.skip(dot + 1);
                lemma_mp4_names(ext);
                if ext.len() == 3 {
                    assert(ext[0] == path[n - 3] && ext[1] == path[n - 2] && ext[2] == path[n - 1]);
                }
            }
        } else {
            lemma_no_mark(path);
        }
    }
}

/// Where the last dot or slash before `n` is; below zero where there is none.
spec fn last_mark(path: Seq<u8>, n: int) -> int
    decreases n,
{
    if n <= 0 {
        -1
    } else if path[n - 1] == 0x2e || path[n - 1] == 0x2f {
        n - 1
    } else {
        last_mark(path, n - 1)
    }
}

proof fn lemma_last_mark(path: Seq<u8>, n: int)
    requires
        0 <= n <= path.len(),
    ensures
        -1 <= last_mark(path, n) < n,
        last_mark(path, n) >= 0 ==> path[last_mark(path, n)] == 0x2e || path[last_mark(path, n)]
            == 0x2f,
        forall|i: int|
            last_mark(path, n) < i < n ==> #[trigger] path[i] != 0x2e && path[i] != 0x2f,
    decreases n,
{
    if n > 0 && path[n - 1] != 0x2e && path[n - 1] != 0x2f {
        lemma_last_mark(path, n - 1);
    }
}

/// A bare name without a dot is recorded into Matroska.
proof fn lemma_no_mark(path: Seq<u8>)
    requires
        path.len() > 0,
        forall|i: int| 0 <= i < path.len() ==> #[trigger] path[i] != 0x2e && path[i] != 0x2f,
    ensures
        container_for(path) == Container::Mkv,
{
    law_extension_of_a_bare_name(path);
}

/// A slash at the end of a path changes nothing of its container.
pub proof fn law_trailing_slash_keeps_the_container(path: Seq<u8>)
    ensures
        container_for(path.push(0x2f)) == container_for(path),
{
    law_trailing_slash_changes_nothing(path);
}

/// A window id can be given in plain decimal.
pub proof fn law_decimal_window_id_is_accepted(xid: u64)
    ensures
        window_id(decimal(xid as nat)) == Some(xid as nat),
{
    let text = decimal(xid as nat);
    law_decimal_reads_back(xid as nat);
    lemma_radix_reads_back(xid as nat, 10);
    assert('0' <= text[0] <= '9');
    assert(after_plus(text) == text);
    if text.len() >= 2 {
        assert('0' <= text[1] <= '9');
    }
}

/// A length of time is its seconds and its nanoseconds, and nothing else.
pub proof fn law_spans_are_seconds_and_nanoseconds(span: Span)
    ensures
        span.total() == span.secs * 1_000_000_000 + span.nanos,
        span.valid() <==> span.nanos < 1_000_000_000,
{
}

/// A path that ends in a dot is for Matroska, unless the dot is all that its
/// last part is made of, when the path goes by what is in front of that.
pub proof fn law_dot_at_the_end_is_for_matroska(path: Seq<u8>)
    requires
        path.len() > 0,
        path.last() == 0x2e,
    ensures
        path.len() == 1 || path[path.len() - 2] != 0x2f ==> container_for(path) == Container::Mkv,
        path.len() > 1 && path[path.len() - 2] == 0x2f ==> container_for(path) == container_for(
            path.drop_last(),
        ),
{
    law_dot_at_the_end_is_no_extension(path);
    if let Some(ext) = extension(path) {
        lemma_mp4_names(ext);
    }
}

/// What a window id is read as: behind `0x` or `0X` a number in hexadecimal,
/// and without either one in decimal. It is a window id exactly if it has
/// digits and nothing but digits, of a number that fits in 64 bits.
pub proof fn law_window_ids_are_numbers(digits: Seq<char>, small: bool)
    requires
        digits.len() > 0 ==> digits[0] != '+',
    ensures
        ({
            let prefix = if small {
                "0x"@
            } else {
                "0X"@
            };
            let value = positional(digits, 16);
            let good = digits.len() > 0 && value <= u64::MAX && forall|i: int|
                0 <= i < digits.len() ==> ('0' <= #[trigger] digits[i] <= '9' || 'a' <= digits[i]
                    <= 'f' || 'A' <= digits[i] <= 'F');
            window_id(prefix + digits) == if good {
                Some(value)
            } else {
                None
            }
        }),
        ({
            let value = positional(digits, 10);
            let good = digits.len() > 0 && value <= u64::MAX && forall|i: int|
                0 <= i < digits.len() ==> '0' <= #[trigger] digits[i] <= '9';
            !(digits.len() >= 2 && digits[0] == '0' && (digits[1] == 'x' || digits[1] == 'X'))
                ==> window_id(digits) == if good {
                Some(value)
            } else {
                None
            }
        }),
{
    reveal_strlit("0x");
    reveal_strlit("0X");
    let prefix = if small {
        "0x"@
    } else {
        "0X"@
    };
    let s = prefix + digits;
    assert(s[0] == '0' && (s[1] == 'x' || s[1] == 'X'));
    assert(s.skip(2) =~= digits);
    assert(after_plus(digits) == digits);
    lemma_digits(digits);
}

proof fn lemma_digits(s: Seq<char>)
    ensures
        all_digits(s, 16) <==> forall|i: int|
            0 <= i < s.len() ==> ('0' <= #[trigger] s[i] <= '9' || 'a' <= s[i] <= 'f' || 'A' <= s[i]
                <= 'F'),
        all_digits(s, 10) <==> forall|i: int| 0 <= i < s.len() ==> '0' <= #[trigger] s[i] <= '9',
{
    if all_digits(s, 16) {
        assert forall|i: int| 0 <= i < s.len() implies ('0' <= #[trigger] s[i] <= '9' || 'a' <= s[i]
            <= 'f' || 'A' <= s[i] <= 'F') by {
            assert(is_digit(s[i], 16));
        }
    }
    if all_digits(s, 10) {
        assert forall|i: int| 0 <= i < s.len() implies '0' <= #[trigger] s[i] <= '9' by {
            assert(is_digit(s[i], 10));
        }
    }
}

/// A plus sign in front of the digits of a window id is passed over, and
/// only one.
pub proof fn law_plus_sign_is_passed_over(digits: Seq<char>)
    requires
        digits.len() > 0 && digits[0] != '+',
        !(digits.len() >= 2 && digits[0] == '0' && (digits[1] == 'x' || digits[1] == 'X')),
    ensures
        window_id(seq!['+'] + digits) == window_id(digits),
        window_id(seq!['+', '+'] + digits) is None,
{
    let one = seq!['+'] + digits;
    assert(one[0] == '+');
    assert(one.skip(1) =~= digits);
    let two = seq!['+', '+'] + digits;
    assert(two[0] == '+');
    assert(two.skip(1)[0] == '+');
    assert(!is_digit(two.skip(1)[0], 10));
}

/// A window id is listed with `0x` in front and eight digits at least.
pub proof fn law_window_ids_are_listed_in_hexadecimal(xid: u64)
    ensures
        window_id_text(xid).take(2) == "0x"@,
        window_id_text(xid).len() >= 10,
        xid <= u32::MAX ==> window_id_text(xid).len() == 10,
        positional(window_id_text(xid).skip(2), 16) == xid,
{
    reveal_strlit("0x");
    let digits = radix(xid as nat, 16);
    let text = window_id_text(xid);
    assert(text.take(2) =~= "0x"@);
    assert(text.skip(2) =~= zero_pad(digits, 8));
    lemma_radix_reads_back(xid as nat, 16);
    if digits.len() < 8 {
        lemma_leading_zeros((8 - digits.len()) as nat, digits, 16);
    }
    if xid <= u32::MAX {
        assert(pow(16, 8) == 0x1_0000_0000) by {
            reveal_with_fuel(pow, 9);
        }
        lemma_eight_digits(xid as nat, 8);
    }
}

proof fn lemma_eight_digits(n: nat, k: nat)
    requires
        k > 0,
        n < pow(16, k),
    ensures
        radix(n, 16).len() <= k,
    decreases k,
{
    reveal(pow);
    if n >= 16 {
        if k == 1 {
            assert(pow(16, 1) == 16 * pow(16, 0));
        }
        assert(n / 16 < pow(16, (k - 1) as nat)) by (nonlinear_arith)
            requires
                n < 16 * pow(16, (k - 1) as nat),
        ;
        lemma_eight_digits(n / 16, (k - 1) as nat);
    }
}

} // verus!
