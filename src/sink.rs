//! The two log sinks: which records each admits, and how each writes a record
//! as a line.
use vstd::prelude::*;
use crate::level::{admits, level_name, level_text};

verus! {

/// The name of the channel that diagnostics are logged on.
pub open spec fn diagnostics_channel() -> Seq<char> {
    "diagnostics"@
}

/// The target that diagnostics are logged on.
pub fn diagnostics_target() -> (r: &'static str)
    ensures
        r@ == diagnostics_channel(),
{
    "diagnostics"
}


/// A record's target is on a channel when it is the channel's name or a path
/// below it (`name::...`).
pub open spec fn on_channel(channel: Seq<char>, target: Seq<char>) -> bool {
    ||| target == channel
    ||| (target.len() >= channel.len() + 2 && target.subrange(0, channel.len() as int) == channel
        && target[channel.len() as int] == ':' && target[channel.len() as int + 1] == ':')
}

pub open spec fn on_diagnostics(target: Seq<char>) -> bool {
    on_channel(diagnostics_channel(), target)
}

/// Whether `target` is the diagnostics channel or a path below it.
pub fn is_diagnostics_target(target: &str) -> (r: bool)
    ensures
        r == on_diagnostics(target@),
{
    let channel = diagnostics_target();
    let n = channel.unicode_len();
    let m = target.unicode_len();
    if m < n {
        return false;
    }
    let mut i: usize = 0;
    while i < n
        invariant
            channel@ == diagnostics_channel(),
            n == channel@.len(),
            m == target@.len(),
            n <= m,
            i <= n,
            forall|j: int| 0 <= j < i ==> target@[j] == channel@[j],
        decreases n - i,
    {
        if target.get_char(i) != channel.get_char(i) {
            assert(target@.subrange(0, n as int)[i as int] != channel@[i as int]);
            assert(target@[i as int] != channel@[i as int]);
            assert(target@.subrange(0, n as int) != channel@);
            assert(target@ != channel@);
            return false;
        }
        i = i + 1;
    }
    assert(target@.subrange(0, n as int) =~= channel@);
    if m == n {
        assert(target@ =~= channel@);
        return true;
    }
    m - n >= 2 && target.get_char(n) == ':' && target.get_char(n + 1) == ':'
}

/// The level filters of a sink: one for the diagnostics channel, one for
/// every other target.
#[derive(Clone, Copy, Debug)]
pub struct SinkFilter {
    pub default: log::LevelFilter,
    pub diagnostics: log::LevelFilter,
}

impl SinkFilter {
    pub open spec fn admits_record(&self, target: Seq<char>, level: log::Level) -> bool {
        if on_diagnostics(target) {
            admits(self.diagnostics, level)
        } else {
            admits(self.default, level)
        }
    }

    /// Whether a record of `level` on `target` passes this sink's filters.
    pub fn enabled(&self, target: &str, level: log::Level) -> (r: bool)
        ensures
            r == self.admits_record(target@, level),
    {
        if is_diagnostics_target(target) {
            crate::level::filter_admits(self.diagnostics, level)
        } else {
            crate::level::filter_admits(self.default, level)
        }
    }
}

/// The console keeps `Info` and above and leaves the diagnostics channel out.
pub open spec fn console_policy() -> SinkFilter {
    SinkFilter { default: log::LevelFilter::Info, diagnostics: log::LevelFilter::Off }
}

/// The diagnostics file keeps every diagnostic and `Info` and above of the rest.
pub open spec fn diag_file_policy() -> SinkFilter {
    SinkFilter { default: log::LevelFilter::Info, diagnostics: log::LevelFilter::Trace }
}

pub fn console_filter() -> (r: SinkFilter)
    ensures
        r == console_policy(),
{
    SinkFilter { default: log::LevelFilter::Info, diagnostics: log::LevelFilter::Off }
}

pub fn diag_file_filter() -> (r: SinkFilter)
    ensures
        r == diag_file_policy(),
{
    SinkFilter { default: log::LevelFilter::Info, diagnostics: log::LevelFilter::Trace }
}

/// The file that the diagnostics sink writes, in the executable's directory,
/// where the caller names none.
pub fn default_log_file() -> (r: &'static str)
    ensures
        r@ == ".diag.log"@,
{
    ".diag.log"
}

/// The time stamp pattern of the console sinks, to the second, or of the
/// diagnostics file sink, to the nanosecond.
pub open spec fn stamp_pattern(nanoseconds: bool) -> Seq<char> {
    if nanoseconds {
        "[%Y-%m-%d %H:%M:%S%.9f]"@
    } else {
        "[%Y-%m-%d %H:%M:%S]"@
    }
}

fn stamp_pattern_str(nanoseconds: bool) -> (r: &'static str)
    ensures
        r@ == stamp_pattern(nanoseconds),
{
    if nanoseconds {
        "[%Y-%m-%d %H:%M:%S%.9f]"
    } else {
        "[%Y-%m-%d %H:%M:%S]"
    }
}

/// Relies on chrono's Local::now and the `Display` of its `format`: the local
/// time now, written after `pattern`. The two patterns hold only valid
/// specifiers, so the writing cannot fail.
#[verifier::external_body]
fn local_time_text(pattern: &str) -> (r: String)
    requires
        pattern@ == stamp_pattern(false) || pattern@ == stamp_pattern(true),
{
    chrono::Local::now().format(pattern).to_string()
}

/// Relies on atty::is: whether standard output is an interactive terminal.
#[verifier::external_body]
fn stdout_is_terminal() -> (r: bool) {
    atty::is(atty::Stream::Stdout)
}

#[verifier::external_type_specification]
pub struct ExColor(fern::colors::Color);

/// The ANSI code that selects a foreground colour.
pub open spec fn fg_code(c: fern::colors::Color) -> Seq<char> {
    match c {
        fern::colors::Color::Black => "30"@,
        fern::colors::Color::Red => "31"@,
        fern::colors::Color::Green => "32"@,
        fern::colors::Color::Yellow => "33"@,
        fern::colors::Color::Blue => "34"@,
        fern::colors::Color::Magenta => "35"@,
        fern::colors::Color::Cyan => "36"@,
        fern::colors::Color::White => "37"@,
        fern::colors::Color::BrightBlack => "90"@,
        fern::colors::Color::BrightRed => "91"@,
        fern::colors::Color::BrightGreen => "92"@,
        fern::colors::Color::BrightYellow => "93"@,
        fern::colors::Color::BrightBlue => "94"@,
        fern::colors::Color::BrightMagenta => "95"@,
        fern::colors::Color::BrightCyan => "96"@,
        fern::colors::Color::BrightWhite => "97"@,
    }
}

/// A level's name in a colour: the code that selects it, the name, and the
/// code that resets it.
pub open spec fn colored_label(l: log::Level, c: fern::colors::Color) -> Seq<char> {
    seq!['\u{1b}', '\u{5b}'] + fg_code(c) + "m"@ + level_name(l) + seq!['\u{1b}', '\u{5b}', '0', 'm']
}

/// Relies on fern's ColoredLevelConfig::color, here with one colour for every
/// level, and the `Display` of the `WithFgColor` it returns: the escape that
/// selects the colour, the level's name, and the escape that resets it.
#[verifier::external_body]
fn paint_level(l: log::Level, c: fern::colors::Color) -> (r: String)
    ensures
        r@ == colored_label(l, c),
{
    let colors = fern::colors::ColoredLevelConfig { error: c, warn: c, info: c, debug: c, trace: c };
    colors.color(l).to_string()
}

/// The colour of each level on the console.
pub open spec fn level_color(l: log::Level) -> fern::colors::Color {
    match l {
        log::Level::Error => fern::colors::Color::Red,
        log::Level::Warn => fern::colors::Color::Yellow,
        log::Level::Info => fern::colors::Color::Green,
        log::Level::Debug => fern::colors::Color::Blue,
        log::Level::Trace => fern::colors::Color::White,
    }
}

pub fn color_of(l: log::Level) -> (r: fern::colors::Color)
    ensures
        r == level_color(l),
{
    match l {
        log::Level::Error => fern::colors::Color::Red,
        log::Level::Warn => fern::colors::Color::Yellow,
        log::Level::Info => fern::colors::Color::Green,
        log::Level::Debug => fern::colors::Color::Blue,
        log::Level::Trace => fern::colors::Color::White,
    }
}

/// How a level is labelled on the console: in its colour, or plain.
pub open spec fn level_label_text(l: log::Level, colored: bool) -> Seq<char> {
    if colored {
        colored_label(l, level_color(l))
    } else {
        level_name(l)
    }
}

pub fn level_label(l: log::Level, colored: bool) -> (r: String)
    ensures
        r@ == level_label_text(l, colored),
{
    if colored {
        paint_level(l, color_of(l))
    } else {
        level_text(l)
    }
}

/// The console pads `INFO` and `WARN` to the width of the other names.
pub open spec fn console_pad(l: log::Level) -> Seq<char> {
    if l == log::Level::Info || l == log::Level::Warn {
        " "@
    } else {
        ""@
    }
}

/// The diagnostics file pads `INFO` alone.
pub open spec fn file_pad(l: log::Level) -> Seq<char> {
    if l == log::Level::Info {
        " "@
    } else {
        ""@
    }
}

/// `<stamp> <label><pad>: <message>`
pub open spec fn console_line(stamp: Seq<char>, label: Seq<char>, l: log::Level, message: Seq<char>) -> Seq<char> {
    stamp + " "@ + label + console_pad(l) + ": "@ + message
}

/// `<stamp> <label><pad> <target>: <message>`
pub open spec fn console_target_line(
    stamp: Seq<char>,
    label: Seq<char>,
    l: log::Level,
    target: Seq<char>,
    message: Seq<char>,
) -> Seq<char> {
    stamp + " "@ + label + console_pad(l) + " "@ + target + ": "@ + message
}

/// `<stamp> <LEVEL><pad> <target>: <message>`
pub open spec fn file_line(stamp: Seq<char>, l: log::Level, target: Seq<char>, message: Seq<char>) -> Seq<char> {
    stamp + " "@ + level_name(l) + file_pad(l) + " "@ + target + ": "@ + message
}

fn pad_str(l: log::Level, warn_too: bool) -> (r: &'static str)
    ensures
        r@ == (if warn_too { console_pad(l) } else { file_pad(l) }),
{
    let padded = match l {
        log::Level::Info => true,
        log::Level::Warn => warn_too,
        _ => false,
    };
    if padded {
        " "
    } else {
        ""
    }
}

/// A console line from its parts.
pub fn format_console_line(stamp: &str, label: &str, l: log::Level, message: &str) -> (r: String)
    ensures
        r@ == console_line(stamp@, label@, l, message@),
{
    let mut r = String::from_str(stamp);
    r.append(" ");
    r.append(label);
    r.append(pad_str(l, true));
    r.append(": ");
    r.append(message);
    proof {
        assert(r@ =~= console_line(stamp@, label@, l, message@));
    }
    r
}

/// A console line that names the record's target, from its parts.
pub fn format_console_target_line(stamp: &str, label: &str, l: log::Level, target: &str, message: &str) -> (r: String)
    ensures
        r@ == console_target_line(stamp@, label@, l, target@, message@),
{
    let mut r = String::from_str(stamp);
    r.append(" ");
    r.append(label);
    r.append(pad_str(l, true));
    r.append(" ");
    r.append(target);
    r.append(": ");
    r.append(message);
    proof {
        assert(r@ =~= console_target_line(stamp@, label@, l, target@, message@));
    }
    r
}

/// A line of the diagnostics file from its parts.
pub fn format_file_line(stamp: &str, l: log::Level, target: &str, message: &str) -> (r: String)
    ensures
        r@ == file_line(stamp@, l, target@, message@),
{
    let mut r = String::from_str(stamp);
    r.append(" ");
    r.append(l.as_str());
    r.append(pad_str(l, false));
    r.append(" ");
    r.append(target);
    r.append(": ");
    r.append(message);
    proof {
        assert(r@ =~= file_line(stamp@, l, target@, message@));
    }
    r
}

/// A record as the console writes it: stamped with the local time to the
/// second, the level coloured where standard output is a terminal.
pub fn console_record(l: log::Level, message: &str) -> (r: String)
    ensures
        exists|stamp: Seq<char>, colored: bool| r@ == #[trigger] console_line(stamp, level_label_text(l, colored), l, message@),
{
    let colored = stdout_is_terminal();
    let label = level_label(l, colored);
    let stamp = local_time_text(stamp_pattern_str(false));
    let r = format_console_line(stamp.as_str(), label.as_str(), l, message);
    assert(r@ == console_line(stamp@, level_label_text(l, colored), l, message@));
    r
}

/// A record as the console writes it with its target: stamped with the local
/// time to the second, the level always coloured.
pub fn console_target_record(l: log::Level, target: &str, message: &str) -> (r: String)
    ensures
        exists|stamp: Seq<char>| r@ == #[trigger] console_target_line(stamp, level_label_text(l, true), l, target@, message@),
{
    let label = level_label(l, true);
    let stamp = local_time_text(stamp_pattern_str(false));
    let r = format_console_target_line(stamp.as_str(), label.as_str(), l, target, message);
    assert(r@ == console_target_line(stamp@, level_label_text(l, true), l, target@, message@));
    r
}

/// A record as the diagnostics file writes it: stamped with the local time to
/// the nanosecond, the level plain.
pub fn file_record(l: log::Level, target: &str, message: &str) -> (r: String)
    ensures
        exists|stamp: Seq<char>| r@ == #[trigger] file_line(stamp, l, target@, message@),
{
    let stamp = local_time_text(stamp_pattern_str(true));
    let r = format_file_line(stamp.as_str(), l, target, message);
    assert(r@ == file_line(stamp@, l, target@, message@));
    r
}

/// The console admits no record of the diagnostics channel, at any level.
pub proof fn console_leaves_out_diagnostics(target: Seq<char>, l: log::Level)
    requires
        on_diagnostics(target),
    ensures
        !console_policy().admits_record(target, l),
{
}

/// The diagnostics file admits every record of the diagnostics channel.
pub proof fn diag_file_keeps_diagnostics(target: Seq<char>, l: log::Level)
    requires
        on_diagnostics(target),
    ensures
        diag_file_policy().admits_record(target, l),
{
}

/// A sink whose filter for a target is `Info` suppresses `Debug` (and `Trace`)
/// records there; so the console suppresses them on every target.
pub proof fn info_filter_suppresses_debug(f: SinkFilter, target: Seq<char>)
    requires
        if on_diagnostics(target) { f.diagnostics == log::LevelFilter::Info } else { f.default == log::LevelFilter::Info },
    ensures
        !f.admits_record(target, log::Level::Debug),
        !f.admits_record(target, log::Level::Trace),
        !console_policy().admits_record(target, log::Level::Debug),
{
}

} // verus!
