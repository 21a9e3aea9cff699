use vstd::prelude::*;
use colored::Colorize;
use chrono::Timelike;
use crate::level::{Level, plain_tag, tag_of};
use crate::text::{push_str, string_of};

verus! {

/// A time of day at second resolution.
#[derive(Clone, Copy, Debug, PartialEq, Eq, Structural)]
pub struct ClockTime {
    pub hour: u32,
    pub minute: u32,
    pub second: u32,
}

impl ClockTime {
    /// Each field lies in its range on a 24-hour clock.
    pub open spec fn wf(self) -> bool {
        self.hour < 24 && self.minute < 60 && self.second < 60
    }
}

/// Relies on `chrono::Local::now` and `Timelike::{hour, minute, second}`:
/// the local time of day, hour below 24, minute and second below 60
/// (a leap second shows as second 59).
#[verifier::external_body]
pub(crate) fn local_now() -> (r: ClockTime)
    ensures
        r.wf(),
{
    let now = chrono::Local::now();
    ClockTime { hour: now.hour(), minute: now.minute(), second: now.second() }
}

/// The decimal digit `d`, for `d` below 10.
pub open spec fn digit(d: nat) -> char {
    if d == 0 { '0' }
    else if d == 1 { '1' }
    else if d == 2 { '2' }
    else if d == 3 { '3' }
    else if d == 4 { '4' }
    else if d == 5 { '5' }
    else if d == 6 { '6' }
    else if d == 7 { '7' }
    else if d == 8 { '8' }
    else { '9' }
}

/// `n`, below 100, as two zero-padded decimal digits.
pub open spec fn two_digits(n: nat) -> Seq<char> {
    seq![digit(n / 10), digit(n % 10)]
}

/// `HH:MM:SS`, on a 24-hour clock, each field zero-padded.
pub open spec fn time_text(t: ClockTime) -> Seq<char> {
    two_digits(t.hour as nat) + seq![':'] + two_digits(t.minute as nat) + seq![':']
        + two_digits(t.second as nat)
}

fn digit_char(d: u32) -> (r: char)
    requires
        d < 10,
    ensures
        r == digit(d as nat),
{
    if d == 0 { '0' }
    else if d == 1 { '1' }
    else if d == 2 { '2' }
    else if d == 3 { '3' }
    else if d == 4 { '4' }
    else if d == 5 { '5' }
    else if d == 6 { '6' }
    else if d == 7 { '7' }
    else if d == 8 { '8' }
    else { '9' }
}

fn push_two_digits(out: &mut Vec<char>, n: u32)
    requires
        n < 100,
    ensures
        final(out)@ == old(out)@ + two_digits(n as nat),
{
    out.push(digit_char(n / 10));
    out.push(digit_char(n % 10));
    assert(final(out)@ =~= old(out)@ + two_digits(n as nat));
}

/// Renders `t` as `HH:MM:SS`.
pub fn format_time(t: &ClockTime) -> (r: String)
    requires
        t.wf(),
    ensures
        r@ == time_text(*t),
{
    let mut out: Vec<char> = Vec::new();
    push_two_digits(&mut out, t.hour);
    out.push(':');
    push_two_digits(&mut out, t.minute);
    out.push(':');
    push_two_digits(&mut out, t.second);
    assert(out@ =~= time_text(*t));
    string_of(&out)
}

/// `[<time>] [<tag>] [<name>]: <message>`.
pub open spec fn entry_line(time: Seq<char>, tag: Seq<char>, name: Seq<char>, message: Seq<char>) -> Seq<char> {
    "["@ + time + "] ["@ + tag + "] ["@ + name + "]: "@ + message
}

/// Assembles one log line from its four fields.
pub fn render_line(time: &str, tag: &str, name: &str, message: &str) -> (r: String)
    ensures
        r@ == entry_line(time@, tag@, name@, message@),
{
    let mut out: Vec<char> = Vec::new();
    push_str(&mut out, "[");
    push_str(&mut out, time);
    push_str(&mut out, "] [");
    push_str(&mut out, tag);
    push_str(&mut out, "] [");
    push_str(&mut out, name);
    push_str(&mut out, "]: ");
    push_str(&mut out, message);
    assert(out@ =~= entry_line(time@, tag@, name@, message@));
    string_of(&out)
}

/// `text` wrapped in the terminal escape sequence that selects the
/// foreground colour `code`, followed by the reset sequence.
pub open spec fn styled(code: Seq<char>, text: Seq<char>) -> Seq<char> {
    seq!['\x1b', '['] + code + seq!['m'] + text + seq!['\x1b', '[', '0', 'm']
}

/// The foreground colour code of a level's tag on the console: white for
/// Trace and Debug, green for Info, yellow for Warn, bright red for Error.
pub open spec fn color_code(l: Level) -> Seq<char> {
    match l {
        Level::Trace => "37"@,
        Level::Debug => "37"@,
        Level::Info => "32"@,
        Level::Warn => "33"@,
        Level::Error => "91"@,
    }
}

/// A console tag for `l`: the plain tag, coloured where the terminal takes colour.
pub open spec fn console_tag(l: Level, tag: Seq<char>) -> bool {
    tag == plain_tag(l) || tag == styled(color_code(l), plain_tag(l))
}

/// Relies on `colored::Colorize::white` and `ColoredString`'s `Display`: the
/// text as it is where colour is off (by the environment or the terminal),
/// else wrapped in the escape for colour code 37.
#[verifier::external_body]
fn paint_white(s: &str) -> (r: String)
    ensures
        !s@.contains('\x1b') ==> (r@ == s@ || r@ == styled("37"@, s@)),
{
    s.white().to_string()
}

/// Relies on `colored::Colorize::green` and `ColoredString`'s `Display`: the
/// text as it is where colour is off, else wrapped in the escape for colour code 32.
#[verifier::external_body]
fn paint_green(s: &str) -> (r: String)
    ensures
        !s@.contains('\x1b') ==> (r@ == s@ || r@ == styled("32"@, s@)),
{
    s.green().to_string()
}

/// Relies on `colored::Colorize::yellow` and `ColoredString`'s `Display`: the
/// text as it is where colour is off, else wrapped in the escape for colour code 33.
#[verifier::external_body]
fn paint_yellow(s: &str) -> (r: String)
    ensures
        !s@.contains('\x1b') ==> (r@ == s@ || r@ == styled("33"@, s@)),
{
    s.yellow().to_string()
}

/// Relies on `colored::Colorize::bright_red` and `ColoredString`'s `Display`:
/// the text as it is where colour is off, else wrapped in the escape for colour code 91.
#[verifier::external_body]
fn paint_bright_red(s: &str) -> (r: String)
    ensures
        !s@.contains('\x1b') ==> (r@ == s@ || r@ == styled("91"@, s@)),
{
    s.bright_red().to_string()
}

proof fn lemma_plain_tag_has_no_escape(l: Level)
    ensures
        !plain_tag(l).contains('\x1b'),
{
    reveal_strlit("Trace");
    reveal_strlit("Debug");
    reveal_strlit("Info");
    reveal_strlit("Warn");
    reveal_strlit("Error");
    let t = plain_tag(l);
    assert forall|k: int| 0 <= k < t.len() implies t[k] != '\x1b' by {}
}

/// The tag of `l` as the console shows it.
pub fn console_tag_of(l: Level) -> (r: String)
    ensures
        console_tag(l, r@),
{
    let t = tag_of(l);
    proof {
        lemma_plain_tag_has_no_escape(l);
    }
    match l {
        Level::Trace => paint_white(t),
        Level::Debug => paint_white(t),
        Level::Info => paint_green(t),
        Level::Warn => paint_yellow(t),
        Level::Error => paint_bright_red(t),
    }
}

} // verus!
