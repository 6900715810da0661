use vstd::prelude::*;
use vstd::string::StringExecFns;

verus! {

/// Severity of a log record.
#[derive(Debug, Copy, Clone, PartialEq, Eq, Structural)]
pub enum Level {
    Debug,
    Info,
    Okay,
    Warn,
    Error,
    Fatal,
}

/// Who wrote a log record: the runtime itself or the application.
#[derive(Debug, Copy, Clone, PartialEq, Eq, Structural)]
pub enum Source {
    Core,
    Client,
}

/// A terminal text style: a colour of the 256-colour palette, bold or not,
/// reversed or not.
#[derive(Debug, Copy, Clone, PartialEq, Eq, Structural)]
pub struct TagStyle {
    pub colour: u8,
    pub bold: bool,
    pub reverse: bool,
}

pub open spec fn digit(d: int) -> char {
    if d == 0 { '0' }
    else if d == 1 { '1' }
    else if d == 2 { '2' }
    else if d == 3 { '3' }
    else if d == 4 { '4' }
    else if d == 5 { '5' }
    else if d == 6 { '6' }
    else if d == 7 { '7' }
    else if d == 8 { '8' }
    else { '9' }
}

/// The decimal digits of `n`, without leading zeros.
pub open spec fn decimal(n: nat) -> Seq<char>
    decreases n,
{
    if n < 10 {
        seq![digit(n as int)]
    } else {
        decimal(n / 10).push(digit((n % 10) as int))
    }
}

/// `text` between the SGR sequence that selects `style` and the reset
/// sequence.
pub open spec fn painted(style: TagStyle, text: Seq<char>) -> Seq<char> {
    seq!['\x1b', '['] + (if style.bold {
        seq!['1', ';']
    } else {
        Seq::empty()
    }) + (if style.reverse {
        seq!['7', ';']
    } else {
        Seq::empty()
    }) + seq!['3', '8', ';', '5', ';'] + decimal(style.colour as nat) + seq!['m'] + text + seq![
        '\x1b',
        '[',
        '0',
        'm',
    ]
}

/// Relies on ansi_term's `Style::paint` and the `Display` of the string it
/// returns: the style's SGR prefix (attribute codes 1 and 7 in that order,
/// then `38;5;n` for a palette colour), the text, then the reset `ESC[0m`.
#[verifier::external_body]
fn paint(style: TagStyle, text: &str) -> (r: String)
    ensures
        r@ == painted(style, text@),
{
    let s = ansi_term::Style {
        foreground: Some(ansi_term::Colour::Fixed(style.colour)),
        is_bold: style.bold,
        is_reverse: style.reverse,
        ..ansi_term::Style::default()
    };
    s.paint(text).to_string()
}

pub open spec fn level_tag(level: Level) -> Seq<char> {
    match level {
        Level::Debug => " DEBG "@,
        Level::Info => " INFO "@,
        Level::Okay => " OKAY "@,
        Level::Warn => " WARN "@,
        Level::Error => " ERRR "@,
        Level::Fatal => " FATL "@,
    }
}

pub open spec fn level_style(level: Level) -> TagStyle {
    match level {
        Level::Debug => TagStyle { colour: 3, bold: true, reverse: false },
        Level::Info => TagStyle { colour: 4, bold: true, reverse: false },
        Level::Okay => TagStyle { colour: 2, bold: true, reverse: true },
        Level::Warn => TagStyle { colour: 3, bold: true, reverse: true },
        Level::Error => TagStyle { colour: 9, bold: true, reverse: true },
        Level::Fatal => TagStyle { colour: 1, bold: true, reverse: true },
    }
}

/// The fixed-width tag of a level.
pub fn tag_of(level: Level) -> (r: &'static str)
    ensures
        r@ == level_tag(level),
{
    match level {
        Level::Debug => " DEBG ",
        Level::Info => " INFO ",
        Level::Okay => " OKAY ",
        Level::Warn => " WARN ",
        Level::Error => " ERRR ",
        Level::Fatal => " FATL ",
    }
}

/// The style a level's tag is shown in.
pub fn style_of(level: Level) -> (r: TagStyle)
    ensures
        r == level_style(level),
{
    match level {
        Level::Debug => TagStyle { colour: 3, bold: true, reverse: false },
        Level::Info => TagStyle { colour: 4, bold: true, reverse: false },
        Level::Okay => TagStyle { colour: 2, bold: true, reverse: true },
        Level::Warn => TagStyle { colour: 3, bold: true, reverse: true },
        Level::Error => TagStyle { colour: 9, bold: true, reverse: true },
        Level::Fatal => TagStyle { colour: 1, bold: true, reverse: true },
    }
}

pub open spec fn time_style() -> TagStyle {
    TagStyle { colour: 8, bold: false, reverse: false }
}

pub open spec fn source_style() -> TagStyle {
    TagStyle { colour: 3, bold: true, reverse: false }
}

/// What follows the level tag: the runtime's own name for its records,
/// nothing for the application's.
pub open spec fn source_tag(source: Source) -> Seq<char> {
    match source {
        Source::Core => seq![' '] + painted(source_style(), "hazel"@) + seq![':'],
        Source::Client => Seq::empty(),
    }
}

/// The head of a log record written at the time of day `time`.
pub open spec fn stamp(level: Level, source: Source, time: Seq<char>) -> Seq<char> {
    painted(time_style(), time) + seq![' '] + painted(level_style(level), level_tag(level))
        + source_tag(source)
}

/// Builds the head of a log record: the time of day, the level's tag and,
/// for the runtime's own records, its name, each in its terminal style.
pub fn timestamp(level: Level, source: Source, time: &str) -> (r: String)
    ensures
        r@ == stamp(level, source, time@),
{
    let mut r = paint(TagStyle { colour: 8, bold: false, reverse: false }, time);
    r.append(" ");
    let tag = paint(style_of(level), tag_of(level));
    r.append(tag.as_str());
    match source {
        Source::Core => {
            r.append(" ");
            let name = paint(TagStyle { colour: 3, bold: true, reverse: false }, "hazel");
            r.append(name.as_str());
            r.append(":");
        },
        Source::Client => {},
    }
    proof {
        reveal_strlit(" ");
        reveal_strlit(":");
    }
    assert(r@ =~= stamp(level, source, time@));
    r
}

/// A whole log record: its head, a space, and the message.
pub fn log_line(level: Level, source: Source, time: &str, msg: &str) -> (r: String)
    ensures
        r@ == stamp(level, source, time@) + seq![' '] + msg@,
{
    let mut r = timestamp(level, source, time);
    r.append(" ");
    r.append(msg);
    proof {
        reveal_strlit(" ");
    }
    r
}

/// Whether a record of this level goes to the error stream: only errors do.
pub fn to_error_stream(level: Level) -> (r: bool)
    ensures
        r == (level == Level::Error),
{
    match level {
        Level::Error => true,
        _ => false,
    }
}

} // verus!
