//! How messages are shown.

use vstd::prelude::*;
use crate::ghk::flow::Tone;

verus! {

/// What the user asked for about the output.
#[derive(Clone, Copy, Debug, PartialEq, Eq, Structural)]
pub struct Style {
    /// Suppress all but errors.
    pub quiet: bool,
    /// Use no colors.
    pub nocolor: bool,
}

/// The stream that a line goes to.
#[derive(Clone, Copy, Debug, PartialEq, Eq, Structural)]
pub enum Stream {
    Output,
    Error,
}

/// What stands before a message in a tone.
pub open spec fn prefix(tone: Tone, nocolor: bool) -> Seq<char> {
    match tone {
        Tone::Success => if nocolor {
            "+ "@
        } else {
            "\x1b[32m\u{2714}\x1b[0m "@
        },
        Tone::Warning => if nocolor {
            "! "@
        } else {
            "\x1b[33m\u{26a0}\x1b[0m "@
        },
        Tone::Failure => if nocolor {
            "X "@
        } else {
            "\x1b[31m\u{2717}\x1b[0m "@
        },
        Tone::Info => "  "@,
        Tone::Plain => ""@,
        Tone::Dim => if nocolor {
            "  "@
        } else {
            "\x1b[90m  "@
        },
    }
}

/// What stands behind a message in a tone.
pub open spec fn suffix(tone: Tone, nocolor: bool) -> Seq<char> {
    if tone == Tone::Dim && !nocolor {
        "\x1b[0m"@
    } else {
        ""@
    }
}

/// Whether a message in a tone is shown at all.
pub open spec fn is_shown(tone: Tone, style: Style) -> bool {
    tone == Tone::Failure || tone == Tone::Plain || !style.quiet
}

/// The stream for a tone.
pub open spec fn stream_of(tone: Tone) -> Stream {
    if tone == Tone::Failure {
        Stream::Error
    } else {
        Stream::Output
    }
}

/// The line for a message in a tone, where it is shown.
pub open spec fn rendered(tone: Tone, m: Seq<char>, style: Style) -> Option<Seq<char>> {
    if is_shown(tone, style) {
        Some(prefix(tone, style.nocolor) + m + suffix(tone, style.nocolor))
    } else {
        None
    }
}

/// The line for a message in a tone, where it is shown.
pub fn render(tone: Tone, m: &str, style: Style) -> (line: Option<String>)
    ensures
        line.deep_view() == rendered(tone, m@, style),
{
    if style.quiet && tone != Tone::Failure && tone != Tone::Plain {
        return None;
    }
    let before = match tone {
        Tone::Success => if style.nocolor {
            "+ "
        } else {
            "\x1b[32m\u{2714}\x1b[0m "
        },
        Tone::Warning => if style.nocolor {
            "! "
        } else {
            "\x1b[33m\u{26a0}\x1b[0m "
        },
        Tone::Failure => if style.nocolor {
            "X "
        } else {
            "\x1b[31m\u{2717}\x1b[0m "
        },
        Tone::Info => "  ",
        Tone::Plain => "",
        Tone::Dim => if style.nocolor {
            "  "
        } else {
            "\x1b[90m  "
        },
    };
    let after = if tone == Tone::Dim && !style.nocolor {
        "\x1b[0m"
    } else {
        ""
    };
    Some(before.to_owned().concat(m).concat(after))
}

/// The stream that a message in a tone goes to.
pub fn stream(tone: Tone) -> (stream: Stream)
    ensures
        stream == stream_of(tone),
{
    if tone == Tone::Failure {
        Stream::Error
    } else {
        Stream::Output
    }
}

/// The line that reports success, with a green check mark.
pub fn ok(m: &str, style: Style) -> (line: Option<String>)
    ensures
        line.deep_view() == rendered(Tone::Success, m@, style),
{
    render(Tone::Success, m, style)
}

/// The line that warns, with a yellow warning sign.
pub fn warn(m: &str, style: Style) -> (line: Option<String>)
    ensures
        line.deep_view() == rendered(Tone::Warning, m@, style),
{
    render(Tone::Warning, m, style)
}

/// The line that reports an error, with a red cross. It is always shown.
pub fn err(m: &str, style: Style) -> (line: String)
    ensures
        rendered(Tone::Failure, m@, style) == Some(line@),
{
    match render(Tone::Failure, m, style) {
        Some(line) => line,
        None => String::new(),
    }
}

/// The line that informs, without a mark.
pub fn info(m: &str, style: Style) -> (line: Option<String>)
    ensures
        line.deep_view() == rendered(Tone::Info, m@, style),
{
    render(Tone::Info, m, style)
}

/// The line of a muted remark.
pub fn dim(m: &str, style: Style) -> (line: Option<String>)
    ensures
        line.deep_view() == rendered(Tone::Dim, m@, style),
{
    render(Tone::Dim, m, style)
}

} // verus!
