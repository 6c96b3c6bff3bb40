//! Colored printing for scripts.

use vstd::prelude::*;
use crate::plugins::sandbox::{Emission, EmissionView};
use crate::text::{lowercase, to_lowercase};

verus! {

/// The colors that a script can print in.
#[derive(Clone, Copy, Debug, PartialEq, Eq, Structural)]
pub enum Color {
    Red,
    Green,
    Blue,
    Yellow,
    Cyan,
    Magenta,
    White,
    Black,
}

/// The color that a lowercase name stands for, if any.
pub open spec fn color_named(name: Seq<char>) -> Option<Color> {
    if name == "red"@ {
        Some(Color::Red)
    } else if name == "green"@ {
        Some(Color::Green)
    } else if name == "blue"@ {
        Some(Color::Blue)
    } else if name == "yellow"@ {
        Some(Color::Yellow)
    } else if name == "cyan"@ {
        Some(Color::Cyan)
    } else if name == "magenta"@ {
        Some(Color::Magenta)
    } else if name == "white"@ {
        Some(Color::White)
    } else if name == "black"@ {
        Some(Color::Black)
    } else {
        None
    }
}

/// The line sent to the error stream when a script names a color that does
/// not exist.
pub open spec fn unknown_color_diagnostic(color_name: Seq<char>) -> Seq<char> {
    "Rhai Color Error: Unknown color '"@ + color_name + "'. Printing uncolored."@
}

/// What printing `message` under `color_name` emits, where `color` is what
/// the name resolved to: the message in that color, or, for an unknown name,
/// a diagnostic followed by the message without color.
pub open spec fn color_print(message: Seq<char>, color_name: Seq<char>, color: Option<Color>) -> Seq<
    EmissionView,
> {
    match color {
        Some(color) => seq![EmissionView::Colored(color, message)],
        None => seq![
            EmissionView::Diagnostic(unknown_color_diagnostic(color_name)),
            EmissionView::Line(message),
        ],
    }
}

/// Looks a color up by its lowercase name.
pub fn color_by_name(name: &str) -> (color: Option<Color>)
    ensures
        color == color_named(name@),
{
    if name.eq("red") {
        Some(Color::Red)
    } else if name.eq("green") {
        Some(Color::Green)
    } else if name.eq("blue") {
        Some(Color::Blue)
    } else if name.eq("yellow") {
        Some(Color::Yellow)
    } else if name.eq("cyan") {
        Some(Color::Cyan)
    } else if name.eq("magenta") {
        Some(Color::Magenta)
    } else if name.eq("white") {
        Some(Color::White)
    } else if name.eq("black") {
        Some(Color::Black)
    } else {
        None
    }
}

/// What printing `message` emits once the color name has been resolved.
pub fn print_in(message: &str, color_name: &str, color: Option<Color>) -> (emitted: Vec<Emission>)
    ensures
        emitted.deep_view() == color_print(message@, color_name@, color),
{
    let mut emitted: Vec<Emission> = Vec::new();
    match color {
        Some(color) => {
            emitted.push(Emission::Colored(color, message.to_owned()));
        },
        None => {
            let diagnostic = "Rhai Color Error: Unknown color '".to_owned().concat(color_name).concat(
                "'. Printing uncolored.",
            );
            emitted.push(Emission::Diagnostic(diagnostic));
            emitted.push(Emission::Line(message.to_owned()));
        },
    }
    emitted
}

/// Prints `message` in the color that `color_name` names, whatever its case.
/// An unknown name is no failure: the message is printed without color, after
/// a diagnostic.
pub fn cprint(message: &str, color_name: &str) -> (emitted: Vec<Emission>)
    ensures
        emitted.deep_view() == color_print(
            message@,
            color_name@,
            color_named(lowercase(color_name@)),
        ),
{
    let lower = to_lowercase(color_name);
    let color = color_by_name(lower.as_str());
    print_in(message, color_name, color)
}

} // verus!
