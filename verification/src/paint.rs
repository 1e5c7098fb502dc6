//! Coloured text for terminals, as the `colored` crate builds it.

use colored::Color;
use colored::ColoredString;
use colored::Colorize;
use vstd::prelude::*;

verus! {

/// The colours in which verdicts are shown.
#[derive(Clone, Copy, Debug, PartialEq, Eq, Structural)]
pub enum Paint {
    Green,
    Red,
    Yellow,
}

/// What a piece of coloured text amounts to for this library: its
/// characters, its foreground colour, and whether it is set in bold.
pub struct Look {
    pub text: Seq<char>,
    pub color: Option<Paint>,
    pub bold: bool,
}

/// `colored::ColoredString`: a string together with the colours and the
/// style it is to be printed in.
#[verifier::external_type_specification]
#[verifier::external_body]
pub struct ExColoredString(ColoredString);

/// The text, foreground colour and weight that a `ColoredString` holds in
/// its fields `input`, `fgcolor` and `style`.
pub uninterp spec fn look(c: ColoredString) -> Look;

/// `colored::Colorize::color` on a `&str`. The contract claims that the
/// result holds a copy of the text and the given foreground colour, with no
/// style set: the crate builds it from those two over its default value.
#[verifier::external_body]
pub(crate) fn color(text: &str, paint: Paint) -> (r: ColoredString)
    ensures
        look(r) == (Look { text: text@, color: Some(paint), bold: false }),
{
    let outside = match paint {
        Paint::Green => Color::Green,
        Paint::Red => Color::Red,
        Paint::Yellow => Color::Yellow,
    };
    text.color(outside)
}

/// `colored::Colorize::bold` on a `ColoredString`. The contract claims that
/// the result is the argument with bold added to its style, text and colour
/// untouched.
#[verifier::external_body]
pub(crate) fn bold(c: ColoredString) -> (r: ColoredString)
    ensures
        look(r) == (Look { bold: true, ..look(c) }),
{
    c.bold()
}

} // verus!
