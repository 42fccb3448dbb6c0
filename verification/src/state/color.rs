//! Terminal colours and their serialisable form.

use vstd::prelude::*;

use crate::text::{owned, spec_ascii_lowercase, spec_to_lowercase, str_eq, to_lowercase};

verus! {

/// A terminal colour, as the rendering backend names them.
#[derive(Debug, Clone, Copy, PartialEq, Eq, Hash, Structural)]
pub enum Color {
    Reset,
    Black,
    Red,
    Green,
    Yellow,
    Blue,
    Magenta,
    Cyan,
    Gray,
    DarkGray,
    LightRed,
    LightGreen,
    LightYellow,
    LightBlue,
    LightMagenta,
    LightCyan,
    White,
    Rgb(u8, u8, u8),
    Indexed(u8),
}

/// Serialisable colour.
#[derive(Debug, Clone, Default, PartialEq, Eq)]
pub enum SerialColor {
    /// Reset to default.
    #[default]
    Default,
    /// Indexed colour (0-255).
    Index(u8),
    /// RGB colour.
    Rgb { r: u8, g: u8, b: u8 },
    /// Named colour.
    Named(String),
}

/// A serialisable colour with its name as a character sequence.
pub ghost enum SerialColorView {
    Default,
    Index(u8),
    Rgb(u8, u8, u8),
    Named(Seq<char>),
}

impl View for SerialColor {
    type V = SerialColorView;

    open spec fn view(&self) -> SerialColorView {
        match self {
            SerialColor::Default => SerialColorView::Default,
            SerialColor::Index(i) => SerialColorView::Index(*i),
            SerialColor::Rgb { r, g, b } => SerialColorView::Rgb(*r, *g, *b),
            SerialColor::Named(n) => SerialColorView::Named(n@),
        }
    }
}

/// The name of each of the sixteen named colours.
pub open spec fn spec_color_name(c: Color) -> Option<Seq<char>> {
    match c {
        Color::Black => Some("black"@),
        Color::Red => Some("red"@),
        Color::Green => Some("green"@),
        Color::Yellow => Some("yellow"@),
        Color::Blue => Some("blue"@),
        Color::Magenta => Some("magenta"@),
        Color::Cyan => Some("cyan"@),
        Color::Gray => Some("gray"@),
        Color::DarkGray => Some("dark_gray"@),
        Color::LightRed => Some("light_red"@),
        Color::LightGreen => Some("light_green"@),
        Color::LightYellow => Some("light_yellow"@),
        Color::LightBlue => Some("light_blue"@),
        Color::LightMagenta => Some("light_magenta"@),
        Color::LightCyan => Some("light_cyan"@),
        Color::White => Some("white"@),
        _ => None,
    }
}

/// The named colour a lowercase name denotes, if any.
pub open spec fn spec_color_by_name(n: Seq<char>) -> Option<Color> {
    if n == "black"@ {
        Some(Color::Black)
    } else if n == "red"@ {
        Some(Color::Red)
    } else if n == "green"@ {
        Some(Color::Green)
    } else if n == "yellow"@ {
        Some(Color::Yellow)
    } else if n == "blue"@ {
        Some(Color::Blue)
    } else if n == "magenta"@ {
        Some(Color::Magenta)
    } else if n == "cyan"@ {
        Some(Color::Cyan)
    } else if n == "gray"@ {
        Some(Color::Gray)
    } else if n == "dark_gray"@ {
        Some(Color::DarkGray)
    } else if n == "light_red"@ {
        Some(Color::LightRed)
    } else if n == "light_green"@ {
        Some(Color::LightGreen)
    } else if n == "light_yellow"@ {
        Some(Color::LightYellow)
    } else if n == "light_blue"@ {
        Some(Color::LightBlue)
    } else if n == "light_magenta"@ {
        Some(Color::LightMagenta)
    } else if n == "light_cyan"@ {
        Some(Color::LightCyan)
    } else if n == "white"@ {
        Some(Color::White)
    } else {
        None
    }
}

/// The serialisable form of a colour.
pub open spec fn spec_serial_from_color(c: Color) -> SerialColorView {
    match c {
        Color::Reset => SerialColorView::Default,
        Color::Indexed(i) => SerialColorView::Index(i),
        Color::Rgb(r, g, b) => SerialColorView::Rgb(r, g, b),
        _ => SerialColorView::Named(spec_color_name(c).unwrap()),
    }
}

/// The colour a serialisable colour stands for: a name is looked up after
/// lowering it; an unknown name is the reset colour.
pub open spec fn spec_color_from_serial(s: SerialColorView) -> Color {
    match s {
        SerialColorView::Default => Color::Reset,
        SerialColorView::Index(i) => Color::Indexed(i),
        SerialColorView::Rgb(r, g, b) => Color::Rgb(r, g, b),
        SerialColorView::Named(n) => match spec_color_by_name(spec_to_lowercase(n)) {
            Some(c) => c,
            None => Color::Reset,
        },
    }
}

fn named(name: &str) -> (r: SerialColor)
    ensures
        r@ == SerialColorView::Named(name@),
{
    SerialColor::Named(owned(name))
}

impl SerialColor {
    /// The serialisable form of a colour.
    pub fn from_color(color: Color) -> (r: SerialColor)
        ensures
            r@ == spec_serial_from_color(color),
    {
        match color {
            Color::Reset => SerialColor::Default,
            Color::Indexed(i) => SerialColor::Index(i),
            Color::Rgb(r, g, b) => SerialColor::Rgb { r, g, b },
            Color::Black => named("black"),
            Color::Red => named("red"),
            Color::Green => named("green"),
            Color::Yellow => named("yellow"),
            Color::Blue => named("blue"),
            Color::Magenta => named("magenta"),
            Color::Cyan => named("cyan"),
            Color::Gray => named("gray"),
            Color::DarkGray => named("dark_gray"),
            Color::LightRed => named("light_red"),
            Color::LightGreen => named("light_green"),
            Color::LightYellow => named("light_yellow"),
            Color::LightBlue => named("light_blue"),
            Color::LightMagenta => named("light_magenta"),
            Color::LightCyan => named("light_cyan"),
            Color::White => named("white"),
        }
    }

    /// A copy of this colour.
    pub fn duplicate(&self) -> (r: SerialColor)
        ensures
            r@ == self@,
    {
        match self {
            SerialColor::Default => SerialColor::Default,
            SerialColor::Index(i) => SerialColor::Index(*i),
            SerialColor::Rgb { r, g, b } => SerialColor::Rgb { r: *r, g: *g, b: *b },
            SerialColor::Named(n) => SerialColor::Named(n.clone()),
        }
    }
}

fn color_by_name(n: &str) -> (r: Option<Color>)
    ensures
        r == spec_color_by_name(n@),
{
    if str_eq(n, "black") {
        Some(Color::Black)
    } else if str_eq(n, "red") {
        Some(Color::Red)
    } else if str_eq(n, "green") {
        Some(Color::Green)
    } else if str_eq(n, "yellow") {
        Some(Color::Yellow)
    } else if str_eq(n, "blue") {
        Some(Color::Blue)
    } else if str_eq(n, "magenta") {
        Some(Color::Magenta)
    } else if str_eq(n, "cyan") {
        Some(Color::Cyan)
    } else if str_eq(n, "gray") {
        Some(Color::Gray)
    } else if str_eq(n, "dark_gray") {
        Some(Color::DarkGray)
    } else if str_eq(n, "light_red") {
        Some(Color::LightRed)
    } else if str_eq(n, "light_green") {
        Some(Color::LightGreen)
    } else if str_eq(n, "light_yellow") {
        Some(Color::LightYellow)
    } else if str_eq(n, "light_blue") {
        Some(Color::LightBlue)
    } else if str_eq(n, "light_magenta") {
        Some(Color::LightMagenta)
    } else if str_eq(n, "light_cyan") {
        Some(Color::LightCyan)
    } else if str_eq(n, "white") {
        Some(Color::White)
    } else {
        None
    }
}

impl Color {
    /// The colour a serialisable colour stands for.
    pub fn from_serial(serial: &SerialColor) -> (r: Color)
        ensures
            r == spec_color_from_serial(serial@),
    {
        match serial {
            SerialColor::Default => Color::Reset,
            SerialColor::Index(i) => Color::Indexed(*i),
            SerialColor::Rgb { r, g, b } => Color::Rgb(*r, *g, *b),
            SerialColor::Named(name) => {
                let lower = to_lowercase(name.as_str());
                match color_by_name(lower.as_str()) {
                    Some(c) => c,
                    None => Color::Reset,
                }
            },
        }
    }
}

/// Lowering the name of a named colour leaves it as it is.
proof fn lemma_color_names_are_lowercase(c: Color)
    requires
        spec_color_name(c) is Some,
    ensures
        vstd::utf8::is_ascii_chars(spec_color_name(c).unwrap()),
        spec_ascii_lowercase(spec_color_name(c).unwrap()) == spec_color_name(c).unwrap(),
        spec_color_by_name(spec_color_name(c).unwrap()) == Some(c),
{
    reveal_strlit("black");
    reveal_strlit("red");
    reveal_strlit("green");
    reveal_strlit("yellow");
    reveal_strlit("blue");
    reveal_strlit("magenta");
    reveal_strlit("cyan");
    reveal_strlit("gray");
    reveal_strlit("dark_gray");
    reveal_strlit("light_red");
    reveal_strlit("light_green");
    reveal_strlit("light_yellow");
    reveal_strlit("light_blue");
    reveal_strlit("light_magenta");
    reveal_strlit("light_cyan");
    reveal_strlit("white");
    assert("green"@ != "black"@) by { assert("green"@[0] != "black"@[0]); }
    assert("cyan"@ != "blue"@) by { assert("cyan"@[0] != "blue"@[0]); }
    assert("gray"@ != "blue"@) by { assert("gray"@[0] != "blue"@[0]); }
    assert("gray"@ != "cyan"@) by { assert("gray"@[0] != "cyan"@[0]); }
    assert("light_red"@ != "dark_gray"@) by { assert("light_red"@[0] != "dark_gray"@[0]); }
    assert("light_cyan"@ != "light_blue"@) by { assert("light_cyan"@[6] != "light_blue"@[6]); }
    assert("white"@ != "black"@) by { assert("white"@[0] != "black"@[0]); }
    assert("white"@ != "green"@) by { assert("white"@[0] != "green"@[0]); }
    let n = spec_color_name(c).unwrap();
    assert(spec_ascii_lowercase(n) =~= n);
}

/// Law: every colour survives the trip through its serialisable form and
/// back, given that lowering its (ASCII) name lowers the ASCII capitals, as
/// the trusted lowercase wrapper states of every ASCII text.
pub proof fn lemma_color_round_trip(c: Color)
    requires
        spec_color_name(c) matches Some(n) ==> spec_to_lowercase(n) == spec_ascii_lowercase(n),
    ensures
        spec_color_from_serial(spec_serial_from_color(c)) == c,
{
    if spec_color_name(c) is Some {
        lemma_color_names_are_lowercase(c);
    }
}

/// Law: a serialisable colour in canonical form (not a name, or one of the
/// sixteen lowercase names) survives the trip through the colour it stands
/// for and back.
pub proof fn lemma_serial_round_trip(s: SerialColorView)
    requires
        s matches SerialColorView::Named(n) ==> spec_color_by_name(n) is Some
            && spec_to_lowercase(n) == spec_ascii_lowercase(n),
    ensures
        spec_serial_from_color(spec_color_from_serial(s)) == s,
{
    if let SerialColorView::Named(n) = s {
        let c = spec_color_by_name(n).unwrap();
        assert(spec_color_name(c) == Some(n));
        lemma_color_names_are_lowercase(c);
    }
}

} // verus!
