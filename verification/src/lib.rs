//! CSS and XKCD colour package.
//!
//! Makes CSS and XKCD colours available as `u8`-triples and provides basic
//! conversion functions into different representations, with an emphasis on
//! transforming a colour to an ANSI escape sequence for colouring console
//! output.

use vstd::prelude::*;
use vstd::string::StringExecFns;

pub mod clr;
pub mod text;

verus! {

use crate::clr::Color;
use crate::text::{append_dec_byte, dec_byte};

/// The truecolor foreground escape `ESC[38;2;<r>;<g>;<b>m` for a colour:
/// the SGR sequence that sets the foreground to the colour's exact RGB
/// channels, each in decimal and unpadded.
pub open spec fn color_escape_form(c: Color) -> Seq<char> {
    seq!['\x1b', '[', '3', '8', ';', '2', ';'] + dec_byte(c.0) + seq![';'] + dec_byte(c.1)
        + seq![';'] + dec_byte(c.2) + seq!['m']
}

/// A trait that transforms an object into an ANSI escape sequence.
pub trait AnsiEscape {
    /// The exact escape sequence the object stands for.
    spec fn escape_form(&self) -> Seq<char>;

    /// The escape sequence as a string.
    fn ansi(&self) -> (r: String)
        ensures
            r@ == self.escape_form(),
    ;
}

impl AnsiEscape for Color {
    open spec fn escape_form(&self) -> Seq<char> {
        color_escape_form(*self)
    }

    fn ansi(&self) -> (r: String)
        ensures
            r@ == self.escape_form(),
    {
        proof {
            reveal_strlit("\x1B[38;2;");
            reveal_strlit(";");
            reveal_strlit("m");
        }
        let mut s: String = String::from_str("\x1B[38;2;");
        append_dec_byte(&mut s, self.0);
        s.append(";");
        append_dec_byte(&mut s, self.1);
        s.append(";");
        append_dec_byte(&mut s, self.2);
        s.append("m");
        proof {
            assert(s@ =~= color_escape_form(*self));
        }
        s
    }
}

/// Different kinds of escape codes. The `ColorEscape` variant converts a
/// `Color` struct into an escape code.
pub enum Ansi {
    /// Transforms the `Color` struct into an escape code of the form
    /// `ESC[38;2;R;G;Bm`
    ColorEscape(Color),
    /// Sets the foreground color to one of 256 predefined colours from the
    /// colour palette
    ForegroundColor(u8),
    /// Sets the background color to one of 256 predefined colours from the
    /// colour palette
    BackgroundColor(u8),
    /// Sets the font to bold
    Bold,
    /// Unsets bold
    NotBold,
    /// Resets all changes to font and color
    Reset,
}

impl Ansi {
    /// The exact escape sequence of each directive: truecolor foreground for
    /// `ColorEscape`, indexed-palette foreground `ESC[38;5;<n>m` and
    /// background `ESC[48;5;<n>m`, bold on `ESC[1m`, bold off `ESC[22m`, and
    /// the full reset `ESC[0m`.
    pub open spec fn render_form(self) -> Seq<char> {
        match self {
            Ansi::ColorEscape(color) => color_escape_form(color),
            Ansi::ForegroundColor(c) => seq!['\x1b', '[', '3', '8', ';', '5', ';'] + dec_byte(c)
                + seq!['m'],
            Ansi::BackgroundColor(c) => seq!['\x1b', '[', '4', '8', ';', '5', ';'] + dec_byte(c)
                + seq!['m'],
            Ansi::Bold => seq!['\x1b', '[', '1', 'm'],
            Ansi::NotBold => seq!['\x1b', '[', '2', '2', 'm'],
            Ansi::Reset => seq!['\x1b', '[', '0', 'm'],
        }
    }

    /// Renders the directive as its escape-sequence string.
    pub fn render(&self) -> (r: String)
        ensures
            r@ == self.render_form(),
    {
        match self {
            Ansi::ColorEscape(color) => color.ansi(),
            Ansi::ForegroundColor(c) => {
                proof {
                    reveal_strlit("\x1B[38;5;");
                    reveal_strlit("m");
                }
                let mut s: String = String::from_str("\x1B[38;5;");
                append_dec_byte(&mut s, *c);
                s.append("m");
                proof {
                    assert(s@ =~= self.render_form());
                }
                s
            },
            Ansi::BackgroundColor(c) => {
                proof {
                    reveal_strlit("\x1B[48;5;");
                    reveal_strlit("m");
                }
                let mut s: String = String::from_str("\x1B[48;5;");
                append_dec_byte(&mut s, *c);
                s.append("m");
                proof {
                    assert(s@ =~= self.render_form());
                }
                s
            },
            Ansi::Bold => {
                proof {
                    reveal_strlit("\x1B[1m");
                }
                let s: String = String::from_str("\x1B[1m");
                proof {
                    assert(s@ =~= self.render_form());
                }
                s
            },
            Ansi::NotBold => {
                proof {
                    reveal_strlit("\x1B[22m");
                }
                let s: String = String::from_str("\x1B[22m");
                proof {
                    assert(s@ =~= self.render_form());
                }
                s
            },
            Ansi::Reset => {
                proof {
                    reveal_strlit("\x1B[0m");
                }
                let s: String = String::from_str("\x1B[0m");
                proof {
                    assert(s@ =~= self.render_form());
                }
                s
            },
        }
    }
}

/// Rendering is a pure function of the directive: any two renderings of the
/// same directive are the identical string, character for character.
pub proof fn lemma_render_deterministic(a: Ansi, r1: Seq<char>, r2: Seq<char>)
    requires
        r1 == a.render_form(),
        r2 == a.render_form(),
    ensures
        r1 == r2,
{
}

} // verus!
