//! The `Color` value type and the table of named colour constants.

use vstd::prelude::*;
use vstd::string::StringExecFns;

verus! {

use crate::text::{append_dec_byte, append_hex_byte, dec_byte, hex_byte};

/// An RGB24 color representation. Each channel has a depth of 8 bit.
#[derive(Copy, Clone, Debug, PartialEq, Eq, Structural)]
pub struct Color(pub u8, pub u8, pub u8);

impl Color {
    /// The hexadecimal form `#RRGGBB`: a hash sign, then each channel as two
    /// uppercase hexadecimal digits, zero-padded, red first.
    pub open spec fn hex_form(self) -> Seq<char> {
        seq!['#'] + hex_byte(self.0) + hex_byte(self.1) + hex_byte(self.2)
    }

    /// The display form `(r, g, b)`: the channels in decimal, unpadded,
    /// separated by a comma and a single space, in parentheses.
    pub open spec fn display_form(self) -> Seq<char> {
        seq!['('] + dec_byte(self.0) + seq![',', ' '] + dec_byte(self.1) + seq![',', ' ']
            + dec_byte(self.2) + seq![')']
    }

    /// The diagnostic form `Color(r=<r>, g=<g>, b=<b>)` with decimal channel
    /// values; distinct from the display form.
    pub open spec fn debug_form(self) -> Seq<char> {
        seq!['C', 'o', 'l', 'o', 'r', '(', 'r', '='] + dec_byte(self.0) + seq![',', ' ', 'g', '=']
            + dec_byte(self.1) + seq![',', ' ', 'b', '='] + dec_byte(self.2) + seq![')']
    }

    /// The colour whose channels are given by the triple `(r, g, b)`.
    pub fn from_rgb(t: (u8, u8, u8)) -> (c: Color)
        ensures
            c == Color(t.0, t.1, t.2),
    {
        Color(t.0, t.1, t.2)
    }

    /// Prints out a hex representation `#RRGGBB` of the color.
    pub fn to_hex(&self) -> (r: String)
        ensures
            r@ == self.hex_form(),
    {
        proof {
            reveal_strlit("#");
        }
        let mut s: String = String::from_str("#");
        append_hex_byte(&mut s, self.0);
        append_hex_byte(&mut s, self.1);
        append_hex_byte(&mut s, self.2);
        proof {
            assert(s@ =~= self.hex_form());
        }
        s
    }

    /// The display form `(r, g, b)` of the color, with the color values as
    /// `unsigned int8`.
    pub fn display_string(&self) -> (r: String)
        ensures
            r@ == self.display_form(),
    {
        proof {
            reveal_strlit("(");
            reveal_strlit(", ");
            reveal_strlit(")");
        }
        let mut s: String = String::from_str("(");
        append_dec_byte(&mut s, self.0);
        s.append(", ");
        append_dec_byte(&mut s, self.1);
        s.append(", ");
        append_dec_byte(&mut s, self.2);
        s.append(")");
        proof {
            assert(s@ =~= self.display_form());
        }
        s
    }

    /// The diagnostic form `Color(r=<r>, g=<g>, b=<b>)` of the color.
    pub fn debug_string(&self) -> (r: String)
        ensures
            r@ == self.debug_form(),
    {
        proof {
            reveal_strlit("Color(r=");
            reveal_strlit(", g=");
            reveal_strlit(", b=");
            reveal_strlit(")");
        }
        let mut s: String = String::from_str("Color(r=");
        append_dec_byte(&mut s, self.0);
        s.append(", g=");
        append_dec_byte(&mut s, self.1);
        s.append(", b=");
        append_dec_byte(&mut s, self.2);
        s.append(")");
        proof {
            assert(s@ =~= self.debug_form());
        }
        s
    }
}

// The named colour constants: each is the `(r, g, b)` channel triple of
// one colour, grouped as the eight base colours, the CSS named colours,
// and the XKCD colour-survey set (prefixed `XKCD_`).

// The base colours.
pub const B: (u8, u8, u8) = (0, 0, 255);
pub const G: (u8, u8, u8) = (0, 127, 0);
pub const R: (u8, u8, u8) = (255, 0, 0);
pub const C: (u8, u8, u8) = (0, 191, 191);
pub const M: (u8, u8, u8) = (191, 0, 191);
pub const Y: (u8, u8, u8) = (191, 191, 0);
pub const K: (u8, u8, u8) = (0, 0, 0);
pub const W: (u8, u8, u8) = (255, 255, 255);

// The CSS named colours.
pub const ALICEBLUE: (u8, u8, u8) = (240, 248, 255);
pub const ANTIQUEWHITE: (u8, u8, u8) = (250, 235, 215);
pub const AQUA: (u8, u8, u8) = (0, 255, 255);
pub const AQUAMARINE: (u8, u8, u8) = (127, 255, 212);
pub const AZURE: (u8, u8, u8) = (240, 255, 255);
pub const BEIGE: (u8, u8, u8) = (245, 245, 220);
pub const BISQUE: (u8, u8, u8) = (255, 228, 196);
pub const BLACK: (u8, u8, u8) = (0, 0, 0);
pub const BLANCHEDALMOND: (u8, u8, u8) = (255, 235, 205);
pub const BLUE: (u8, u8, u8) = (0, 0, 255);
pub const BLUEVIOLET: (u8, u8, u8) = (138, 43, 226);
pub const BROWN: (u8, u8, u8) = (165, 42, 42);
pub const BURLYWOOD: (u8, u8, u8) = (222, 184, 135);
pub const CADETBLUE: (u8, u8, u8) = (95, 158, 160);
pub const CHARTREUSE: (u8, u8, u8) = (127, 255, 0);
pub const CHOCOLATE: (u8, u8, u8) = (210, 105, 30);
pub const CORAL: (u8, u8, u8) = (255, 127, 80);
pub const CORNFLOWERBLUE: (u8, u8, u8) = (100, 149, 237);
pub const CORNSILK: (u8, u8, u8) = (255, 248, 220);
pub const CRIMSON: (u8, u8, u8) = (220, 20, 60);
pub const CYAN: (u8, u8, u8) = (0, 255, 255);
pub const DARKBLUE: (u8, u8, u8) = (0, 0, 139);
pub const DARKCYAN: (u8, u8, u8) = (0, 139, 139);
pub const DARKGOLDENROD: (u8, u8, u8) = (184, 134, 11);
pub const DARKGRAY: (u8, u8, u8) = (169, 169, 169);
pub const DARKGREEN: (u8, u8, u8) = (0, 100, 0);
pub const DARKGREY: (u8, u8, u8) = (169, 169, 169);
pub const DARKKHAKI: (u8, u8, u8) = (189, 183, 107);
pub const DARKMAGENTA: (u8, u8, u8) = (139, 0, 139);
pub const DARKOLIVEGREEN: (u8, u8, u8) = (85, 107, 47);
pub const DARKORANGE: (u8, u8, u8) = (255, 140, 0);
pub const DARKORCHID: (u8, u8, u8) = (153, 50, 204);
pub const DARKRED: (u8, u8, u8) = (139, 0, 0);
pub const DARKSALMON: (u8, u8, u8) = (233, 150, 122);
pub const DARKSEAGREEN: (u8, u8, u8) = (143, 188, 143);
pub const DARKSLATEBLUE: (u8, u8, u8) = (72, 61, 139);
pub const DARKSLATEGRAY: (u8, u8, u8) = (47, 79, 79);
pub const DARKSLATEGREY: (u8, u8, u8) = (47, 79, 79);
pub const DARKTURQUOISE: (u8, u8, u8) = (0, 206, 209);
pub const DARKVIOLET: (u8, u8, u8) = (148, 0, 211);
pub const DEEPPINK: (u8, u8, u8) = (255, 20, 147);
pub const DEEPSKYBLUE: (u8, u8, u8) = (0, 191, 255);
pub const DIMGRAY: (u8, u8, u8) = (105, 105, 105);
pub const DIMGREY: (u8, u8, u8) = (105, 105, 105);
pub const DODGERBLUE: (u8, u8, u8) = (30, 144, 255);
pub const FIREBRICK: (u8, u8, u8) = (178, 34, 34);
pub const FLORALWHITE: (u8, u8, u8) = (255, 250, 240);
pub const FORESTGREEN: (u8, u8, u8) = (34, 139, 34);
pub const FUCHSIA: (u8, u8, u8) = (255, 0, 255);
pub const GAINSBORO: (u8, u8, u8) = (220, 220, 220);
pub const GHOSTWHITE: (u8, u8, u8) = (248, 248, 255);
pub const GOLD: (u8, u8, u8) = (255, 215, 0);
pub const GOLDENROD: (u8, u8, u8) = (218, 165, 32);
pub const GRAY: (u8, u8, u8) = (128, 128, 128);
pub const GREEN: (u8, u8, u8) = (0, 128, 0);
pub const GREENYELLOW: (u8, u8, u8) = (173, 255, 47);
pub const GREY: (u8, u8, u8) = (128, 128, 128);
pub const HONEYDEW: (u8, u8, u8) = (240, 255, 240);
pub const HOTPINK: (u8, u8, u8) = (255, 105, 180);
pub const INDIANRED: (u8, u8, u8) = (205, 92, 92);
pub const INDIGO: (u8, u8, u8) = (75, 0, 130);
pub const IVORY: (u8, u8, u8) = (255, 255, 240);
pub const KHAKI: (u8, u8, u8) = (240, 230, 140);
pub const LAVENDER: (u8, u8, u8) = (230, 230, 250);
pub const LAVENDERBLUSH: (u8, u8, u8) = (255, 240, 245);
pub const LAWNGREEN: (u8, u8, u8) = (124, 252, 0);
pub const LEMONCHIFFON: (u8, u8, u8) = (255, 250, 205);
pub const LIGHTBLUE: (u8, u8, u8) = (173, 216, 230);
pub const LIGHTCORAL: (u8, u8, u8) = (240, 128, 128);
pub const LIGHTCYAN: (u8, u8, u8) = (224, 255, 255);
pub const LIGHTGOLDENRODYELLOW: (u8, u8, u8) = (250, 250, 210);
pub const LIGHTGRAY: (u8, u8, u8) = (211, 211, 211);
pub const LIGHTGREEN: (u8, u8, u8) = (144, 238, 144);
pub const LIGHTGREY: (u8, u8, u8) = (211, 211, 211);
pub const LIGHTPINK: (u8, u8, u8) = (255, 182, 193);
pub const LIGHTSALMON: (u8, u8, u8) = (255, 160, 122);
pub const LIGHTSEAGREEN: (u8, u8, u8) = (32, 178, 170);
pub const LIGHTSKYBLUE: (u8, u8, u8) = (135, 206, 250);
pub const LIGHTSLATEGRAY: (u8, u8, u8) = (119, 136, 153);
pub const LIGHTSLATEGREY: (u8, u8, u8) = (119, 136, 153);
pub const LIGHTSTEELBLUE: (u8, u8, u8) = (176, 196, 222);
pub const LIGHTYELLOW: (u8, u8, u8) = (255, 255, 224);
pub const LIME: (u8, u8, u8) = (0, 255, 0);
pub const LIMEGREEN: (u8, u8, u8) = (50, 205, 50);
pub const LINEN: (u8, u8, u8) = (250, 240, 230);
pub const MAGENTA: (u8, u8, u8) = (255, 0, 255);
pub const MAROON: (u8, u8, u8) = (128, 0, 0);
pub const MEDIUMAQUAMARINE: (u8, u8, u8) = (102, 205, 170);
pub const MEDIUMBLUE: (u8, u8, u8) = (0, 0, 205);
pub const MEDIUMORCHID: (u8, u8, u8) = (186, 85, 211);
pub const MEDIUMPURPLE: (u8, u8, u8) = (147, 112, 219);
pub const MEDIUMSEAGREEN: (u8, u8, u8) = (60, 179, 113);
pub const MEDIUMSLATEBLUE: (u8, u8, u8) = (123, 104, 238);
pub const MEDIUMSPRINGGREEN: (u8, u8, u8) = (0, 250, 154);
pub const MEDIUMTURQUOISE: (u8, u8, u8) = (72, 209, 204);
pub const MEDIUMVIOLETRED: (u8, u8, u8) = (199, 21, 133);
pub const MIDNIGHTBLUE: (u8, u8, u8) = (25, 25, 112);
pub const MINTCREAM: (u8, u8, u8) = (245, 255, 250);
pub const MISTYROSE: (u8, u8, u8) = (255, 228, 225);
pub const MOCCASIN: (u8, u8, u8) = (255, 228, 181);
pub const NAVAJOWHITE: (u8, u8, u8) = (255, 222, 173);
pub const NAVY: (u8, u8, u8) = (0, 0, 128);
pub const OLDLACE: (u8, u8, u8) = (253, 245, 230);
pub const OLIVE: (u8, u8, u8) = (128, 128, 0);
pub const OLIVEDRAB: (u8, u8, u8) = (107, 142, 35);
pub const ORANGE: (u8, u8, u8) = (255, 165, 0);
pub const ORANGERED: (u8, u8, u8) = (255, 69, 0);
pub const ORCHID: (u8, u8, u8) = (218, 112, 214);
pub const PALEGOLDENROD: (u8, u8, u8) = (238, 232, 170);
pub const PALEGREEN: (u8, u8, u8) = (152, 251, 152);
pub const PALETURQUOISE: (u8, u8, u8) = (175, 238, 238);
pub const PALEVIOLETRED: (u8, u8, u8) = (219, 112, 147);
pub const PAPAYAWHIP: (u8, u8, u8) = (255, 239, 213);
pub const PEACHPUFF: (u8, u8, u8) = (255, 218, 185);
pub const PERU: (u8, u8, u8) = (205, 133, 63);
pub const PINK: (u8, u8, u8) = (255, 192, 203);
pub const PLUM: (u8, u8, u8) = (221, 160, 221);
pub const POWDERBLUE: (u8, u8, u8) = (176, 224, 230);
pub const PURPLE: (u8, u8, u8) = (128, 0, 128);
pub const REBECCAPURPLE: (u8, u8, u8) = (102, 51, 153);
pub const RED: (u8, u8, u8) = (255, 0, 0);
pub const ROSYBROWN: (u8, u8, u8) = (188, 143, 143);
pub const ROYALBLUE: (u8, u8, u8) = (65, 105, 225);
pub const SADDLEBROWN: (u8, u8, u8) = (139, 69, 19);
pub const SALMON: (u8, u8, u8) = (250, 128, 114);
pub const SANDYBROWN: (u8, u8, u8) = (244, 164, 96);
pub const SEAGREEN: (u8, u8, u8) = (46, 139, 87);
pub const SEASHELL: (u8, u8, u8) = (255, 245, 238);
pub const SIENNA: (u8, u8, u8) = (160, 82, 45);
pub const SILVER: (u8, u8, u8) = (192, 192, 192);
pub const SKYBLUE: (u8, u8, u8) = (135, 206, 235);
pub const SLATEBLUE: (u8, u8, u8) = (106, 90, 205);
pub const SLATEGRAY: (u8, u8, u8) = (112, 128, 144);
pub const SLATEGREY: (u8, u8, u8) = (112, 128, 144);
pub const SNOW: (u8, u8, u8) = (255, 250, 250);
pub const SPRINGGREEN: (u8, u8, u8) = (0, 255, 127);
pub const STEELBLUE: (u8, u8, u8) = (70, 130, 180);
pub const TAN: (u8, u8, u8) = (210, 180, 140);
pub const TEAL: (u8, u8, u8) = (0, 128, 128);
pub const THISTLE: (u8, u8, u8) = (216, 191, 216);
pub const TOMATO: (u8, u8, u8) = (255, 99, 71);
pub const TURQUOISE: (u8, u8, u8) = (64, 224, 208);
pub const VIOLET: (u8, u8, u8) = (238, 130, 238);
pub const WHEAT: (u8, u8, u8) = (245, 222, 179);
pub const WHITE: (u8, u8, u8) = (255, 255, 255);
pub const WHITESMOKE: (u8, u8, u8) = (245, 245, 245);
pub const YELLOW: (u8, u8, u8) = (255, 255, 0);
pub const YELLOWGREEN: (u8, u8, u8) = (154, 205, 50);

// The XKCD colour-survey set.
pub const XKCD_CLOUDY_BLUE: (u8, u8, u8) = (172, 194, 217);
pub const XKCD_DARK_PASTEL_GREEN: (u8, u8, u8) = (86, 174, 87);
pub const XKCD_DUST: (u8, u8, u8) = (178, 153, 110);
pub const XKCD_ELECTRIC_LIME: (u8, u8, u8) = (168, 255, 4);
pub const XKCD_FRESH_GREEN: (u8, u8, u8) = (105, 216, 79);
pub const XKCD_LIGHT_EGGPLANT: (u8, u8, u8) = (137, 69, 133);
pub const XKCD_NASTY_GREEN: (u8, u8, u8) = (112, 178, 63);
pub const XKCD_REALLY_LIGHT_BLUE: (u8, u8, u8) = (212, 255, 255);
pub const XKCD_TEA: (u8, u8, u8) = (101, 171, 124);
pub const XKCD_WARM_PURPLE: (u8, u8, u8) = (149, 46, 143);
pub const XKCD_YELLOWISH_TAN: (u8, u8, u8) = (252, 252, 129);
pub const XKCD_CEMENT: (u8, u8, u8) = (165, 163, 145);
pub const XKCD_DARK_GRASS_GREEN: (u8, u8, u8) = (56, 128, 4);
pub const XKCD_DUSTY_TEAL: (u8, u8, u8) = (76, 144, 133);
pub const XKCD_GREY_TEAL: (u8, u8, u8) = (94, 155, 138);
pub const XKCD_MACARONI_AND_CHEESE: (u8, u8, u8) = (239, 180, 53);
pub const XKCD_PINKISH_TAN: (u8, u8, u8) = (217, 155, 130);
pub const XKCD_SPRUCE: (u8, u8, u8) = (10, 95, 56);
pub const XKCD_STRONG_BLUE: (u8, u8, u8) = (12, 6, 247);
pub const XKCD_TOXIC_GREEN: (u8, u8, u8) = (97, 222, 42);
pub const XKCD_WINDOWS_BLUE: (u8, u8, u8) = (55, 120, 191);
pub const XKCD_BLUE_BLUE: (u8, u8, u8) = (34, 66, 199);
pub const XKCD_BLUE_WITH_A_HINT_OF_PURPLE: (u8, u8, u8) = (83, 60, 198);
pub const XKCD_BOOGER: (u8, u8, u8) = (155, 181, 60);
pub const XKCD_BRIGHT_SEA_GREEN: (u8, u8, u8) = (5, 255, 166);
pub const XKCD_DARK_GREEN_BLUE: (u8, u8, u8) = (31, 99, 87);
pub const XKCD_DEEP_TURQUOISE: (u8, u8, u8) = (1, 115, 116);
pub const XKCD_GREEN_TEAL: (u8, u8, u8) = (12, 181, 119);
pub const XKCD_STRONG_PINK: (u8, u8, u8) = (255, 7, 137);
pub const XKCD_BLAND: (u8, u8, u8) = (175, 168, 139);
pub const XKCD_DEEP_AQUA: (u8, u8, u8) = (8, 120, 127);
pub const XKCD_LAVENDER_PINK: (u8, u8, u8) = (221, 133, 215);
pub const XKCD_LIGHT_MOSS_GREEN: (u8, u8, u8) = (166, 200, 117);
pub const XKCD_LIGHT_SEAFOAM_GREEN: (u8, u8, u8) = (167, 255, 181);
pub const XKCD_OLIVE_YELLOW: (u8, u8, u8) = (194, 183, 9);
pub const XKCD_PIG_PINK: (u8, u8, u8) = (231, 142, 165);
pub const XKCD_DEEP_LILAC: (u8, u8, u8) = (150, 110, 189);
pub const XKCD_DESERT: (u8, u8, u8) = (204, 173, 96);
pub const XKCD_DUSTY_LAVENDER: (u8, u8, u8) = (172, 134, 168);
pub const XKCD_PURPLEY_GREY: (u8, u8, u8) = (148, 126, 148);
pub const XKCD_PURPLY: (u8, u8, u8) = (152, 63, 178);
pub const XKCD_CANDY_PINK: (u8, u8, u8) = (255, 99, 233);
pub const XKCD_LIGHT_PASTEL_GREEN: (u8, u8, u8) = (178, 251, 165);
pub const XKCD_BORING_GREEN: (u8, u8, u8) = (99, 179, 101);
pub const XKCD_KIWI_GREEN: (u8, u8, u8) = (142, 229, 63);
pub const XKCD_LIGHT_GREY_GREEN: (u8, u8, u8) = (183, 225, 161);
pub const XKCD_ORANGE_PINK: (u8, u8, u8) = (255, 111, 82);
pub const XKCD_TEA_GREEN: (u8, u8, u8) = (189, 248, 163);
pub const XKCD_VERY_LIGHT_BROWN: (u8, u8, u8) = (211, 182, 131);
pub const XKCD_EGG_SHELL: (u8, u8, u8) = (255, 252, 196);
pub const XKCD_EGGPLANT_PURPLE: (u8, u8, u8) = (67, 5, 65);
pub const XKCD_POWDER_PINK: (u8, u8, u8) = (255, 178, 208);
pub const XKCD_REDDISH_GREY: (u8, u8, u8) = (153, 117, 112);
pub const XKCD_BABY_SHIT_BROWN: (u8, u8, u8) = (173, 144, 13);
pub const XKCD_LILIAC: (u8, u8, u8) = (196, 142, 253);
pub const XKCD_STORMY_BLUE: (u8, u8, u8) = (80, 123, 156);
pub const XKCD_UGLY_BROWN: (u8, u8, u8) = (125, 113, 3);
pub const XKCD_CUSTARD: (u8, u8, u8) = (255, 253, 120);
pub const XKCD_DARKISH_PINK: (u8, u8, u8) = (218, 70, 125);
pub const XKCD_DEEP_BROWN: (u8, u8, u8) = (65, 2, 0);
pub const XKCD_GREENISH_BEIGE: (u8, u8, u8) = (201, 209, 121);
pub const XKCD_MANILLA: (u8, u8, u8) = (255, 250, 134);
pub const XKCD_OFF_BLUE: (u8, u8, u8) = (86, 132, 174);
pub const XKCD_BATTLESHIP_GREY: (u8, u8, u8) = (107, 124, 133);
pub const XKCD_BROWNY_GREEN: (u8, u8, u8) = (111, 108, 10);
pub const XKCD_BRUISE: (u8, u8, u8) = (126, 64, 113);
pub const XKCD_KELLEY_GREEN: (u8, u8, u8) = (0, 147, 55);
pub const XKCD_SICKLY_YELLOW: (u8, u8, u8) = (208, 228, 41);
pub const XKCD_SUNNY_YELLOW: (u8, u8, u8) = (255, 249, 23);
pub const XKCD_AZUL: (u8, u8, u8) = (29, 93, 236);
pub const XKCD_DARKGREEN: (u8, u8, u8) = (5, 73, 7);
pub const XKCD_GREEN_SLASH_YELLOW: (u8, u8, u8) = (181, 206, 8);
pub const XKCD_LICHEN: (u8, u8, u8) = (143, 182, 123);
pub const XKCD_LIGHT_LIGHT_GREEN: (u8, u8, u8) = (200, 255, 176);
pub const XKCD_PALE_GOLD: (u8, u8, u8) = (253, 222, 108);
pub const XKCD_SUN_YELLOW: (u8, u8, u8) = (255, 223, 34);
pub const XKCD_TAN_GREEN: (u8, u8, u8) = (169, 190, 112);
pub const XKCD_BURPLE: (u8, u8, u8) = (104, 50, 227);
pub const XKCD_BUTTERSCOTCH: (u8, u8, u8) = (253, 177, 71);
pub const XKCD_TOUPE: (u8, u8, u8) = (199, 172, 125);
pub const XKCD_DARK_CREAM: (u8, u8, u8) = (255, 243, 154);
pub const XKCD_INDIAN_RED: (u8, u8, u8) = (133, 14, 4);
pub const XKCD_LIGHT_LAVENDAR: (u8, u8, u8) = (239, 192, 254);
pub const XKCD_POISON_GREEN: (u8, u8, u8) = (64, 253, 20);
pub const XKCD_BABY_PUKE_GREEN: (u8, u8, u8) = (182, 196, 6);
pub const XKCD_BRIGHT_YELLOW_GREEN: (u8, u8, u8) = (157, 255, 0);
pub const XKCD_CHARCOAL_GREY: (u8, u8, u8) = (60, 65, 66);
pub const XKCD_SQUASH: (u8, u8, u8) = (242, 171, 21);
pub const XKCD_CINNAMON: (u8, u8, u8) = (172, 79, 6);
pub const XKCD_LIGHT_PEA_GREEN: (u8, u8, u8) = (196, 254, 130);
pub const XKCD_RADIOACTIVE_GREEN: (u8, u8, u8) = (44, 250, 31);
pub const XKCD_RAW_SIENNA: (u8, u8, u8) = (154, 98, 0);
pub const XKCD_BABY_PURPLE: (u8, u8, u8) = (202, 155, 247);
pub const XKCD_COCOA: (u8, u8, u8) = (135, 95, 66);
pub const XKCD_LIGHT_ROYAL_BLUE: (u8, u8, u8) = (58, 46, 254);
pub const XKCD_ORANGEISH: (u8, u8, u8) = (253, 141, 73);
pub const XKCD_RUST_BROWN: (u8, u8, u8) = (139, 49, 3);
pub const XKCD_SAND_BROWN: (u8, u8, u8) = (203, 165, 96);
pub const XKCD_SWAMP: (u8, u8, u8) = (105, 131, 57);
pub const XKCD_TEALISH_GREEN: (u8, u8, u8) = (12, 220, 115);
pub const XKCD_BURNT_SIENA: (u8, u8, u8) = (183, 82, 3);
pub const XKCD_CAMO: (u8, u8, u8) = (127, 143, 78);
pub const XKCD_DUSK_BLUE: (u8, u8, u8) = (38, 83, 141);
pub const XKCD_FERN: (u8, u8, u8) = (99, 169, 80);
pub const XKCD_OLD_ROSE: (u8, u8, u8) = (200, 127, 137);
pub const XKCD_PALE_LIGHT_GREEN: (u8, u8, u8) = (177, 252, 153);
pub const XKCD_PEACHY_PINK: (u8, u8, u8) = (255, 154, 138);
pub const XKCD_ROSY_PINK: (u8, u8, u8) = (246, 104, 142);
pub const XKCD_LIGHT_BLUISH_GREEN: (u8, u8, u8) = (118, 253, 168);
pub const XKCD_LIGHT_BRIGHT_GREEN: (u8, u8, u8) = (83, 254, 92);
pub const XKCD_LIGHT_NEON_GREEN: (u8, u8, u8) = (78, 253, 84);
pub const XKCD_LIGHT_SEAFOAM: (u8, u8, u8) = (160, 254, 191);
pub const XKCD_TIFFANY_BLUE: (u8, u8, u8) = (123, 242, 218);
pub const XKCD_WASHED_OUT_GREEN: (u8, u8, u8) = (188, 245, 166);
pub const XKCD_BROWNY_ORANGE: (u8, u8, u8) = (202, 107, 2);
pub const XKCD_NICE_BLUE: (u8, u8, u8) = (16, 122, 176);
pub const XKCD_SAPPHIRE: (u8, u8, u8) = (33, 56, 171);
pub const XKCD_GREYISH_TEAL: (u8, u8, u8) = (113, 159, 145);
pub const XKCD_ORANGEY_YELLOW: (u8, u8, u8) = (253, 185, 21);
pub const XKCD_PARCHMENT: (u8, u8, u8) = (254, 252, 175);
pub const XKCD_STRAW: (u8, u8, u8) = (252, 246, 121);
pub const XKCD_VERY_DARK_BROWN: (u8, u8, u8) = (29, 2, 0);
pub const XKCD_TERRACOTA: (u8, u8, u8) = (203, 104, 67);
pub const XKCD_UGLY_BLUE: (u8, u8, u8) = (49, 102, 138);
pub const XKCD_CLEAR_BLUE: (u8, u8, u8) = (36, 122, 253);
pub const XKCD_CREME: (u8, u8, u8) = (255, 255, 182);
pub const XKCD_FOAM_GREEN: (u8, u8, u8) = (144, 253, 169);
pub const XKCD_GREY_SLASH_GREEN: (u8, u8, u8) = (134, 161, 125);
pub const XKCD_LIGHT_GOLD: (u8, u8, u8) = (253, 220, 92);
pub const XKCD_SEAFOAM_BLUE: (u8, u8, u8) = (120, 209, 182);
pub const XKCD_TOPAZ: (u8, u8, u8) = (19, 187, 175);
pub const XKCD_VIOLET_PINK: (u8, u8, u8) = (251, 95, 252);
pub const XKCD_WINTERGREEN: (u8, u8, u8) = (32, 249, 134);
pub const XKCD_YELLOW_TAN: (u8, u8, u8) = (255, 227, 110);
pub const XKCD_DARK_FUCHSIA: (u8, u8, u8) = (157, 7, 89);
pub const XKCD_INDIGO_BLUE: (u8, u8, u8) = (58, 24, 177);
pub const XKCD_LIGHT_YELLOWISH_GREEN: (u8, u8, u8) = (194, 255, 137);
pub const XKCD_PALE_MAGENTA: (u8, u8, u8) = (215, 103, 173);
pub const XKCD_RICH_PURPLE: (u8, u8, u8) = (114, 0, 88);
pub const XKCD_SUNFLOWER_YELLOW: (u8, u8, u8) = (255, 218, 3);
pub const XKCD_GREEN_SLASH_BLUE: (u8, u8, u8) = (1, 192, 141);
pub const XKCD_LEATHER: (u8, u8, u8) = (172, 116, 52);
pub const XKCD_RACING_GREEN: (u8, u8, u8) = (1, 70, 0);
pub const XKCD_VIVID_PURPLE: (u8, u8, u8) = (153, 0, 250);
pub const XKCD_DARK_ROYAL_BLUE: (u8, u8, u8) = (2, 6, 111);
pub const XKCD_HAZEL: (u8, u8, u8) = (142, 118, 24);
pub const XKCD_MUTED_PINK: (u8, u8, u8) = (209, 118, 143);
pub const XKCD_BOOGER_GREEN: (u8, u8, u8) = (150, 180, 3);
pub const XKCD_CANARY: (u8, u8, u8) = (253, 255, 99);
pub const XKCD_COOL_GREY: (u8, u8, u8) = (149, 163, 166);
pub const XKCD_DARK_TAUPE: (u8, u8, u8) = (127, 104, 78);
pub const XKCD_DARKISH_PURPLE: (u8, u8, u8) = (117, 25, 115);
pub const XKCD_TRUE_GREEN: (u8, u8, u8) = (8, 148, 4);
pub const XKCD_CORAL_PINK: (u8, u8, u8) = (255, 97, 99);
pub const XKCD_DARK_SAGE: (u8, u8, u8) = (89, 133, 86);
pub const XKCD_DARK_SLATE_BLUE: (u8, u8, u8) = (33, 71, 97);
pub const XKCD_FLAT_BLUE: (u8, u8, u8) = (60, 115, 168);
pub const XKCD_MUSHROOM: (u8, u8, u8) = (186, 158, 136);
pub const XKCD_RICH_BLUE: (u8, u8, u8) = (2, 27, 249);
pub const XKCD_DIRTY_PURPLE: (u8, u8, u8) = (115, 74, 101);
pub const XKCD_GREENBLUE: (u8, u8, u8) = (35, 196, 139);
pub const XKCD_ICKY_GREEN: (u8, u8, u8) = (143, 174, 34);
pub const XKCD_LIGHT_KHAKI: (u8, u8, u8) = (230, 242, 162);
pub const XKCD_WARM_BLUE: (u8, u8, u8) = (75, 87, 219);
pub const XKCD_DARK_HOT_PINK: (u8, u8, u8) = (217, 1, 102);
pub const XKCD_DEEP_SEA_BLUE: (u8, u8, u8) = (1, 84, 130);
pub const XKCD_CARMINE: (u8, u8, u8) = (157, 2, 22);
pub const XKCD_DARK_YELLOW_GREEN: (u8, u8, u8) = (114, 143, 2);
pub const XKCD_PALE_PEACH: (u8, u8, u8) = (255, 229, 173);
pub const XKCD_PLUM_PURPLE: (u8, u8, u8) = (78, 5, 80);
pub const XKCD_GOLDEN_ROD: (u8, u8, u8) = (249, 188, 8);
pub const XKCD_NEON_RED: (u8, u8, u8) = (255, 7, 58);
pub const XKCD_OLD_PINK: (u8, u8, u8) = (199, 121, 134);
pub const XKCD_VERY_PALE_BLUE: (u8, u8, u8) = (214, 255, 254);
pub const XKCD_BLOOD_ORANGE: (u8, u8, u8) = (254, 75, 3);
pub const XKCD_GRAPEFRUIT: (u8, u8, u8) = (253, 89, 86);
pub const XKCD_SAND_YELLOW: (u8, u8, u8) = (252, 225, 102);
pub const XKCD_CLAY_BROWN: (u8, u8, u8) = (178, 113, 61);
pub const XKCD_DARK_BLUE_GREY: (u8, u8, u8) = (31, 59, 77);
pub const XKCD_FLAT_GREEN: (u8, u8, u8) = (105, 157, 76);
pub const XKCD_LIGHT_GREEN_BLUE: (u8, u8, u8) = (86, 252, 162);
pub const XKCD_WARM_PINK: (u8, u8, u8) = (251, 85, 129);
pub const XKCD_DODGER_BLUE: (u8, u8, u8) = (62, 130, 252);
pub const XKCD_GROSS_GREEN: (u8, u8, u8) = (160, 191, 22);
pub const XKCD_ICE: (u8, u8, u8) = (214, 255, 250);
pub const XKCD_METALLIC_BLUE: (u8, u8, u8) = (79, 115, 142);
pub const XKCD_PALE_SALMON: (u8, u8, u8) = (255, 177, 154);
pub const XKCD_SAP_GREEN: (u8, u8, u8) = (92, 139, 21);
pub const XKCD_ALGAE: (u8, u8, u8) = (84, 172, 104);
pub const XKCD_BLUEY_GREY: (u8, u8, u8) = (137, 160, 176);
pub const XKCD_GREENY_GREY: (u8, u8, u8) = (126, 160, 122);
pub const XKCD_HIGHLIGHTER_GREEN: (u8, u8, u8) = (27, 252, 6);
pub const XKCD_LIGHT_LIGHT_BLUE: (u8, u8, u8) = (202, 255, 251);
pub const XKCD_LIGHT_MINT: (u8, u8, u8) = (182, 255, 187);
pub const XKCD_RAW_UMBER: (u8, u8, u8) = (167, 94, 9);
pub const XKCD_VIVID_BLUE: (u8, u8, u8) = (21, 46, 255);
pub const XKCD_DEEP_LAVENDER: (u8, u8, u8) = (141, 94, 183);
pub const XKCD_DULL_TEAL: (u8, u8, u8) = (95, 158, 143);
pub const XKCD_LIGHT_GREENISH_BLUE: (u8, u8, u8) = (99, 247, 180);
pub const XKCD_MUD_GREEN: (u8, u8, u8) = (96, 102, 2);
pub const XKCD_PINKY: (u8, u8, u8) = (252, 134, 170);
pub const XKCD_RED_WINE: (u8, u8, u8) = (140, 0, 52);
pub const XKCD_SHIT_GREEN: (u8, u8, u8) = (117, 128, 0);
pub const XKCD_TAN_BROWN: (u8, u8, u8) = (171, 126, 76);
pub const XKCD_DARKBLUE: (u8, u8, u8) = (3, 7, 100);
pub const XKCD_ROSA: (u8, u8, u8) = (254, 134, 164);
pub const XKCD_LIPSTICK: (u8, u8, u8) = (213, 23, 78);
pub const XKCD_PALE_MAUVE: (u8, u8, u8) = (254, 208, 252);
pub const XKCD_CLARET: (u8, u8, u8) = (104, 0, 24);
pub const XKCD_DANDELION: (u8, u8, u8) = (254, 223, 8);
pub const XKCD_ORANGERED: (u8, u8, u8) = (254, 66, 15);
pub const XKCD_POOP_GREEN: (u8, u8, u8) = (111, 124, 0);
pub const XKCD_RUBY: (u8, u8, u8) = (202, 1, 71);
pub const XKCD_DARK: (u8, u8, u8) = (27, 36, 49);
pub const XKCD_GREENISH_TURQUOISE: (u8, u8, u8) = (0, 251, 176);
pub const XKCD_PASTEL_RED: (u8, u8, u8) = (219, 88, 86);
pub const XKCD_PISS_YELLOW: (u8, u8, u8) = (221, 214, 24);
pub const XKCD_BRIGHT_CYAN: (u8, u8, u8) = (65, 253, 254);
pub const XKCD_DARK_CORAL: (u8, u8, u8) = (207, 82, 78);
pub const XKCD_ALGAE_GREEN: (u8, u8, u8) = (33, 195, 111);
pub const XKCD_DARKISH_RED: (u8, u8, u8) = (169, 3, 8);
pub const XKCD_REDDY_BROWN: (u8, u8, u8) = (110, 16, 5);
pub const XKCD_BLUSH_PINK: (u8, u8, u8) = (254, 130, 140);
pub const XKCD_CAMOUFLAGE_GREEN: (u8, u8, u8) = (75, 97, 19);
pub const XKCD_LAWN_GREEN: (u8, u8, u8) = (77, 164, 9);
pub const XKCD_PUTTY: (u8, u8, u8) = (190, 174, 138);
pub const XKCD_VIBRANT_BLUE: (u8, u8, u8) = (3, 57, 248);
pub const XKCD_DARK_SAND: (u8, u8, u8) = (168, 143, 89);
pub const XKCD_PURPLE_SLASH_BLUE: (u8, u8, u8) = (93, 33, 208);
pub const XKCD_SAFFRON: (u8, u8, u8) = (254, 178, 9);
pub const XKCD_TWILIGHT: (u8, u8, u8) = (78, 81, 139);
pub const XKCD_WARM_BROWN: (u8, u8, u8) = (150, 78, 2);
pub const XKCD_BLUEGREY: (u8, u8, u8) = (133, 163, 178);
pub const XKCD_BUBBLE_GUM_PINK: (u8, u8, u8) = (255, 105, 175);
pub const XKCD_DUCK_EGG_BLUE: (u8, u8, u8) = (195, 251, 244);
pub const XKCD_GREENISH_CYAN: (u8, u8, u8) = (42, 254, 183);
pub const XKCD_PETROL: (u8, u8, u8) = (0, 95, 106);
pub const XKCD_ROYAL: (u8, u8, u8) = (12, 23, 147);
pub const XKCD_BUTTER: (u8, u8, u8) = (255, 255, 129);
pub const XKCD_DUSTY_ORANGE: (u8, u8, u8) = (240, 131, 58);
pub const XKCD_OFF_YELLOW: (u8, u8, u8) = (241, 243, 63);
pub const XKCD_PALE_OLIVE_GREEN: (u8, u8, u8) = (177, 210, 123);
pub const XKCD_ORANGISH: (u8, u8, u8) = (252, 130, 74);
pub const XKCD_LEAF: (u8, u8, u8) = (113, 170, 52);
pub const XKCD_LIGHT_BLUE_GREY: (u8, u8, u8) = (183, 201, 226);
pub const XKCD_DRIED_BLOOD: (u8, u8, u8) = (75, 1, 1);
pub const XKCD_LIGHTISH_PURPLE: (u8, u8, u8) = (165, 82, 230);
pub const XKCD_RUSTY_RED: (u8, u8, u8) = (175, 47, 13);
pub const XKCD_LAVENDER_BLUE: (u8, u8, u8) = (139, 136, 248);
pub const XKCD_LIGHT_GRASS_GREEN: (u8, u8, u8) = (154, 247, 100);
pub const XKCD_LIGHT_MINT_GREEN: (u8, u8, u8) = (166, 251, 178);
pub const XKCD_SUNFLOWER: (u8, u8, u8) = (255, 197, 18);
pub const XKCD_VELVET: (u8, u8, u8) = (117, 8, 81);
pub const XKCD_BRICK_ORANGE: (u8, u8, u8) = (193, 74, 9);
pub const XKCD_LIGHTISH_RED: (u8, u8, u8) = (254, 47, 74);
pub const XKCD_PURE_BLUE: (u8, u8, u8) = (2, 3, 226);
pub const XKCD_TWILIGHT_BLUE: (u8, u8, u8) = (10, 67, 122);
pub const XKCD_VIOLET_RED: (u8, u8, u8) = (165, 0, 85);
pub const XKCD_YELLOWY_BROWN: (u8, u8, u8) = (174, 139, 12);
pub const XKCD_CARNATION: (u8, u8, u8) = (253, 121, 143);
pub const XKCD_MUDDY_YELLOW: (u8, u8, u8) = (191, 172, 5);
pub const XKCD_DARK_SEAFOAM_GREEN: (u8, u8, u8) = (62, 175, 118);
pub const XKCD_DEEP_ROSE: (u8, u8, u8) = (199, 71, 103);
pub const XKCD_DUSTY_RED: (u8, u8, u8) = (185, 72, 78);
pub const XKCD_GREY_SLASH_BLUE: (u8, u8, u8) = (100, 125, 142);
pub const XKCD_LEMON_LIME: (u8, u8, u8) = (191, 254, 40);
pub const XKCD_PURPLE_SLASH_PINK: (u8, u8, u8) = (215, 37, 222);
pub const XKCD_BROWN_YELLOW: (u8, u8, u8) = (178, 151, 5);
pub const XKCD_PURPLE_BROWN: (u8, u8, u8) = (103, 58, 63);
pub const XKCD_WISTERIA: (u8, u8, u8) = (168, 125, 194);
pub const XKCD_BANANA_YELLOW: (u8, u8, u8) = (250, 254, 75);
pub const XKCD_LIPSTICK_RED: (u8, u8, u8) = (192, 2, 47);
pub const XKCD_WATER_BLUE: (u8, u8, u8) = (14, 135, 204);
pub const XKCD_BROWN_GREY: (u8, u8, u8) = (141, 132, 104);
pub const XKCD_VIBRANT_PURPLE: (u8, u8, u8) = (173, 3, 222);
pub const XKCD_BABY_GREEN: (u8, u8, u8) = (140, 255, 158);
pub const XKCD_BARF_GREEN: (u8, u8, u8) = (148, 172, 2);
pub const XKCD_EGGSHELL_BLUE: (u8, u8, u8) = (196, 255, 247);
pub const XKCD_SANDY_YELLOW: (u8, u8, u8) = (253, 238, 115);
pub const XKCD_COOL_GREEN: (u8, u8, u8) = (51, 184, 100);
pub const XKCD_PALE: (u8, u8, u8) = (255, 249, 208);
pub const XKCD_BLUE_SLASH_GREY: (u8, u8, u8) = (117, 141, 163);
pub const XKCD_HOT_MAGENTA: (u8, u8, u8) = (245, 4, 201);
pub const XKCD_GREYBLUE: (u8, u8, u8) = (119, 161, 181);
pub const XKCD_PURPLEY: (u8, u8, u8) = (135, 86, 228);
pub const XKCD_BABY_SHIT_GREEN: (u8, u8, u8) = (136, 151, 23);
pub const XKCD_BROWNISH_PINK: (u8, u8, u8) = (194, 126, 121);
pub const XKCD_DARK_AQUAMARINE: (u8, u8, u8) = (1, 115, 113);
pub const XKCD_DIARRHEA: (u8, u8, u8) = (159, 131, 3);
pub const XKCD_LIGHT_MUSTARD: (u8, u8, u8) = (247, 213, 96);
pub const XKCD_PALE_SKY_BLUE: (u8, u8, u8) = (189, 246, 254);
pub const XKCD_TURTLE_GREEN: (u8, u8, u8) = (117, 184, 79);
pub const XKCD_BRIGHT_OLIVE: (u8, u8, u8) = (156, 187, 4);
pub const XKCD_DARK_GREY_BLUE: (u8, u8, u8) = (41, 70, 91);
pub const XKCD_GREENY_BROWN: (u8, u8, u8) = (105, 96, 6);
pub const XKCD_LEMON_GREEN: (u8, u8, u8) = (173, 248, 2);
pub const XKCD_LIGHT_PERIWINKLE: (u8, u8, u8) = (193, 198, 252);
pub const XKCD_SEAWEED_GREEN: (u8, u8, u8) = (53, 173, 107);
pub const XKCD_SUNSHINE_YELLOW: (u8, u8, u8) = (255, 253, 55);
pub const XKCD_UGLY_PURPLE: (u8, u8, u8) = (164, 66, 160);
pub const XKCD_MEDIUM_PINK: (u8, u8, u8) = (243, 97, 150);
pub const XKCD_PUKE_BROWN: (u8, u8, u8) = (148, 119, 6);
pub const XKCD_VERY_LIGHT_PINK: (u8, u8, u8) = (255, 244, 242);
pub const XKCD_VIRIDIAN: (u8, u8, u8) = (30, 145, 103);
pub const XKCD_BILE: (u8, u8, u8) = (181, 195, 6);
pub const XKCD_FADED_YELLOW: (u8, u8, u8) = (254, 255, 127);
pub const XKCD_VERY_PALE_GREEN: (u8, u8, u8) = (207, 253, 188);
pub const XKCD_VIBRANT_GREEN: (u8, u8, u8) = (10, 221, 8);
pub const XKCD_BRIGHT_LIME: (u8, u8, u8) = (135, 253, 5);
pub const XKCD_SPEARMINT: (u8, u8, u8) = (30, 248, 118);
pub const XKCD_LIGHT_AQUAMARINE: (u8, u8, u8) = (123, 253, 199);
pub const XKCD_LIGHT_SAGE: (u8, u8, u8) = (188, 236, 172);
pub const XKCD_YELLOWGREEN: (u8, u8, u8) = (187, 249, 15);
pub const XKCD_BABY_POO: (u8, u8, u8) = (171, 144, 4);
pub const XKCD_DARK_SEAFOAM: (u8, u8, u8) = (31, 181, 122);
pub const XKCD_DEEP_TEAL: (u8, u8, u8) = (0, 85, 90);
pub const XKCD_HEATHER: (u8, u8, u8) = (164, 132, 172);
pub const XKCD_RUST_ORANGE: (u8, u8, u8) = (196, 85, 8);
pub const XKCD_DIRTY_BLUE: (u8, u8, u8) = (63, 130, 157);
pub const XKCD_FERN_GREEN: (u8, u8, u8) = (84, 141, 68);
pub const XKCD_BRIGHT_LILAC: (u8, u8, u8) = (201, 94, 251);
pub const XKCD_WEIRD_GREEN: (u8, u8, u8) = (58, 229, 127);
pub const XKCD_PEACOCK_BLUE: (u8, u8, u8) = (1, 103, 149);
pub const XKCD_AVOCADO_GREEN: (u8, u8, u8) = (135, 169, 34);
pub const XKCD_FADED_ORANGE: (u8, u8, u8) = (240, 148, 77);
pub const XKCD_GRAPE_PURPLE: (u8, u8, u8) = (93, 20, 81);
pub const XKCD_HOT_GREEN: (u8, u8, u8) = (37, 255, 41);
pub const XKCD_LIME_YELLOW: (u8, u8, u8) = (208, 254, 29);
pub const XKCD_MANGO: (u8, u8, u8) = (255, 166, 43);
pub const XKCD_SHAMROCK: (u8, u8, u8) = (1, 180, 76);
pub const XKCD_BUBBLEGUM: (u8, u8, u8) = (255, 108, 181);
pub const XKCD_PURPLISH_BROWN: (u8, u8, u8) = (107, 66, 71);
pub const XKCD_VOMIT_YELLOW: (u8, u8, u8) = (199, 193, 12);
pub const XKCD_PALE_CYAN: (u8, u8, u8) = (183, 255, 250);
pub const XKCD_KEY_LIME: (u8, u8, u8) = (174, 255, 110);
pub const XKCD_TOMATO_RED: (u8, u8, u8) = (236, 45, 1);
pub const XKCD_LIGHTGREEN: (u8, u8, u8) = (118, 255, 123);
pub const XKCD_MERLOT: (u8, u8, u8) = (115, 0, 57);
pub const XKCD_NIGHT_BLUE: (u8, u8, u8) = (4, 3, 72);
pub const XKCD_PURPLEISH_PINK: (u8, u8, u8) = (223, 78, 200);
pub const XKCD_APPLE: (u8, u8, u8) = (110, 203, 60);
pub const XKCD_BABY_POOP_GREEN: (u8, u8, u8) = (143, 152, 5);
pub const XKCD_GREEN_APPLE: (u8, u8, u8) = (94, 220, 31);
pub const XKCD_HELIOTROPE: (u8, u8, u8) = (217, 79, 245);
pub const XKCD_YELLOW_SLASH_GREEN: (u8, u8, u8) = (200, 253, 61);
pub const XKCD_ALMOST_BLACK: (u8, u8, u8) = (7, 13, 13);
pub const XKCD_COOL_BLUE: (u8, u8, u8) = (73, 132, 184);
pub const XKCD_LEAFY_GREEN: (u8, u8, u8) = (81, 183, 59);
pub const XKCD_MUSTARD_BROWN: (u8, u8, u8) = (172, 126, 4);
pub const XKCD_DUSK: (u8, u8, u8) = (78, 84, 129);
pub const XKCD_DULL_BROWN: (u8, u8, u8) = (135, 110, 75);
pub const XKCD_FROG_GREEN: (u8, u8, u8) = (88, 188, 8);
pub const XKCD_VIVID_GREEN: (u8, u8, u8) = (47, 239, 16);
pub const XKCD_BRIGHT_LIGHT_GREEN: (u8, u8, u8) = (45, 254, 84);
pub const XKCD_FLURO_GREEN: (u8, u8, u8) = (10, 255, 2);
pub const XKCD_KIWI: (u8, u8, u8) = (156, 239, 67);
pub const XKCD_SEAWEED: (u8, u8, u8) = (24, 209, 123);
pub const XKCD_NAVY_GREEN: (u8, u8, u8) = (53, 83, 10);
pub const XKCD_ULTRAMARINE_BLUE: (u8, u8, u8) = (24, 5, 219);
pub const XKCD_IRIS: (u8, u8, u8) = (98, 88, 196);
pub const XKCD_PASTEL_ORANGE: (u8, u8, u8) = (255, 150, 79);
pub const XKCD_YELLOWISH_ORANGE: (u8, u8, u8) = (255, 171, 15);
pub const XKCD_PERRYWINKLE: (u8, u8, u8) = (143, 140, 231);
pub const XKCD_TEALISH: (u8, u8, u8) = (36, 188, 168);
pub const XKCD_DARK_PLUM: (u8, u8, u8) = (63, 1, 44);
pub const XKCD_PEAR: (u8, u8, u8) = (203, 248, 95);
pub const XKCD_PINKISH_ORANGE: (u8, u8, u8) = (255, 114, 76);
pub const XKCD_MIDNIGHT_PURPLE: (u8, u8, u8) = (40, 1, 55);
pub const XKCD_LIGHT_URPLE: (u8, u8, u8) = (179, 111, 246);
pub const XKCD_DARK_MINT: (u8, u8, u8) = (72, 192, 114);
pub const XKCD_GREENISH_TAN: (u8, u8, u8) = (188, 203, 122);
pub const XKCD_LIGHT_BURGUNDY: (u8, u8, u8) = (168, 65, 91);
pub const XKCD_TURQUOISE_BLUE: (u8, u8, u8) = (6, 177, 196);
pub const XKCD_UGLY_PINK: (u8, u8, u8) = (205, 117, 132);
pub const XKCD_SANDY: (u8, u8, u8) = (241, 218, 122);
pub const XKCD_ELECTRIC_PINK: (u8, u8, u8) = (255, 4, 144);
pub const XKCD_MUTED_PURPLE: (u8, u8, u8) = (128, 91, 135);
pub const XKCD_MID_GREEN: (u8, u8, u8) = (80, 167, 71);
pub const XKCD_GREYISH: (u8, u8, u8) = (168, 164, 149);
pub const XKCD_NEON_YELLOW: (u8, u8, u8) = (207, 255, 4);
pub const XKCD_BANANA: (u8, u8, u8) = (255, 255, 126);
pub const XKCD_CARNATION_PINK: (u8, u8, u8) = (255, 127, 167);
pub const XKCD_TOMATO: (u8, u8, u8) = (239, 64, 38);
pub const XKCD_SEA: (u8, u8, u8) = (60, 153, 146);
pub const XKCD_MUDDY_BROWN: (u8, u8, u8) = (136, 104, 6);
pub const XKCD_TURQUOISE_GREEN: (u8, u8, u8) = (4, 244, 137);
pub const XKCD_BUFF: (u8, u8, u8) = (254, 246, 158);
pub const XKCD_FAWN: (u8, u8, u8) = (207, 175, 123);
pub const XKCD_MUTED_BLUE: (u8, u8, u8) = (59, 113, 159);
pub const XKCD_PALE_ROSE: (u8, u8, u8) = (253, 193, 197);
pub const XKCD_DARK_MINT_GREEN: (u8, u8, u8) = (32, 192, 115);
pub const XKCD_AMETHYST: (u8, u8, u8) = (155, 95, 192);
pub const XKCD_BLUE_SLASH_GREEN: (u8, u8, u8) = (15, 155, 142);
pub const XKCD_CHESTNUT: (u8, u8, u8) = (116, 40, 2);
pub const XKCD_SICK_GREEN: (u8, u8, u8) = (157, 185, 44);
pub const XKCD_PEA: (u8, u8, u8) = (164, 191, 32);
pub const XKCD_RUSTY_ORANGE: (u8, u8, u8) = (205, 89, 9);
pub const XKCD_STONE: (u8, u8, u8) = (173, 165, 135);
pub const XKCD_ROSE_RED: (u8, u8, u8) = (190, 1, 60);
pub const XKCD_PALE_AQUA: (u8, u8, u8) = (184, 255, 235);
pub const XKCD_DEEP_ORANGE: (u8, u8, u8) = (220, 77, 1);
pub const XKCD_EARTH: (u8, u8, u8) = (162, 101, 62);
pub const XKCD_MOSSY_GREEN: (u8, u8, u8) = (99, 139, 39);
pub const XKCD_GRASSY_GREEN: (u8, u8, u8) = (65, 156, 3);
pub const XKCD_PALE_LIME_GREEN: (u8, u8, u8) = (177, 255, 101);
pub const XKCD_LIGHT_GREY_BLUE: (u8, u8, u8) = (157, 188, 212);
pub const XKCD_PALE_GREY: (u8, u8, u8) = (253, 253, 254);
pub const XKCD_ASPARAGUS: (u8, u8, u8) = (119, 171, 86);
pub const XKCD_BLUEBERRY: (u8, u8, u8) = (70, 65, 150);
pub const XKCD_PURPLE_RED: (u8, u8, u8) = (153, 1, 71);
pub const XKCD_PALE_LIME: (u8, u8, u8) = (190, 253, 115);
pub const XKCD_GREENISH_TEAL: (u8, u8, u8) = (50, 191, 132);
pub const XKCD_CARAMEL: (u8, u8, u8) = (175, 111, 9);
pub const XKCD_DEEP_MAGENTA: (u8, u8, u8) = (160, 2, 92);
pub const XKCD_LIGHT_PEACH: (u8, u8, u8) = (255, 216, 177);
pub const XKCD_MILK_CHOCOLATE: (u8, u8, u8) = (127, 78, 30);
pub const XKCD_OCHER: (u8, u8, u8) = (191, 155, 12);
pub const XKCD_OFF_GREEN: (u8, u8, u8) = (107, 163, 83);
pub const XKCD_PURPLY_PINK: (u8, u8, u8) = (240, 117, 230);
pub const XKCD_LIGHTBLUE: (u8, u8, u8) = (123, 200, 246);
pub const XKCD_DUSKY_BLUE: (u8, u8, u8) = (71, 95, 148);
pub const XKCD_GOLDEN: (u8, u8, u8) = (245, 191, 3);
pub const XKCD_LIGHT_BEIGE: (u8, u8, u8) = (255, 254, 182);
pub const XKCD_BUTTER_YELLOW: (u8, u8, u8) = (255, 253, 116);
pub const XKCD_DUSKY_PURPLE: (u8, u8, u8) = (137, 91, 123);
pub const XKCD_FRENCH_BLUE: (u8, u8, u8) = (67, 107, 173);
pub const XKCD_UGLY_YELLOW: (u8, u8, u8) = (208, 193, 1);
pub const XKCD_GREENY_YELLOW: (u8, u8, u8) = (198, 248, 8);
pub const XKCD_ORANGISH_RED: (u8, u8, u8) = (244, 54, 5);
pub const XKCD_SHAMROCK_GREEN: (u8, u8, u8) = (2, 193, 77);
pub const XKCD_ORANGISH_BROWN: (u8, u8, u8) = (178, 95, 3);
pub const XKCD_TREE_GREEN: (u8, u8, u8) = (42, 126, 25);
pub const XKCD_DEEP_VIOLET: (u8, u8, u8) = (73, 6, 72);
pub const XKCD_GUNMETAL: (u8, u8, u8) = (83, 98, 103);
pub const XKCD_BLUE_SLASH_PURPLE: (u8, u8, u8) = (90, 6, 239);
pub const XKCD_CHERRY: (u8, u8, u8) = (207, 2, 52);
pub const XKCD_SANDY_BROWN: (u8, u8, u8) = (196, 166, 97);
pub const XKCD_WARM_GREY: (u8, u8, u8) = (151, 138, 132);
pub const XKCD_DARK_INDIGO: (u8, u8, u8) = (31, 9, 84);
pub const XKCD_MIDNIGHT: (u8, u8, u8) = (3, 1, 45);
pub const XKCD_BLUEY_GREEN: (u8, u8, u8) = (43, 177, 121);
pub const XKCD_GREY_PINK: (u8, u8, u8) = (195, 144, 155);
pub const XKCD_SOFT_PURPLE: (u8, u8, u8) = (166, 111, 181);
pub const XKCD_BLOOD: (u8, u8, u8) = (119, 0, 1);
pub const XKCD_BROWN_RED: (u8, u8, u8) = (146, 43, 5);
pub const XKCD_MEDIUM_GREY: (u8, u8, u8) = (125, 127, 124);
pub const XKCD_BERRY: (u8, u8, u8) = (153, 15, 75);
pub const XKCD_POO: (u8, u8, u8) = (143, 115, 3);
pub const XKCD_PURPLEY_PINK: (u8, u8, u8) = (200, 60, 185);
pub const XKCD_LIGHT_SALMON: (u8, u8, u8) = (254, 169, 147);
pub const XKCD_SNOT: (u8, u8, u8) = (172, 187, 13);
pub const XKCD_EASTER_PURPLE: (u8, u8, u8) = (192, 113, 254);
pub const XKCD_LIGHT_YELLOW_GREEN: (u8, u8, u8) = (204, 253, 127);
pub const XKCD_DARK_NAVY_BLUE: (u8, u8, u8) = (0, 2, 46);
pub const XKCD_DRAB: (u8, u8, u8) = (130, 131, 68);
pub const XKCD_LIGHT_ROSE: (u8, u8, u8) = (255, 197, 203);
pub const XKCD_ROUGE: (u8, u8, u8) = (171, 18, 57);
pub const XKCD_PURPLISH_RED: (u8, u8, u8) = (176, 5, 75);
pub const XKCD_SLIME_GREEN: (u8, u8, u8) = (153, 204, 4);
pub const XKCD_BABY_POOP: (u8, u8, u8) = (147, 124, 0);
pub const XKCD_IRISH_GREEN: (u8, u8, u8) = (1, 149, 41);
pub const XKCD_PINK_SLASH_PURPLE: (u8, u8, u8) = (239, 29, 231);
pub const XKCD_DARK_NAVY: (u8, u8, u8) = (0, 4, 53);
pub const XKCD_GREENY_BLUE: (u8, u8, u8) = (66, 179, 149);
pub const XKCD_LIGHT_PLUM: (u8, u8, u8) = (157, 87, 131);
pub const XKCD_PINKISH_GREY: (u8, u8, u8) = (200, 172, 169);
pub const XKCD_DIRTY_ORANGE: (u8, u8, u8) = (200, 118, 6);
pub const XKCD_RUST_RED: (u8, u8, u8) = (170, 39, 4);
pub const XKCD_PALE_LILAC: (u8, u8, u8) = (228, 203, 255);
pub const XKCD_ORANGEY_RED: (u8, u8, u8) = (250, 66, 36);
pub const XKCD_PRIMARY_BLUE: (u8, u8, u8) = (8, 4, 249);
pub const XKCD_KERMIT_GREEN: (u8, u8, u8) = (92, 178, 0);
pub const XKCD_BROWNISH_PURPLE: (u8, u8, u8) = (118, 66, 78);
pub const XKCD_MURKY_GREEN: (u8, u8, u8) = (108, 122, 14);
pub const XKCD_WHEAT: (u8, u8, u8) = (251, 221, 126);
pub const XKCD_VERY_DARK_PURPLE: (u8, u8, u8) = (42, 1, 52);
pub const XKCD_BOTTLE_GREEN: (u8, u8, u8) = (4, 74, 5);
pub const XKCD_WATERMELON: (u8, u8, u8) = (253, 70, 89);
pub const XKCD_DEEP_SKY_BLUE: (u8, u8, u8) = (13, 117, 248);
pub const XKCD_FIRE_ENGINE_RED: (u8, u8, u8) = (254, 0, 2);
pub const XKCD_YELLOW_OCHRE: (u8, u8, u8) = (203, 157, 6);
pub const XKCD_PUMPKIN_ORANGE: (u8, u8, u8) = (251, 125, 7);
pub const XKCD_PALE_OLIVE: (u8, u8, u8) = (185, 204, 129);
pub const XKCD_LIGHT_LILAC: (u8, u8, u8) = (237, 200, 255);
pub const XKCD_LIGHTISH_GREEN: (u8, u8, u8) = (97, 225, 96);
pub const XKCD_CAROLINA_BLUE: (u8, u8, u8) = (138, 184, 254);
pub const XKCD_MULBERRY: (u8, u8, u8) = (146, 10, 78);
pub const XKCD_SHOCKING_PINK: (u8, u8, u8) = (254, 2, 162);
pub const XKCD_AUBURN: (u8, u8, u8) = (154, 48, 1);
pub const XKCD_BRIGHT_LIME_GREEN: (u8, u8, u8) = (101, 254, 8);
pub const XKCD_CELADON: (u8, u8, u8) = (190, 253, 183);
pub const XKCD_PINKISH_BROWN: (u8, u8, u8) = (177, 114, 97);
pub const XKCD_POO_BROWN: (u8, u8, u8) = (136, 95, 1);
pub const XKCD_BRIGHT_SKY_BLUE: (u8, u8, u8) = (2, 204, 254);
pub const XKCD_CELERY: (u8, u8, u8) = (193, 253, 149);
pub const XKCD_DIRT_BROWN: (u8, u8, u8) = (131, 101, 57);
pub const XKCD_STRAWBERRY: (u8, u8, u8) = (251, 41, 67);
pub const XKCD_DARK_LIME: (u8, u8, u8) = (132, 183, 1);
pub const XKCD_COPPER: (u8, u8, u8) = (182, 99, 37);
pub const XKCD_MEDIUM_BROWN: (u8, u8, u8) = (127, 81, 18);
pub const XKCD_MUTED_GREEN: (u8, u8, u8) = (95, 160, 82);
pub const XKCD_ROBIN_S_EGG: (u8, u8, u8) = (109, 237, 253);
pub const XKCD_BRIGHT_AQUA: (u8, u8, u8) = (11, 249, 234);
pub const XKCD_BRIGHT_LAVENDER: (u8, u8, u8) = (199, 96, 255);
pub const XKCD_IVORY: (u8, u8, u8) = (255, 255, 203);
pub const XKCD_VERY_LIGHT_PURPLE: (u8, u8, u8) = (246, 206, 252);
pub const XKCD_LIGHT_NAVY: (u8, u8, u8) = (21, 80, 132);
pub const XKCD_PINK_RED: (u8, u8, u8) = (245, 5, 79);
pub const XKCD_OLIVE_BROWN: (u8, u8, u8) = (100, 84, 3);
pub const XKCD_POOP_BROWN: (u8, u8, u8) = (122, 89, 1);
pub const XKCD_MUSTARD_GREEN: (u8, u8, u8) = (168, 181, 4);
pub const XKCD_OCEAN_GREEN: (u8, u8, u8) = (61, 153, 115);
pub const XKCD_VERY_DARK_BLUE: (u8, u8, u8) = (0, 1, 51);
pub const XKCD_DUSTY_GREEN: (u8, u8, u8) = (118, 169, 115);
pub const XKCD_LIGHT_NAVY_BLUE: (u8, u8, u8) = (46, 90, 136);
pub const XKCD_MINTY_GREEN: (u8, u8, u8) = (11, 247, 125);
pub const XKCD_ADOBE: (u8, u8, u8) = (189, 108, 72);
pub const XKCD_BARNEY: (u8, u8, u8) = (172, 29, 184);
pub const XKCD_JADE_GREEN: (u8, u8, u8) = (43, 175, 106);
pub const XKCD_BRIGHT_LIGHT_BLUE: (u8, u8, u8) = (38, 247, 253);
pub const XKCD_LIGHT_LIME: (u8, u8, u8) = (174, 253, 108);
pub const XKCD_DARK_KHAKI: (u8, u8, u8) = (155, 143, 85);
pub const XKCD_ORANGE_YELLOW: (u8, u8, u8) = (255, 173, 1);
pub const XKCD_OCRE: (u8, u8, u8) = (198, 156, 4);
pub const XKCD_MAIZE: (u8, u8, u8) = (244, 208, 84);
pub const XKCD_FADED_PINK: (u8, u8, u8) = (222, 157, 172);
pub const XKCD_BRITISH_RACING_GREEN: (u8, u8, u8) = (5, 72, 13);
pub const XKCD_SANDSTONE: (u8, u8, u8) = (201, 174, 116);
pub const XKCD_MUD_BROWN: (u8, u8, u8) = (96, 70, 15);
pub const XKCD_LIGHT_SEA_GREEN: (u8, u8, u8) = (152, 246, 176);
pub const XKCD_ROBIN_EGG_BLUE: (u8, u8, u8) = (138, 241, 254);
pub const XKCD_AQUA_MARINE: (u8, u8, u8) = (46, 232, 187);
pub const XKCD_DARK_SEA_GREEN: (u8, u8, u8) = (17, 135, 93);
pub const XKCD_SOFT_PINK: (u8, u8, u8) = (253, 176, 192);
pub const XKCD_ORANGEY_BROWN: (u8, u8, u8) = (177, 96, 2);
pub const XKCD_CHERRY_RED: (u8, u8, u8) = (247, 2, 42);
pub const XKCD_BURNT_YELLOW: (u8, u8, u8) = (213, 171, 9);
pub const XKCD_BROWNISH_GREY: (u8, u8, u8) = (134, 119, 95);
pub const XKCD_CAMEL: (u8, u8, u8) = (198, 159, 89);
pub const XKCD_PURPLISH_GREY: (u8, u8, u8) = (122, 104, 127);
pub const XKCD_MARINE: (u8, u8, u8) = (4, 46, 96);
pub const XKCD_GREYISH_PINK: (u8, u8, u8) = (200, 141, 148);
pub const XKCD_PALE_TURQUOISE: (u8, u8, u8) = (165, 251, 213);
pub const XKCD_PASTEL_YELLOW: (u8, u8, u8) = (255, 254, 113);
pub const XKCD_BLUEY_PURPLE: (u8, u8, u8) = (98, 65, 199);
pub const XKCD_CANARY_YELLOW: (u8, u8, u8) = (255, 254, 64);
pub const XKCD_FADED_RED: (u8, u8, u8) = (211, 73, 78);
pub const XKCD_SEPIA: (u8, u8, u8) = (152, 94, 43);
pub const XKCD_COFFEE: (u8, u8, u8) = (166, 129, 76);
pub const XKCD_BRIGHT_MAGENTA: (u8, u8, u8) = (255, 8, 232);
pub const XKCD_MOCHA: (u8, u8, u8) = (157, 118, 81);
pub const XKCD_ECRU: (u8, u8, u8) = (254, 255, 202);
pub const XKCD_PURPLEISH: (u8, u8, u8) = (152, 86, 141);
pub const XKCD_CRANBERRY: (u8, u8, u8) = (158, 0, 58);
pub const XKCD_DARKISH_GREEN: (u8, u8, u8) = (40, 124, 55);
pub const XKCD_BROWN_ORANGE: (u8, u8, u8) = (185, 105, 2);
pub const XKCD_DUSKY_ROSE: (u8, u8, u8) = (186, 104, 115);
pub const XKCD_MELON: (u8, u8, u8) = (255, 120, 85);
pub const XKCD_SICKLY_GREEN: (u8, u8, u8) = (148, 178, 28);
pub const XKCD_SILVER: (u8, u8, u8) = (197, 201, 199);
pub const XKCD_PURPLY_BLUE: (u8, u8, u8) = (102, 26, 238);
pub const XKCD_PURPLEISH_BLUE: (u8, u8, u8) = (97, 64, 239);
pub const XKCD_HOSPITAL_GREEN: (u8, u8, u8) = (155, 229, 170);
pub const XKCD_SHIT_BROWN: (u8, u8, u8) = (123, 88, 4);
pub const XKCD_MID_BLUE: (u8, u8, u8) = (39, 106, 179);
pub const XKCD_AMBER: (u8, u8, u8) = (254, 179, 8);
pub const XKCD_EASTER_GREEN: (u8, u8, u8) = (140, 253, 126);
pub const XKCD_SOFT_BLUE: (u8, u8, u8) = (100, 136, 234);
pub const XKCD_CERULEAN_BLUE: (u8, u8, u8) = (5, 110, 238);
pub const XKCD_GOLDEN_BROWN: (u8, u8, u8) = (178, 122, 1);
pub const XKCD_BRIGHT_TURQUOISE: (u8, u8, u8) = (15, 254, 249);
pub const XKCD_RED_PINK: (u8, u8, u8) = (250, 42, 85);
pub const XKCD_RED_PURPLE: (u8, u8, u8) = (130, 7, 71);
pub const XKCD_GREYISH_BROWN: (u8, u8, u8) = (122, 106, 79);
pub const XKCD_VERMILLION: (u8, u8, u8) = (244, 50, 12);
pub const XKCD_RUSSET: (u8, u8, u8) = (161, 57, 5);
pub const XKCD_STEEL_GREY: (u8, u8, u8) = (111, 130, 138);
pub const XKCD_LIGHTER_PURPLE: (u8, u8, u8) = (165, 90, 244);
pub const XKCD_BRIGHT_VIOLET: (u8, u8, u8) = (173, 10, 253);
pub const XKCD_PRUSSIAN_BLUE: (u8, u8, u8) = (0, 69, 119);
pub const XKCD_SLATE_GREEN: (u8, u8, u8) = (101, 141, 109);
pub const XKCD_DIRTY_PINK: (u8, u8, u8) = (202, 123, 128);
pub const XKCD_DARK_BLUE_GREEN: (u8, u8, u8) = (0, 82, 73);
pub const XKCD_PINE: (u8, u8, u8) = (43, 93, 52);
pub const XKCD_YELLOWY_GREEN: (u8, u8, u8) = (191, 241, 40);
pub const XKCD_DARK_GOLD: (u8, u8, u8) = (181, 148, 16);
pub const XKCD_BLUISH: (u8, u8, u8) = (41, 118, 187);
pub const XKCD_DARKISH_BLUE: (u8, u8, u8) = (1, 65, 130);
pub const XKCD_DULL_RED: (u8, u8, u8) = (187, 63, 63);
pub const XKCD_PINKY_RED: (u8, u8, u8) = (252, 38, 71);
pub const XKCD_BRONZE: (u8, u8, u8) = (168, 121, 0);
pub const XKCD_PALE_TEAL: (u8, u8, u8) = (130, 203, 178);
pub const XKCD_MILITARY_GREEN: (u8, u8, u8) = (102, 124, 62);
pub const XKCD_BARBIE_PINK: (u8, u8, u8) = (254, 70, 165);
pub const XKCD_BUBBLEGUM_PINK: (u8, u8, u8) = (254, 131, 204);
pub const XKCD_PEA_SOUP_GREEN: (u8, u8, u8) = (148, 166, 23);
pub const XKCD_DARK_MUSTARD: (u8, u8, u8) = (168, 137, 5);
pub const XKCD_SHIT: (u8, u8, u8) = (127, 95, 0);
pub const XKCD_MEDIUM_PURPLE: (u8, u8, u8) = (158, 67, 162);
pub const XKCD_VERY_DARK_GREEN: (u8, u8, u8) = (6, 46, 3);
pub const XKCD_DIRT: (u8, u8, u8) = (138, 110, 69);
pub const XKCD_DUSKY_PINK: (u8, u8, u8) = (204, 122, 139);
pub const XKCD_RED_VIOLET: (u8, u8, u8) = (158, 1, 104);
pub const XKCD_LEMON_YELLOW: (u8, u8, u8) = (253, 255, 56);
pub const XKCD_PISTACHIO: (u8, u8, u8) = (192, 250, 139);
pub const XKCD_DULL_YELLOW: (u8, u8, u8) = (238, 220, 91);
pub const XKCD_DARK_LIME_GREEN: (u8, u8, u8) = (126, 189, 1);
pub const XKCD_DENIM_BLUE: (u8, u8, u8) = (59, 91, 146);
pub const XKCD_TEAL_BLUE: (u8, u8, u8) = (1, 136, 159);
pub const XKCD_LIGHTISH_BLUE: (u8, u8, u8) = (61, 122, 253);
pub const XKCD_PURPLEY_BLUE: (u8, u8, u8) = (95, 52, 231);
pub const XKCD_LIGHT_INDIGO: (u8, u8, u8) = (109, 90, 207);
pub const XKCD_SWAMP_GREEN: (u8, u8, u8) = (116, 133, 0);
pub const XKCD_BROWN_GREEN: (u8, u8, u8) = (112, 108, 17);
pub const XKCD_DARK_MAROON: (u8, u8, u8) = (60, 0, 8);
pub const XKCD_HOT_PURPLE: (u8, u8, u8) = (203, 0, 245);
pub const XKCD_DARK_FOREST_GREEN: (u8, u8, u8) = (0, 45, 4);
pub const XKCD_FADED_BLUE: (u8, u8, u8) = (101, 140, 187);
pub const XKCD_DRAB_GREEN: (u8, u8, u8) = (116, 149, 81);
pub const XKCD_LIGHT_LIME_GREEN: (u8, u8, u8) = (185, 255, 102);
pub const XKCD_SNOT_GREEN: (u8, u8, u8) = (157, 193, 0);
pub const XKCD_YELLOWISH: (u8, u8, u8) = (250, 238, 102);
pub const XKCD_LIGHT_BLUE_GREEN: (u8, u8, u8) = (126, 251, 179);
pub const XKCD_BORDEAUX: (u8, u8, u8) = (123, 0, 44);
pub const XKCD_LIGHT_MAUVE: (u8, u8, u8) = (194, 146, 161);
pub const XKCD_OCEAN: (u8, u8, u8) = (1, 123, 146);
pub const XKCD_MARIGOLD: (u8, u8, u8) = (252, 192, 6);
pub const XKCD_MUDDY_GREEN: (u8, u8, u8) = (101, 116, 50);
pub const XKCD_DULL_ORANGE: (u8, u8, u8) = (216, 134, 59);
pub const XKCD_STEEL: (u8, u8, u8) = (115, 133, 149);
pub const XKCD_ELECTRIC_PURPLE: (u8, u8, u8) = (170, 35, 255);
pub const XKCD_FLUORESCENT_GREEN: (u8, u8, u8) = (8, 255, 8);
pub const XKCD_YELLOWISH_BROWN: (u8, u8, u8) = (155, 122, 1);
pub const XKCD_BLUSH: (u8, u8, u8) = (242, 158, 142);
pub const XKCD_SOFT_GREEN: (u8, u8, u8) = (111, 194, 118);
pub const XKCD_BRIGHT_ORANGE: (u8, u8, u8) = (255, 91, 0);
pub const XKCD_LEMON: (u8, u8, u8) = (253, 255, 82);
pub const XKCD_PURPLE_GREY: (u8, u8, u8) = (134, 111, 133);
pub const XKCD_ACID_GREEN: (u8, u8, u8) = (143, 254, 9);
pub const XKCD_PALE_LAVENDER: (u8, u8, u8) = (238, 207, 254);
pub const XKCD_VIOLET_BLUE: (u8, u8, u8) = (81, 10, 201);
pub const XKCD_LIGHT_FOREST_GREEN: (u8, u8, u8) = (79, 145, 83);
pub const XKCD_BURNT_RED: (u8, u8, u8) = (159, 35, 5);
pub const XKCD_KHAKI_GREEN: (u8, u8, u8) = (114, 134, 57);
pub const XKCD_CERISE: (u8, u8, u8) = (222, 12, 98);
pub const XKCD_FADED_PURPLE: (u8, u8, u8) = (145, 110, 153);
pub const XKCD_APRICOT: (u8, u8, u8) = (255, 177, 109);
pub const XKCD_DARK_OLIVE_GREEN: (u8, u8, u8) = (60, 77, 3);
pub const XKCD_GREY_BROWN: (u8, u8, u8) = (127, 112, 83);
pub const XKCD_GREEN_GREY: (u8, u8, u8) = (119, 146, 111);
pub const XKCD_TRUE_BLUE: (u8, u8, u8) = (1, 15, 204);
pub const XKCD_PALE_VIOLET: (u8, u8, u8) = (206, 174, 250);
pub const XKCD_PERIWINKLE_BLUE: (u8, u8, u8) = (143, 153, 251);
pub const XKCD_LIGHT_SKY_BLUE: (u8, u8, u8) = (198, 252, 255);
pub const XKCD_BLURPLE: (u8, u8, u8) = (85, 57, 204);
pub const XKCD_GREEN_BROWN: (u8, u8, u8) = (84, 78, 3);
pub const XKCD_BLUEGREEN: (u8, u8, u8) = (1, 122, 121);
pub const XKCD_BRIGHT_TEAL: (u8, u8, u8) = (1, 249, 198);
pub const XKCD_BROWNISH_YELLOW: (u8, u8, u8) = (201, 176, 3);
pub const XKCD_PEA_SOUP: (u8, u8, u8) = (146, 153, 1);
pub const XKCD_FOREST: (u8, u8, u8) = (11, 85, 9);
pub const XKCD_BARNEY_PURPLE: (u8, u8, u8) = (160, 4, 152);
pub const XKCD_ULTRAMARINE: (u8, u8, u8) = (32, 0, 177);
pub const XKCD_PURPLISH: (u8, u8, u8) = (148, 86, 140);
pub const XKCD_PUKE_YELLOW: (u8, u8, u8) = (194, 190, 14);
pub const XKCD_BLUISH_GREY: (u8, u8, u8) = (116, 139, 151);
pub const XKCD_DARK_PERIWINKLE: (u8, u8, u8) = (102, 95, 209);
pub const XKCD_DARK_LILAC: (u8, u8, u8) = (156, 109, 165);
pub const XKCD_REDDISH: (u8, u8, u8) = (196, 66, 64);
pub const XKCD_LIGHT_MAROON: (u8, u8, u8) = (162, 72, 87);
pub const XKCD_DUSTY_PURPLE: (u8, u8, u8) = (130, 95, 135);
pub const XKCD_TERRA_COTTA: (u8, u8, u8) = (201, 100, 59);
pub const XKCD_AVOCADO: (u8, u8, u8) = (144, 177, 52);
pub const XKCD_MARINE_BLUE: (u8, u8, u8) = (1, 56, 106);
pub const XKCD_TEAL_GREEN: (u8, u8, u8) = (37, 163, 111);
pub const XKCD_SLATE_GREY: (u8, u8, u8) = (89, 101, 109);
pub const XKCD_LIGHTER_GREEN: (u8, u8, u8) = (117, 253, 99);
pub const XKCD_ELECTRIC_GREEN: (u8, u8, u8) = (33, 252, 13);
pub const XKCD_DUSTY_BLUE: (u8, u8, u8) = (90, 134, 173);
pub const XKCD_GOLDEN_YELLOW: (u8, u8, u8) = (254, 198, 21);
pub const XKCD_BRIGHT_YELLOW: (u8, u8, u8) = (255, 253, 1);
pub const XKCD_LIGHT_LAVENDER: (u8, u8, u8) = (223, 197, 254);
pub const XKCD_UMBER: (u8, u8, u8) = (178, 100, 0);
pub const XKCD_POOP: (u8, u8, u8) = (127, 94, 0);
pub const XKCD_DARK_PEACH: (u8, u8, u8) = (222, 126, 93);
pub const XKCD_JUNGLE_GREEN: (u8, u8, u8) = (4, 130, 67);
pub const XKCD_EGGSHELL: (u8, u8, u8) = (255, 255, 212);
pub const XKCD_DENIM: (u8, u8, u8) = (59, 99, 140);
pub const XKCD_YELLOW_BROWN: (u8, u8, u8) = (183, 148, 0);
pub const XKCD_DULL_PURPLE: (u8, u8, u8) = (132, 89, 126);
pub const XKCD_CHOCOLATE_BROWN: (u8, u8, u8) = (65, 25, 0);
pub const XKCD_WINE_RED: (u8, u8, u8) = (123, 3, 35);
pub const XKCD_NEON_BLUE: (u8, u8, u8) = (4, 217, 255);
pub const XKCD_DIRTY_GREEN: (u8, u8, u8) = (102, 126, 44);
pub const XKCD_LIGHT_TAN: (u8, u8, u8) = (251, 238, 172);
pub const XKCD_ICE_BLUE: (u8, u8, u8) = (215, 255, 254);
pub const XKCD_CADET_BLUE: (u8, u8, u8) = (78, 116, 150);
pub const XKCD_DARK_MAUVE: (u8, u8, u8) = (135, 76, 98);
pub const XKCD_VERY_LIGHT_BLUE: (u8, u8, u8) = (213, 255, 255);
pub const XKCD_GREY_PURPLE: (u8, u8, u8) = (130, 109, 140);
pub const XKCD_PASTEL_PINK: (u8, u8, u8) = (255, 186, 205);
pub const XKCD_VERY_LIGHT_GREEN: (u8, u8, u8) = (209, 255, 189);
pub const XKCD_DARK_SKY_BLUE: (u8, u8, u8) = (68, 142, 228);
pub const XKCD_EVERGREEN: (u8, u8, u8) = (5, 71, 42);
pub const XKCD_DULL_PINK: (u8, u8, u8) = (213, 134, 157);
pub const XKCD_AUBERGINE: (u8, u8, u8) = (61, 7, 52);
pub const XKCD_MAHOGANY: (u8, u8, u8) = (74, 1, 0);
pub const XKCD_REDDISH_ORANGE: (u8, u8, u8) = (248, 72, 28);
pub const XKCD_DEEP_GREEN: (u8, u8, u8) = (2, 89, 15);
pub const XKCD_VOMIT_GREEN: (u8, u8, u8) = (137, 162, 3);
pub const XKCD_PURPLE_PINK: (u8, u8, u8) = (224, 63, 216);
pub const XKCD_DUSTY_PINK: (u8, u8, u8) = (213, 138, 148);
pub const XKCD_FADED_GREEN: (u8, u8, u8) = (123, 178, 116);
pub const XKCD_CAMO_GREEN: (u8, u8, u8) = (82, 101, 37);
pub const XKCD_PINKY_PURPLE: (u8, u8, u8) = (201, 76, 190);
pub const XKCD_PINK_PURPLE: (u8, u8, u8) = (219, 75, 218);
pub const XKCD_BROWNISH_RED: (u8, u8, u8) = (158, 54, 35);
pub const XKCD_DARK_ROSE: (u8, u8, u8) = (181, 72, 93);
pub const XKCD_MUD: (u8, u8, u8) = (115, 92, 18);
pub const XKCD_BROWNISH: (u8, u8, u8) = (156, 109, 87);
pub const XKCD_EMERALD_GREEN: (u8, u8, u8) = (2, 143, 30);
pub const XKCD_PALE_BROWN: (u8, u8, u8) = (177, 145, 110);
pub const XKCD_DULL_BLUE: (u8, u8, u8) = (73, 117, 156);
pub const XKCD_BURNT_UMBER: (u8, u8, u8) = (160, 69, 14);
pub const XKCD_MEDIUM_GREEN: (u8, u8, u8) = (57, 173, 72);
pub const XKCD_CLAY: (u8, u8, u8) = (182, 106, 80);
pub const XKCD_LIGHT_AQUA: (u8, u8, u8) = (140, 255, 219);
pub const XKCD_LIGHT_OLIVE_GREEN: (u8, u8, u8) = (164, 190, 92);
pub const XKCD_BROWNISH_ORANGE: (u8, u8, u8) = (203, 119, 35);
pub const XKCD_DARK_AQUA: (u8, u8, u8) = (5, 105, 107);
pub const XKCD_PURPLISH_PINK: (u8, u8, u8) = (206, 93, 174);
pub const XKCD_DARK_SALMON: (u8, u8, u8) = (200, 90, 83);
pub const XKCD_GREENISH_GREY: (u8, u8, u8) = (150, 174, 141);
pub const XKCD_JADE: (u8, u8, u8) = (31, 167, 116);
pub const XKCD_UGLY_GREEN: (u8, u8, u8) = (122, 151, 3);
pub const XKCD_DARK_BEIGE: (u8, u8, u8) = (172, 147, 98);
pub const XKCD_EMERALD: (u8, u8, u8) = (1, 160, 73);
pub const XKCD_PALE_RED: (u8, u8, u8) = (217, 84, 77);
pub const XKCD_LIGHT_MAGENTA: (u8, u8, u8) = (250, 95, 247);
pub const XKCD_SKY: (u8, u8, u8) = (130, 202, 252);
pub const XKCD_LIGHT_CYAN: (u8, u8, u8) = (172, 255, 252);
pub const XKCD_YELLOW_ORANGE: (u8, u8, u8) = (252, 176, 1);
pub const XKCD_REDDISH_PURPLE: (u8, u8, u8) = (145, 9, 81);
pub const XKCD_REDDISH_PINK: (u8, u8, u8) = (254, 44, 84);
pub const XKCD_ORCHID: (u8, u8, u8) = (200, 117, 196);
pub const XKCD_DIRTY_YELLOW: (u8, u8, u8) = (205, 197, 10);
pub const XKCD_ORANGE_RED: (u8, u8, u8) = (253, 65, 30);
pub const XKCD_DEEP_RED: (u8, u8, u8) = (154, 2, 0);
pub const XKCD_ORANGE_BROWN: (u8, u8, u8) = (190, 100, 0);
pub const XKCD_COBALT_BLUE: (u8, u8, u8) = (3, 10, 167);
pub const XKCD_NEON_PINK: (u8, u8, u8) = (254, 1, 154);
pub const XKCD_ROSE_PINK: (u8, u8, u8) = (247, 135, 154);
pub const XKCD_GREYISH_PURPLE: (u8, u8, u8) = (136, 113, 145);
pub const XKCD_RASPBERRY: (u8, u8, u8) = (176, 1, 73);
pub const XKCD_AQUA_GREEN: (u8, u8, u8) = (18, 225, 147);
pub const XKCD_SALMON_PINK: (u8, u8, u8) = (254, 123, 124);
pub const XKCD_TANGERINE: (u8, u8, u8) = (255, 148, 8);
pub const XKCD_BROWNISH_GREEN: (u8, u8, u8) = (106, 110, 9);
pub const XKCD_RED_BROWN: (u8, u8, u8) = (139, 46, 22);
pub const XKCD_GREENISH_BROWN: (u8, u8, u8) = (105, 97, 18);
pub const XKCD_PUMPKIN: (u8, u8, u8) = (225, 119, 1);
pub const XKCD_PINE_GREEN: (u8, u8, u8) = (10, 72, 30);
pub const XKCD_CHARCOAL: (u8, u8, u8) = (52, 56, 55);
pub const XKCD_BABY_PINK: (u8, u8, u8) = (255, 183, 206);
pub const XKCD_CORNFLOWER: (u8, u8, u8) = (106, 121, 247);
pub const XKCD_BLUE_VIOLET: (u8, u8, u8) = (93, 6, 233);
pub const XKCD_CHOCOLATE: (u8, u8, u8) = (61, 28, 2);
pub const XKCD_GREYISH_GREEN: (u8, u8, u8) = (130, 166, 125);
pub const XKCD_SCARLET: (u8, u8, u8) = (190, 1, 25);
pub const XKCD_GREEN_YELLOW: (u8, u8, u8) = (201, 255, 39);
pub const XKCD_DARK_OLIVE: (u8, u8, u8) = (55, 62, 2);
pub const XKCD_SIENNA: (u8, u8, u8) = (169, 86, 30);
pub const XKCD_PASTEL_PURPLE: (u8, u8, u8) = (202, 160, 255);
pub const XKCD_TERRACOTTA: (u8, u8, u8) = (202, 102, 65);
pub const XKCD_AQUA_BLUE: (u8, u8, u8) = (2, 216, 233);
pub const XKCD_SAGE_GREEN: (u8, u8, u8) = (136, 179, 120);
pub const XKCD_BLOOD_RED: (u8, u8, u8) = (152, 0, 2);
pub const XKCD_DEEP_PINK: (u8, u8, u8) = (203, 1, 98);
pub const XKCD_GRASS: (u8, u8, u8) = (92, 172, 45);
pub const XKCD_MOSS: (u8, u8, u8) = (118, 153, 88);
pub const XKCD_PASTEL_BLUE: (u8, u8, u8) = (162, 191, 254);
pub const XKCD_BLUISH_GREEN: (u8, u8, u8) = (16, 166, 116);
pub const XKCD_GREEN_BLUE: (u8, u8, u8) = (6, 180, 139);
pub const XKCD_DARK_TAN: (u8, u8, u8) = (175, 136, 74);
pub const XKCD_GREENISH_BLUE: (u8, u8, u8) = (11, 139, 135);
pub const XKCD_PALE_ORANGE: (u8, u8, u8) = (255, 167, 86);
pub const XKCD_VOMIT: (u8, u8, u8) = (162, 164, 21);
pub const XKCD_FORREST_GREEN: (u8, u8, u8) = (21, 68, 6);
pub const XKCD_DARK_LAVENDER: (u8, u8, u8) = (133, 103, 152);
pub const XKCD_DARK_VIOLET: (u8, u8, u8) = (52, 1, 63);
pub const XKCD_PURPLE_BLUE: (u8, u8, u8) = (99, 45, 233);
pub const XKCD_DARK_CYAN: (u8, u8, u8) = (10, 136, 138);
pub const XKCD_OLIVE_DRAB: (u8, u8, u8) = (111, 118, 50);
pub const XKCD_PINKISH: (u8, u8, u8) = (212, 106, 126);
pub const XKCD_COBALT: (u8, u8, u8) = (30, 72, 143);
pub const XKCD_NEON_PURPLE: (u8, u8, u8) = (188, 19, 254);
pub const XKCD_LIGHT_TURQUOISE: (u8, u8, u8) = (126, 244, 204);
pub const XKCD_APPLE_GREEN: (u8, u8, u8) = (118, 205, 38);
pub const XKCD_DULL_GREEN: (u8, u8, u8) = (116, 166, 98);
pub const XKCD_WINE: (u8, u8, u8) = (128, 1, 63);
pub const XKCD_POWDER_BLUE: (u8, u8, u8) = (177, 209, 252);
pub const XKCD_OFF_WHITE: (u8, u8, u8) = (255, 255, 228);
pub const XKCD_ELECTRIC_BLUE: (u8, u8, u8) = (6, 82, 255);
pub const XKCD_DARK_TURQUOISE: (u8, u8, u8) = (4, 92, 90);
pub const XKCD_BLUE_PURPLE: (u8, u8, u8) = (87, 41, 206);
pub const XKCD_AZURE: (u8, u8, u8) = (6, 154, 243);
pub const XKCD_BRIGHT_RED: (u8, u8, u8) = (255, 0, 13);
pub const XKCD_PINKISH_RED: (u8, u8, u8) = (241, 12, 69);
pub const XKCD_CORNFLOWER_BLUE: (u8, u8, u8) = (81, 112, 215);
pub const XKCD_LIGHT_OLIVE: (u8, u8, u8) = (172, 191, 105);
pub const XKCD_GRAPE: (u8, u8, u8) = (108, 52, 97);
pub const XKCD_GREYISH_BLUE: (u8, u8, u8) = (94, 129, 157);
pub const XKCD_PURPLISH_BLUE: (u8, u8, u8) = (96, 30, 249);
pub const XKCD_YELLOWISH_GREEN: (u8, u8, u8) = (176, 221, 22);
pub const XKCD_GREENISH_YELLOW: (u8, u8, u8) = (205, 253, 2);
pub const XKCD_MEDIUM_BLUE: (u8, u8, u8) = (44, 111, 187);
pub const XKCD_DUSTY_ROSE: (u8, u8, u8) = (192, 115, 122);
pub const XKCD_LIGHT_VIOLET: (u8, u8, u8) = (214, 180, 252);
pub const XKCD_MIDNIGHT_BLUE: (u8, u8, u8) = (2, 0, 53);
pub const XKCD_BLUISH_PURPLE: (u8, u8, u8) = (112, 59, 231);
pub const XKCD_RED_ORANGE: (u8, u8, u8) = (253, 60, 6);
pub const XKCD_DARK_MAGENTA: (u8, u8, u8) = (150, 0, 86);
pub const XKCD_GREENISH: (u8, u8, u8) = (64, 163, 104);
pub const XKCD_OCEAN_BLUE: (u8, u8, u8) = (3, 113, 156);
pub const XKCD_CORAL: (u8, u8, u8) = (252, 90, 80);
pub const XKCD_CREAM: (u8, u8, u8) = (255, 255, 194);
pub const XKCD_REDDISH_BROWN: (u8, u8, u8) = (127, 43, 10);
pub const XKCD_BURNT_SIENNA: (u8, u8, u8) = (176, 78, 15);
pub const XKCD_BRICK: (u8, u8, u8) = (160, 54, 35);
pub const XKCD_SAGE: (u8, u8, u8) = (135, 174, 115);
pub const XKCD_GREY_GREEN: (u8, u8, u8) = (120, 155, 115);
pub const XKCD_WHITE: (u8, u8, u8) = (255, 255, 255);
pub const XKCD_ROBIN_S_EGG_BLUE: (u8, u8, u8) = (152, 239, 249);
pub const XKCD_MOSS_GREEN: (u8, u8, u8) = (101, 139, 56);
pub const XKCD_STEEL_BLUE: (u8, u8, u8) = (90, 125, 154);
pub const XKCD_EGGPLANT: (u8, u8, u8) = (56, 8, 53);
pub const XKCD_LIGHT_YELLOW: (u8, u8, u8) = (255, 254, 122);
pub const XKCD_LEAF_GREEN: (u8, u8, u8) = (92, 169, 4);
pub const XKCD_LIGHT_GREY: (u8, u8, u8) = (216, 220, 214);
pub const XKCD_PUKE: (u8, u8, u8) = (165, 165, 2);
pub const XKCD_PINKISH_PURPLE: (u8, u8, u8) = (214, 72, 215);
pub const XKCD_SEA_BLUE: (u8, u8, u8) = (4, 116, 149);
pub const XKCD_PALE_PURPLE: (u8, u8, u8) = (183, 144, 212);
pub const XKCD_SLATE_BLUE: (u8, u8, u8) = (91, 124, 153);
pub const XKCD_BLUE_GREY: (u8, u8, u8) = (96, 124, 142);
pub const XKCD_HUNTER_GREEN: (u8, u8, u8) = (11, 64, 8);
pub const XKCD_FUCHSIA: (u8, u8, u8) = (237, 13, 217);
pub const XKCD_CRIMSON: (u8, u8, u8) = (140, 0, 15);
pub const XKCD_PALE_YELLOW: (u8, u8, u8) = (255, 255, 132);
pub const XKCD_OCHRE: (u8, u8, u8) = (191, 144, 5);
pub const XKCD_MUSTARD_YELLOW: (u8, u8, u8) = (210, 189, 10);
pub const XKCD_LIGHT_RED: (u8, u8, u8) = (255, 71, 76);
pub const XKCD_CERULEAN: (u8, u8, u8) = (4, 133, 209);
pub const XKCD_PALE_PINK: (u8, u8, u8) = (255, 207, 220);
pub const XKCD_DEEP_BLUE: (u8, u8, u8) = (4, 2, 115);
pub const XKCD_RUST: (u8, u8, u8) = (168, 60, 9);
pub const XKCD_LIGHT_TEAL: (u8, u8, u8) = (144, 228, 193);
pub const XKCD_SLATE: (u8, u8, u8) = (81, 101, 114);
pub const XKCD_GOLDENROD: (u8, u8, u8) = (250, 194, 5);
pub const XKCD_DARK_YELLOW: (u8, u8, u8) = (213, 182, 10);
pub const XKCD_DARK_GREY: (u8, u8, u8) = (54, 55, 55);
pub const XKCD_ARMY_GREEN: (u8, u8, u8) = (75, 93, 22);
pub const XKCD_GREY_BLUE: (u8, u8, u8) = (107, 139, 164);
pub const XKCD_SEAFOAM: (u8, u8, u8) = (128, 249, 173);
pub const XKCD_PUCE: (u8, u8, u8) = (165, 126, 82);
pub const XKCD_SPRING_GREEN: (u8, u8, u8) = (169, 249, 113);
pub const XKCD_DARK_ORANGE: (u8, u8, u8) = (198, 81, 2);
pub const XKCD_SAND: (u8, u8, u8) = (226, 202, 118);
pub const XKCD_PASTEL_GREEN: (u8, u8, u8) = (176, 255, 157);
pub const XKCD_MINT: (u8, u8, u8) = (159, 254, 176);
pub const XKCD_LIGHT_ORANGE: (u8, u8, u8) = (253, 170, 72);
pub const XKCD_BRIGHT_PINK: (u8, u8, u8) = (254, 1, 177);
pub const XKCD_CHARTREUSE: (u8, u8, u8) = (193, 248, 10);
pub const XKCD_DEEP_PURPLE: (u8, u8, u8) = (54, 1, 63);
pub const XKCD_DARK_BROWN: (u8, u8, u8) = (52, 28, 2);
pub const XKCD_TAUPE: (u8, u8, u8) = (185, 162, 129);
pub const XKCD_PEA_GREEN: (u8, u8, u8) = (142, 171, 18);
pub const XKCD_PUKE_GREEN: (u8, u8, u8) = (154, 174, 7);
pub const XKCD_KELLY_GREEN: (u8, u8, u8) = (2, 171, 46);
pub const XKCD_SEAFOAM_GREEN: (u8, u8, u8) = (122, 249, 171);
pub const XKCD_BLUE_GREEN: (u8, u8, u8) = (19, 126, 109);
pub const XKCD_KHAKI: (u8, u8, u8) = (170, 166, 98);
pub const XKCD_BURGUNDY: (u8, u8, u8) = (97, 0, 35);
pub const XKCD_DARK_TEAL: (u8, u8, u8) = (1, 77, 78);
pub const XKCD_BRICK_RED: (u8, u8, u8) = (143, 20, 2);
pub const XKCD_ROYAL_PURPLE: (u8, u8, u8) = (75, 0, 110);
pub const XKCD_PLUM: (u8, u8, u8) = (88, 15, 65);
pub const XKCD_MINT_GREEN: (u8, u8, u8) = (143, 255, 159);
pub const XKCD_GOLD: (u8, u8, u8) = (219, 180, 12);
pub const XKCD_BABY_BLUE: (u8, u8, u8) = (162, 207, 254);
pub const XKCD_YELLOW_GREEN: (u8, u8, u8) = (192, 251, 45);
pub const XKCD_BRIGHT_PURPLE: (u8, u8, u8) = (190, 3, 253);
pub const XKCD_DARK_RED: (u8, u8, u8) = (132, 0, 0);
pub const XKCD_PALE_BLUE: (u8, u8, u8) = (208, 254, 254);
pub const XKCD_GRASS_GREEN: (u8, u8, u8) = (63, 155, 11);
pub const XKCD_NAVY: (u8, u8, u8) = (1, 21, 62);
pub const XKCD_AQUAMARINE: (u8, u8, u8) = (4, 216, 178);
pub const XKCD_BURNT_ORANGE: (u8, u8, u8) = (192, 78, 1);
pub const XKCD_NEON_GREEN: (u8, u8, u8) = (12, 255, 12);
pub const XKCD_BRIGHT_BLUE: (u8, u8, u8) = (1, 101, 252);
pub const XKCD_ROSE: (u8, u8, u8) = (207, 98, 117);
pub const XKCD_LIGHT_PINK: (u8, u8, u8) = (255, 209, 223);
pub const XKCD_MUSTARD: (u8, u8, u8) = (206, 179, 1);
pub const XKCD_INDIGO: (u8, u8, u8) = (56, 2, 130);
pub const XKCD_LIME: (u8, u8, u8) = (170, 255, 50);
pub const XKCD_SEA_GREEN: (u8, u8, u8) = (83, 252, 161);
pub const XKCD_PERIWINKLE: (u8, u8, u8) = (142, 130, 254);
pub const XKCD_DARK_PINK: (u8, u8, u8) = (203, 65, 107);
pub const XKCD_OLIVE_GREEN: (u8, u8, u8) = (103, 122, 4);
pub const XKCD_PEACH: (u8, u8, u8) = (255, 176, 124);
pub const XKCD_PALE_GREEN: (u8, u8, u8) = (199, 253, 181);
pub const XKCD_LIGHT_BROWN: (u8, u8, u8) = (173, 129, 80);
pub const XKCD_HOT_PINK: (u8, u8, u8) = (255, 2, 141);
pub const XKCD_BLACK: (u8, u8, u8) = (0, 0, 0);
pub const XKCD_LILAC: (u8, u8, u8) = (206, 162, 253);
pub const XKCD_NAVY_BLUE: (u8, u8, u8) = (0, 17, 70);
pub const XKCD_ROYAL_BLUE: (u8, u8, u8) = (5, 4, 170);
pub const XKCD_BEIGE: (u8, u8, u8) = (230, 218, 166);
pub const XKCD_SALMON: (u8, u8, u8) = (255, 121, 108);
pub const XKCD_OLIVE: (u8, u8, u8) = (110, 117, 14);
pub const XKCD_MAROON: (u8, u8, u8) = (101, 0, 33);
pub const XKCD_BRIGHT_GREEN: (u8, u8, u8) = (1, 255, 7);
pub const XKCD_DARK_PURPLE: (u8, u8, u8) = (53, 6, 62);
pub const XKCD_MAUVE: (u8, u8, u8) = (174, 113, 129);
pub const XKCD_FOREST_GREEN: (u8, u8, u8) = (6, 71, 12);
pub const XKCD_AQUA: (u8, u8, u8) = (19, 234, 201);
pub const XKCD_CYAN: (u8, u8, u8) = (0, 255, 255);
pub const XKCD_TAN: (u8, u8, u8) = (209, 178, 111);
pub const XKCD_DARK_BLUE: (u8, u8, u8) = (0, 3, 91);
pub const XKCD_LAVENDER: (u8, u8, u8) = (199, 159, 239);
pub const XKCD_TURQUOISE: (u8, u8, u8) = (6, 194, 172);
pub const XKCD_DARK_GREEN: (u8, u8, u8) = (3, 53, 0);
pub const XKCD_VIOLET: (u8, u8, u8) = (154, 14, 234);
pub const XKCD_LIGHT_PURPLE: (u8, u8, u8) = (191, 119, 246);
pub const XKCD_LIME_GREEN: (u8, u8, u8) = (137, 254, 5);
pub const XKCD_GREY: (u8, u8, u8) = (146, 149, 145);
pub const XKCD_SKY_BLUE: (u8, u8, u8) = (117, 187, 253);
pub const XKCD_YELLOW: (u8, u8, u8) = (255, 255, 20);
pub const XKCD_MAGENTA: (u8, u8, u8) = (194, 0, 120);
pub const XKCD_LIGHT_GREEN: (u8, u8, u8) = (150, 249, 123);
pub const XKCD_ORANGE: (u8, u8, u8) = (249, 115, 6);
pub const XKCD_TEAL: (u8, u8, u8) = (2, 147, 134);
pub const XKCD_LIGHT_BLUE: (u8, u8, u8) = (149, 208, 252);
pub const XKCD_RED: (u8, u8, u8) = (229, 0, 0);
pub const XKCD_BROWN: (u8, u8, u8) = (101, 55, 0);
pub const XKCD_PINK: (u8, u8, u8) = (255, 129, 192);
pub const XKCD_BLUE: (u8, u8, u8) = (3, 67, 223);
pub const XKCD_GREEN: (u8, u8, u8) = (21, 176, 26);
pub const XKCD_PURPLE: (u8, u8, u8) = (126, 30, 156);

} // verus!
