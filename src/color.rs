use vstd::prelude::*;
use vstd::string::StrSliceExecFns;

use crate::error::DecodeError;

verus! {

/// Number of colors in the palette; the numeric tags are `0 .. PALETTE_SIZE`.
pub const PALETTE_SIZE: u8 = 34;

/// The closed palette of pixel colors, in the fixed order of their numeric tags.
#[derive(Clone, Copy, Debug, PartialEq, Eq, Structural, Hash)]
pub enum Color {
    White,
    LightGrey,
    MediumGrey,
    DeepGrey,
    DarkGrey,
    Black,
    DarkChocolate,
    Chocolate,
    Brown,
    Peach,
    Beige,
    Pink,
    Magenta,
    Mauve,
    Purple,
    DarkPurple,
    Navy,
    Blue,
    Azure,
    Aqua,
    LightTeal,
    DarkTeal,
    Forest,
    DarkGreen,
    Green,
    Lime,
    PastelYellow,
    Yellow,
    Orange,
    Rust,
    Maroon,
    Rose,
    Red,
    WaterMelon,
}

impl Color {

    /// Numeric tag: the position of the color in the palette.
    pub open spec fn spec_tag(self) -> u8 {
        match self {
            Color::White => 0,
            Color::LightGrey => 1,
            Color::MediumGrey => 2,
            Color::DeepGrey => 3,
            Color::DarkGrey => 4,
            Color::Black => 5,
            Color::DarkChocolate => 6,
            Color::Chocolate => 7,
            Color::Brown => 8,
            Color::Peach => 9,
            Color::Beige => 10,
            Color::Pink => 11,
            Color::Magenta => 12,
            Color::Mauve => 13,
            Color::Purple => 14,
            Color::DarkPurple => 15,
            Color::Navy => 16,
            Color::Blue => 17,
            Color::Azure => 18,
            Color::Aqua => 19,
            Color::LightTeal => 20,
            Color::DarkTeal => 21,
            Color::Forest => 22,
            Color::DarkGreen => 23,
            Color::Green => 24,
            Color::Lime => 25,
            Color::PastelYellow => 26,
            Color::Yellow => 27,
            Color::Orange => 28,
            Color::Rust => 29,
            Color::Maroon => 30,
            Color::Rose => 31,
            Color::Red => 32,
            Color::WaterMelon => 33,
        }
    }

    /// Textual tag: the variant's name, as it is written on the wire.
    pub open spec fn spec_name(self) -> &'static str {
        match self {
            Color::White => "White",
            Color::LightGrey => "LightGrey",
            Color::MediumGrey => "MediumGrey",
            Color::DeepGrey => "DeepGrey",
            Color::DarkGrey => "DarkGrey",
            Color::Black => "Black",
            Color::DarkChocolate => "DarkChocolate",
            Color::Chocolate => "Chocolate",
            Color::Brown => "Brown",
            Color::Peach => "Peach",
            Color::Beige => "Beige",
            Color::Pink => "Pink",
            Color::Magenta => "Magenta",
            Color::Mauve => "Mauve",
            Color::Purple => "Purple",
            Color::DarkPurple => "DarkPurple",
            Color::Navy => "Navy",
            Color::Blue => "Blue",
            Color::Azure => "Azure",
            Color::Aqua => "Aqua",
            Color::LightTeal => "LightTeal",
            Color::DarkTeal => "DarkTeal",
            Color::Forest => "Forest",
            Color::DarkGreen => "DarkGreen",
            Color::Green => "Green",
            Color::Lime => "Lime",
            Color::PastelYellow => "PastelYellow",
            Color::Yellow => "Yellow",
            Color::Orange => "Orange",
            Color::Rust => "Rust",
            Color::Maroon => "Maroon",
            Color::Rose => "Rose",
            Color::Red => "Red",
            Color::WaterMelon => "WaterMelon",
        }
    }

    /// Human-readable label, lower case with hyphens.
    pub open spec fn spec_label(self) -> &'static str {
        match self {
            Color::White => "white",
            Color::LightGrey => "light-grey",
            Color::MediumGrey => "medium-grey",
            Color::DeepGrey => "deep-grey",
            Color::DarkGrey => "dark-grey",
            Color::Black => "black",
            Color::DarkChocolate => "dark-chocolate",
            Color::Chocolate => "chocolate",
            Color::Brown => "brown",
            Color::Peach => "peach",
            Color::Beige => "beige",
            Color::Pink => "pink",
            Color::Magenta => "magenta",
            Color::Mauve => "mauve",
            Color::Purple => "purple",
            Color::DarkPurple => "dark-purple",
            Color::Navy => "navy",
            Color::Blue => "blue",
            Color::Azure => "azure",
            Color::Aqua => "aqua",
            Color::LightTeal => "light-teal",
            Color::DarkTeal => "dark-teal",
            Color::Forest => "forest",
            Color::DarkGreen => "dark-green",
            Color::Green => "green",
            Color::Lime => "lime",
            Color::PastelYellow => "pastel-yellow",
            Color::Yellow => "yellow",
            Color::Orange => "orange",
            Color::Rust => "rust",
            Color::Maroon => "maroon",
            Color::Rose => "rose",
            Color::Red => "red",
            Color::WaterMelon => "watermelon",
        }
    }

    /// Encodes the color as its numeric tag.
    pub fn tag(&self) -> (r: u8)
        ensures
            r == self.spec_tag(),
    {
        match self {
            Color::White => 0,
            Color::LightGrey => 1,
            Color::MediumGrey => 2,
            Color::DeepGrey => 3,
            Color::DarkGrey => 4,
            Color::Black => 5,
            Color::DarkChocolate => 6,
            Color::Chocolate => 7,
            Color::Brown => 8,
            Color::Peach => 9,
            Color::Beige => 10,
            Color::Pink => 11,
            Color::Magenta => 12,
            Color::Mauve => 13,
            Color::Purple => 14,
            Color::DarkPurple => 15,
            Color::Navy => 16,
            Color::Blue => 17,
            Color::Azure => 18,
            Color::Aqua => 19,
            Color::LightTeal => 20,
            Color::DarkTeal => 21,
            Color::Forest => 22,
            Color::DarkGreen => 23,
            Color::Green => 24,
            Color::Lime => 25,
            Color::PastelYellow => 26,
            Color::Yellow => 27,
            Color::Orange => 28,
            Color::Rust => 29,
            Color::Maroon => 30,
            Color::Rose => 31,
            Color::Red => 32,
            Color::WaterMelon => 33,
        }
    }

    /// Encodes the color as its textual tag.
    pub fn name(&self) -> (r: &'static str)
        ensures
            r == self.spec_name(),
    {
        match self {
            Color::White => "White",
            Color::LightGrey => "LightGrey",
            Color::MediumGrey => "MediumGrey",
            Color::DeepGrey => "DeepGrey",
            Color::DarkGrey => "DarkGrey",
            Color::Black => "Black",
            Color::DarkChocolate => "DarkChocolate",
            Color::Chocolate => "Chocolate",
            Color::Brown => "Brown",
            Color::Peach => "Peach",
            Color::Beige => "Beige",
            Color::Pink => "Pink",
            Color::Magenta => "Magenta",
            Color::Mauve => "Mauve",
            Color::Purple => "Purple",
            Color::DarkPurple => "DarkPurple",
            Color::Navy => "Navy",
            Color::Blue => "Blue",
            Color::Azure => "Azure",
            Color::Aqua => "Aqua",
            Color::LightTeal => "LightTeal",
            Color::DarkTeal => "DarkTeal",
            Color::Forest => "Forest",
            Color::DarkGreen => "DarkGreen",
            Color::Green => "Green",
            Color::Lime => "Lime",
            Color::PastelYellow => "PastelYellow",
            Color::Yellow => "Yellow",
            Color::Orange => "Orange",
            Color::Rust => "Rust",
            Color::Maroon => "Maroon",
            Color::Rose => "Rose",
            Color::Red => "Red",
            Color::WaterMelon => "WaterMelon",
        }
    }

    /// The human-readable label of the color.
    pub fn label(&self) -> (r: &'static str)
        ensures
            r == self.spec_label(),
    {
        match self {
            Color::White => "white",
            Color::LightGrey => "light-grey",
            Color::MediumGrey => "medium-grey",
            Color::DeepGrey => "deep-grey",
            Color::DarkGrey => "dark-grey",
            Color::Black => "black",
            Color::DarkChocolate => "dark-chocolate",
            Color::Chocolate => "chocolate",
            Color::Brown => "brown",
            Color::Peach => "peach",
            Color::Beige => "beige",
            Color::Pink => "pink",
            Color::Magenta => "magenta",
            Color::Mauve => "mauve",
            Color::Purple => "purple",
            Color::DarkPurple => "dark-purple",
            Color::Navy => "navy",
            Color::Blue => "blue",
            Color::Azure => "azure",
            Color::Aqua => "aqua",
            Color::LightTeal => "light-teal",
            Color::DarkTeal => "dark-teal",
            Color::Forest => "forest",
            Color::DarkGreen => "dark-green",
            Color::Green => "green",
            Color::Lime => "lime",
            Color::PastelYellow => "pastel-yellow",
            Color::Yellow => "yellow",
            Color::Orange => "orange",
            Color::Rust => "rust",
            Color::Maroon => "maroon",
            Color::Rose => "rose",
            Color::Red => "red",
            Color::WaterMelon => "watermelon",
        }
    }

    /// Decodes a numeric tag; a tag outside the palette is rejected.
    pub fn from_tag(t: u8) -> (r: Result<Color, DecodeError>)
        ensures
            r == decoded(color_of_tag(t)),
    {
        let r = match t {
            0 => Ok(Color::White),
            1 => Ok(Color::LightGrey),
            2 => Ok(Color::MediumGrey),
            3 => Ok(Color::DeepGrey),
            4 => Ok(Color::DarkGrey),
            5 => Ok(Color::Black),
            6 => Ok(Color::DarkChocolate),
            7 => Ok(Color::Chocolate),
            8 => Ok(Color::Brown),
            9 => Ok(Color::Peach),
            10 => Ok(Color::Beige),
            11 => Ok(Color::Pink),
            12 => Ok(Color::Magenta),
            13 => Ok(Color::Mauve),
            14 => Ok(Color::Purple),
            15 => Ok(Color::DarkPurple),
            16 => Ok(Color::Navy),
            17 => Ok(Color::Blue),
            18 => Ok(Color::Azure),
            19 => Ok(Color::Aqua),
            20 => Ok(Color::LightTeal),
            21 => Ok(Color::DarkTeal),
            22 => Ok(Color::Forest),
            23 => Ok(Color::DarkGreen),
            24 => Ok(Color::Green),
            25 => Ok(Color::Lime),
            26 => Ok(Color::PastelYellow),
            27 => Ok(Color::Yellow),
            28 => Ok(Color::Orange),
            29 => Ok(Color::Rust),
            30 => Ok(Color::Maroon),
            31 => Ok(Color::Rose),
            32 => Ok(Color::Red),
            33 => Ok(Color::WaterMelon),
            _ => Err(DecodeError::UnknownColor),
        };
        proof {
            match r {
                Ok(c) => lemma_tag_round_trip(c),
                Err(_) => lemma_tag_round_trip(Color::White),
            }
        }
        r
    }

}
/// Whether two strings hold the same characters.
fn same_text(a: &str, b: &str) -> (r: bool)
    ensures
        r == (a@ == b@),
{
    let n = a.unicode_len();
    if n != b.unicode_len() {
        return false;
    }
    let mut i: usize = 0;
    while i < n
        invariant
            n == a@.len(),
            n == b@.len(),
            i <= n,
            forall|j: int| 0 <= j < i ==> a@[j] == b@[j],
        decreases n - i,
    {
        if a.get_char(i) != b.get_char(i) {
            return false;
        }
        i = i + 1;
    }
    assert(a@ =~= b@);
    true
}

impl Color {
    /// Decodes a textual tag; a text that names no color of the palette is rejected.
    pub fn from_name(s: &str) -> (r: Result<Color, DecodeError>)
        ensures
            r == decoded(color_named(s@)),
    {
        let mut t: u8 = 0;
        while t < PALETTE_SIZE
            invariant
                t <= PALETTE_SIZE,
                forall|c: Color| c.spec_tag() < t ==> c.spec_name()@ != s@,
            decreases PALETTE_SIZE - t,
        {
            match Color::from_tag(t) {
                Ok(c) => {
                    if same_text(c.name(), s) {
                        proof {
                            lemma_name_round_trip(c);
                        }
                        return Ok(c);
                    }
                    proof {
                        lemma_tag_round_trip(c);
                    }
                },
                Err(_) => {},
            }
            t = t + 1;
        }
        proof {
            assert forall|c: Color| c.spec_name()@ != s@ by {
                lemma_tag_in_palette(c);
            }
        }
        assert(color_named(s@) is None);
        Err(DecodeError::UnknownColor)
    }
}

impl Default for Color {
    /// White is the color of a fresh cell.
    fn default() -> (r: Color)
        ensures
            r == Color::White,
    {
        Color::White
    }
}

/// Every color's numeric tag lies in the palette.
pub proof fn lemma_tag_in_palette(c: Color)
    ensures
        c.spec_tag() < PALETTE_SIZE,
{
}

/// The color with a given numeric tag, if any.
pub open spec fn color_of_tag(t: u8) -> Option<Color> {
    if exists|c: Color| c.spec_tag() == t {
        Some(choose|c: Color| c.spec_tag() == t)
    } else {
        None
    }
}

/// The color with a given textual tag, if any.
pub open spec fn color_named(s: Seq<char>) -> Option<Color> {
    if exists|c: Color| c.spec_name()@ == s {
        Some(choose|c: Color| c.spec_name()@ == s)
    } else {
        None
    }
}

/// The outcome of decoding a tag that denotes `c`, if any.
pub open spec fn decoded(c: Option<Color>) -> Result<Color, DecodeError> {
    match c {
        Some(c) => Ok(c),
        None => Err(DecodeError::UnknownColor),
    }
}

/// A numeric tag names exactly one color.
pub proof fn lemma_tag_injective(c: Color)
    ensures
        forall|d: Color| #[trigger] d.spec_tag() == c.spec_tag() ==> d == c,
{
}

/// Decoding the numeric tag of a color gives that color back, and a tag at or
/// beyond the palette size denotes no color.
pub proof fn lemma_tag_round_trip(c: Color)
    ensures
        color_of_tag(c.spec_tag()) == Some(c),
        forall|t: u8| t >= PALETTE_SIZE ==> #[trigger] color_of_tag(t) is None,
{
    lemma_tag_injective(c);
    assert forall|t: u8| t >= PALETTE_SIZE implies #[trigger] color_of_tag(t) is None by {
        assert forall|d: Color| d.spec_tag() != t by {
            lemma_tag_in_palette(d);
        }
    }
}

/// Length, first two and last character of a text: enough to tell the textual tags apart.
spec fn text_key(s: Seq<char>) -> (int, char, char, char) {
    (s.len() as int, s[0], s[1], s[s.len() - 1])
}

spec fn name_key(c: Color) -> (int, char, char, char) {
    match c {
        Color::White => (5, 'W', 'h', 'e'),
        Color::LightGrey => (9, 'L', 'i', 'y'),
        Color::MediumGrey => (10, 'M', 'e', 'y'),
        Color::DeepGrey => (8, 'D', 'e', 'y'),
        Color::DarkGrey => (8, 'D', 'a', 'y'),
        Color::Black => (5, 'B', 'l', 'k'),
        Color::DarkChocolate => (13, 'D', 'a', 'e'),
        Color::Chocolate => (9, 'C', 'h', 'e'),
        Color::Brown => (5, 'B', 'r', 'n'),
        Color::Peach => (5, 'P', 'e', 'h'),
        Color::Beige => (5, 'B', 'e', 'e'),
        Color::Pink => (4, 'P', 'i', 'k'),
        Color::Magenta => (7, 'M', 'a', 'a'),
        Color::Mauve => (5, 'M', 'a', 'e'),
        Color::Purple => (6, 'P', 'u', 'e'),
        Color::DarkPurple => (10, 'D', 'a', 'e'),
        Color::Navy => (4, 'N', 'a', 'y'),
        Color::Blue => (4, 'B', 'l', 'e'),
        Color::Azure => (5, 'A', 'z', 'e'),
        Color::Aqua => (4, 'A', 'q', 'a'),
        Color::LightTeal => (9, 'L', 'i', 'l'),
        Color::DarkTeal => (8, 'D', 'a', 'l'),
        Color::Forest => (6, 'F', 'o', 't'),
        Color::DarkGreen => (9, 'D', 'a', 'n'),
        Color::Green => (5, 'G', 'r', 'n'),
        Color::Lime => (4, 'L', 'i', 'e'),
        Color::PastelYellow => (12, 'P', 'a', 'w'),
        Color::Yellow => (6, 'Y', 'e', 'w'),
        Color::Orange => (6, 'O', 'r', 'e'),
        Color::Rust => (4, 'R', 'u', 't'),
        Color::Maroon => (6, 'M', 'a', 'n'),
        Color::Rose => (4, 'R', 'o', 'e'),
        Color::Red => (3, 'R', 'e', 'd'),
        Color::WaterMelon => (10, 'W', 'a', 'n'),
    }
}

proof fn lemma_name_key(c: Color)
    ensures
        text_key(c.spec_name()@) == name_key(c),
{
    match c {
        Color::White => {
            reveal_strlit("White");
        },
        Color::LightGrey => {
            reveal_strlit("LightGrey");
        },
        Color::MediumGrey => {
            reveal_strlit("MediumGrey");
        },
        Color::DeepGrey => {
            reveal_strlit("DeepGrey");
        },
        Color::DarkGrey => {
            reveal_strlit("DarkGrey");
        },
        Color::Black => {
            reveal_strlit("Black");
        },
        Color::DarkChocolate => {
            reveal_strlit("DarkChocolate");
        },
        Color::Chocolate => {
            reveal_strlit("Chocolate");
        },
        Color::Brown => {
            reveal_strlit("Brown");
        },
        Color::Peach => {
            reveal_strlit("Peach");
        },
        Color::Beige => {
            reveal_strlit("Beige");
        },
        Color::Pink => {
            reveal_strlit("Pink");
        },
        Color::Magenta => {
            reveal_strlit("Magenta");
        },
        Color::Mauve => {
            reveal_strlit("Mauve");
        },
        Color::Purple => {
            reveal_strlit("Purple");
        },
        Color::DarkPurple => {
            reveal_strlit("DarkPurple");
        },
        Color::Navy => {
            reveal_strlit("Navy");
        },
        Color::Blue => {
            reveal_strlit("Blue");
        },
        Color::Azure => {
            reveal_strlit("Azure");
        },
        Color::Aqua => {
            reveal_strlit("Aqua");
        },
        Color::LightTeal => {
            reveal_strlit("LightTeal");
        },
        Color::DarkTeal => {
            reveal_strlit("DarkTeal");
        },
        Color::Forest => {
            reveal_strlit("Forest");
        },
        Color::DarkGreen => {
            reveal_strlit("DarkGreen");
        },
        Color::Green => {
            reveal_strlit("Green");
        },
        Color::Lime => {
            reveal_strlit("Lime");
        },
        Color::PastelYellow => {
            reveal_strlit("PastelYellow");
        },
        Color::Yellow => {
            reveal_strlit("Yellow");
        },
        Color::Orange => {
            reveal_strlit("Orange");
        },
        Color::Rust => {
            reveal_strlit("Rust");
        },
        Color::Maroon => {
            reveal_strlit("Maroon");
        },
        Color::Rose => {
            reveal_strlit("Rose");
        },
        Color::Red => {
            reveal_strlit("Red");
        },
        Color::WaterMelon => {
            reveal_strlit("WaterMelon");
        },
    }
}

/// A textual tag names exactly one color.
pub proof fn lemma_name_injective(c: Color)
    ensures
        forall|d: Color| #[trigger] d.spec_name()@ == c.spec_name()@ ==> d == c,
{
    assert forall|d: Color| #[trigger] d.spec_name()@ == c.spec_name()@ implies d == c by {
        lemma_name_key(c);
        lemma_name_key(d);
    }
}

/// Decoding the textual tag of a color gives that color back.
pub proof fn lemma_name_round_trip(c: Color)
    ensures
        color_named(c.spec_name()@) == Some(c),
{
    lemma_name_injective(c);
}

} // verus!
