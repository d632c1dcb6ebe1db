//! Character to segment-mask encoding for a fourteen-segment display cell.
//!
//! Every glyph is one variant of a per-class table. Its mask has one bit per
//! segment (fourteen segments and the decimal point), so it always fits in
//! fifteen bits.
use vstd::prelude::*;

verus! {

/// Why a character cannot be shown.
#[derive(Debug, Clone, Copy, PartialEq, Eq, Structural)]
pub enum GlyphError {
    /// The character is in none of the glyph tables.
    Unsupported(char),
}

/// Whether `c` is one of the symbols of the display.
pub open spec fn is_symbol_char(c: char) -> bool {
    exists|s: Symbols| s.spec_char() == c
}

/// Whether some glyph renders `c`.
pub open spec fn supported(c: char) -> bool {
    exists|g: Glyph| g.spec_char() == c
}

/// The glyph that renders a supported character.
pub open spec fn glyph_of(c: char) -> Glyph
    recommends
        supported(c),
{
    choose|g: Glyph| g.spec_char() == c
}

/// The segment mask that renders a supported character.
pub open spec fn mask_of(c: char) -> u16
    recommends
        supported(c),
{
    glyph_of(c).spec_mask()
}

/// Punctuation marks and other symbols that the display can show. `Space`
/// lights no segment.
#[derive(Debug, Clone, Copy, PartialEq, Eq, Structural)]
pub enum Symbols {
    Exclamation,
    DoubleQuotes,
    Hash,
    Dollar,
    Percent,
    Ampersand,
    Quote,
    LeftParen,
    RightParen,
    Asterisk,
    Plus,
    Comma,
    Dash,
    Dot,
    Slash,
    Semicolon,
    Less,
    Equals,
    Greater,
    Question,
    At,
    LeftBracket,
    Backslash,
    RightBracket,
    Caret,
    Underscore,
    Apostrophe,
    LeftBrace,
    Pipe,
    RightBrace,
    Tilde,
    Space,
}

impl Symbols {
    /// The character that this glyph renders.
    pub open spec fn spec_char(self) -> char {
        match self {
            Symbols::Exclamation => '!',
            Symbols::DoubleQuotes => '"',
            Symbols::Hash => '#',
            Symbols::Dollar => '$',
            Symbols::Percent => '%',
            Symbols::Ampersand => '&',
            Symbols::Quote => '\'',
            Symbols::LeftParen => '(',
            Symbols::RightParen => ')',
            Symbols::Asterisk => '*',
            Symbols::Plus => '+',
            Symbols::Comma => ',',
            Symbols::Dash => '-',
            Symbols::Dot => '.',
            Symbols::Slash => '/',
            Symbols::Semicolon => ';',
            Symbols::Less => '<',
            Symbols::Equals => '=',
            Symbols::Greater => '>',
            Symbols::Question => '?',
            Symbols::At => '@',
            Symbols::LeftBracket => '[',
            Symbols::Backslash => '\\',
            Symbols::RightBracket => ']',
            Symbols::Caret => '^',
            Symbols::Underscore => '_',
            Symbols::Apostrophe => '`',
            Symbols::LeftBrace => '{',
            Symbols::Pipe => '|',
            Symbols::RightBrace => '}',
            Symbols::Tilde => '~',
            Symbols::Space => ' ',
        }
    }

    /// The segment mask that lights this glyph.
    pub open spec fn spec_mask(self) -> u16 {
        match self {
            Symbols::Exclamation => 0b100000000000110,
            Symbols::DoubleQuotes => 0b000001000000010,
            Symbols::Hash => 0b001001011001110,
            Symbols::Dollar => 0b001001011101101,
            Symbols::Percent => 0b011111111100100,
            Symbols::Ampersand => 0b010001101011001,
            Symbols::Quote => 0b000001000000000,
            Symbols::LeftParen => 0b010010000000000,
            Symbols::RightParen => 0b000100100000000,
            Symbols::Asterisk => 0b011111111000000,
            Symbols::Plus => 0b001001011000000,
            Symbols::Comma => 0b000100000000000,
            Symbols::Dash => 0b000000011000000,
            Symbols::Dot => 0b100000000000000,
            Symbols::Slash => 0b000110000000000,
            Symbols::Semicolon => 0b000101000000000,
            Symbols::Less => 0b010010001000000,
            Symbols::Equals => 0b000000011001000,
            Symbols::Greater => 0b000100110000000,
            Symbols::Question => 0b101000010000011,
            Symbols::At => 0b000001010111011,
            Symbols::LeftBracket => 0b000000000111001,
            Symbols::Backslash => 0b010000100000000,
            Symbols::RightBracket => 0b000000000001111,
            Symbols::Caret => 0b010100000000000,
            Symbols::Underscore => 0b000000000001000,
            Symbols::Apostrophe => 0b000000100000000,
            Symbols::LeftBrace => 0b000100101001001,
            Symbols::Pipe => 0b001001000000000,
            Symbols::RightBrace => 0b010010010001001,
            Symbols::Tilde => 0b000110011000000,
            Symbols::Space => 0b000000000000000,
        }
    }

    /// Segment mask of this glyph.
    pub fn mask(self) -> (res: u16)
        ensures
            res == self.spec_mask(),
    {
        match self {
            Symbols::Exclamation => 0b100000000000110,
            Symbols::DoubleQuotes => 0b000001000000010,
            Symbols::Hash => 0b001001011001110,
            Symbols::Dollar => 0b001001011101101,
            Symbols::Percent => 0b011111111100100,
            Symbols::Ampersand => 0b010001101011001,
            Symbols::Quote => 0b000001000000000,
            Symbols::LeftParen => 0b010010000000000,
            Symbols::RightParen => 0b000100100000000,
            Symbols::Asterisk => 0b011111111000000,
            Symbols::Plus => 0b001001011000000,
            Symbols::Comma => 0b000100000000000,
            Symbols::Dash => 0b000000011000000,
            Symbols::Dot => 0b100000000000000,
            Symbols::Slash => 0b000110000000000,
            Symbols::Semicolon => 0b000101000000000,
            Symbols::Less => 0b010010001000000,
            Symbols::Equals => 0b000000011001000,
            Symbols::Greater => 0b000100110000000,
            Symbols::Question => 0b101000010000011,
            Symbols::At => 0b000001010111011,
            Symbols::LeftBracket => 0b000000000111001,
            Symbols::Backslash => 0b010000100000000,
            Symbols::RightBracket => 0b000000000001111,
            Symbols::Caret => 0b010100000000000,
            Symbols::Underscore => 0b000000000001000,
            Symbols::Apostrophe => 0b000000100000000,
            Symbols::LeftBrace => 0b000100101001001,
            Symbols::Pipe => 0b001001000000000,
            Symbols::RightBrace => 0b010010010001001,
            Symbols::Tilde => 0b000110011000000,
            Symbols::Space => 0b000000000000000,
        }
    }

    /// Looks up the symbol that renders `c`.
    pub fn try_from(c: char) -> (res: Result<Symbols, GlyphError>)
        ensures
            res is Ok <==> is_symbol_char(c),
            res matches Ok(sym) ==> sym.spec_char() == c,
            res matches Err(e) ==> e == GlyphError::Unsupported(c),
    {
        let res = match c {
            '!' => Ok(Symbols::Exclamation),
            '"' => Ok(Symbols::DoubleQuotes),
            '#' => Ok(Symbols::Hash),
            '$' => Ok(Symbols::Dollar),
            '%' => Ok(Symbols::Percent),
            '&' => Ok(Symbols::Ampersand),
            '\'' => Ok(Symbols::Quote),
            '(' => Ok(Symbols::LeftParen),
            ')' => Ok(Symbols::RightParen),
            '*' => Ok(Symbols::Asterisk),
            '+' => Ok(Symbols::Plus),
            ',' => Ok(Symbols::Comma),
            '-' => Ok(Symbols::Dash),
            '.' => Ok(Symbols::Dot),
            '/' => Ok(Symbols::Slash),
            ';' => Ok(Symbols::Semicolon),
            '<' => Ok(Symbols::Less),
            '=' => Ok(Symbols::Equals),
            '>' => Ok(Symbols::Greater),
            '?' => Ok(Symbols::Question),
            '@' => Ok(Symbols::At),
            '[' => Ok(Symbols::LeftBracket),
            '\\' => Ok(Symbols::Backslash),
            ']' => Ok(Symbols::RightBracket),
            '^' => Ok(Symbols::Caret),
            '_' => Ok(Symbols::Underscore),
            '`' => Ok(Symbols::Apostrophe),
            '{' => Ok(Symbols::LeftBrace),
            '|' => Ok(Symbols::Pipe),
            '}' => Ok(Symbols::RightBrace),
            '~' => Ok(Symbols::Tilde),
            ' ' => Ok(Symbols::Space),
            _ => Err(GlyphError::Unsupported(c)),
        };
        proof {
            if let Ok(sym) = res {
                assert(sym.spec_char() == c);
            }
        }
        res
    }
}

/// The upper-case letters `A` to `Z`.
#[derive(Debug, Clone, Copy, PartialEq, Eq, Structural)]
pub enum Capitals {
    A,
    B,
    C,
    D,
    E,
    F,
    G,
    H,
    I,
    J,
    K,
    L,
    M,
    N,
    O,
    P,
    Q,
    R,
    S,
    T,
    U,
    V,
    W,
    X,
    Y,
    Z,
}

impl Capitals {
    /// The character that this glyph renders.
    pub open spec fn spec_char(self) -> char {
        match self {
            Capitals::A => 'A',
            Capitals::B => 'B',
            Capitals::C => 'C',
            Capitals::D => 'D',
            Capitals::E => 'E',
            Capitals::F => 'F',
            Capitals::G => 'G',
            Capitals::H => 'H',
            Capitals::I => 'I',
            Capitals::J => 'J',
            Capitals::K => 'K',
            Capitals::L => 'L',
            Capitals::M => 'M',
            Capitals::N => 'N',
            Capitals::O => 'O',
            Capitals::P => 'P',
            Capitals::Q => 'Q',
            Capitals::R => 'R',
            Capitals::S => 'S',
            Capitals::T => 'T',
            Capitals::U => 'U',
            Capitals::V => 'V',
            Capitals::W => 'W',
            Capitals::X => 'X',
            Capitals::Y => 'Y',
            Capitals::Z => 'Z',
        }
    }

    /// The segment mask that lights this glyph.
    pub open spec fn spec_mask(self) -> u16 {
        match self {
            Capitals::A => 0b000000011110111,
            Capitals::B => 0b001001010001111,
            Capitals::C => 0b000000000111001,
            Capitals::D => 0b001001000001111,
            Capitals::E => 0b000000001111001,
            Capitals::F => 0b000000001110001,
            Capitals::G => 0b000000010111101,
            Capitals::H => 0b000000011110110,
            Capitals::I => 0b001001000001001,
            Capitals::J => 0b000000000011110,
            Capitals::K => 0b010010001110000,
            Capitals::L => 0b000000000111000,
            Capitals::M => 0b000010100110110,
            Capitals::N => 0b010000100110110,
            Capitals::O => 0b000000000111111,
            Capitals::P => 0b000000011110011,
            Capitals::Q => 0b010000000111111,
            Capitals::R => 0b010000011110011,
            Capitals::S => 0b000000011101101,
            Capitals::T => 0b001001000000001,
            Capitals::U => 0b000000000111110,
            Capitals::V => 0b000110000110000,
            Capitals::W => 0b010100000110110,
            Capitals::X => 0b010110100000000,
            Capitals::Y => 0b000000011101110,
            Capitals::Z => 0b000110000001001,
        }
    }

    /// Segment mask of this glyph.
    pub fn mask(self) -> (res: u16)
        ensures
            res == self.spec_mask(),
    {
        match self {
            Capitals::A => 0b000000011110111,
            Capitals::B => 0b001001010001111,
            Capitals::C => 0b000000000111001,
            Capitals::D => 0b001001000001111,
            Capitals::E => 0b000000001111001,
            Capitals::F => 0b000000001110001,
            Capitals::G => 0b000000010111101,
            Capitals::H => 0b000000011110110,
            Capitals::I => 0b001001000001001,
            Capitals::J => 0b000000000011110,
            Capitals::K => 0b010010001110000,
            Capitals::L => 0b000000000111000,
            Capitals::M => 0b000010100110110,
            Capitals::N => 0b010000100110110,
            Capitals::O => 0b000000000111111,
            Capitals::P => 0b000000011110011,
            Capitals::Q => 0b010000000111111,
            Capitals::R => 0b010000011110011,
            Capitals::S => 0b000000011101101,
            Capitals::T => 0b001001000000001,
            Capitals::U => 0b000000000111110,
            Capitals::V => 0b000110000110000,
            Capitals::W => 0b010100000110110,
            Capitals::X => 0b010110100000000,
            Capitals::Y => 0b000000011101110,
            Capitals::Z => 0b000110000001001,
        }
    }

    /// The glyph of `c`, which must lie in A..=Z.
    pub fn from(c: char) -> (res: Capitals)
        requires
            'A' <= c <= 'Z',
        ensures
            res.spec_char() == c,
    {
        match c {
            'A' => Capitals::A,
            'B' => Capitals::B,
            'C' => Capitals::C,
            'D' => Capitals::D,
            'E' => Capitals::E,
            'F' => Capitals::F,
            'G' => Capitals::G,
            'H' => Capitals::H,
            'I' => Capitals::I,
            'J' => Capitals::J,
            'K' => Capitals::K,
            'L' => Capitals::L,
            'M' => Capitals::M,
            'N' => Capitals::N,
            'O' => Capitals::O,
            'P' => Capitals::P,
            'Q' => Capitals::Q,
            'R' => Capitals::R,
            'S' => Capitals::S,
            'T' => Capitals::T,
            'U' => Capitals::U,
            'V' => Capitals::V,
            'W' => Capitals::W,
            'X' => Capitals::X,
            'Y' => Capitals::Y,
            'Z' => Capitals::Z,
            _ => {
                assert(false);
                Capitals::A
            },
        }
    }
}

/// The lower-case letters `a` to `z`.
#[allow(non_camel_case_types)]
#[derive(Debug, Clone, Copy, PartialEq, Eq, Structural)]
pub enum Lowercase {
    a,
    b,
    c,
    d,
    e,
    f,
    g,
    h,
    i,
    j,
    k,
    l,
    m,
    n,
    o,
    p,
    q,
    r,
    s,
    t,
    u,
    v,
    w,
    x,
    y,
    z,
}

impl Lowercase {
    /// The character that this glyph renders.
    pub open spec fn spec_char(self) -> char {
        match self {
            Lowercase::a => 'a',
            Lowercase::b => 'b',
            Lowercase::c => 'c',
            Lowercase::d => 'd',
            Lowercase::e => 'e',
            Lowercase::f => 'f',
            Lowercase::g => 'g',
            Lowercase::h => 'h',
            Lowercase::i => 'i',
            Lowercase::j => 'j',
            Lowercase::k => 'k',
            Lowercase::l => 'l',
            Lowercase::m => 'm',
            Lowercase::n => 'n',
            Lowercase::o => 'o',
            Lowercase::p => 'p',
            Lowercase::q => 'q',
            Lowercase::r => 'r',
            Lowercase::s => 's',
            Lowercase::t => 't',
            Lowercase::u => 'u',
            Lowercase::v => 'v',
            Lowercase::w => 'w',
            Lowercase::x => 'x',
            Lowercase::y => 'y',
            Lowercase::z => 'z',
        }
    }

    /// The segment mask that lights this glyph.
    pub open spec fn spec_mask(self) -> u16 {
        match self {
            Lowercase::a => 0b001000001011000,
            Lowercase::b => 0b010000001111000,
            Lowercase::c => 0b000000011011000,
            Lowercase::d => 0b000100010001110,
            Lowercase::e => 0b000100001011000,
            Lowercase::f => 0b001010011000000,
            Lowercase::g => 0b000010010001110,
            Lowercase::h => 0b001000001110000,
            Lowercase::i => 0b001000000000000,
            Lowercase::j => 0b000101000010000,
            Lowercase::k => 0b011011000000000,
            Lowercase::l => 0b000000000110000,
            Lowercase::m => 0b001000011010100,
            Lowercase::n => 0b001000001010000,
            Lowercase::o => 0b000000011011100,
            Lowercase::p => 0b000000101110000,
            Lowercase::q => 0b000010010000110,
            Lowercase::r => 0b000000001010000,
            Lowercase::s => 0b010000010001000,
            Lowercase::t => 0b000000001111000,
            Lowercase::u => 0b000000000011100,
            Lowercase::v => 0b000100000010000,
            Lowercase::w => 0b010100000010100,
            Lowercase::x => 0b010110100000000,
            Lowercase::y => 0b000001010001110,
            Lowercase::z => 0b000100001001000,
        }
    }

    /// Segment mask of this glyph.
    pub fn mask(self) -> (res: u16)
        ensures
            res == self.spec_mask(),
    {
        match self {
            Lowercase::a => 0b001000001011000,
            Lowercase::b => 0b010000001111000,
            Lowercase::c => 0b000000011011000,
            Lowercase::d => 0b000100010001110,
            Lowercase::e => 0b000100001011000,
            Lowercase::f => 0b001010011000000,
            Lowercase::g => 0b000010010001110,
            Lowercase::h => 0b001000001110000,
            Lowercase::i => 0b001000000000000,
            Lowercase::j => 0b000101000010000,
            Lowercase::k => 0b011011000000000,
            Lowercase::l => 0b000000000110000,
            Lowercase::m => 0b001000011010100,
            Lowercase::n => 0b001000001010000,
            Lowercase::o => 0b000000011011100,
            Lowercase::p => 0b000000101110000,
            Lowercase::q => 0b000010010000110,
            Lowercase::r => 0b000000001010000,
            Lowercase::s => 0b010000010001000,
            Lowercase::t => 0b000000001111000,
            Lowercase::u => 0b000000000011100,
            Lowercase::v => 0b000100000010000,
            Lowercase::w => 0b010100000010100,
            Lowercase::x => 0b010110100000000,
            Lowercase::y => 0b000001010001110,
            Lowercase::z => 0b000100001001000,
        }
    }

    /// The glyph of `c`, which must lie in a..=z.
    pub fn from(c: char) -> (res: Lowercase)
        requires
            'a' <= c <= 'z',
        ensures
            res.spec_char() == c,
    {
        match c {
            'a' => Lowercase::a,
            'b' => Lowercase::b,
            'c' => Lowercase::c,
            'd' => Lowercase::d,
            'e' => Lowercase::e,
            'f' => Lowercase::f,
            'g' => Lowercase::g,
            'h' => Lowercase::h,
            'i' => Lowercase::i,
            'j' => Lowercase::j,
            'k' => Lowercase::k,
            'l' => Lowercase::l,
            'm' => Lowercase::m,
            'n' => Lowercase::n,
            'o' => Lowercase::o,
            'p' => Lowercase::p,
            'q' => Lowercase::q,
            'r' => Lowercase::r,
            's' => Lowercase::s,
            't' => Lowercase::t,
            'u' => Lowercase::u,
            'v' => Lowercase::v,
            'w' => Lowercase::w,
            'x' => Lowercase::x,
            'y' => Lowercase::y,
            'z' => Lowercase::z,
            _ => {
                assert(false);
                Lowercase::a
            },
        }
    }
}

/// The decimal digits `0` to `9`.
#[derive(Debug, Clone, Copy, PartialEq, Eq, Structural)]
pub enum Digits {
    D0,
    D1,
    D2,
    D3,
    D4,
    D5,
    D6,
    D7,
    D8,
    D9,
}

impl Digits {
    /// The character that this glyph renders.
    pub open spec fn spec_char(self) -> char {
        match self {
            Digits::D0 => '0',
            Digits::D1 => '1',
            Digits::D2 => '2',
            Digits::D3 => '3',
            Digits::D4 => '4',
            Digits::D5 => '5',
            Digits::D6 => '6',
            Digits::D7 => '7',
            Digits::D8 => '8',
            Digits::D9 => '9',
        }
    }

    /// The segment mask that lights this glyph.
    pub open spec fn spec_mask(self) -> u16 {
        match self {
            Digits::D0 => 0b000110000111111,
            Digits::D1 => 0b000010000000110,
            Digits::D2 => 0b000000011011011,
            Digits::D3 => 0b000000010001111,
            Digits::D4 => 0b000000011100110,
            Digits::D5 => 0b010000001101001,
            Digits::D6 => 0b000000011111101,
            Digits::D7 => 0b000000000000111,
            Digits::D8 => 0b000000011111111,
            Digits::D9 => 0b000000011101111,
        }
    }

    /// Segment mask of this glyph.
    pub fn mask(self) -> (res: u16)
        ensures
            res == self.spec_mask(),
    {
        match self {
            Digits::D0 => 0b000110000111111,
            Digits::D1 => 0b000010000000110,
            Digits::D2 => 0b000000011011011,
            Digits::D3 => 0b000000010001111,
            Digits::D4 => 0b000000011100110,
            Digits::D5 => 0b010000001101001,
            Digits::D6 => 0b000000011111101,
            Digits::D7 => 0b000000000000111,
            Digits::D8 => 0b000000011111111,
            Digits::D9 => 0b000000011101111,
        }
    }

    /// The glyph of `c`, which must lie in 0..=9.
    pub fn from(c: char) -> (res: Digits)
        requires
            '0' <= c <= '9',
        ensures
            res.spec_char() == c,
    {
        match c {
            '0' => Digits::D0,
            '1' => Digits::D1,
            '2' => Digits::D2,
            '3' => Digits::D3,
            '4' => Digits::D4,
            '5' => Digits::D5,
            '6' => Digits::D6,
            '7' => Digits::D7,
            '8' => Digits::D8,
            '9' => Digits::D9,
            _ => {
                assert(false);
                Digits::D0
            },
        }
    }
}

/// A displayable character, tagged with its character class.
#[derive(Debug, Clone, Copy, PartialEq, Eq, Structural)]
pub enum Glyph {
    Symbols(Symbols),
    Capitals(Capitals),
    Lowercase(Lowercase),
    Digits(Digits),
}

impl Glyph {
    /// The character that this glyph renders.
    pub open spec fn spec_char(self) -> char {
        match self {
            Glyph::Symbols(inner) => inner.spec_char(),
            Glyph::Capitals(inner) => inner.spec_char(),
            Glyph::Lowercase(inner) => inner.spec_char(),
            Glyph::Digits(inner) => inner.spec_char(),
        }
    }

    /// The segment mask that lights this glyph.
    pub open spec fn spec_mask(self) -> u16 {
        match self {
            Glyph::Symbols(inner) => inner.spec_mask(),
            Glyph::Capitals(inner) => inner.spec_mask(),
            Glyph::Lowercase(inner) => inner.spec_mask(),
            Glyph::Digits(inner) => inner.spec_mask(),
        }
    }

    /// Segment mask of this glyph.
    pub fn mask(self) -> (res: u16)
        ensures
            res == self.spec_mask(),
    {
        match self {
            Glyph::Symbols(inner) => inner.mask(),
            Glyph::Capitals(inner) => inner.mask(),
            Glyph::Lowercase(inner) => inner.mask(),
            Glyph::Digits(inner) => inner.mask(),
        }
    }
}

/// No two glyphs render the same character.
pub proof fn lemma_glyph_char_injective(g1: Glyph, g2: Glyph)
    requires
        g1.spec_char() == g2.spec_char(),
    ensures
        g1 == g2,
{
}

impl Glyph {
    /// The glyph of a supported character.
    pub fn from(c: char) -> (res: Glyph)
        requires
            supported(c),
        ensures
            res.spec_char() == c,
            res == glyph_of(c),
    {
        match Glyph::try_from(c) {
            Ok(g) => g,
            Err(_) => {
                assert(false);
                Glyph::Symbols(Symbols::Space)
            },
        }
    }

    /// The glyph of `c`, dispatched on its class, or an error where no table
    /// holds `c`.
    pub fn try_from(c: char) -> (res: Result<Glyph, GlyphError>)
        ensures
            res is Ok <==> supported(c),
            res matches Ok(g) ==> g == glyph_of(c) && g.spec_char() == c,
            res matches Err(e) ==> e == GlyphError::Unsupported(c),
    {
        let found: Option<Glyph> = if 'A' <= c && c <= 'Z' {
            Some(Glyph::Capitals(Capitals::from(c)))
        } else if 'a' <= c && c <= 'z' {
            Some(Glyph::Lowercase(Lowercase::from(c)))
        } else if '0' <= c && c <= '9' {
            Some(Glyph::Digits(Digits::from(c)))
        } else {
            match Symbols::try_from(c) {
                Ok(sym) => Some(Glyph::Symbols(sym)),
                Err(_) => None,
            }
        };
        match found {
            Some(g) => {
                proof {
                    assert(g.spec_char() == c);
                    assert(supported(c));
                    lemma_glyph_char_injective(g, glyph_of(c));
                }
                Ok(g)
            },
            None => Err(GlyphError::Unsupported(c)),
        }
    }
}

/// The segment mask of `c`, or an error where no glyph renders `c`.
pub fn encode(c: char) -> (res: Result<u16, GlyphError>)
    ensures
        res is Ok <==> supported(c),
        res matches Ok(m) ==> m == mask_of(c) && m < 0x8000,
        res matches Err(e) ==> e == GlyphError::Unsupported(c),
{
    match Glyph::try_from(c) {
        Ok(g) => {
            proof {
                lemma_mask_fits(g);
            }
            Ok(g.mask())
        },
        Err(e) => Err(e),
    }
}

/// Every segment mask fits in fifteen bits.
pub proof fn lemma_mask_fits(g: Glyph)
    ensures
        g.spec_mask() < 0x8000,
{
}

/// Distinct supported characters have distinct glyphs.
pub proof fn lemma_encode_distinct(c1: char, c2: char)
    requires
        supported(c1),
        supported(c2),
        c1 != c2,
    ensures
        glyph_of(c1) != glyph_of(c2),
{
}

/// Distinct supported characters have distinct masks, except for the two
/// pairs that the display draws alike: `C` and `[`, `X` and `x`.
pub proof fn lemma_mask_distinct(c1: char, c2: char)
    requires
        supported(c1),
        supported(c2),
        c1 != c2,
        !(c1 == 'C' && c2 == '[') && !(c1 == '[' && c2 == 'C'),
        !(c1 == 'X' && c2 == 'x') && !(c1 == 'x' && c2 == 'X'),
    ensures
        mask_of(c1) != mask_of(c2),
{
    let g1 = glyph_of(c1);
    let g2 = glyph_of(c2);
    assert(g1.spec_char() == c1);
    assert(g2.spec_char() == c2);
}

/// An endless demo sequence of a glyph class, read by position.
pub trait IterTest: Sized {
    type Item;

    /// One period of the sequence.
    spec fn test_items() -> Seq<Self::Item>;

    /// The item at position `n` of the sequence, which repeats its period
    /// forever.
    fn iter_test(n: usize) -> (res: Self::Item)
        ensures
            Self::test_items().len() > 0,
            res == Self::test_items()[n as int % Self::test_items().len() as int],
    ;
}

impl IterTest for Symbols {
    type Item = Symbols;

    open spec fn test_items() -> Seq<Symbols> {
        seq![
            Symbols::Ampersand,
            Symbols::At,
            Symbols::Backslash,
            Symbols::Caret,
            Symbols::Caret,
            Symbols::Comma,
            Symbols::Dash,
            Symbols::Dot,
            Symbols::Equals,
            Symbols::Exclamation,
            Symbols::Greater,
            Symbols::Hash,
            Symbols::LeftBrace,
            Symbols::LeftBracket,
            Symbols::LeftParen,
            Symbols::Less,
            Symbols::Pipe,
            Symbols::Plus,
            Symbols::Question,
            Symbols::RightBrace,
            Symbols::RightBracket,
            Symbols::RightParen,
            Symbols::Semicolon,
            Symbols::Slash,
            Symbols::Tilde,
            Symbols::Underscore,
        ]
    }

    fn iter_test(n: usize) -> (res: Symbols) {
        let items: Vec<Symbols> = vec![
            Symbols::Ampersand,
            Symbols::At,
            Symbols::Backslash,
            Symbols::Caret,
            Symbols::Caret,
            Symbols::Comma,
            Symbols::Dash,
            Symbols::Dot,
            Symbols::Equals,
            Symbols::Exclamation,
            Symbols::Greater,
            Symbols::Hash,
            Symbols::LeftBrace,
            Symbols::LeftBracket,
            Symbols::LeftParen,
            Symbols::Less,
            Symbols::Pipe,
            Symbols::Plus,
            Symbols::Question,
            Symbols::RightBrace,
            Symbols::RightBracket,
            Symbols::RightParen,
            Symbols::Semicolon,
            Symbols::Slash,
            Symbols::Tilde,
            Symbols::Underscore,
        ];
        assert(items@ =~= Self::test_items());
        items[n % items.len()]
    }
}

/// A blank and every decimal digit have a glyph.
pub proof fn lemma_numeral_supported(c: char)
    requires
        c == ' ' || '0' <= c <= '9',
    ensures
        supported(c),
{
    if c == ' ' {
        assert(Glyph::Symbols(Symbols::Space).spec_char() == c);
    } else if c == '0' {
        assert(Glyph::Digits(Digits::D0).spec_char() == c);
    } else if c == '1' {
        assert(Glyph::Digits(Digits::D1).spec_char() == c);
    } else if c == '2' {
        assert(Glyph::Digits(Digits::D2).spec_char() == c);
    } else if c == '3' {
        assert(Glyph::Digits(Digits::D3).spec_char() == c);
    } else if c == '4' {
        assert(Glyph::Digits(Digits::D4).spec_char() == c);
    } else if c == '5' {
        assert(Glyph::Digits(Digits::D5).spec_char() == c);
    } else if c == '6' {
        assert(Glyph::Digits(Digits::D6).spec_char() == c);
    } else if c == '7' {
        assert(Glyph::Digits(Digits::D7).spec_char() == c);
    } else if c == '8' {
        assert(Glyph::Digits(Digits::D8).spec_char() == c);
    } else if c == '9' {
        assert(Glyph::Digits(Digits::D9).spec_char() == c);
    }
}

} // verus!
