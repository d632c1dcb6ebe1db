use segdisp::glyph::{encode, Capitals, Digits, Glyph, GlyphError, IterTest, Lowercase, Symbols};

fn table() -> Vec<(char, Glyph, u16)> {
    vec![
        ('!', Glyph::Symbols(Symbols::Exclamation), 0b100000000000110),
        ('"', Glyph::Symbols(Symbols::DoubleQuotes), 0b000001000000010),
        ('#', Glyph::Symbols(Symbols::Hash), 0b001001011001110),
        ('$', Glyph::Symbols(Symbols::Dollar), 0b001001011101101),
        ('%', Glyph::Symbols(Symbols::Percent), 0b011111111100100),
        ('&', Glyph::Symbols(Symbols::Ampersand), 0b010001101011001),
        ('\'', Glyph::Symbols(Symbols::Quote), 0b000001000000000),
        ('(', Glyph::Symbols(Symbols::LeftParen), 0b010010000000000),
        (')', Glyph::Symbols(Symbols::RightParen), 0b000100100000000),
        ('*', Glyph::Symbols(Symbols::Asterisk), 0b011111111000000),
        ('+', Glyph::Symbols(Symbols::Plus), 0b001001011000000),
        (',', Glyph::Symbols(Symbols::Comma), 0b000100000000000),
        ('-', Glyph::Symbols(Symbols::Dash), 0b000000011000000),
        ('.', Glyph::Symbols(Symbols::Dot), 0b100000000000000),
        ('/', Glyph::Symbols(Symbols::Slash), 0b000110000000000),
        (';', Glyph::Symbols(Symbols::Semicolon), 0b000101000000000),
        ('<', Glyph::Symbols(Symbols::Less), 0b010010001000000),
        ('=', Glyph::Symbols(Symbols::Equals), 0b000000011001000),
        ('>', Glyph::Symbols(Symbols::Greater), 0b000100110000000),
        ('?', Glyph::Symbols(Symbols::Question), 0b101000010000011),
        ('@', Glyph::Symbols(Symbols::At), 0b000001010111011),
        ('[', Glyph::Symbols(Symbols::LeftBracket), 0b000000000111001),
        ('\\', Glyph::Symbols(Symbols::Backslash), 0b010000100000000),
        (']', Glyph::Symbols(Symbols::RightBracket), 0b000000000001111),
        ('^', Glyph::Symbols(Symbols::Caret), 0b010100000000000),
        ('_', Glyph::Symbols(Symbols::Underscore), 0b000000000001000),
        ('`', Glyph::Symbols(Symbols::Apostrophe), 0b000000100000000),
        ('{', Glyph::Symbols(Symbols::LeftBrace), 0b000100101001001),
        ('|', Glyph::Symbols(Symbols::Pipe), 0b001001000000000),
        ('}', Glyph::Symbols(Symbols::RightBrace), 0b010010010001001),
        ('~', Glyph::Symbols(Symbols::Tilde), 0b000110011000000),
        (' ', Glyph::Symbols(Symbols::Space), 0b000000000000000),
        ('A', Glyph::Capitals(Capitals::A), 0b000000011110111),
        ('B', Glyph::Capitals(Capitals::B), 0b001001010001111),
        ('C', Glyph::Capitals(Capitals::C), 0b000000000111001),
        ('D', Glyph::Capitals(Capitals::D), 0b001001000001111),
        ('E', Glyph::Capitals(Capitals::E), 0b000000001111001),
        ('F', Glyph::Capitals(Capitals::F), 0b000000001110001),
        ('G', Glyph::Capitals(Capitals::G), 0b000000010111101),
        ('H', Glyph::Capitals(Capitals::H), 0b000000011110110),
        ('I', Glyph::Capitals(Capitals::I), 0b001001000001001),
        ('J', Glyph::Capitals(Capitals::J), 0b000000000011110),
        ('K', Glyph::Capitals(Capitals::K), 0b010010001110000),
        ('L', Glyph::Capitals(Capitals::L), 0b000000000111000),
        ('M', Glyph::Capitals(Capitals::M), 0b000010100110110),
        ('N', Glyph::Capitals(Capitals::N), 0b010000100110110),
        ('O', Glyph::Capitals(Capitals::O), 0b000000000111111),
        ('P', Glyph::Capitals(Capitals::P), 0b000000011110011),
        ('Q', Glyph::Capitals(Capitals::Q), 0b010000000111111),
        ('R', Glyph::Capitals(Capitals::R), 0b010000011110011),
        ('S', Glyph::Capitals(Capitals::S), 0b000000011101101),
        ('T', Glyph::Capitals(Capitals::T), 0b001001000000001),
        ('U', Glyph::Capitals(Capitals::U), 0b000000000111110),
        ('V', Glyph::Capitals(Capitals::V), 0b000110000110000),
        ('W', Glyph::Capitals(Capitals::W), 0b010100000110110),
        ('X', Glyph::Capitals(Capitals::X), 0b010110100000000),
        ('Y', Glyph::Capitals(Capitals::Y), 0b000000011101110),
        ('Z', Glyph::Capitals(Capitals::Z), 0b000110000001001),
        ('a', Glyph::Lowercase(Lowercase::a), 0b001000001011000),
        ('b', Glyph::Lowercase(Lowercase::b), 0b010000001111000),
        ('c', Glyph::Lowercase(Lowercase::c), 0b000000011011000),
        ('d', Glyph::Lowercase(Lowercase::d), 0b000100010001110),
        ('e', Glyph::Lowercase(Lowercase::e), 0b000100001011000),
        ('f', Glyph::Lowercase(Lowercase::f), 0b001010011000000),
        ('g', Glyph::Lowercase(Lowercase::g), 0b000010010001110),
        ('h', Glyph::Lowercase(Lowercase::h), 0b001000001110000),
        ('i', Glyph::Lowercase(Lowercase::i), 0b001000000000000),
        ('j', Glyph::Lowercase(Lowercase::j), 0b000101000010000),
        ('k', Glyph::Lowercase(Lowercase::k), 0b011011000000000),
        ('l', Glyph::Lowercase(Lowercase::l), 0b000000000110000),
        ('m', Glyph::Lowercase(Lowercase::m), 0b001000011010100),
        ('n', Glyph::Lowercase(Lowercase::n), 0b001000001010000),
        ('o', Glyph::Lowercase(Lowercase::o), 0b000000011011100),
        ('p', Glyph::Lowercase(Lowercase::p), 0b000000101110000),
        ('q', Glyph::Lowercase(Lowercase::q), 0b000010010000110),
        ('r', Glyph::Lowercase(Lowercase::r), 0b000000001010000),
        ('s', Glyph::Lowercase(Lowercase::s), 0b010000010001000),
        ('t', Glyph::Lowercase(Lowercase::t), 0b000000001111000),
        ('u', Glyph::Lowercase(Lowercase::u), 0b000000000011100),
        ('v', Glyph::Lowercase(Lowercase::v), 0b000100000010000),
        ('w', Glyph::Lowercase(Lowercase::w), 0b010100000010100),
        ('x', Glyph::Lowercase(Lowercase::x), 0b010110100000000),
        ('y', Glyph::Lowercase(Lowercase::y), 0b000001010001110),
        ('z', Glyph::Lowercase(Lowercase::z), 0b000100001001000),
        ('0', Glyph::Digits(Digits::D0), 0b000110000111111),
        ('1', Glyph::Digits(Digits::D1), 0b000010000000110),
        ('2', Glyph::Digits(Digits::D2), 0b000000011011011),
        ('3', Glyph::Digits(Digits::D3), 0b000000010001111),
        ('4', Glyph::Digits(Digits::D4), 0b000000011100110),
        ('5', Glyph::Digits(Digits::D5), 0b010000001101001),
        ('6', Glyph::Digits(Digits::D6), 0b000000011111101),
        ('7', Glyph::Digits(Digits::D7), 0b000000000000111),
        ('8', Glyph::Digits(Digits::D8), 0b000000011111111),
        ('9', Glyph::Digits(Digits::D9), 0b000000011101111),
    ]
}

#[test]
fn encode_matches_table() {
    for (c, glyph, mask) in table() {
        assert_eq!(encode(c), Ok(mask), "mask of {:?}", c);
        assert_eq!(Glyph::from(c), glyph, "glyph of {:?}", c);
        assert_eq!(Glyph::try_from(c), Ok(glyph));
        assert_eq!(glyph.mask(), mask);
        assert!(mask < 0x8000);
    }
}

#[test]
fn glyphs_are_distinct() {
    let rows = table();
    for (i, a) in rows.iter().enumerate() {
        for b in rows.iter().skip(i + 1) {
            assert_ne!(a.0, b.0);
            assert_ne!(Glyph::from(a.0), Glyph::from(b.0));
        }
    }
}

#[test]
fn masks_shared_only_by_two_pairs() {
    let rows = table();
    let mut shared = Vec::new();
    for (i, a) in rows.iter().enumerate() {
        for b in rows.iter().skip(i + 1) {
            if a.2 == b.2 {
                shared.push((a.0, b.0));
            }
        }
    }
    assert_eq!(shared, vec![('[', 'C'), ('X', 'x')]);
}

#[test]
fn every_printable_ascii_but_colon_is_encoded() {
    for b in 0x20u8..0x7f {
        let c = b as char;
        if c == ':' {
            assert_eq!(encode(c), Err(GlyphError::Unsupported(':')));
        } else {
            assert!(encode(c).is_ok(), "{:?}", c);
        }
    }
}

#[test]
fn encode_rejects_unknown_characters() {
    for c in [':', '\n', '\t', '\u{0}', '\u{7f}', '\u{e9}', '\u{3a9}', '\u{20ac}'] {
        assert_eq!(encode(c), Err(GlyphError::Unsupported(c)));
        assert_eq!(Glyph::try_from(c), Err(GlyphError::Unsupported(c)));
    }
    assert_eq!(Symbols::try_from('A'), Err(GlyphError::Unsupported('A')));
    assert_eq!(Symbols::try_from('5'), Err(GlyphError::Unsupported('5')));
}

#[test]
fn class_tables() {
    assert_eq!(Digits::from('0'), Digits::D0);
    assert_eq!(Digits::from('9'), Digits::D9);
    assert_eq!(Capitals::from('A'), Capitals::A);
    assert_eq!(Capitals::from('Z'), Capitals::Z);
    assert_eq!(Lowercase::from('a'), Lowercase::a);
    assert_eq!(Lowercase::from('z'), Lowercase::z);
    assert_eq!(Symbols::try_from('~'), Ok(Symbols::Tilde));
    assert_eq!(Symbols::try_from(' '), Ok(Symbols::Space));
    assert_eq!(Digits::D8.mask(), 0b000000011111111);
    assert_eq!(Capitals::Q.mask(), 0b010000000111111);
    assert_eq!(Lowercase::k.mask(), 0b011011000000000);
    assert_eq!(Symbols::Dot.mask(), 0b100000000000000);
}

#[test]
fn demo_symbols_cycle() {
    assert_eq!(Symbols::iter_test(0), Symbols::Ampersand);
    assert_eq!(Symbols::iter_test(1), Symbols::At);
    assert_eq!(Symbols::iter_test(3), Symbols::Caret);
    assert_eq!(Symbols::iter_test(4), Symbols::Caret);
    assert_eq!(Symbols::iter_test(25), Symbols::Underscore);
    assert_eq!(Symbols::iter_test(26), Symbols::Ampersand);
    assert_eq!(Symbols::iter_test(27), Symbols::At);
    assert_eq!(Symbols::iter_test(26 * 1000 + 24), Symbols::Tilde);
}
