use lolcap::text::{chars_of, decode_utf16, len_before_first, parse_usize, push_decimal, replace};

fn parsed(s: &str) -> Option<usize> {
    parse_usize(&chars_of(s))
}

fn numeral(n: usize) -> String {
    let mut s = String::from("#");
    push_decimal(&mut s, n);
    s
}

#[test]
fn decimal_numerals() {
    for n in [0, 7, 9, 10, 42, 99, 100, 1024, 1_000_000, usize::MAX - 1, usize::MAX] {
        assert_eq!(numeral(n), format!("#{}", n));
    }
}

#[test]
fn decimal_reads_back() {
    for n in [0, 1, 10, 907, usize::MAX] {
        let mut s = String::new();
        push_decimal(&mut s, n);
        assert_eq!(parsed(&s), Some(n));
    }
}

#[test]
fn numerals_parse_as_in_std() {
    let above = format!("{}0", usize::MAX);
    let most = format!("{}", usize::MAX);
    let padded = format!("000000000000000000000000000{}", usize::MAX);
    let next = "18446744073709551616";
    let cases = [
        "", "+", "-", "0", "5", "+5", "++5", "-5", "+-5", "007", "12a", "a12", " 1", "1 ", "1_0",
        "٣", "1.0", "42", above.as_str(), most.as_str(), padded.as_str(), next,
        "99999999999999999999999999999999",
    ];
    for s in cases {
        assert_eq!(parsed(s), s.parse::<usize>().ok(), "{:?}", s);
    }
}

#[test]
fn field_before_a_character() {
    for s in ["", "_", "a", "12_x_y", "_12", "héé_llo", "none"] {
        let chars = chars_of(s);
        let n = len_before_first(&chars, '_');
        let field: String = chars[..n].iter().collect();
        assert_eq!(field, s.split('_').next().unwrap());
    }
}

#[test]
fn characters_of_a_text() {
    assert_eq!(chars_of("aé𝄞"), vec!['a', 'é', '𝄞']);
    assert_eq!(chars_of(""), Vec::<char>::new());
}

#[test]
fn replacement_as_in_std() {
    let cases = [
        ("", ".mp4", "x"),
        (".mp4", ".mp4", "_inputs.parquet"),
        ("./recordings/12.mp4", ".mp4", "_inputs.parquet"),
        ("a.mp4/b.mp4/3.mp4", ".mp4", "_inputs.parquet"),
        ("aaaa", "aa", "b"),
        ("aaaaa", "aa", "b"),
        ("ababa", "aba", "x"),
        (".mp", ".mp4", "x"),
        ("..mp4", ".mp4", "x"),
        ("none", "zz", "y"),
        ("aé.mp4é", ".mp4", ""),
    ];
    for (s, pattern, by) in cases {
        assert_eq!(replace(s, pattern, by), s.replace(pattern, by));
    }
}

#[test]
fn utf16_as_in_std() {
    let cases: [&[u16]; 9] = [
        &[],
        &[0x41, 0x42],
        &[0xD834, 0xDD1E, 0x6d, 0x75, 0x73, 0xDD1E, 0x69, 0x63, 0xD834],
        &[0xD800],
        &[0xDC00],
        &[0xDBFF, 0xDFFF],
        &[0xD800, 0xD800, 0xDC00],
        &[0xDC00, 0xD800, 0x20],
        &[0xD7FF, 0xE000, 0xFFFF, 0xFFFD, 0],
    ];
    for units in cases {
        assert_eq!(decode_utf16(units), String::from_utf16_lossy(units));
    }
    let title: Vec<u16> = "League of Legends (TM) Client".encode_utf16().collect();
    assert_eq!(decode_utf16(&title), "League of Legends (TM) Client");
}
