use leak_profile::text::{
    chars_of, is_whitespace, parse_u64, starts_with, trim_bounds, trimmed, trimmed_equals,
};

fn chars(s: &str) -> Vec<char> {
    s.chars().collect()
}

#[test]
fn chars_of_keeps_every_character() {
    assert_eq!(chars_of(""), Vec::<char>::new());
    assert_eq!(chars_of("a=1"), vec!['a', '=', '1']);
    assert_eq!(chars_of("h\u{e9}\u{3000}\u{1f600}"), vec!['h', '\u{e9}', '\u{3000}', '\u{1f600}']);
}

#[test]
fn white_space_is_what_the_standard_library_says() {
    for n in 0u32..=0x10FFFF {
        if let Some(c) = char::from_u32(n) {
            assert_eq!(is_whitespace(c), c.is_whitespace(), "U+{:04X}", n);
        }
    }
}

#[test]
fn starts_with_cases() {
    assert!(starts_with(&chars("mem_heap_B=7"), &chars("mem_heap_B=")));
    assert!(starts_with(&chars("mem_heap_B="), &chars("mem_heap_B=")));
    assert!(starts_with(&chars("abc"), &chars("")));
    assert!(!starts_with(&chars("mem_heap_B"), &chars("mem_heap_B=")));
    assert!(!starts_with(&chars("mem_heap_b=7"), &chars("mem_heap_B=")));
    assert!(!starts_with(&chars(""), &chars("m")));
}

#[test]
fn trimmed_equals_agrees_with_trim() {
    let target = "heap_tree=peak";
    let cases = [
        "heap_tree=peak",
        "  heap_tree=peak",
        "heap_tree=peak\r\n",
        "\u{2003}heap_tree=peak\u{85}",
        "heap_tree= peak",
        "heap_tree=pea",
        "heap_tree=peakk",
        "",
        "   ",
        "\u{200b}heap_tree=peak",
    ];
    for case in cases {
        assert_eq!(trimmed_equals(&chars(case), &chars(target)), case.trim() == target, "{:?}", case);
    }
    assert!(trimmed_equals(&chars(" \t "), &chars("")));
    assert!(!trimmed_equals(&chars(" a "), &chars("")));
    assert!(trimmed_equals(&chars(" a b "), &chars("a b")));
}

#[test]
fn parse_u64_agrees_with_the_standard_library() {
    let cases = [
        "0",
        "7",
        "007",
        "+7",
        "+",
        "-",
        "",
        "-0",
        "++7",
        "7+",
        " 7",
        "7 ",
        "1_000",
        "0x10",
        "12a",
        "\u{661}",
        "18446744073709551615",
        "18446744073709551616",
        "18446744073709551620",
        "99999999999999999999",
        "+18446744073709551615",
        "000000000000000000000000018446744073709551615",
    ];
    for case in cases {
        assert_eq!(parse_u64(&chars(case)), case.parse::<u64>().ok(), "{:?}", case);
    }
}

#[test]
fn parse_u64_exact_values() {
    assert_eq!(parse_u64(&chars("1048576")), Some(1048576));
    assert_eq!(parse_u64(&chars("+0")), Some(0));
    assert_eq!(parse_u64(&chars("")), None);
    assert_eq!(parse_u64(&chars("abc")), None);
}

#[test]
fn trimmed_agrees_with_trim() {
    let cases = ["", "   ", "a", " a", "a ", "\t/opt/tool chain\r\n", "\u{3000}\u{e9}t\u{e9}\u{2028}", "\u{200b}x "];
    for case in cases {
        assert_eq!(trimmed(case), case.trim(), "{:?}", case);
    }
}

#[test]
fn trim_bounds_exact() {
    assert_eq!(trim_bounds(&chars("  ab c \n")), (2, 6));
    assert_eq!(trim_bounds(&chars("abc")), (0, 3));
    assert_eq!(trim_bounds(&chars("   ")), (3, 3));
    assert_eq!(trim_bounds(&chars("")), (0, 0));
}
