use schema_derive::capability::TypeTag;
use schema_derive::recognize::{
    is_plain, is_readable, recognize, select, CATALOGUE_LEN, MAX_TYPE_TEXT,
};

const CATALOGUE: [(TypeTag, &str); 10] = [
    (TypeTag::Text, "String"),
    (TypeTag::Json, "Map<String, Value>"),
    (TypeTag::U64, "u64"),
    (TypeTag::I64, "i64"),
    (TypeTag::F64, "f64"),
    (TypeTag::Bool, "bool"),
    (TypeTag::Bytes, "Vec<u8>"),
    (TypeTag::Facet, "Facet"),
    (TypeTag::Date, "DateTime"),
    (TypeTag::IpAddr, "Ipv6Addr"),
];

#[test]
fn catalogue_types_are_recognized() {
    assert_eq!(CATALOGUE_LEN, 10);
    for (position, (tag, text)) in CATALOGUE.iter().enumerate() {
        assert_eq!(recognize(text), Some(*tag));
        assert_eq!(tag.rust_type(), *text);
        assert_eq!(TypeTag::at(position), Some(*tag));
    }
    assert_eq!(TypeTag::at(10), None);
    assert_eq!(TypeTag::at(usize::MAX), None);
}

#[test]
fn spacing_does_not_matter() {
    assert_eq!(recognize("Vec < u8 >"), Some(TypeTag::Bytes));
    assert_eq!(recognize("Map < String , Value >"), Some(TypeTag::Json));
    assert_eq!(recognize("Map<String,Value>"), Some(TypeTag::Json));
    assert_eq!(recognize("  String\n"), Some(TypeTag::Text));
    assert_eq!(recognize("\tu64 "), Some(TypeTag::U64));
}

#[test]
fn other_types_are_not_recognized() {
    for text in [
        "u32",
        "usize",
        "str",
        "&str",
        "Vec<u16>",
        "Vec<Vec<u8>>",
        "Option<String>",
        "Map<String, String>",
        "Map<Value, String>",
        "HashMap<String, Value>",
        "std::string::String",
        "string",
        "STRING",
        "Ipv4Addr",
        "IpAddr",
        "Date",
        "(String)",
        "(u64,)",
        "[u8]",
        "[u8; 4]",
        "Vec<u8,>",
        "fn() -> fn() -> fn() -> u8",
        "&&&&&&&&&&&&&&&&&&&&&&&&&&&u64",
    ] {
        assert_eq!(recognize(text), None, "{}", text);
    }
}

#[test]
fn what_is_no_type_is_not_recognized() {
    for text in [
        "",
        " ",
        "String String",
        "Str ing",
        "Vec<u8",
        "Vec u8>",
        "u64)",
        "1 + 1",
        "{",
        "\"String\"",
        "fn",
        "impl",
        "dyn",
        "_",
        "u64,",
        "64",
        "u 64",
    ] {
        assert_eq!(recognize(text), None, "{}", text);
    }
}

#[test]
fn text_at_the_limit_is_read() {
    let padded = format!("{}String", " ".repeat(MAX_TYPE_TEXT - 6));
    assert_eq!(padded.chars().count(), MAX_TYPE_TEXT);
    assert_eq!(recognize(&padded), Some(TypeTag::Text));
}

#[test]
fn text_over_the_limit_is_not_recognized() {
    let padded = format!("{}String", " ".repeat(MAX_TYPE_TEXT - 5));
    assert_eq!(padded.chars().count(), MAX_TYPE_TEXT + 1);
    assert_eq!(recognize(&padded), None);
    assert_eq!(recognize(&"x".repeat(10_000)), None);
    assert_eq!(recognize(&format!("{}u8", "&".repeat(100_000))), None);
}

#[test]
fn text_with_other_characters_is_not_read() {
    for text in [
        "\u{3000}u64",
        "u64\u{a0}",
        "Vec<u8> /* e */",
        "Vec<u8> // e",
        "#!/bin/sh\nString",
        "r#u64",
        "u64;",
        "String\u{0}",
        "Gr\u{f6}\u{df}e",
        "Vec<u8>\u{b}",
    ] {
        assert!(!is_readable(text), "{:?}", text);
        assert_eq!(recognize(text), None, "{:?}", text);
    }
}

#[test]
fn plain_characters_are_those_of_the_catalogue() {
    for c in "abcxyzABCXYZ0189_<>, \t\n\r".chars() {
        assert!(is_plain(c), "{:?}", c);
    }
    for c in "&*()[]{}:;/#!'\"-+=.?@$%^|~`\\\u{0}\u{b}\u{c}\u{7f}\u{80}\u{e9}\u{3000}".chars() {
        assert!(!is_plain(c), "{:?}", c);
    }
    for (_, text) in CATALOGUE {
        assert!(is_readable(text));
        assert!(text.chars().all(is_plain));
    }
}

#[test]
fn readable_text_is_short_and_plain() {
    assert!(is_readable(""));
    assert!(is_readable("Map < String , Value >"));
    assert!(is_readable(&"a".repeat(MAX_TYPE_TEXT)));
    assert!(!is_readable(&"a".repeat(MAX_TYPE_TEXT + 1)));
    assert!(!is_readable("&str"));
    assert!(!is_readable(&"\u{e9}".repeat(MAX_TYPE_TEXT / 2)));
}

#[test]
fn deepest_nesting_within_the_limit_is_read() {
    let open = format!("{}u8", "A<".repeat((MAX_TYPE_TEXT - 2) / 2));
    assert!(is_readable(&open));
    assert_eq!(recognize(&open), None);
    let depth = (MAX_TYPE_TEXT - 1) / 3;
    let closed = format!("{}B{}", "A<".repeat(depth), ">".repeat(depth));
    assert!(is_readable(&closed));
    assert_eq!(recognize(&closed), None);
    let depth = (MAX_TYPE_TEXT - 2) / 5;
    let vectors = format!("{}u8{}", "Vec<".repeat(depth), ">".repeat(depth));
    assert!(is_readable(&vectors));
    assert_eq!(recognize(&vectors), None);
    assert_eq!(recognize(&"<".repeat(MAX_TYPE_TEXT)), None);
    assert_eq!(recognize(&">".repeat(MAX_TYPE_TEXT)), None);
    assert_eq!(recognize(&",".repeat(MAX_TYPE_TEXT)), None);
    assert_eq!(recognize(&"9".repeat(MAX_TYPE_TEXT)), None);
    assert_eq!(recognize(&"_".repeat(MAX_TYPE_TEXT)), None);
}

#[test]
fn first_agreement_selects_the_tag() {
    for (position, (tag, _)) in CATALOGUE.iter().enumerate() {
        let mut agreements = vec![false; 10];
        agreements[position] = true;
        assert_eq!(select(&agreements), Some(*tag));
    }
    assert_eq!(select(&vec![false; 10]), None);
    assert_eq!(select(&Vec::new()), None);
    assert_eq!(select(&vec![true; 10]), Some(TypeTag::Text));
    let mut late = vec![false; 10];
    late[4] = true;
    late[8] = true;
    assert_eq!(select(&late), Some(TypeTag::F64));
}

#[test]
fn select_looks_at_ten_entries_at_most() {
    let mut agreements = vec![false; 12];
    agreements[10] = true;
    agreements[11] = true;
    assert_eq!(select(&agreements), None);
    assert_eq!(select(&vec![false, true]), Some(TypeTag::Json));
    assert_eq!(select(&vec![false]), None);
}
