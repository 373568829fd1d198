use adbc_flightsql::text::{
    concat3, has_part, has_prefix, has_suffix, i64_text, parse_i64, same_text, u64_text,
    without_prefix,
};

#[test]
fn numerals_are_those_of_the_standard_library() {
    for n in [0u64, 1, 9, 10, 99, 100, 12_345, u64::MAX] {
        assert_eq!(u64_text(n), n.to_string());
    }
    for i in [0i64, 1, -1, 42, -42, i64::MAX, i64::MIN] {
        assert_eq!(i64_text(i), i.to_string());
    }
}

#[test]
fn integers_parse_as_in_the_standard_library() {
    let texts = [
        "0",
        "-0",
        "+0",
        "7",
        "-7",
        "+7",
        "007",
        "9223372036854775807",
        "9223372036854775808",
        "-9223372036854775808",
        "-9223372036854775809",
        "99999999999999999999999999",
        "",
        "-",
        "+",
        "--1",
        "+-1",
        " 1",
        "1 ",
        "1_000",
        "0x10",
        "1.0",
        "1e3",
        "١",
        "12a",
    ];
    for text in texts {
        assert_eq!(parse_i64(text), text.parse::<i64>().ok());
    }
}

#[test]
fn parts_are_found_as_in_the_standard_library() {
    let texts = ["", "a", "ab", "abc", "aab", "äöü", "öü", "c"];
    for text in texts {
        for part in texts {
            assert_eq!(has_prefix(text, part), text.starts_with(part));
            assert_eq!(has_suffix(text, part), text.ends_with(part));
            assert_eq!(has_part(text, part), text.contains(part));
            assert_eq!(same_text(text, part), text == part);
            if text.starts_with(part) {
                assert_eq!(without_prefix(text, part), text.strip_prefix(part).unwrap());
            }
        }
    }
    assert_eq!(concat3("a", "ö", "c"), "aöc");
}
