use deploy_pipeline::constructor::{
    flatten_tokens, names_constructor_file, parse_constructor_args, split_and_trim,
    strip_stray_backslashes,
};
use deploy_pipeline::text::{char_is_whitespace, chars_of, ends_with, split_str, trim_bounds, trim_str};

fn normalize(text: &str) -> Vec<String> {
    parse_constructor_args(&Some(text.to_string()))
}

fn strings(items: &[&str]) -> Vec<String> {
    items.iter().map(|s| s.to_string()).collect()
}

#[test]
fn absent_input_gives_no_tokens() {
    assert_eq!(parse_constructor_args(&None), Vec::<String>::new());
}

#[test]
fn tokens_are_trimmed_and_keep_their_order() {
    assert_eq!(normalize("a, b ,c"), strings(&["a", "b", "c"]));
}

#[test]
fn only_commas_gives_no_tokens() {
    assert_eq!(normalize(",,"), Vec::<String>::new());
}

#[test]
fn empty_text_gives_no_tokens() {
    assert_eq!(normalize(""), Vec::<String>::new());
}

#[test]
fn commas_and_whitespace_give_no_tokens() {
    assert_eq!(normalize(" , \t,\n ,  "), Vec::<String>::new());
}

#[test]
fn blank_pieces_between_tokens_are_dropped() {
    assert_eq!(normalize("1,,2, ,3,"), strings(&["1", "2", "3"]));
}

#[test]
fn duplicates_are_kept() {
    assert_eq!(normalize("7,7, 7 ,0x1,7"), strings(&["7", "7", "7", "0x1", "7"]));
}

#[test]
fn inner_whitespace_is_kept() {
    assert_eq!(normalize("  hello world ,x"), strings(&["hello world", "x"]));
}

#[test]
fn file_text_with_final_newline() {
    assert_eq!(normalize("x,y\n"), strings(&["x", "y"]));
}

#[test]
fn unicode_whitespace_is_trimmed() {
    assert_eq!(normalize("\u{a0}a\u{2003},\u{3000}b\u{85}"), strings(&["a", "b"]));
}

#[test]
fn backslash_before_other_character_is_removed() {
    assert_eq!(normalize("a\\nb"), strings(&["anb"]));
}

#[test]
fn backslash_before_quote_stays() {
    assert_eq!(normalize("\\\"quoted\\\""), strings(&["\\\"quoted\\\""]));
}

#[test]
fn backslash_at_the_end_stays() {
    assert_eq!(normalize("abc\\"), strings(&["abc\\"]));
}

#[test]
fn run_of_backslashes() {
    assert_eq!(strip_stray_backslashes("\\\\\\x"), "x");
    assert_eq!(strip_stray_backslashes("\\\\\""), "\\\"");
    assert_eq!(strip_stray_backslashes("\\\\"), "\\");
    assert_eq!(strip_stray_backslashes("\\"), "\\");
    assert_eq!(strip_stray_backslashes(""), "");
    assert_eq!(strip_stray_backslashes("plain"), "plain");
}

#[test]
fn no_token_is_empty() {
    for text in ["", ",", "a,,b", "\\,\\\\", " \\ ", "\\u{41},\\"] {
        for token in normalize(text) {
            assert!(!token.is_empty(), "{:?}", text);
        }
    }
}

#[test]
fn normalizing_twice_changes_nothing() {
    for text in ["a, b ,c", ",,", "", "1,,2, ,3,", "a\\nb, \\\"q\\\" ,z\\", "x y , z"] {
        let once = normalize(text);
        let again = normalize(&once.join(","));
        assert_eq!(again, once, "{:?}", text);
    }
}

#[test]
fn token_that_starts_with_whitespace_after_cleaning() {
    let once = normalize("\\ x");
    assert_eq!(once, strings(&[" x"]));
    assert_eq!(normalize(&once.join(",")), strings(&["x"]));
}

#[test]
fn first_pass_keeps_blank_pieces() {
    assert_eq!(split_and_trim(" a ,, b "), strings(&["a", "", "b"]));
    assert_eq!(split_and_trim(""), strings(&[""]));
}

#[test]
fn second_pass_takes_apart_what_holds_commas() {
    let pieces = strings(&["a,b", " c ", "", " , ", "d,,e"]);
    assert_eq!(flatten_tokens(&pieces), strings(&["a", "b", "c", "d", "e"]));
}

#[test]
fn second_pass_leaves_first_pass_tokens() {
    let pieces = split_and_trim("one, two,,three");
    assert_eq!(flatten_tokens(&pieces), strings(&["one", "two", "three"]));
}

#[test]
fn constructor_file_is_told_by_its_ending() {
    assert!(names_constructor_file("args.constructor"));
    assert!(names_constructor_file("dir/my.args.constructor"));
    assert!(names_constructor_file(".constructor"));
    assert!(!names_constructor_file("1,2,3"));
    assert!(!names_constructor_file("args.constructor "));
    assert!(!names_constructor_file("constructor"));
    assert!(!names_constructor_file(""));
    assert!(!names_constructor_file("args.Constructor"));
}

#[test]
fn ends_with_agrees_with_std() {
    for (s, suffix) in [("abc", "bc"), ("abc", "abc"), ("abc", ""), ("", ""), ("bc", "abc"), ("abc", "ab"), ("héllo", "llo")] {
        assert_eq!(ends_with(s, suffix), s.ends_with(suffix), "{:?} {:?}", s, suffix);
    }
}

#[test]
fn split_gives_one_piece_more_than_separators() {
    assert_eq!(split_str("a,b,c", ','), strings(&["a", "b", "c"]));
    assert_eq!(split_str("", ','), strings(&[""]));
    assert_eq!(split_str(",", ','), strings(&["", ""]));
    assert_eq!(split_str("a,,b,", ','), strings(&["a", "", "b", ""]));
    assert_eq!(split_str("no separator", ','), strings(&["no separator"]));
    assert_eq!(split_str("é,ü", ','), strings(&["é", "ü"]));
}

#[test]
fn split_agrees_with_std() {
    for text in ["", ",", "a", "a,b", ",a,", "a,,b", "x\ny\n", ",,,"] {
        for sep in [',', '\n'] {
            let expected: Vec<String> = text.split(sep).map(|s| s.to_string()).collect();
            assert_eq!(split_str(text, sep), expected, "{:?}", text);
        }
    }
}

#[test]
fn trim_agrees_with_std() {
    for text in ["", " ", "a", " a", "a ", "  a b  ", "\t\n x \r\n", "\u{2028}y\u{205f}", " \u{1680} "] {
        assert_eq!(trim_str(text), text.trim(), "{:?}", text);
    }
}

#[test]
fn trim_bounds_of_blank_text() {
    let chars = chars_of("   ");
    let (a, b) = trim_bounds(&chars);
    assert_eq!(a, b);
    let chars = chars_of(" ab ");
    assert_eq!(trim_bounds(&chars), (1, 3));
}

#[test]
fn chars_of_gives_every_character() {
    assert_eq!(chars_of("aé😀"), vec!['a', 'é', '😀']);
    assert_eq!(chars_of(""), Vec::<char>::new());
}

#[test]
fn whitespace_agrees_with_std_on_every_character() {
    let mut n: u32 = 0;
    while n <= 0x10FFFF {
        if let Some(c) = char::from_u32(n) {
            assert_eq!(char_is_whitespace(c), c.is_whitespace(), "U+{:04X}", n);
        }
        n += 1;
    }
}
