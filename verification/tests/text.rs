use linalg::quaternion::quaternion;
use linalg::quaternion::Quaternion;
use linalg::text::bracket;
use linalg::text::components;
use linalg::text::separator;
use linalg::text::to_chars;
use linalg::text::tokens;
use linalg::text::white_space;
use linalg::vec2::vec2;
use linalg::vec2::Vec2;
use linalg::vec3::vec3;
use linalg::vec3::Vec3;
use linalg::vec4::vec4;
use linalg::vec4::Vec4;

fn whole(s: &str) -> Result<i32, std::num::ParseIntError> {
    s.parse::<i32>()
}

#[test]
fn a_vector_in_brackets_parses() {
    assert_eq!(Vec3::from_str_with("(1, 2, 3)", whole), Ok(vec3(1, 2, 3)));
}

#[test]
fn a_missing_component_fails() {
    let e = Vec3::from_str_with("1 2", whole);
    assert!(e.is_err());
    // the missing numeral is handed to the parser as the empty string
    assert_eq!(e, "".parse::<i32>().map(|_| vec3(0, 0, 0)));
}

#[test]
fn every_bracket_and_separator_is_accepted() {
    assert_eq!(Vec2::from_str_with("[1,2]", whole), Ok(vec2(1, 2)));
    assert_eq!(Vec4::from_str_with("{1 2\t3\n4}", whole), Ok(vec4(1, 2, 3, 4)));
    assert_eq!(Vec3::from_str_with("  1 ,, 2 ,\u{a0}3  ", whole), Ok(vec3(1, 2, 3)));
    assert_eq!(Vec2::from_str_with("((1)) [[2]]", whole), Ok(vec2(1, 2)));
    assert_eq!(Quaternion::from_str_with("1 2 3 4", whole), Ok(quaternion(1, 2, 3, 4)));
    assert_eq!(Quaternion::from_str_with("(-1, -2, -3, -4)", whole), Ok(quaternion(-1, -2, -3, -4)));
}

#[test]
fn numerals_beyond_the_arity_are_ignored() {
    assert_eq!(Vec2::from_str_with("1 2 3 x", whole), Ok(vec2(1, 2)));
}

#[test]
fn the_first_numeral_that_fails_gives_the_error() {
    let first = "a".parse::<i32>().unwrap_err();
    assert_eq!(Vec3::from_str_with("a b 3", whole), Err(first));
    let overflow = "99999999999".parse::<i32>().unwrap_err();
    assert_eq!(Vec3::from_str_with("1 99999999999 c", whole), Err(overflow));
    assert!(Quaternion::from_str_with("1 2 3", whole).is_err());
    assert!(Vec4::from_str_with("", whole).is_err());
}

#[test]
fn from_parsed_takes_the_first_error_in_order() {
    let ok: Result<i32, &str> = Ok(1);
    assert_eq!(Vec2::from_parsed(ok, Ok(2)), Ok(vec2(1, 2)));
    assert_eq!(Vec2::from_parsed(Err("x"), Err("y")), Err::<Vec2<i32>, &str>("x"));
    assert_eq!(Vec3::from_parsed(ok, Err("y"), Err("z")), Err("y"));
    assert_eq!(Vec4::from_parsed(ok, ok, ok, Err("w")), Err("w"));
    assert_eq!(Quaternion::from_parsed(ok, ok, ok, ok), Ok(quaternion(1, 1, 1, 1)));
}

#[test]
fn tokens_are_trimmed_and_never_empty() {
    assert_eq!(tokens("(1, 2, 3)"), vec!["1", "2", "3"]);
    assert_eq!(tokens(""), Vec::<String>::new());
    assert_eq!(tokens(" ,, () [] "), Vec::<String>::new());
    assert_eq!(tokens("a(b)c"), vec!["a(b)c"]);
    assert_eq!(tokens("(a(b)c)"), vec!["a(b)c"]);
    assert_eq!(tokens("{[(x"), vec!["x"]);
    assert_eq!(tokens("x)]},"), vec!["x"]);
    assert_eq!(tokens("1.5e3,-2"), vec!["1.5e3", "-2"]);
    assert_eq!(tokens("é\u{2003}ü"), vec!["é", "ü"]);
}

#[test]
fn tokens_agree_with_split_trim_and_filter() {
    let brackets: &[char] = &['(', ')', '[', ']', '{', '}'];
    for input in ["(1, 2, 3)", "1 2", "", ",", "((", "a,,b", " x ", "[1][2]", "1,(,2", "(((1)))", "1 )2( 3", "a\tb\nc\r\nd"] {
        let want: Vec<String> = input
            .split(|c: char| c.is_whitespace() || c == ',')
            .map(|s| s.trim_matches(brackets))
            .filter(|s| !s.is_empty())
            .map(|s| s.to_string())
            .collect();
        assert_eq!(tokens(input), want);
    }
}

#[test]
fn components_pad_with_empty_strings() {
    assert_eq!(components("1 2", 3), vec!["1", "2", ""]);
    assert_eq!(components("1 2 3 4", 2), vec!["1", "2"]);
    assert_eq!(components("", 2), vec!["", ""]);
    assert_eq!(components("1", 0), Vec::<String>::new());
}

#[test]
fn white_space_is_that_of_the_standard_library() {
    let mut n: u32 = 0;
    while n <= 0x10FFFF {
        if let Some(c) = char::from_u32(n) {
            assert_eq!(white_space(c), c.is_whitespace());
            assert_eq!(separator(c), c.is_whitespace() || c == ',');
        }
        n += 1;
    }
}

#[test]
fn brackets_are_the_six() {
    for c in ['(', ')', '[', ']', '{', '}'] {
        assert!(bracket(c));
    }
    for c in ['<', '>', '|', ' ', '1', ','] {
        assert!(!bracket(c));
    }
}

#[test]
fn to_chars_keeps_every_character() {
    assert_eq!(to_chars("a√c"), vec!['a', '√', 'c']);
    assert_eq!(to_chars(""), Vec::<char>::new());
}
