use diceroll::decimal::read_i32;
use diceroll::notation::{convert_capture, spec_from_groups, Notation, RollSpec};

fn chars(text: &str) -> Vec<char> {
    text.chars().collect()
}

fn grammar() -> Notation {
    Notation::new().expect("the dice grammar compiles")
}

fn request(count: i32, sides: i32, modifier: i32) -> RollSpec {
    RollSpec { count, sides, modifier }
}

#[test]
fn parse_count_and_sides() {
    assert_eq!(grammar().parse("2d6"), Some(request(2, 6, 0)));
}

#[test]
fn parse_with_positive_modifier() {
    assert_eq!(grammar().parse("1d8+1"), Some(request(1, 8, 1)));
}

#[test]
fn parse_without_count_with_negative_modifier() {
    assert_eq!(grammar().parse("d20-5"), Some(request(1, 20, -5)));
}

#[test]
fn parse_text_without_dice() {
    assert_eq!(grammar().parse("no dice here"), None);
    assert_eq!(grammar().parse(""), None);
    assert_eq!(grammar().parse("d"), None);
    assert_eq!(grammar().parse("000"), None);
}

#[test]
fn parse_skips_what_stands_before_the_dice() {
    assert_eq!(grammar().parse("!roll 2d6"), Some(request(2, 6, 0)));
    assert_eq!(grammar().parse("!roll   3d12-2 please"), Some(request(3, 12, -2)));
    assert_eq!(grammar().parse("xx0d6"), Some(request(1, 6, 0)));
}

#[test]
fn parse_takes_the_first_match_only() {
    assert_eq!(grammar().parse("2d6 and 4d8+1"), Some(request(2, 6, 0)));
}

#[test]
fn parse_bare_number_is_the_size() {
    assert_eq!(grammar().parse("20"), Some(request(1, 20, 0)));
    assert_eq!(grammar().parse("7+2"), Some(request(1, 7, 2)));
}

#[test]
fn parse_count_needs_a_size_behind_the_d() {
    assert_eq!(grammar().parse("2d0"), Some(request(1, 2, 0)));
    assert_eq!(grammar().parse("2d"), Some(request(1, 2, 0)));
}

#[test]
fn parse_modifier_may_not_start_with_zero() {
    assert_eq!(grammar().parse("2d6+0"), Some(request(2, 6, 0)));
    assert_eq!(grammar().parse("2d6-07"), Some(request(2, 6, 0)));
}

#[test]
fn parse_number_out_of_range_gives_the_default() {
    assert_eq!(grammar().parse("99999999999d6"), Some(request(1, 6, 0)));
    assert_eq!(grammar().parse("3d99999999999"), Some(request(3, 10, 0)));
    assert_eq!(grammar().parse("3d6+99999999999"), Some(request(3, 6, 0)));
    assert_eq!(grammar().parse("3d6-2147483648"), Some(request(3, 6, i32::MIN)));
    assert_eq!(grammar().parse("2147483647d2147483647+2147483647"), Some(request(i32::MAX, i32::MAX, i32::MAX)));
    assert_eq!(grammar().parse("2147483648d6"), Some(request(1, 6, 0)));
}

#[test]
fn find_gives_every_group_of_the_match() {
    let groups = grammar().find("!roll 2d6+3").expect("a match");
    assert_eq!(
        groups,
        vec![
            Some(chars(" 2d6+3")),
            Some(chars("2d")),
            Some(chars("2")),
            Some(chars("6")),
            Some(chars("+3")),
            Some(chars("+3")),
        ]
    );
    let groups = grammar().find("d20").expect("a match");
    assert_eq!(groups, vec![Some(chars("20")), None, None, Some(chars("20")), None, None]);
    assert_eq!(grammar().find("nothing"), None);
}

#[test]
fn convert_capture_reads_or_defaults() {
    let groups = vec![Some(chars("12")), None, Some(chars("x")), Some(chars("-4"))];
    assert_eq!(convert_capture(&groups, 0, 1), 12);
    assert_eq!(convert_capture(&groups, 1, 10), 10);
    assert_eq!(convert_capture(&groups, 2, 7), 7);
    assert_eq!(convert_capture(&groups, 3, 0), -4);
    assert_eq!(convert_capture(&groups, 4, 9), 9);
}

#[test]
fn spec_from_groups_applies_the_defaults() {
    let none: Vec<Option<Vec<char>>> = vec![None, None, None, None, None, None];
    assert_eq!(spec_from_groups(&none), request(1, 10, 0));
    assert_eq!(spec_from_groups(&Vec::new()), request(1, 10, 0));
    let full = vec![None, None, Some(chars("4")), Some(chars("8")), None, Some(chars("-3"))];
    assert_eq!(spec_from_groups(&full), request(4, 8, -3));
}

#[test]
fn spec_from_groups_reads_a_count_below_one_as_missing() {
    let odd = vec![None, None, Some(chars("0")), Some(chars("-6")), None, Some(chars("+2"))];
    assert_eq!(spec_from_groups(&odd), request(1, 10, 2));
}

#[test]
fn read_i32_takes_signs_and_leading_zeros() {
    assert_eq!(read_i32(&chars("0")), Some(0));
    assert_eq!(read_i32(&chars("42")), Some(42));
    assert_eq!(read_i32(&chars("+42")), Some(42));
    assert_eq!(read_i32(&chars("-42")), Some(-42));
    assert_eq!(read_i32(&chars("007")), Some(7));
    assert_eq!(read_i32(&chars("-0")), Some(0));
    assert_eq!(read_i32(&chars("2147483647")), Some(i32::MAX));
    assert_eq!(read_i32(&chars("-2147483648")), Some(i32::MIN));
    assert_eq!(read_i32(&chars("0000000000002147483647")), Some(i32::MAX));
}

#[test]
fn read_i32_refuses_what_is_no_number() {
    assert_eq!(read_i32(&chars("")), None);
    assert_eq!(read_i32(&chars("+")), None);
    assert_eq!(read_i32(&chars("-")), None);
    assert_eq!(read_i32(&chars(" 1")), None);
    assert_eq!(read_i32(&chars("1 ")), None);
    assert_eq!(read_i32(&chars("1a")), None);
    assert_eq!(read_i32(&chars("--1")), None);
    assert_eq!(read_i32(&chars("2147483648")), None);
    assert_eq!(read_i32(&chars("-2147483649")), None);
    assert_eq!(read_i32(&chars("99999999999999999999999999999999")), None);
}

#[test]
fn read_i32_agrees_with_the_standard_parser() {
    let samples = ["5", "-5", "+5", "", "-", "12x", "2147483647", "2147483648", "-2147483648", "٣", "1_0", "00"];
    for text in samples {
        assert_eq!(read_i32(&chars(text)), text.parse::<i32>().ok());
    }
}

#[test]
fn parse_agrees_with_the_pattern_read_group_by_group() {
    let pattern = regex::Regex::new(r"\s*(([1-9][0-9]*)d)?([1-9][0-9]*)(([+-][1-9][0-9]*))?").unwrap();
    let number = |found: &regex::Captures, index: usize, default: i32| match found.get(index) {
        Some(m) => m.as_str().parse::<i32>().unwrap_or(default),
        None => default,
    };
    let g = grammar();
    let samples = [
        "2d6", "1d8+1", "d20-5", "no dice here", "", "!roll 4d4+4", "10", "0", "01d6", "1d06",
        "3d", "d", "+5", "-5", "2d6+", "2d6-0", "12d12-12 and 1d2", "é 3d8", "\t\n 7d7", "2D6",
        "2 d 6", "1d1", "100000d100000+100000", "4294967296d4294967296-4294967296", "a1b2c3",
    ];
    for text in samples {
        let expected = pattern.captures(text).map(|found| RollSpec {
            count: number(&found, 2, 1),
            sides: number(&found, 3, 10),
            modifier: number(&found, 5, 0),
        });
        assert_eq!(g.parse(text), expected, "for {:?}", text);
    }
}

#[test]
fn request_needs_a_die_with_a_face() {
    assert!(request(1, 1, 0).is_valid());
    assert!(request(i32::MAX, i32::MAX, i32::MIN).is_valid());
    assert!(!request(0, 6, 0).is_valid());
    assert!(!request(2, 0, 0).is_valid());
    assert!(!request(-1, -1, 3).is_valid());
}

#[test]
fn grammar_compiles() {
    assert!(Notation::new().is_some());
    let first = Notation::new().expect("the dice grammar compiles");
    let second = Notation::new().expect("the dice grammar compiles");
    assert_eq!(first.parse("4d10-3"), second.parse("4d10-3"));
    assert_eq!(first.find("4d10-3"), second.find("4d10-3"));
}
