use saori_interface_rs::response::to_signed;
use saori_interface_rs::lines::split_lines;
use saori_interface_rs::number::{decimal_string, parse_index};
use saori_interface_rs::slots::put_string_at;
use saori_interface_rs::text::{chars_of, same_text, split_once_separator, strip_prefix};

#[test]
fn lines_are_split_as_std_splits_them() {
    for text in [
        "",
        "a",
        "a\n",
        "a\r\n",
        "a\r",
        "\n",
        "\r\n",
        "\r",
        "\n\n",
        "a\nb",
        "a\r\nb\r\n",
        "a\r\n\r\nb",
        "a\r\r\nb",
        "a\n\rb\r",
        "EXECUTE SAORI/1.0\r\nCharset: UTF-8\r\n\r\n\0",
        "日本語\r\nあ\n\r\n",
    ] {
        let expect: Vec<&str> = text.lines().collect();
        assert_eq!(split_lines(text), expect, "{:?}", text);
    }
    assert_eq!(split_lines("a\r\nb\r"), vec!["a", "b\r"]);
    assert_eq!(split_lines("a\n\n"), vec!["a", ""]);
    assert_eq!(split_lines(""), Vec::<&str>::new());
}

#[test]
fn an_index_is_read_as_std_reads_it() {
    let max = usize::MAX.to_string();
    let over = format!("{}0", max);
    let next = {
        let mut digits: Vec<u8> = max.bytes().collect();
        let last = digits.len() - 1;
        digits[last] += 1;
        String::from_utf8(digits).unwrap()
    };
    let plus_max = format!("+{}", max);
    for text in [
        "0", "7", "10", "007", "+5", "+0", "+", "", "-1", "-0", "++1", "1+", " 1", "1 ", "1_0",
        "0x10", "１", "٣", "12a", "a12", "4294967295", "4294967296", "18446744073709551615",
        "18446744073709551616", &max, &over, &next, &plus_max,
    ] {
        assert_eq!(parse_index(text), text.parse::<usize>().ok(), "{:?}", text);
    }
    assert_eq!(parse_index("42"), Some(42));
    assert_eq!(parse_index("+042"), Some(42));
    assert_eq!(parse_index(&max), Some(usize::MAX));
    assert_eq!(parse_index(&next), None);
}

#[test]
fn a_number_is_written_as_std_writes_it() {
    for n in [
        0usize,
        1,
        9,
        10,
        11,
        99,
        100,
        101,
        200,
        204,
        400,
        500,
        65535,
        1234567890,
        usize::MAX / 10,
        usize::MAX - 1,
        usize::MAX,
    ] {
        assert_eq!(decimal_string(n), n.to_string());
        assert_eq!(parse_index(&decimal_string(n)), Some(n));
    }
    assert_eq!(decimal_string(1234567890), "1234567890");
}

#[test]
fn a_prefix_is_stripped_as_std_strips_it() {
    for (line, prefix) in [
        ("Charset: UTF-8", "Charset: "),
        ("Charset: ", "Charset: "),
        ("Charset:", "Charset: "),
        ("charset: UTF-8", "Charset: "),
        ("", "Charset: "),
        ("", ""),
        ("abc", ""),
        ("Argument2: あああ", "Argument"),
        ("あいう", "あい"),
        ("あいう", "あう"),
        (" Sender: x", "Sender: "),
    ] {
        assert_eq!(strip_prefix(line, prefix), line.strip_prefix(prefix));
    }
    assert_eq!(strip_prefix("Sender: materia", "Sender: "), Some("materia"));
    assert_eq!(strip_prefix("Sender", "Sender: "), None);
}

#[test]
fn a_text_is_split_at_its_first_separator_as_std_splits_it() {
    for text in [
        "2: あああ",
        "2 aaa",
        "aaa: aaa",
        ": ",
        ":",
        " :",
        "",
        "a:b",
        "a::  b",
        "a: b: c",
        ": : ",
        "0:: x",
        "あ: い",
        "x: ",
        ": x",
    ] {
        assert_eq!(split_once_separator(text), text.split_once(": "), "{:?}", text);
    }
    assert_eq!(split_once_separator("1: a: b"), Some(("1", "a: b")));
    assert_eq!(split_once_separator("1:a"), None);
}

#[test]
fn texts_are_compared_by_their_characters() {
    assert!(same_text("", ""));
    assert!(same_text("SAORI/1.0", "SAORI/1.0"));
    assert!(same_text("あい", "あい"));
    assert!(!same_text("SAORI/1.0", "SAORI/1.1"));
    assert!(!same_text("SAORI/1.0", "SAORI/1.0 "));
    assert!(!same_text("a", ""));
    assert!(!same_text("あ", "い"));
    assert_eq!(chars_of("aあ\0"), vec!['a', 'あ', '\0']);
    assert_eq!(chars_of(""), Vec::<char>::new());
}

#[test]
fn a_list_grows_by_empty_strings_up_to_the_index() {
    let mut list: Vec<String> = Vec::new();
    put_string_at(&mut list, 0, "a".to_string());
    assert_eq!(list, vec!["a".to_string()]);
    put_string_at(&mut list, 3, "d".to_string());
    assert_eq!(
        list,
        vec!["a".to_string(), String::new(), String::new(), "d".to_string()]
    );
    put_string_at(&mut list, 1, "b".to_string());
    put_string_at(&mut list, 3, "e".to_string());
    assert_eq!(
        list,
        vec!["a".to_string(), "b".to_string(), String::new(), "e".to_string()]
    );
}

#[test]
fn bytes_are_read_as_signed_numbers() {
    assert_eq!(
        to_signed(&vec![0u8, 1, 127, 128, 129, 255]),
        vec![0i8, 1, 127, -128, -127, -1]
    );
    let all: Vec<u8> = (0..=255u8).collect();
    let expect: Vec<i8> = all.iter().map(|b| *b as i8).collect();
    assert_eq!(to_signed(&all), expect);
}
