use secprobe::text::{chars_of, push_decimal, push_padded_decimal, split_lines, str_eq};

#[test]
fn lines_like_std() {
    let cases = ["", "a", "a\n", "a\nb", "foo\r\nbar\n\nbaz\r", "\n\n", "x\r\r\ny", "\r", "\r\n", "日本\n語"];
    for c in cases {
        let mine = split_lines(c);
        let std: Vec<String> = c.lines().map(|l| l.to_string()).collect();
        assert_eq!(mine, std, "{c:?}");
    }
}

#[test]
fn lines_split_example() {
    assert_eq!(split_lines("foo\r\nbar\n\nbaz\r"), vec!["foo", "bar", "", "baz\r"]);
    assert!(split_lines("").is_empty());
}

#[test]
fn decimal_and_padding() {
    let mut s = String::new();
    push_decimal(&mut s, 0);
    assert_eq!(s, "0");
    let mut s = String::from("n=");
    push_decimal(&mut s, 18446744073709551615);
    assert_eq!(s, "n=18446744073709551615");
    let mut s = String::new();
    push_padded_decimal(&mut s, 7, 4, ' ');
    assert_eq!(s, "   7");
    let mut s = String::new();
    push_padded_decimal(&mut s, 12345, 4, '0');
    assert_eq!(s, "12345");
    let mut s = String::new();
    push_padded_decimal(&mut s, 42, 4, '0');
    assert_eq!(s, format!("{:04}", 42));
}

#[test]
fn char_helpers() {
    assert_eq!(chars_of("añb"), vec!['a', 'ñ', 'b']);
    assert!(str_eq("abc", "abc"));
    assert!(!str_eq("abc", "abd"));
    assert!(!str_eq("abc", "ab"));
    assert!(str_eq("", ""));
}
