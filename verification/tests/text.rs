use editor::text::{char_range, chars_string, str_chars};

#[test]
fn string_chars_round_trip() {
    let v = str_chars("Bonjour les amis");
    assert_eq!(v.len(), 16);
    assert_eq!(chars_string(&v), String::from("Bonjour les amis"));
}

#[test]
fn chars_string_builds_from_characters() {
    // Fails if building the string dropped or reordered characters.
    let v = vec!['é', 'b', 'c'];
    assert_eq!(chars_string(&v), String::from("ébc"));
    assert_eq!(chars_string(&[]), String::new());
}

#[test]
fn char_range_is_the_half_open_slice() {
    let v = str_chars("abcdef");
    assert_eq!(chars_string(&char_range(&v, 1, 4)), String::from("bcd"));
    assert_eq!(chars_string(&char_range(&v, 3, 3)), String::new());
}
