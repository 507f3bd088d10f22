use njord::text::{join_strings, push_decimal, push_decimal_nat, push_escaped, push_hex};

fn strings(parts: &[&str]) -> Vec<String> {
    parts.iter().map(|part| part.to_string()).collect()
}

#[test]
fn join_of_nothing_is_empty() {
    assert_eq!(join_strings(&Vec::new(), ", "), "");
}

#[test]
fn join_of_one_part_has_no_separator() {
    assert_eq!(join_strings(&strings(&["id"]), ", "), "id");
}

#[test]
fn join_puts_the_separator_between_neighbours() {
    assert_eq!(join_strings(&strings(&["id", "name", "age"]), ", "), "id, name, age");
    assert_eq!(join_strings(&strings(&["a", "", "c"]), "-"), "a--c");
    assert_eq!(join_strings(&strings(&["a", "b"]), ""), "ab");
}

#[test]
fn join_length_is_parts_and_separators() {
    let parts = strings(&["id", "name", "age"]);
    let total: usize = parts.iter().map(|part| part.len()).sum();
    assert_eq!(join_strings(&parts, ", ").len(), total + (parts.len() - 1) * 2);
}

#[test]
fn escaping_doubles_each_quote() {
    let mut out = String::new();
    push_escaped(&mut out, "O'Brien");
    assert_eq!(out, "O''Brien");
    push_escaped(&mut out, "''");
    assert_eq!(out, "O''Brien''''");
    push_escaped(&mut out, "");
    assert_eq!(out, "O''Brien''''");
}

#[test]
fn escaping_a_text_in_two_pieces_is_escaping_the_whole() {
    let mut whole = String::new();
    push_escaped(&mut whole, "a'b'c");
    let mut pieces = String::new();
    push_escaped(&mut pieces, "a'");
    push_escaped(&mut pieces, "b'c");
    assert_eq!(whole, pieces);
}

#[test]
fn decimal_of_unsigned_numbers() {
    let mut out = String::new();
    push_decimal_nat(&mut out, 0);
    out.push(' ');
    push_decimal_nat(&mut out, 7);
    out.push(' ');
    push_decimal_nat(&mut out, 1090);
    out.push(' ');
    push_decimal_nat(&mut out, u64::MAX);
    assert_eq!(out, "0 7 1090 18446744073709551615");
}

#[test]
fn decimal_of_signed_numbers() {
    let mut out = String::new();
    push_decimal(&mut out, -1);
    out.push(' ');
    push_decimal(&mut out, 305);
    out.push(' ');
    push_decimal(&mut out, i64::MIN);
    assert_eq!(out, "-1 305 -9223372036854775808");
}

#[test]
fn hexadecimal_of_bytes() {
    let mut out = String::from("X'");
    push_hex(&mut out, &vec![0x00, 0x1f, 0xa0, 0xfe]);
    assert_eq!(out, "X'001FA0FE");
}
