use elastic_types::parsers::{shift, shift_while, take_first, take_while1};

#[test]
fn shift_while_skips_matching_prefix() {
    let rest = shift_while(b"aaab{c}", |c| c == b'a');
    assert_eq!(rest, b"b{c}");
}

#[test]
fn shift_while_on_all_matching() {
    let rest = shift_while(b"aaa", |c| c == b'a');
    assert_eq!(rest, b"");
}

#[test]
fn take_while1_takes_text() {
    let (rest, taken) = take_while1(b"index}/x", |c| c != b'}');
    assert_eq!(taken, "index");
    assert_eq!(rest, b"}/x");
}

#[test]
fn take_while1_takes_first_byte_always() {
    let (rest, taken) = take_while1(b"}ab", |c| c != b'}');
    assert_eq!(taken, "}ab");
    assert_eq!(rest, b"");
    let (rest, taken) = take_while1(b"}}", |c| c == b'x');
    assert_eq!(taken, "}");
    assert_eq!(rest, b"}");
}

#[test]
fn take_first_finds_byte() {
    let (rest, found) = take_first(b"ab{cd", |c| c == b'{');
    assert_eq!(found, b'{');
    assert_eq!(rest, b"{cd");
}

#[test]
fn take_first_stops_at_last_byte() {
    let (rest, found) = take_first(b"abc", |c| c == b'{');
    assert_eq!(found, b'c');
    assert_eq!(rest, b"c");
}

#[test]
fn shift_drops_bytes() {
    assert_eq!(shift(b"abcd", 2), b"cd");
    assert_eq!(shift(b"abcd", 4), b"");
    assert_eq!(shift(b"abcd", 9), b"");
}
