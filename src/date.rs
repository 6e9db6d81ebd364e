//! Dates and their text formats.
//!
//! A date is held as UTC calendar fields ([`DateValue`]). A format turns a date
//! into text and back: three fixed layouts of digits and separators, and
//! milliseconds since the epoch. The epoch format hands the conversion between
//! seconds and calendar fields to chrono.

use vstd::prelude::*;
use vstd::string::*;
use std::marker::PhantomData;
use chrono::{Datelike, Timelike};
use crate::text::{
    all_digits, digits_value, int_text_value, is_digit,
    lemma_digits_value_push, lemma_padded, lemma_pow10_values, padded, parse_i64, pow10,
    push_padded, signed_string, signed_text,
};

verus! {

/// The earliest year that a date can hold.
pub const MIN_YEAR: i32 = -262143;

/// The latest year that a date can hold.
pub const MAX_YEAR: i32 = 262142;

/// The Unix timestamp of the first second of `MIN_YEAR`.
pub const MIN_TIMESTAMP: i64 = -8334601228800;

/// The Unix timestamp of the last second of `MAX_YEAR`.
pub const MAX_TIMESTAMP: i64 = 8210266876799;

pub open spec fn is_leap_year(y: int) -> bool {
    (y % 4 == 0 && y % 100 != 0) || y % 400 == 0
}

pub open spec fn days_in_month(y: int, m: int) -> int {
    if m == 2 {
        if is_leap_year(y) {
            29
        } else {
            28
        }
    } else if m == 4 || m == 6 || m == 9 || m == 11 {
        30
    } else {
        31
    }
}

/// A day of the proleptic Gregorian calendar within the supported years.
pub open spec fn calendar_ok(y: int, m: int, d: int) -> bool {
    &&& MIN_YEAR <= y <= MAX_YEAR
    &&& 1 <= m <= 12
    &&& 1 <= d <= days_in_month(y, m)
}

/// A UTC date and time, to the nanosecond.
#[derive(Clone, Copy, Debug, PartialEq, Eq, Structural)]
pub struct DateValue {
    pub year: i32,
    pub month: u32,
    pub day: u32,
    pub hour: u32,
    pub minute: u32,
    pub second: u32,
    pub nanosecond: u32,
}

impl DateValue {
    /// The fields name a real instant.
    pub open spec fn wf(&self) -> bool {
        &&& calendar_ok(self.year as int, self.month as int, self.day as int)
        &&& self.hour < 24
        &&& self.minute < 60
        &&& self.second < 60
        &&& self.nanosecond < 1_000_000_000
    }

    pub fn is_valid(&self) -> (r: bool)
        ensures
            r == self.wf(),
    {
        if self.year < MIN_YEAR || self.year > MAX_YEAR || self.month < 1 || self.month > 12 {
            return false;
        }
        let y: i64 = self.year as i64 + 400000;
        let leap = (y % 4 == 0 && y % 100 != 0) || y % 400 == 0;
        assert(leap == is_leap_year(self.year as int));
        let m = self.month;
        let dim: u32 = if m == 2 {
            if leap {
                29
            } else {
                28
            }
        } else if m == 4 || m == 6 || m == 9 || m == 11 {
            30
        } else {
            31
        };
        1 <= self.day && self.day <= dim && self.hour < 24 && self.minute < 60 && self.second
            < 60 && self.nanosecond < 1_000_000_000
    }
}

/// A date or time value that failed to parse: the text and the format tried.
#[derive(Debug)]
pub struct ParseError {
    pub input: String,
    pub format: String,
}

fn parse_error(input: &str, format: &str) -> (r: ParseError)
    ensures
        r.input@ == input@,
        r.format@ == format@,
{
    ParseError { input: String::from_str(input), format: String::from_str(format) }
}

/// A text encoding of dates.
pub trait DateFormat {
    /// The name under which the search engine knows the format.
    spec fn spec_name() -> Seq<char>;

    /// The date that a text encodes, if it encodes one.
    spec fn spec_parse(s: Seq<char>) -> Option<DateValue>;

    /// The text of a date.
    spec fn spec_format(d: DateValue) -> Seq<char>;

    fn name() -> (r: &'static str)
        ensures
            r@ == Self::spec_name(),
    ;

    fn parse(s: &str) -> (r: Result<DateValue, ParseError>)
        ensures
            match Self::spec_parse(s@) {
                Some(d) => r matches Ok(v) && v == d && d.wf(),
                None => r matches Err(e) && e.input@ == s@ && e.format@ == Self::spec_name(),
            },
    ;

    fn format(d: &DateValue) -> (r: String)
        requires
            d.wf(),
        ensures
            r@ == Self::spec_format(*d),
    ;
}

// Fixed layouts of digits and separators.

/// One element of a fixed layout: a zero-padded number or a literal character.
#[derive(Clone, Copy, PartialEq, Eq, Structural)]
pub enum Piece {
    Year,
    Month,
    Day,
    Hour,
    Minute,
    Second,
    Millis,
    Lit(char),
}

pub open spec fn piece_width(p: Piece) -> int {
    match p {
        Piece::Year => 4,
        Piece::Millis => 3,
        Piece::Lit(_) => 1,
        _ => 2,
    }
}

/// Four digits for the years 0 to 9999; a sign before others.
pub open spec fn year_text(y: int) -> Seq<char> {
    if 0 <= y <= 9999 {
        padded(y as nat, 4)
    } else if y > 9999 {
        seq!['+'] + padded(y as nat, 4)
    } else {
        seq!['-'] + padded((-y) as nat, 4)
    }
}

/// The number that a piece shows of a date.
pub open spec fn piece_value(p: Piece, d: DateValue) -> int {
    match p {
        Piece::Year => d.year as int,
        Piece::Month => d.month as int,
        Piece::Day => d.day as int,
        Piece::Hour => d.hour as int,
        Piece::Minute => d.minute as int,
        Piece::Second => d.second as int,
        Piece::Millis => d.nanosecond as int / 1_000_000,
        Piece::Lit(_) => 0,
    }
}

pub open spec fn piece_text(p: Piece, d: DateValue) -> Seq<char> {
    match p {
        Piece::Year => year_text(d.year as int),
        Piece::Lit(c) => seq![c],
        _ => padded(piece_value(p, d) as nat, piece_width(p) as nat),
    }
}

/// The text of the pieces from `k` on.
pub open spec fn layout_text(l: Seq<Piece>, k: int, d: DateValue) -> Seq<char>
    decreases l.len() - k,
{
    if k < 0 || k >= l.len() {
        seq![]
    } else {
        piece_text(l[k], d) + layout_text(l, k + 1, d)
    }
}

/// Sets the field that a piece shows to `v`.
pub open spec fn set_piece(acc: DateValue, p: Piece, v: int) -> DateValue {
    match p {
        Piece::Year => DateValue { year: v as i32, ..acc },
        Piece::Month => DateValue { month: v as u32, ..acc },
        Piece::Day => DateValue { day: v as u32, ..acc },
        Piece::Hour => DateValue { hour: v as u32, ..acc },
        Piece::Minute => DateValue { minute: v as u32, ..acc },
        Piece::Second => DateValue { second: v as u32, ..acc },
        Piece::Millis => DateValue { nanosecond: (v * 1_000_000) as u32, ..acc },
        Piece::Lit(_) => acc,
    }
}

/// Reads the pieces from `k` on out of `s` from position `pos`, into `acc`.
pub open spec fn layout_read(
    l: Seq<Piece>,
    k: int,
    s: Seq<char>,
    pos: int,
    acc: DateValue,
) -> Option<DateValue>
    decreases l.len() - k,
{
    if k < 0 || k >= l.len() {
        if pos == s.len() {
            Some(acc)
        } else {
            None
        }
    } else {
        match l[k] {
            Piece::Lit(c) => if 0 <= pos < s.len() && s[pos] == c {
                layout_read(l, k + 1, s, pos + 1, acc)
            } else {
                None
            },
            p => {
                let w = piece_width(p);
                if 0 <= pos && pos + w <= s.len() && all_digits(s.subrange(pos, pos + w)) {
                    layout_read(l, k + 1, s, pos + w, set_piece(acc, p, digits_value(s.subrange(pos, pos + w))))
                } else {
                    None
                }
            },
        }
    }
}

/// The fields that a layout leaves unset.
pub open spec fn blank() -> DateValue {
    DateValue { year: 0, month: 1, day: 1, hour: 0, minute: 0, second: 0, nanosecond: 0 }
}

/// The date that a text in a layout encodes: every piece read, nothing left
/// over, and the fields a real instant.
pub open spec fn layout_parse(l: Seq<Piece>, s: Seq<char>) -> Option<DateValue> {
    match layout_read(l, 0, s, 0, blank()) {
        Some(d) => if d.wf() {
            Some(d)
        } else {
            None
        },
        None => None,
    }
}

/// The fields of `d` that the pieces from `k` on show, set on `acc`.
pub open spec fn layout_apply(l: Seq<Piece>, k: int, d: DateValue, acc: DateValue) -> DateValue
    decreases l.len() - k,
{
    if k < 0 || k >= l.len() {
        acc
    } else {
        layout_apply(l, k + 1, d, set_piece(acc, l[k], piece_value(l[k], d)))
    }
}

proof fn lemma_digits_below_pow10(s: Seq<char>)
    requires
        all_digits(s),
    ensures
        0 <= digits_value(s) < pow10(s.len()),
    decreases s.len(),
{
    if s.len() > 0 {
        let p = s.drop_last();
        assert(all_digits(p)) by {
            assert forall|i: int| 0 <= i < p.len() implies is_digit(#[trigger] p[i]) by {
                assert(p[i] == s[i]);
            }
        }
        lemma_digits_below_pow10(p);
        assert(is_digit(s[s.len() - 1]));
        assert(pow10(s.len()) == 10 * pow10(p.len()));
    }
}

proof fn lemma_split_tail(s: Seq<char>, pos: int, a: Seq<char>, b: Seq<char>)
    requires
        0 <= pos <= s.len(),
        s.subrange(pos, s.len() as int) == a + b,
    ensures
        pos + a.len() <= s.len(),
        s.subrange(pos, pos + a.len()) == a,
        s.subrange(pos + a.len(), s.len() as int) == b,
{
    let t = s.subrange(pos, s.len() as int);
    assert(t.len() == a.len() + b.len());
    assert forall|i: int| 0 <= i < a.len() implies #[trigger] s.subrange(pos, pos + a.len())[i]
        == a[i] by {
        assert(t[i] == (a + b)[i]);
    }
    assert forall|i: int| 0 <= i < b.len() implies #[trigger] s.subrange(
        pos + a.len(),
        s.len() as int,
    )[i] == b[i] by {
        assert(t[i + a.len()] == (a + b)[i + a.len()]);
    }
    assert(s.subrange(pos, pos + a.len()) =~= a);
    assert(s.subrange(pos + a.len(), s.len() as int) =~= b);
}

/// Reading a layout's own text back sets the fields that it shows.
proof fn lemma_layout_read_text(
    l: Seq<Piece>,
    k: int,
    d: DateValue,
    s: Seq<char>,
    pos: int,
    acc: DateValue,
)
    requires
        0 <= k <= l.len(),
        0 <= pos <= s.len(),
        s.subrange(pos, s.len() as int) == layout_text(l, k, d),
        d.wf(),
        0 <= d.year <= 9999,
    ensures
        layout_read(l, k, s, pos, acc) == Some(layout_apply(l, k, d, acc)),
    decreases l.len() - k,
{
    if k < l.len() {
        let p = l[k];
        let t = piece_text(p, d);
        let rest = layout_text(l, k + 1, d);
        assert(layout_text(l, k, d) == t + rest);
        match p {
            Piece::Lit(c) => {
                assert(t =~= seq![c]);
                assert((t + rest).len() == rest.len() + 1);
                assert(pos < s.len());
                assert(s.subrange(pos, s.len() as int)[0] == s[pos]);
                assert((t + rest)[0] == c);
                lemma_split_tail(s, pos, t, rest);
                lemma_layout_read_text(l, k + 1, d, s, pos + 1, acc);
            },
            _ => {
                let v = piece_value(p, d);
                let w = piece_width(p);
                lemma_pow10_values();
                assert(0 <= v < pow10(w as nat));
                lemma_padded(v as nat, w as nat);
                assert(t.len() == w);
                lemma_split_tail(s, pos, t, rest);
                assert(t == padded(v as nat, w as nat));
                lemma_layout_read_text(l, k + 1, d, s, pos + w, set_piece(acc, p, v));
            },
        }
    } else {
        assert(s.subrange(pos, s.len() as int).len() == 0);
    }
}

proof fn lemma_layout_round_trip(l: Seq<Piece>, d: DateValue)
    requires
        d.wf(),
        0 <= d.year <= 9999,
        layout_apply(l, 0, d, blank()) == d,
    ensures
        layout_parse(l, layout_text(l, 0, d)) == Some(d),
{
    let s = layout_text(l, 0, d);
    assert(s.subrange(0, s.len() as int) =~= s);
    lemma_layout_read_text(l, 0, d, s, 0, blank());
}

fn push_piece(s: &mut String, p: Piece, d: &DateValue)
    requires
        d.wf(),
        p matches Piece::Lit(c) ==> is_separator(c),
    ensures
        final(s)@ == old(s)@ + piece_text(p, *d),
{
    match p {
        Piece::Year => {
            if d.year >= 0 && d.year <= 9999 {
                push_padded(s, d.year as u128, 4);
            } else if d.year > 9999 {
                proof {
                    reveal_strlit("+");
                }
                let ghost s0 = s@;
                s.append("+");
                push_padded(s, d.year as u128, 4);
                assert(s@ =~= s0 + year_text(d.year as int));
            } else {
                proof {
                    reveal_strlit("-");
                }
                let ghost s0 = s@;
                s.append("-");
                push_padded(s, (0i64 - d.year as i64) as u128, 4);
                assert(s@ =~= s0 + year_text(d.year as int));
            }
        },
        Piece::Month => push_padded(s, d.month as u128, 2),
        Piece::Day => push_padded(s, d.day as u128, 2),
        Piece::Hour => push_padded(s, d.hour as u128, 2),
        Piece::Minute => push_padded(s, d.minute as u128, 2),
        Piece::Second => push_padded(s, d.second as u128, 2),
        Piece::Millis => push_padded(s, (d.nanosecond / 1_000_000) as u128, 3),
        Piece::Lit(c) => {
            let one = char_str(c);
            s.append(one);
        },
    }
}

/// Writes a date in a layout.
fn format_layout(l: &Vec<Piece>, d: &DateValue) -> (r: String)
    requires
        d.wf(),
        layout_ok(l@),
    ensures
        r@ == layout_text(l@, 0, *d),
{
    let mut s = String::new();
    let mut k: usize = 0;
    while k < l.len()
        invariant
            d.wf(),
            layout_ok(l@),
            k <= l@.len(),
            s@ + layout_text(l@, k as int, *d) == layout_text(l@, 0, *d),
        decreases l@.len() - k,
    {
        let ghost s0 = s@;
        push_piece(&mut s, l[k], d);
        assert(layout_text(l@, k as int, *d) == piece_text(l@[k as int], *d) + layout_text(
            l@,
            k + 1,
            *d,
        ));
        assert(s0 + layout_text(l@, k as int, *d) =~= s@ + layout_text(l@, k + 1, *d));
        k = k + 1;
    }
    assert(s@ + layout_text(l@, k as int, *d) =~= s@);
    s
}

/// Reads `w` digits of `s` from `pos`, if there are `w` digits there.
fn read_digits(s: &str, n: usize, pos: usize, w: usize) -> (r: Option<u32>)
    requires
        n == s@.len(),
        w <= 4,
    ensures
        match r {
            Some(v) => pos + w <= n && all_digits(s@.subrange(pos as int, pos + w)) && v
                == digits_value(s@.subrange(pos as int, pos + w)),
            None => !(pos + w <= n && all_digits(s@.subrange(pos as int, pos + w))),
        },
{
    if pos > n || w > n - pos {
        return None;
    }
    let mut v: u32 = 0;
    let mut i: usize = 0;
    while i < w
        invariant
            n == s@.len(),
            pos + w <= n,
            w <= 4,
            i <= w,
            all_digits(s@.subrange(pos as int, pos + i)),
            v == digits_value(s@.subrange(pos as int, pos + i)),
            v < pow10(i as nat),
        decreases w - i,
    {
        let c = s.get_char(pos + i);
        if !('0' <= c && c <= '9') {
            assert(s@.subrange(pos as int, pos + w)[i as int] == c);
            return None;
        }
        let ghost pre = s@.subrange(pos as int, pos + i);
        assert(s@.subrange(pos as int, pos + i + 1) =~= pre.push(c));
        proof {
            lemma_digits_value_push(pre, c);
            lemma_pow10_values();
            lemma_digits_below_pow10(pre.push(c));
            assert(pow10((i + 1) as nat) == 10 * pow10(i as nat));
            assert(pow10(i as nat) <= 1000) by {
                if i == 0 {
                } else if i == 1 {
                } else if i == 2 {
                } else {
                }
            }
        }
        v = v * 10 + (c as u32 - 48);
        i = i + 1;
    }
    Some(v)
}

fn set_field(acc: DateValue, p: Piece, v: u32) -> (r: DateValue)
    requires
        v < 10000,
    ensures
        r == set_piece(acc, p, v as int),
{
    let mut a = acc;
    match p {
        Piece::Year => a.year = v as i32,
        Piece::Month => a.month = v,
        Piece::Day => a.day = v,
        Piece::Hour => a.hour = v,
        Piece::Minute => a.minute = v,
        Piece::Second => a.second = v,
        Piece::Millis => a.nanosecond = (v as u64 * 1_000_000) as u32,
        Piece::Lit(_) => {},
    }
    a
}

fn piece_width_of(p: Piece) -> (r: usize)
    ensures
        r == piece_width(p),
{
    match p {
        Piece::Year => 4,
        Piece::Millis => 3,
        Piece::Lit(_) => 1,
        _ => 2,
    }
}

/// Reads a date in a layout.
fn parse_layout(l: &Vec<Piece>, s: &str) -> (r: Option<DateValue>)
    ensures
        r == layout_parse(l@, s@),
{
    let n = s.unicode_len();
    let mut k: usize = 0;
    let mut pos: usize = 0;
    let mut acc = DateValue {
        year: 0,
        month: 1,
        day: 1,
        hour: 0,
        minute: 0,
        second: 0,
        nanosecond: 0,
    };
    while k < l.len()
        invariant
            n == s@.len(),
            k <= l@.len(),
            pos <= n,
            layout_read(l@, 0, s@, 0, blank()) == layout_read(l@, k as int, s@, pos as int, acc),
        decreases l@.len() - k,
    {
        let p = l[k];
        match p {
            Piece::Lit(c) => {
                if pos < n && s.get_char(pos) == c {
                    pos = pos + 1;
                } else {
                    return None;
                }
            },
            _ => {
                let w = piece_width_of(p);
                match read_digits(s, n, pos, w) {
                    Some(v) => {
                        proof {
                            lemma_digits_below_pow10(s@.subrange(pos as int, pos + w));
                            lemma_pow10_values();
                        }
                        acc = set_field(acc, p, v);
                        pos = pos + w;
                    },
                    None => {
                        return None;
                    },
                }
            },
        }
        k = k + 1;
    }
    if pos == n && acc.is_valid() {
        Some(acc)
    } else {
        None
    }
}

/// The separators that layouts use.
pub open spec fn is_separator(c: char) -> bool {
    c == '-' || c == ':' || c == 'T' || c == 'Z' || c == '.'
}

/// Every literal piece of the layout is a separator.
pub open spec fn layout_ok(l: Seq<Piece>) -> bool {
    forall|i: int| 0 <= i < l.len() ==> (#[trigger] l[i] matches Piece::Lit(c) ==> is_separator(c))
}

fn char_str(c: char) -> (r: &'static str)
    requires
        is_separator(c),
    ensures
        r@ == seq![c],
{
    proof {
        reveal_strlit("-");
        reveal_strlit(":");
        reveal_strlit("T");
        reveal_strlit("Z");
        reveal_strlit(".");
    }
    if c == '-' {
        "-"
    } else if c == ':' {
        ":"
    } else if c == 'T' {
        "T"
    } else if c == 'Z' {
        "Z"
    } else {
        "."
    }
}

// The formats.

pub open spec fn chrono_layout() -> Seq<Piece> {
    seq![
        Piece::Year,
        Piece::Lit('-'),
        Piece::Month,
        Piece::Lit('-'),
        Piece::Day,
        Piece::Lit('T'),
        Piece::Hour,
        Piece::Lit(':'),
        Piece::Minute,
        Piece::Lit(':'),
        Piece::Second,
        Piece::Lit('Z'),
    ]
}

pub open spec fn basic_no_millis_layout() -> Seq<Piece> {
    seq![
        Piece::Year,
        Piece::Month,
        Piece::Day,
        Piece::Lit('T'),
        Piece::Hour,
        Piece::Minute,
        Piece::Second,
        Piece::Lit('Z'),
    ]
}

pub open spec fn basic_layout() -> Seq<Piece> {
    seq![
        Piece::Year,
        Piece::Month,
        Piece::Day,
        Piece::Lit('T'),
        Piece::Hour,
        Piece::Minute,
        Piece::Second,
        Piece::Lit('.'),
        Piece::Millis,
        Piece::Lit('Z'),
    ]
}

fn chrono_layout_vec() -> (r: Vec<Piece>)
    ensures
        r@ == chrono_layout(),
        layout_ok(r@),
{
    let r = vec![
        Piece::Year,
        Piece::Lit('-'),
        Piece::Month,
        Piece::Lit('-'),
        Piece::Day,
        Piece::Lit('T'),
        Piece::Hour,
        Piece::Lit(':'),
        Piece::Minute,
        Piece::Lit(':'),
        Piece::Second,
        Piece::Lit('Z'),
    ];
    assert(r@ =~= chrono_layout());
    r
}

fn basic_no_millis_layout_vec() -> (r: Vec<Piece>)
    ensures
        r@ == basic_no_millis_layout(),
        layout_ok(r@),
{
    let r = vec![
        Piece::Year,
        Piece::Month,
        Piece::Day,
        Piece::Lit('T'),
        Piece::Hour,
        Piece::Minute,
        Piece::Second,
        Piece::Lit('Z'),
    ];
    assert(r@ =~= basic_no_millis_layout());
    r
}

fn basic_layout_vec() -> (r: Vec<Piece>)
    ensures
        r@ == basic_layout(),
        layout_ok(r@),
{
    let r = vec![
        Piece::Year,
        Piece::Month,
        Piece::Day,
        Piece::Lit('T'),
        Piece::Hour,
        Piece::Minute,
        Piece::Second,
        Piece::Lit('.'),
        Piece::Millis,
        Piece::Lit('Z'),
    ];
    assert(r@ =~= basic_layout());
    r
}

/// The `yyyy-MM-dd'T'HH:mm:ssZ` format, to the second.
#[derive(PartialEq, Eq, Debug, Default, Clone, Copy)]
pub struct ChronoFormat;

impl DateFormat for ChronoFormat {
    open spec fn spec_name() -> Seq<char> {
        "yyyy-MM-dd'T'HH:mm:ssZ"@
    }

    open spec fn spec_parse(s: Seq<char>) -> Option<DateValue> {
        layout_parse(chrono_layout(), s)
    }

    open spec fn spec_format(d: DateValue) -> Seq<char> {
        layout_text(chrono_layout(), 0, d)
    }

    fn name() -> (r: &'static str) {
        "yyyy-MM-dd'T'HH:mm:ssZ"
    }

    fn parse(s: &str) -> (r: Result<DateValue, ParseError>) {
        match parse_layout(&chrono_layout_vec(), s) {
            Some(d) => Ok(d),
            None => Err(parse_error(s, Self::name())),
        }
    }

    fn format(d: &DateValue) -> (r: String) {
        format_layout(&chrono_layout_vec(), d)
    }
}

/// The `basic_date_time_no_millis` format (`yyyyMMdd'T'HHmmssZ`), to the second.
#[derive(PartialEq, Eq, Debug, Default, Clone, Copy)]
pub struct BasicDateTimeNoMillis;

impl DateFormat for BasicDateTimeNoMillis {
    open spec fn spec_name() -> Seq<char> {
        "basic_date_time_no_millis"@
    }

    open spec fn spec_parse(s: Seq<char>) -> Option<DateValue> {
        layout_parse(basic_no_millis_layout(), s)
    }

    open spec fn spec_format(d: DateValue) -> Seq<char> {
        layout_text(basic_no_millis_layout(), 0, d)
    }

    fn name() -> (r: &'static str) {
        "basic_date_time_no_millis"
    }

    fn parse(s: &str) -> (r: Result<DateValue, ParseError>) {
        match parse_layout(&basic_no_millis_layout_vec(), s) {
            Some(d) => Ok(d),
            None => Err(parse_error(s, Self::name())),
        }
    }

    fn format(d: &DateValue) -> (r: String) {
        format_layout(&basic_no_millis_layout_vec(), d)
    }
}

/// The `basic_date_time` format (`yyyyMMdd'T'HHmmss.SSSZ`), to the millisecond.
#[derive(PartialEq, Eq, Debug, Default, Clone, Copy)]
pub struct BasicDateTime;

impl DateFormat for BasicDateTime {
    open spec fn spec_name() -> Seq<char> {
        "basic_date_time"@
    }

    open spec fn spec_parse(s: Seq<char>) -> Option<DateValue> {
        layout_parse(basic_layout(), s)
    }

    open spec fn spec_format(d: DateValue) -> Seq<char> {
        layout_text(basic_layout(), 0, d)
    }

    fn name() -> (r: &'static str) {
        "basic_date_time"
    }

    fn parse(s: &str) -> (r: Result<DateValue, ParseError>) {
        match parse_layout(&basic_layout_vec(), s) {
            Some(d) => Ok(d),
            None => Err(parse_error(s, Self::name())),
        }
    }

    fn format(d: &DateValue) -> (r: String) {
        format_layout(&basic_layout_vec(), d)
    }
}

/// The format that dates use unless a field says otherwise.
pub type DefaultFormat = BasicDateTime;

/// Reading a date back from its text gives the date, for every date that the
/// format can show: years 0 to 9999, and no fraction of a second.
pub proof fn lemma_chrono_format_round_trip(d: DateValue)
    requires
        d.wf(),
        0 <= d.year <= 9999,
        d.nanosecond == 0,
    ensures
        ChronoFormat::spec_parse(ChronoFormat::spec_format(d)) == Some(d),
{
    reveal_with_fuel(layout_apply, 13);
    assert(layout_apply(chrono_layout(), 0, d, blank()) == d);
    lemma_layout_round_trip(chrono_layout(), d);
}

/// Reading a date back from its text gives the date, for every date that the
/// format can show: years 0 to 9999, and no fraction of a second.
pub proof fn lemma_basic_date_time_no_millis_round_trip(d: DateValue)
    requires
        d.wf(),
        0 <= d.year <= 9999,
        d.nanosecond == 0,
    ensures
        BasicDateTimeNoMillis::spec_parse(BasicDateTimeNoMillis::spec_format(d)) == Some(d),
{
    reveal_with_fuel(layout_apply, 9);
    assert(layout_apply(basic_no_millis_layout(), 0, d, blank()) == d);
    lemma_layout_round_trip(basic_no_millis_layout(), d);
}

/// Reading a date back from its text gives the date, for every date that the
/// format can show: years 0 to 9999, and whole milliseconds.
pub proof fn lemma_basic_date_time_round_trip(d: DateValue)
    requires
        d.wf(),
        0 <= d.year <= 9999,
        d.nanosecond % 1_000_000 == 0,
    ensures
        BasicDateTime::spec_parse(BasicDateTime::spec_format(d)) == Some(d),
{
    reveal_with_fuel(layout_apply, 11);
    assert((d.nanosecond as int / 1_000_000) * 1_000_000 == d.nanosecond);
    assert(layout_apply(basic_layout(), 0, d, blank()) == d);
    lemma_layout_round_trip(basic_layout(), d);
}

// Milliseconds since the epoch.

/// The UTC calendar date and time `secs` seconds after the epoch, as chrono
/// computes it, or `None` outside chrono's range.
pub uninterp spec fn utc_fields_of(secs: int) -> Option<(int, int, int, int, int, int)>;

/// The seconds from the epoch to a UTC calendar date and time, as chrono
/// computes them.
pub uninterp spec fn timestamp_of(
    year: int,
    month: int,
    day: int,
    hour: int,
    minute: int,
    second: int,
) -> int;

pub open spec fn fields_view(r: Option<(i32, u32, u32, u32, u32, u32)>) -> Option<
    (int, int, int, int, int, int),
> {
    match r {
        Some(f) => Some((f.0 as int, f.1 as int, f.2 as int, f.3 as int, f.4 as int, f.5 as int)),
        None => None,
    }
}

/// Relies on chrono's `DateTime::from_timestamp` (with no sub-second part) and
/// its calendar accessors: the UTC date and time of a Unix timestamp. It is
/// `None` exactly when the day falls outside chrono's years, that is outside
/// `MIN_TIMESTAMP..=MAX_TIMESTAMP` (chrono's day number of the timestamp must
/// give a date of a year between `MIN_YEAR` and `MAX_YEAR`). A chrono date is a
/// real calendar day, and its time has no leap second here.
#[verifier::external_body]
fn utc_fields(secs: i64) -> (r: Option<(i32, u32, u32, u32, u32, u32)>)
    ensures
        fields_view(r) == utc_fields_of(secs as int),
        r is Some <==> MIN_TIMESTAMP <= secs <= MAX_TIMESTAMP,
        r matches Some(f) ==> calendar_ok(f.0 as int, f.1 as int, f.2 as int) && f.3 < 24 && f.4
            < 60 && f.5 < 60,
{
    match chrono::DateTime::from_timestamp(secs, 0) {
        Some(t) => Some((t.year(), t.month(), t.day(), t.hour(), t.minute(), t.second())),
        None => None,
    }
}

/// The fields of a date to the second.
pub open spec fn date_fields(d: DateValue) -> (int, int, int, int, int, int) {
    (
        d.year as int,
        d.month as int,
        d.day as int,
        d.hour as int,
        d.minute as int,
        d.second as int,
    )
}

/// Relies on chrono's `NaiveDate::from_ymd_opt`, `NaiveDate::and_hms_opt` and
/// `DateTime::timestamp`: the Unix timestamp of a UTC date and time. Both
/// constructors return a value for every real calendar day within chrono's
/// years and every time below 24:00:00. The timestamp lies within chrono's
/// range, and `DateTime::from_timestamp` gives the date back (chrono documents
/// `from_timestamp(dt.timestamp(), ..) == dt`).
#[verifier::external_body]
fn utc_timestamp(d: &DateValue) -> (r: i64)
    requires
        d.wf(),
    ensures
        r as int == timestamp_of(
            d.year as int,
            d.month as int,
            d.day as int,
            d.hour as int,
            d.minute as int,
            d.second as int,
        ),
        MIN_TIMESTAMP <= r <= MAX_TIMESTAMP,
        utc_fields_of(r as int) == Some(date_fields(*d)),
{
    chrono::NaiveDate::from_ymd_opt(d.year, d.month, d.day).unwrap().and_hms_opt(
        d.hour,
        d.minute,
        d.second,
    ).unwrap().and_utc().timestamp()
}

/// Splits milliseconds since the epoch into whole seconds, rounded down, and
/// the milliseconds past them: `-100` is 900 ms after the second `-1`.
pub fn split_millis(ms: i64) -> (r: (i64, u32))
    ensures
        r.0 as int == ms as int / 1000,
        r.1 as int == ms as int % 1000,
        r.0 as int * 1000 + r.1 as int == ms as int,
        r.1 < 1000,
{
    if ms >= 0 {
        let u = ms as u64;
        ((u / 1000) as i64, (u % 1000) as u32)
    } else {
        let a = (-(ms + 1)) as u64;
        let q = (a / 1000) as i64;
        let m = (a % 1000) as u32;
        assert(ms as int == (-q - 1) * 1000 + (999 - m));
        (-q - 1, 999 - m)
    }
}

/// The text of an instant `secs` seconds and `nanosecond` nanoseconds after the
/// epoch, in whole milliseconds.
pub open spec fn epoch_millis_text(secs: int, nanosecond: int) -> Seq<char> {
    signed_text(secs * 1000 + nanosecond / 1_000_000)
}

/// Writes the milliseconds since the epoch of an instant given by its Unix
/// timestamp and its nanoseconds.
pub fn millis_string(secs: i64, nanosecond: u32) -> (r: String)
    ensures
        r@ == epoch_millis_text(secs as int, nanosecond as int),
{
    signed_string(secs as i128 * 1000 + (nanosecond / 1_000_000) as i128)
}

/// The date of a text of milliseconds since the epoch.
pub open spec fn epoch_millis_parse(s: Seq<char>) -> Option<DateValue> {
    match int_text_value(s) {
        Some(ms) => match utc_fields_of(ms / 1000) {
            Some(f) => Some(
                DateValue {
                    year: f.0 as i32,
                    month: f.1 as u32,
                    day: f.2 as u32,
                    hour: f.3 as u32,
                    minute: f.4 as u32,
                    second: f.5 as u32,
                    nanosecond: ((ms % 1000) * 1_000_000) as u32,
                },
            ),
            None => None,
        },
        None => None,
    }
}

/// Reading back the text of a millisecond count, split into seconds and
/// milliseconds as parsing splits it, gives the count.
pub proof fn lemma_epoch_millis_round_trip(ms: i64)
    ensures
        int_text_value(epoch_millis_text(ms as int / 1000, (ms as int % 1000) * 1_000_000))
            == Some(ms as int),
{
    let secs = ms as int / 1000;
    let milli = ms as int % 1000;
    assert((milli * 1_000_000) / 1_000_000 == milli);
    assert(secs * 1000 + milli == ms as int);
    crate::text::lemma_signed_text_round_trip(ms as int);
}

/// Reads a text of milliseconds since the epoch. It succeeds exactly when the
/// text is an `i64` whose whole seconds lie within chrono's range.
pub fn parse_epoch_millis(s: &str) -> (r: Result<DateValue, ParseError>)
    ensures
        match epoch_millis_parse(s@) {
            Some(d) => r matches Ok(v) && v == d && d.wf(),
            None => r matches Err(e) && e.input@ == s@ && e.format@ == "epoch_millis"@,
        },
        r is Ok <==> (int_text_value(s@) matches Some(ms) && MIN_TIMESTAMP <= ms / 1000
            <= MAX_TIMESTAMP),
{
    match parse_i64(s) {
        Some(ms) => {
            let (secs, milli) = split_millis(ms);
            match utc_fields(secs) {
                Some(f) => Ok(
                    DateValue {
                        year: f.0,
                        month: f.1,
                        day: f.2,
                        hour: f.3,
                        minute: f.4,
                        second: f.5,
                        nanosecond: milli * 1_000_000,
                    },
                ),
                None => Err(parse_error(s, "epoch_millis")),
            }
        },
        None => Err(parse_error(s, "epoch_millis")),
    }
}

/// Writes a date as milliseconds since the epoch. Reading the text back gives
/// the date again, for every date in whole milliseconds.
pub fn format_epoch_millis(d: &DateValue) -> (r: String)
    requires
        d.wf(),
    ensures
        r@ == epoch_millis_text(
            timestamp_of(
                d.year as int,
                d.month as int,
                d.day as int,
                d.hour as int,
                d.minute as int,
                d.second as int,
            ),
            d.nanosecond as int,
        ),
        d.nanosecond % 1_000_000 == 0 ==> epoch_millis_parse(r@) == Some(*d),
{
    let secs = utc_timestamp(d);
    let r = millis_string(secs, d.nanosecond);
    proof {
        let ts = secs as int;
        let m = d.nanosecond as int / 1_000_000;
        let ms = ts * 1000 + m;
        assert(0 <= m < 1000);
        crate::text::lemma_signed_text_round_trip(ms);
        assert(ms / 1000 == ts);
        assert(ms % 1000 == m);
        if d.nanosecond % 1_000_000 == 0 {
            assert(m * 1_000_000 == d.nanosecond);
        }
    }
    r
}

/// The `epoch_millis` format: a signed count of milliseconds since the epoch.
#[derive(PartialEq, Eq, Debug, Default, Clone, Copy)]
pub struct EpochMillis;

impl DateFormat for EpochMillis {
    open spec fn spec_name() -> Seq<char> {
        "epoch_millis"@
    }

    open spec fn spec_parse(s: Seq<char>) -> Option<DateValue> {
        epoch_millis_parse(s)
    }

    open spec fn spec_format(d: DateValue) -> Seq<char> {
        epoch_millis_text(
            timestamp_of(
                d.year as int,
                d.month as int,
                d.day as int,
                d.hour as int,
                d.minute as int,
                d.second as int,
            ),
            d.nanosecond as int,
        )
    }

    fn name() -> (r: &'static str) {
        "epoch_millis"
    }

    fn parse(s: &str) -> (r: Result<DateValue, ParseError>) {
        parse_epoch_millis(s)
    }

    fn format(d: &DateValue) -> (r: String) {
        format_epoch_millis(d)
    }
}

// Dates bound to a format.

/// A date that reads and writes itself in the format `F`.
#[derive(Debug)]
pub struct Date<F> {
    value: DateValue,
    format: PhantomData<F>,
}

impl<F> View for Date<F> {
    type V = DateValue;

    closed spec fn view(&self) -> DateValue {
        self.value
    }
}

impl<F> Date<F> {
    #[verifier::type_invariant]
    spec fn inv(&self) -> bool {
        self.value.wf()
    }

    pub fn new(value: DateValue) -> (r: Self)
        requires
            value.wf(),
        ensures
            r@ == value,
    {
        Date { value, format: PhantomData }
    }

    pub fn value(&self) -> (r: DateValue)
        ensures
            r == self@,
            r.wf(),
    {
        proof {
            use_type_invariant(self);
        }
        self.value
    }

    pub fn year(&self) -> (r: i32)
        ensures
            r == self@.year,
    {
        self.value.year
    }

    pub fn month(&self) -> (r: u32)
        ensures
            r == self@.month,
    {
        self.value.month
    }

    pub fn day(&self) -> (r: u32)
        ensures
            r == self@.day,
    {
        self.value.day
    }

    pub fn hour(&self) -> (r: u32)
        ensures
            r == self@.hour,
    {
        self.value.hour
    }

    pub fn minute(&self) -> (r: u32)
        ensures
            r == self@.minute,
    {
        self.value.minute
    }

    pub fn second(&self) -> (r: u32)
        ensures
            r == self@.second,
    {
        self.value.second
    }

    pub fn nanosecond(&self) -> (r: u32)
        ensures
            r == self@.nanosecond,
    {
        self.value.nanosecond
    }
}

impl<F: DateFormat> Date<F> {
    /// Reads a date in the format `F`.
    pub fn parse(s: &str) -> (r: Result<Self, ParseError>)
        ensures
            match F::spec_parse(s@) {
                Some(d) => r matches Ok(v) && v@ == d,
                None => r matches Err(e) && e.input@ == s@ && e.format@ == F::spec_name(),
            },
    {
        match F::parse(s) {
            Ok(d) => Ok(Date { value: d, format: PhantomData }),
            Err(e) => Err(e),
        }
    }

    /// Writes the date in the format `F`.
    pub fn format(&self) -> (r: String)
        ensures
            r@ == F::spec_format(self@),
    {
        proof {
            use_type_invariant(self);
        }
        F::format(&self.value)
    }
}

} // verus!
