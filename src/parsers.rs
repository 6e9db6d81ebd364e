//! Small byte scanners used by the code generator.

use vstd::prelude::*;

verus! {

/// Every byte of `b` is ASCII.
pub open spec fn all_ascii(b: Seq<u8>) -> bool {
    forall|j: int| 0 <= j < b.len() ==> #[trigger] b[j] < 128
}

/// `f` is callable on every byte.
pub open spec fn total_pred<F: Fn(u8) -> bool>(f: F) -> bool {
    forall|b: u8| #[trigger] f.requires((b,))
}

/// Skips the leading bytes of `i` for which `f` holds, returning the rest.
pub fn shift_while<F: Fn(u8) -> bool>(i: &[u8], f: F) -> (r: &[u8])
    requires
        total_pred(f),
    ensures
        r@.len() <= i@.len(),
        r@ == i@.subrange(i@.len() - r@.len(), i@.len() as int),
        forall|j: int| 0 <= j < i@.len() - r@.len() ==> f.ensures((#[trigger] i@[j],), true),
        r@.len() > 0 ==> f.ensures((r@[0],), false),
{
    let mut ctr: usize = 0;
    let mut done = false;
    while !done && ctr < i.len()
        invariant
            total_pred(f),
            ctr <= i@.len(),
            forall|j: int| 0 <= j < ctr ==> f.ensures((#[trigger] i@[j],), true),
            done ==> ctr < i@.len() && f.ensures((i@[ctr as int],), false),
        decreases i@.len() - ctr, (if done { 0int } else { 1int }),
    {
        if f(i[ctr]) {
            ctr = ctr + 1;
        } else {
            done = true;
        }
    }
    let (_, rest) = i.split_at(ctr);
    rest
}

/// The characters that ASCII bytes stand for.
pub open spec fn ascii_chars(b: Seq<u8>) -> Seq<char> {
    b.map_values(|c: u8| c as char)
}

/// Relies on `std::str::from_utf8`: ASCII bytes are valid UTF-8 and decode
/// to one character each.
#[verifier::external_body]
fn ascii_str(b: &[u8]) -> (r: &str)
    requires
        all_ascii(b@),
    ensures
        r@ == ascii_chars(b@),
{
    std::str::from_utf8(b).unwrap()
}

/// Takes the leading bytes of `i` for which `f` holds, and always at least the
/// first byte; returns the rest and the taken bytes as text.
pub fn take_while1<F: Fn(u8) -> bool>(i: &[u8], f: F) -> (r: (&[u8], &str))
    requires
        total_pred(f),
        all_ascii(i@),
    ensures
        ({
            let k = i@.len() - r.0@.len();
            &&& r.0@.len() <= i@.len()
            &&& i@.len() > 0 ==> k >= 1
            &&& r.0@ == i@.subrange(k, i@.len() as int)
            &&& r.1@ == ascii_chars(i@.subrange(0, k))
            &&& forall|j: int| 1 <= j < k ==> f.ensures((#[trigger] i@[j],), true)
            &&& r.0@.len() > 0 ==> f.ensures((r.0@[0],), false)
        }),
{
    let mut ctr: usize = 0;
    let mut done = false;
    while !done && ctr < i.len()
        invariant
            total_pred(f),
            ctr <= i@.len(),
            forall|j: int| 1 <= j < ctr ==> f.ensures((#[trigger] i@[j],), true),
            done ==> 1 <= ctr < i@.len() && f.ensures((i@[ctr as int],), false),
        decreases i@.len() - ctr, (if done { 0int } else { 1int }),
    {
        if f(i[ctr]) || ctr == 0 {
            ctr = ctr + 1;
        } else {
            done = true;
        }
    }
    let (head, rest) = i.split_at(ctr);
    (rest, ascii_str(head))
}

/// Advances to the first byte for which `f` holds, or to the last byte if
/// none does; returns the rest and the byte found there.
pub fn take_first<F: Fn(u8) -> bool>(i: &[u8], f: F) -> (r: (&[u8], u8))
    requires
        total_pred(f),
        i@.len() > 0,
    ensures
        ({
            let k = i@.len() - r.0@.len();
            &&& 0 <= k < i@.len()
            &&& r.0@ == i@.subrange(k, i@.len() as int)
            &&& r.1 == i@[k]
            &&& forall|j: int| 0 <= j < k ==> f.ensures((#[trigger] i@[j],), false)
            &&& k < i@.len() - 1 ==> f.ensures((i@[k],), true)
        }),
{
    let size = i.len();
    let mut ctr: usize = 0;
    let mut done = false;
    while !done
        invariant
            total_pred(f),
            size == i@.len(),
            ctr < size,
            forall|j: int| 0 <= j < ctr ==> f.ensures((#[trigger] i@[j],), false),
            done ==> ctr == size - 1 || f.ensures((i@[ctr as int],), true),
        decreases size - ctr, (if done { 0int } else { 1int }),
    {
        if f(i[ctr]) || ctr == size - 1 {
            done = true;
        } else {
            ctr = ctr + 1;
        }
    }
    let (_, rest) = i.split_at(ctr);
    (rest, i[ctr])
}

/// Drops the first `c` bytes of `i`, or all of them when `c` is too large.
pub fn shift(i: &[u8], c: usize) -> (r: &[u8])
    ensures
        c >= i@.len() ==> r@.len() == 0,
        c < i@.len() ==> r@ == i@.subrange(c as int, i@.len() as int),
{
    if c >= i.len() {
        let (_, rest) = i.split_at(i.len());
        rest
    } else {
        let (_, rest) = i.split_at(c);
        rest
    }
}

} // verus!
