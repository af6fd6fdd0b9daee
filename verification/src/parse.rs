//! Reading unsigned decimal numbers from text.
use vstd::prelude::*;

verus! {

/// An ASCII decimal digit.
pub open spec fn is_digit(c: char) -> bool {
    '0' <= c && c <= '9'
}

/// The value of a string of decimal digits, most significant first.
pub open spec fn digits_value(d: Seq<char>) -> nat
    decreases d.len(),
{
    if d.len() == 0 {
        0
    } else {
        digits_value(d.drop_last()) * 10 + ((d.last() as int - '0' as int) as nat)
    }
}

/// The text that remains once an optional leading `+` is removed.
pub open spec fn unsigned_digits(s: Seq<char>) -> Seq<char> {
    if s.len() > 0 && s[0] == '+' { s.drop_first() } else { s }
}

/// The `usize` that `s` denotes: an optional `+`, then one or more decimal
/// digits and nothing else, whose value fits in a `usize`.
pub open spec fn parsed_usize(s: Seq<char>) -> Option<usize> {
    let d = unsigned_digits(s);
    if d.len() > 0 && (forall|i: int| 0 <= i < d.len() ==> #[trigger] is_digit(d[i]))
        && digits_value(d) <= usize::MAX {
        Some(digits_value(d) as usize)
    } else {
        None
    }
}

/// Parses `s` with `str::parse::<usize>`, keeping the value and dropping the
/// error.  The std documentation of integer parsing accepts exactly an
/// optional `+` sign followed by one or more ASCII digits whose value fits
/// the type; that is `parsed_usize`.
#[verifier::external_body]
pub(crate) fn parse_usize(s: &str) -> (r: Option<usize>)
    ensures
        r == parsed_usize(s@),
{
    s.parse::<usize>().ok()
}


/// Reading digits goes most significant first: no digits are worth 0, and
/// one more digit `c` after `d` is worth ten times `d` plus `c`'s value; a
/// leading `+` is dropped once.
pub proof fn law_digits_value(d: Seq<char>, c: char)
    requires
        is_digit(c),
    ensures
        digits_value(Seq::<char>::empty()) == 0,
        digits_value(d.push(c)) == digits_value(d) * 10 + (c as int - '0' as int),
        unsigned_digits(seq!['+'] + d) == d,
        (d.len() == 0 || d[0] != '+') ==> unsigned_digits(d) == d,
{
    assert(d.push(c).drop_last() =~= d);
    assert((seq!['+'] + d).drop_first() =~= d);
}

} // verus!
