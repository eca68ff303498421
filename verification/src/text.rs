//! Text as sequences of characters: joining, displaying, decimal numerals.
use vstd::prelude::*;
use vstd::string::to_string_from_display_ensures;

verus! {

/// The character for a decimal digit.
pub open spec fn digit_char(d: nat) -> char {
    ('0' as nat + d) as char
}

/// The decimal numeral of `n`, without leading zeros.
pub open spec fn decimal(n: nat) -> Seq<char>
    decreases n,
{
    if n < 10 {
        seq![digit_char(n)]
    } else {
        decimal(n / 10).push(digit_char(n % 10))
    }
}

/// The number that a string of decimal digits stands for.
pub open spec fn numeral_value(s: Seq<char>) -> int
    decreases s.len(),
{
    if s.len() == 0 {
        0
    } else {
        numeral_value(s.drop_last()) * 10 + (s.last() as int - '0' as int)
    }
}

/// Whether `s` is how `n` is written: digits only, no leading zero, and the
/// value of `n`.
pub open spec fn is_numeral_of(s: Seq<char>, n: nat) -> bool {
    &&& s.len() > 0
    &&& forall|i: int| 0 <= i < s.len() ==> '0' <= #[trigger] s[i] <= '9'
    &&& s.len() > 1 ==> s[0] != '0'
    &&& numeral_value(s) == n
}

/// The decimal numeral of a number reads back as that number.
pub proof fn law_decimal_reads_back(n: nat)
    ensures
        is_numeral_of(decimal(n), n),
        n > 0 ==> decimal(n)[0] != '0',
    decreases n,
{
    reveal_with_fuel(numeral_value, 2);
    let d = n % 10;
    assert(digit_char(d) as int == '0' as int + d);
    if n < 10 {
        assert(decimal(n).drop_last() =~= Seq::empty());
        assert(decimal(n).last() == digit_char(d));
    } else {
        law_decimal_reads_back(n / 10);
        let head = decimal(n / 10);
        assert(decimal(n) == head.push(digit_char(d)));
        assert(decimal(n).drop_last() =~= head);
        assert(decimal(n)[0] == head[0]);
        assert forall|i: int| 0 <= i < decimal(n).len() implies '0' <= #[trigger] decimal(n)[i]
            <= '9' by {
            if i < head.len() {
                assert(decimal(n)[i] == head[i]);
            }
        }
    }
}

/// The one-character string of a decimal digit.
fn digit_str(d: u64) -> (s: &'static str)
    requires
        d < 10,
    ensures
        s@ == seq![digit_char(d as nat)],
{
    proof {
        reveal_strlit("0");
        reveal_strlit("1");
        reveal_strlit("2");
        reveal_strlit("3");
        reveal_strlit("4");
        reveal_strlit("5");
        reveal_strlit("6");
        reveal_strlit("7");
        reveal_strlit("8");
        reveal_strlit("9");
    }
    match d {
        0 => "0",
        1 => "1",
        2 => "2",
        3 => "3",
        4 => "4",
        5 => "5",
        6 => "6",
        7 => "7",
        8 => "8",
        _ => "9",
    }
}

/// Appends the decimal numeral of `n` to `out`.
pub(crate) fn push_decimal(out: &mut String, n: u64)
    ensures
        final(out)@ == old(out)@ + decimal(n as nat),
    decreases n,
{
    if n >= 10 {
        push_decimal(out, n / 10);
    }
    out.append(digit_str(n % 10));
    proof {
        if n >= 10 {
            let head = decimal((n / 10) as nat);
            assert(decimal(n as nat) == head.push(digit_char((n % 10) as nat)));
            assert(out@ =~= old(out)@ + head.push(digit_char((n % 10) as nat)));
        } else {
            assert(out@ =~= old(out)@ + seq![digit_char(n as nat)]);
        }
    }
}

/// Whether `text` is a `lead` followed by what `value` displays as.
pub open spec fn displays<T: core::fmt::Display + ?Sized>(
    lead: Seq<char>,
    value: &T,
    text: Seq<char>,
) -> bool {
    exists|shown: String|
        #[trigger] to_string_from_display_ensures::<T>(value, shown) && text == lead + shown@
}

/// The two strings, one after the other.
pub(crate) fn join(first: &str, second: &str) -> (r: String)
    ensures
        r@ == first@ + second@,
{
    let mut out = first.to_owned();
    out.append(second);
    out
}

/// `lead`, then what `value` displays as.
pub(crate) fn lead_display<T: core::fmt::Display + ?Sized>(lead: &str, value: &T) -> (r: String)
    ensures
        displays(lead@, value, r@),
{
    let shown: String = value.to_string();
    let mut out = String::new();
    out.append(lead);
    out.append(shown.as_str());
    assert(out@ =~= lead@ + shown@);
    out
}

/// A clone of an optional string holds the same characters.
pub(crate) fn clone_text(s: &Option<String>) -> (r: Option<String>)
    ensures
        r.deep_view() == s.deep_view(),
{
    match s {
        Some(t) => Some(t.clone()),
        None => None,
    }
}

} // verus!
