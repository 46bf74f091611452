//! Values of the editable settings file, one per line.
use vstd::prelude::*;
use vstd::string::*;

use crate::text::{after, after_char, before, before_char, splits_in_two, trim, trim_str};

verus! {

broadcast use vstd::string::group_string_axioms;

/// A value that a line of the settings file can hold.
pub trait SettingValue: Sized {
    /// `text` spells a value of this type.
    spec fn accepts(text: Seq<char>) -> bool;

    /// `value` is what `text` spells (`None` when it spells nothing).
    spec fn spelled(text: Seq<char>, value: Option<Self>) -> bool;

    /// The value that `text` spells, if any.
    fn parse_setting(text: &str) -> (r: Option<Self>)
        ensures
            Self::spelled(text@, r),
            r is Some <==> Self::accepts(text@),
    ;
}

impl SettingValue for String {
    /// Every text is a string.
    open spec fn accepts(text: Seq<char>) -> bool {
        true
    }

    open spec fn spelled(text: Seq<char>, value: Option<Self>) -> bool {
        value matches Some(s) && s@ == text
    }

    fn parse_setting(text: &str) -> (r: Option<Self>) {
        Some(String::from_str(text))
    }
}

impl SettingValue for bool {
    /// Only `true` and `false` are truth values.
    open spec fn accepts(text: Seq<char>) -> bool {
        text == "true"@ || text == "false"@
    }

    open spec fn spelled(text: Seq<char>, value: Option<Self>) -> bool {
        value == if text == "true"@ {
            Some(true)
        } else if text == "false"@ {
            Some(false)
        } else {
            None
        }
    }

    fn parse_setting(text: &str) -> (r: Option<Self>) {
        let text = String::from_str(text);
        if text == String::from_str("true") {
            Some(true)
        } else if text == String::from_str("false") {
            Some(false)
        } else {
            None
        }
    }
}

/// `c` is a decimal digit.
pub open spec fn is_digit(c: char) -> bool {
    '0' <= c && c <= '9'
}

/// The value of the digit `c`.
pub open spec fn digit_value(c: char) -> nat {
    (c as int - '0' as int) as nat
}

/// The number that the decimal digits `s` spell.
pub open spec fn decimal_value(s: Seq<char>) -> nat
    decreases s.len(),
{
    if s.len() == 0 {
        0
    } else {
        decimal_value(s.drop_last()) * 10 + digit_value(s.last())
    }
}

/// The digits of a number as written: without a leading `+`, if any.
pub open spec fn digits_of(text: Seq<char>) -> Seq<char> {
    if text.len() > 0 && text[0] == '+' {
        text.drop_first()
    } else {
        text
    }
}

impl SettingValue for usize {
    /// A count is written in decimal digits, after an optional `+`, and fits
    /// in `usize`.
    open spec fn accepts(text: Seq<char>) -> bool {
        let d = digits_of(text);
        &&& d.len() > 0
        &&& forall|i: int| 0 <= i < d.len() ==> is_digit(#[trigger] d[i])
        &&& decimal_value(d) <= usize::MAX
    }

    open spec fn spelled(text: Seq<char>, value: Option<Self>) -> bool {
        value == if Self::accepts(text) {
            Some(decimal_value(digits_of(text)) as usize)
        } else {
            None
        }
    }

    fn parse_setting(text: &str) -> (r: Option<Self>) {
        let v = crate::text::chars_of(text);
        let start: usize = if v.len() > 0 && v[0] == '+' {
            1
        } else {
            0
        };
        let ghost d = digits_of(text@);
        assert(d =~= v@.skip(start as int));
        if start == v.len() {
            return None;
        }
        let mut value: usize = 0;
        let mut i = start;
        assert(v@.subrange(start as int, start as int) =~= Seq::<char>::empty());
        while i < v.len()
            invariant
                start <= i <= v.len(),
                d == v@.skip(start as int),
                d == digits_of(text@),
                value == decimal_value(v@.subrange(start as int, i as int)),
                forall|j: int| start <= j < i ==> is_digit(#[trigger] v@[j]),
            decreases v.len() - i,
        {
            let c = v[i];
            assert(v@.subrange(start as int, i + 1).drop_last() =~= v@.subrange(
                start as int,
                i as int,
            ));
            if !('0' <= c && c <= '9') {
                assert(!is_digit(d[i - start]));
                return None;
            }
            let digit = (c as u32 - '0' as u32) as usize;
            if value > (usize::MAX - digit) / 10 {
                proof {
                    assert(decimal_value(v@.subrange(start as int, i + 1)) == value * 10 + digit);
                    assert(decimal_value(v@.subrange(start as int, i + 1)) > usize::MAX) by (
                    nonlinear_arith)
                        requires
                            value > (usize::MAX - digit) / 10,
                            decimal_value(v@.subrange(start as int, i + 1)) == value * 10 + digit,
                            digit <= 9,
                    ;
                    lemma_decimal_prefix_bound(d, (i + 1 - start) as nat);
                    assert(d.take(i + 1 - start) =~= v@.subrange(start as int, i + 1));
                }
                return None;
            }
            value = value * 10 + digit;
            i = i + 1;
        }
        assert(v@.subrange(start as int, v.len() as int) =~= d);
        Some(value)
    }
}

/// A number does not get smaller when digits are added to it.
proof fn lemma_decimal_prefix_bound(d: Seq<char>, k: nat)
    requires
        k <= d.len(),
    ensures
        decimal_value(d.take(k as int)) <= decimal_value(d),
    decreases d.len(),
{
    if k < d.len() {
        assert(d.drop_last().take(k as int) =~= d.take(k as int));
        lemma_decimal_prefix_bound(d.drop_last(), k);
    } else {
        assert(d.take(k as int) =~= d);
    }
}

/// A `key = value` line of the launch settings file: the trimmed text
/// before `=` and the trimmed text after it.
pub fn split_setting(line: &str) -> (r: (String, String))
    requires
        splits_in_two(trim(line@), '='),
    ensures
        r.0@ == trim(before(trim(line@), '=')),
        r.1@ == trim(after(trim(line@), '=')),
{
    let t = trim_str(line);
    let key = before_char(t.as_str(), '=');
    let value = after_char(t.as_str(), '=');
    (trim_str(key.as_str()), trim_str(value.as_str()))
}

/// The value that a line of the settings file holds: the line is trimmed and
/// read as a `T`.
pub fn read_line<T: SettingValue>(line: &str) -> (r: T)
    requires
        T::accepts(trim(line@)),
    ensures
        T::spelled(trim(line@), Some(r)),
{
    let text = trim_str(line);
    let value = T::parse_setting(text.as_str());
    value.unwrap()
}

} // verus!
