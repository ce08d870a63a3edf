use vstd::prelude::*;
use vstd::string::StrSliceExecFns;

verus! {

/// The service configuration, as the configuration file provides it.
#[derive(Debug)]
pub struct Config {
    pub database: Database,
}

/// The store connection settings. The port stays textual in the file,
/// for flexibility; `parse_port` turns it into a port number.
#[derive(Debug)]
pub struct Database {
    pub url: String,
    pub name: String,
    pub user: String,
    pub password: String,
    pub port: Option<String>,
}

/// Whether the character is a decimal digit.
pub open spec fn spec_is_digit(c: char) -> bool {
    48 <= c as int && c as int <= 57
}

/// The numeric value of a decimal digit character.
pub open spec fn spec_digit_value(c: char) -> int {
    c as int - 48
}

/// Whether every character of the sequence is a decimal digit.
pub open spec fn spec_all_digits(s: Seq<char>) -> bool {
    forall|i: int| 0 <= i < s.len() ==> spec_is_digit(#[trigger] s[i])
}

/// The usual decimal reading of a digit sequence, most significant
/// digit first.
pub open spec fn spec_dec_value(s: Seq<char>) -> int
    decreases s.len(),
{
    if s.len() == 0 {
        0
    } else {
        spec_dec_value(s.drop_last()) * 10 + spec_digit_value(s.last())
    }
}

proof fn lemma_dec_value_nonneg(s: Seq<char>)
    requires
        spec_all_digits(s),
    ensures
        spec_dec_value(s) >= 0,
    decreases s.len(),
{
    if s.len() > 0 {
        assert(spec_all_digits(s.drop_last()));
        lemma_dec_value_nonneg(s.drop_last());
    }
}

proof fn lemma_dec_value_prefix_le(s: Seq<char>, i: int)
    requires
        spec_all_digits(s),
        0 <= i <= s.len(),
    ensures
        spec_dec_value(s.take(i)) <= spec_dec_value(s),
    decreases s.len() - i,
{
    if i < s.len() {
        let shorter = s.take(i);
        let longer = s.take(i + 1);
        assert(longer.drop_last() =~= shorter);
        assert(spec_all_digits(shorter));
        lemma_dec_value_nonneg(shorter);
        assert(spec_dec_value(longer) == spec_dec_value(shorter) * 10 + spec_digit_value(
            longer.last(),
        ));
        assert(spec_dec_value(shorter) <= spec_dec_value(longer));
        lemma_dec_value_prefix_le(s, i + 1);
    } else {
        assert(s.take(i) =~= s);
    }
}

/// Parses a decimal port string. Returns the port exactly when the
/// string is non-empty, holds only decimal digits, and its decimal
/// reading fits a 16-bit port number; otherwise nothing.
pub fn parse_port(s: &str) -> (r: Option<u16>)
    ensures
        match r {
            Option::Some(p) => s@.len() > 0 && spec_all_digits(s@) && p as int == spec_dec_value(
                s@,
            ),
            Option::None => s@.len() == 0 || !spec_all_digits(s@) || spec_dec_value(s@) > 65535,
        },
{
    let n = s.unicode_len();
    if n == 0 {
        return Option::None;
    }
    let mut value: u32 = 0;
    let mut i: usize = 0;
    proof {
        assert(s@.take(0).len() == 0);
    }
    while i < n
        invariant
            n == s@.len(),
            i <= n,
            spec_all_digits(s@.take(i as int)),
            value as int == spec_dec_value(s@.take(i as int)),
            value <= 65535,
        decreases n - i,
    {
        let c = s.get_char(i);
        let code = c as u32;
        if code < 48 || code > 57 {
            proof {
                assert(!spec_is_digit(s@[i as int]));
            }
            return Option::None;
        }
        let digit = code - 48;
        let next = value * 10 + digit;
        proof {
            let longer = s@.take(i + 1 as int);
            assert(longer.drop_last() =~= s@.take(i as int));
            assert(longer.last() == s@[i as int]);
        }
        if next > 65535 {
            proof {
                if spec_all_digits(s@) {
                    lemma_dec_value_prefix_le(s@, i + 1 as int);
                }
            }
            return Option::None;
        }
        value = next;
        i = i + 1;
    }
    proof {
        assert(s@.take(n as int) =~= s@);
    }
    Option::Some(value as u16)
}

} // verus!
