//! Text building for command lines and filter strings: decimal rendering
//! of integers, and the escaping of paths embedded in filter-graph
//! expressions.

use vstd::prelude::*;

verus! {

/// The decimal digit character for a value below ten.
pub open spec fn spec_digit(d: int) -> char {
    if d == 0 {
        '0'
    } else if d == 1 {
        '1'
    } else if d == 2 {
        '2'
    } else if d == 3 {
        '3'
    } else if d == 4 {
        '4'
    } else if d == 5 {
        '5'
    } else if d == 6 {
        '6'
    } else if d == 7 {
        '7'
    } else if d == 8 {
        '8'
    } else {
        '9'
    }
}

/// The decimal rendering of a non-negative integer, most significant
/// digit first, with no leading zero except for zero itself.
pub open spec fn spec_dec(n: int) -> Seq<char>
    decreases n,
{
    if n < 10 {
        seq![spec_digit(n)]
    } else {
        spec_dec(n / 10).push(spec_digit(n % 10))
    }
}

/// One-character string slice for a digit value.
fn digit_str(d: u64) -> (s: &'static str)
    requires
        d < 10,
    ensures
        s@ == seq![spec_digit(d as int)],
{
    proof {
        reveal_strlit("0");
        reveal_strlit("1");
        reveal_strlit("2");
        reveal_strlit("3");
        reveal_strlit("4");
        reveal_strlit("5");
        reveal_strlit("6");
        reveal_strlit("7");
        reveal_strlit("8");
        reveal_strlit("9");
    }
    let s = if d == 0 {
        "0"
    } else if d == 1 {
        "1"
    } else if d == 2 {
        "2"
    } else if d == 3 {
        "3"
    } else if d == 4 {
        "4"
    } else if d == 5 {
        "5"
    } else if d == 6 {
        "6"
    } else if d == 7 {
        "7"
    } else if d == 8 {
        "8"
    } else {
        "9"
    };
    proof {
        assert(s@ =~= seq![spec_digit(d as int)]);
    }
    s
}

/// Decimal rendering of `n`, as [`spec_dec`] states it.
pub fn u64_to_dec(n: u64) -> (s: String)
    ensures
        s@ == spec_dec(n as int),
    decreases n,
{
    if n < 10 {
        String::from_str(digit_str(n))
    } else {
        let mut s = u64_to_dec(n / 10);
        s.append(digit_str(n % 10));
        proof {
            assert(s@ =~= spec_dec(n as int));
        }
        s
    }
}

/// Distinct numbers render to distinct decimal strings.
pub proof fn lemma_dec_injective(a: int, b: int)
    requires
        0 <= a,
        0 <= b,
        spec_dec(a) == spec_dec(b),
    ensures
        a == b,
    decreases a,
{
    if a < 10 && b < 10 {
        assert(spec_dec(a)[0] == spec_digit(a) && spec_dec(b)[0] == spec_digit(b));
    } else if a >= 10 && b >= 10 {
        assert(spec_dec(a).last() == spec_digit(a % 10));
        assert(spec_dec(b).last() == spec_digit(b % 10));
        assert(spec_dec(a).drop_last() =~= spec_dec(a / 10));
        assert(spec_dec(b).drop_last() =~= spec_dec(b / 10));
        lemma_dec_injective(a / 10, b / 10);
        assert(a == 10 * (a / 10) + a % 10 && b == 10 * (b / 10) + b % 10);
    } else if a < 10 {
        // A single digit against two or more: the lengths differ.
        lemma_dec_len_ge_two(b);
    } else {
        lemma_dec_len_ge_two(a);
    }
}

/// A number of ten or more renders to at least two digits.
proof fn lemma_dec_len_ge_two(n: int)
    requires
        10 <= n,
    ensures
        spec_dec(n).len() >= 2,
{
    assert(spec_dec(n / 10).len() >= 1) by {
        lemma_dec_nonempty(n / 10);
    };
}

/// A decimal rendering is never empty.
proof fn lemma_dec_nonempty(n: int)
    ensures
        spec_dec(n).len() >= 1,
    decreases n,
{
    if n >= 10 {
        lemma_dec_nonempty(n / 10);
    }
}

/// Escaping of one character of a path embedded in a filter expression.
/// Square brackets and commas are structural characters of filter syntax
/// and are always escaped; on Windows, backslashes become forward slashes
/// and colons (which follow drive letters there) are escaped as well.
pub open spec fn spec_escape_char(c: char, windows: bool) -> Seq<char> {
    if c == '[' {
        seq!['\\', '[']
    } else if c == ']' {
        seq!['\\', ']']
    } else if c == ',' {
        seq!['\\', ',']
    } else if windows && c == '\\' {
        seq!['/']
    } else if windows && c == ':' {
        seq!['\\', '\\', ':']
    } else {
        seq![c]
    }
}

/// Escaping of a whole path: each character escaped in turn.
pub open spec fn spec_escape(s: Seq<char>, windows: bool) -> Seq<char>
    decreases s.len(),
{
    if s.len() == 0 {
        Seq::empty()
    } else {
        spec_escape(s.drop_last(), windows) + spec_escape_char(s.last(), windows)
    }
}

/// Relies on `String::push`: appends exactly the one character.
#[verifier::external_body]
fn push_char(s: &mut String, c: char)
    ensures
        final(s)@ == old(s)@.push(c),
{
    s.push(c);
}

/// Escapes a path for embedding in a filter-graph expression, as
/// [`spec_escape`] states it. The path must already be in the platform's
/// absolute form; `windows` selects the platform-conditional rules.
pub fn escape_path_in_filter(path: &str, windows: bool) -> (r: String)
    ensures
        r@ == spec_escape(path@, windows),
{
    let n = path.unicode_len();
    let mut r = String::new();
    let mut i: usize = 0;
    while i < n
        invariant
            n == path@.len(),
            i <= n,
            r@ == spec_escape(path@.take(i as int), windows),
        decreases n - i,
    {
        let c = path.get_char(i);
        if c == '[' {
            r.append("\\[");
            proof {
                reveal_strlit("\\[");
            }
        } else if c == ']' {
            r.append("\\]");
            proof {
                reveal_strlit("\\]");
            }
        } else if c == ',' {
            r.append("\\,");
            proof {
                reveal_strlit("\\,");
            }
        } else if windows && c == '\\' {
            r.append("/");
            proof {
                reveal_strlit("/");
            }
        } else if windows && c == ':' {
            r.append("\\\\:");
            proof {
                reveal_strlit("\\\\:");
            }
        } else {
            push_char(&mut r, c);
        }
        proof {
            assert(path@.take(i + 1).drop_last() =~= path@.take(i as int));
            assert(path@.take(i + 1).last() == path@[i as int]);
            assert(r@ =~= spec_escape(path@.take(i + 1), windows));
        }
        i += 1;
    }
    proof {
        assert(path@.take(n as int) =~= path@);
    }
    r
}

} // verus!
