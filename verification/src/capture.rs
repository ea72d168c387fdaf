//! The capture decision: window capture or region capture.
//!
//! A click hands the resolved element to the capture collaborator. The
//! collaborator captures the owning window when the element's role is
//! window-like and an owning window was resolved, and otherwise captures the
//! element's global rectangle.

use vstd::prelude::*;
use vstd::string::{StringExecFns, StrSliceExecFns};
use crate::role::str_eq;

verus! {

/// `pat` occurs in `s` starting at position `i`.
pub open spec fn spec_match_at(s: Seq<char>, pat: Seq<char>, i: int) -> bool {
    0 <= i && i + pat.len() <= s.len() && s.subrange(i, i + pat.len() as int) == pat
}

/// `pat` occurs somewhere in `s`.
pub open spec fn spec_contains_substr(s: Seq<char>, pat: Seq<char>) -> bool {
    exists|i: int| spec_match_at(s, pat, i)
}

/// Whether `pat` occurs in `s`, by scanning every start position.
pub fn contains_substr(s: &str, pat: &str) -> (r: bool)
    ensures
        r == spec_contains_substr(s@, pat@),
{
    let n = s.unicode_len();
    let m = pat.unicode_len();
    if m == 0 {
        proof {
            assert(s@.subrange(0, 0) =~= pat@);
            assert(spec_match_at(s@, pat@, 0));
        }
        return true;
    }
    if m > n {
        return false;
    }
    let mut i: usize = 0;
    while i <= n - m
        invariant
            n == s@.len(),
            m == pat@.len(),
            1 <= m <= n,
            i <= n - m + 1,
            forall|j: int| 0 <= j < i ==> !spec_match_at(s@, pat@, j),
        decreases n - m - i + 1,
    {
        let sub = s.substring_char(i, i + m);
        if str_eq(sub, pat) {
            proof {
                assert(spec_match_at(s@, pat@, i as int));
            }
            return true;
        }
        i = i + 1;
    }
    false
}

/// How one capture is performed.
#[derive(Clone, Copy, Debug, PartialEq, Eq, Structural)]
pub enum CaptureTarget {
    /// Capture the window with this identifier.
    Window { id: u32 },
    /// Capture this global rectangle.
    Region { x: i64, y: i64, width: i64, height: i64 },
}

/// A window-like role: the role string mentions `"Window"`.
pub fn is_window_role(role: &str) -> (r: bool)
    ensures
        r == spec_contains_substr(role@, "Window"@),
{
    contains_substr(role, "Window")
}

/// Chooses window capture exactly when the role is window-like and an
/// owning window was resolved (a zero identifier means none was); otherwise
/// region capture of the element's global rectangle.
pub fn plan_capture(x: i64, y: i64, width: i64, height: i64, window_id: u32, role: &str) -> (r:
    CaptureTarget)
    ensures
        r == (if spec_contains_substr(role@, "Window"@) && window_id > 0 {
            CaptureTarget::Window { id: window_id }
        } else {
            CaptureTarget::Region { x, y, width, height }
        }),
{
    if is_window_role(role) && window_id > 0 {
        CaptureTarget::Window { id: window_id }
    } else {
        CaptureTarget::Region { x, y, width, height }
    }
}

/// The decimal digit character for `d`.
pub open spec fn spec_digit(d: int) -> char {
    if d == 0 {
        '0'
    } else if d == 1 {
        '1'
    } else if d == 2 {
        '2'
    } else if d == 3 {
        '3'
    } else if d == 4 {
        '4'
    } else if d == 5 {
        '5'
    } else if d == 6 {
        '6'
    } else if d == 7 {
        '7'
    } else if d == 8 {
        '8'
    } else {
        '9'
    }
}

/// The decimal digits of a non-negative number, most significant first.
pub open spec fn spec_nat_digits(n: int) -> Seq<char>
    decreases n,
{
    if n < 10 {
        seq![spec_digit(n)]
    } else {
        spec_nat_digits(n / 10).push(spec_digit(n % 10))
    }
}

/// The decimal rendering of an integer: a minus sign and the magnitude's
/// digits, or just the digits.
pub open spec fn spec_decimal(v: int) -> Seq<char> {
    if v < 0 {
        seq!['-'] + spec_nat_digits(-v)
    } else {
        spec_nat_digits(v)
    }
}

/// The one-character string for a decimal digit.
fn digit_str(d: u64) -> (r: &'static str)
    requires
        d < 10,
    ensures
        r@ == seq![spec_digit(d as int)],
{
    proof {
        reveal_strlit("0");
        reveal_strlit("1");
        reveal_strlit("2");
        reveal_strlit("3");
        reveal_strlit("4");
        reveal_strlit("5");
        reveal_strlit("6");
        reveal_strlit("7");
        reveal_strlit("8");
        reveal_strlit("9");
    }
    let r: &'static str = if d == 0 {
        "0"
    } else if d == 1 {
        "1"
    } else if d == 2 {
        "2"
    } else if d == 3 {
        "3"
    } else if d == 4 {
        "4"
    } else if d == 5 {
        "5"
    } else if d == 6 {
        "6"
    } else if d == 7 {
        "7"
    } else if d == 8 {
        "8"
    } else {
        "9"
    };
    proof {
        assert(r@ =~= seq![spec_digit(d as int)]);
    }
    r
}

/// The decimal digits of a non-negative number as a string.
fn nat_to_string(n: u64) -> (r: String)
    ensures
        r@ == spec_nat_digits(n as int),
    decreases n,
{
    if n < 10 {
        String::from_str(digit_str(n))
    } else {
        let mut s = nat_to_string(n / 10);
        s.append(digit_str(n % 10));
        proof {
            assert(s@ =~= spec_nat_digits(n as int));
        }
        s
    }
}

/// The decimal rendering of a signed number as a string.
pub fn decimal_string(v: i64) -> (r: String)
    ensures
        r@ == spec_decimal(v as int),
{
    if v >= 0 {
        nat_to_string(v as u64)
    } else {
        // The magnitude, computed without negating the minimum value.
        let magnitude: u64 = ((-(v + 1)) as u64) + 1;
        let mut s = String::from_str("-");
        let digits = nat_to_string(magnitude);
        s.append(digits.as_str());
        proof {
            reveal_strlit("-");
            assert(s@ =~= spec_decimal(v as int));
        }
        s
    }
}

/// The `x,y,width,height` argument that describes a region capture to the
/// screenshot utility.
pub fn region_argument(x: i64, y: i64, width: i64, height: i64) -> (r: String)
    ensures
        r@ == spec_decimal(x as int) + ","@ + spec_decimal(y as int) + ","@ + spec_decimal(
            width as int,
        ) + ","@ + spec_decimal(height as int),
{
    let mut s = decimal_string(x);
    s.append(",");
    s.append(decimal_string(y).as_str());
    s.append(",");
    s.append(decimal_string(width).as_str());
    s.append(",");
    s.append(decimal_string(height).as_str());
    s
}

} // verus!
