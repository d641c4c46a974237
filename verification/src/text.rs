//! Text utilities shared by the agent loop and the formatters: byte-budget
//! truncation that respects UTF-8 character boundaries, decimal rendering,
//! and a blankness test.
use vstd::prelude::*;

verus! {

use vstd::string::StringSliceAdditionalSpecFns;
use vstd::string::StringExecFns;
use vstd::string::StrSliceExecFns;
use vstd::utf8::is_char_boundary;
use vstd::utf8::valid_utf8;

/// The largest index `<= budget` (and `<= bytes.len()`) that falls on a
/// character boundary of `bytes`: the truncation point for a byte budget.
pub open spec fn truncate_point(bytes: Seq<u8>, budget: int) -> int
    decreases budget,
{
    if budget >= bytes.len() {
        bytes.len() as int
    } else if budget <= 0 {
        0
    } else if is_char_boundary(bytes, budget) {
        budget
    } else {
        truncate_point(bytes, budget - 1)
    }
}

/// The truncation of `bytes` to at most `budget` bytes, cut at a character
/// boundary.
pub open spec fn spec_truncate(bytes: Seq<u8>, budget: int) -> Seq<u8> {
    bytes.take(truncate_point(bytes, budget))
}

pub proof fn lemma_truncate_point_props(bytes: Seq<u8>, budget: int)
    requires
        valid_utf8(bytes),
    ensures
        0 <= truncate_point(bytes, budget) <= bytes.len(),
        budget >= 0 ==> truncate_point(bytes, budget) <= budget,
        is_char_boundary(bytes, truncate_point(bytes, budget)),
    decreases budget,
{
    vstd::utf8::is_char_boundary_start_end_of_seq(bytes);
    if budget >= bytes.len() || budget <= 0 {
    } else if is_char_boundary(bytes, budget) {
    } else {
        lemma_truncate_point_props(bytes, budget - 1);
    }
}

/// Truncating already-truncated text at the same budget is a no-op.
pub proof fn lemma_truncate_idempotent(bytes: Seq<u8>, budget: int)
    requires
        valid_utf8(bytes),
    ensures
        spec_truncate(spec_truncate(bytes, budget), budget) == spec_truncate(bytes, budget),
{
    lemma_truncate_point_props(bytes, budget);
    let p = truncate_point(bytes, budget);
    let prefix = spec_truncate(bytes, budget);
    assert(prefix.len() == p);
    if budget >= 0 {
        assert(truncate_point(prefix, budget) == p);
        assert(prefix.take(p) =~= prefix);
    } else {
        assert(p == 0);
        assert(prefix.len() == 0);
        assert(truncate_point(prefix, budget) == 0);
        assert(prefix.take(0) =~= prefix);
    }
}

/// Truncates `s` to at most `max_bytes` bytes, cutting only at a UTF-8
/// character boundary: if `s` already fits it is returned unchanged, else the
/// cut scans backward from the budget index to the nearest boundary.
pub fn truncate_utf8<'a>(s: &'a str, max_bytes: usize) -> (r: &'a str)
    ensures
        r.spec_bytes() == spec_truncate(s.spec_bytes(), max_bytes as int),
        r.spec_bytes().len() <= max_bytes,
        is_char_boundary(s.spec_bytes(), r.spec_bytes().len() as int),
        s.spec_bytes().len() <= max_bytes ==> r == s,
{
    proof {
        vstd::utf8::encode_utf8_valid_utf8(s@);
        lemma_truncate_point_props(s.spec_bytes(), max_bytes as int);
    }
    if s.as_bytes().len() <= max_bytes {
        proof {
            assert(s.spec_bytes().take(s.spec_bytes().len() as int) =~= s.spec_bytes());
        }
        return s;
    }
    let mut end = max_bytes;
    while end > 0 && !s.is_char_boundary(end)
        invariant
            end <= max_bytes,
            max_bytes < s.spec_bytes().len(),
            truncate_point(s.spec_bytes(), max_bytes as int) == truncate_point(
                s.spec_bytes(),
                end as int,
            ),
        decreases end,
    {
        end = end - 1;
    }
    proof {
        vstd::utf8::is_char_boundary_start_end_of_seq(s.spec_bytes());
        assert(truncate_point(s.spec_bytes(), end as int) == end);
    }
    let (prefix, _) = s.split_at(end);
    proof {
        assert(prefix.spec_bytes() =~= spec_truncate(s.spec_bytes(), max_bytes as int));
    }
    prefix
}

/// The decimal digit characters of `n`, most significant first.
pub open spec fn dec_digits(n: nat) -> Seq<char>
    decreases n,
{
    if n < 10 {
        seq![digit_char(n)]
    } else {
        dec_digits(n / 10).push(digit_char(n % 10))
    }
}

pub open spec fn digit_char(d: nat) -> char {
    if d == 0 {
        '0'
    } else if d == 1 {
        '1'
    } else if d == 2 {
        '2'
    } else if d == 3 {
        '3'
    } else if d == 4 {
        '4'
    } else if d == 5 {
        '5'
    } else if d == 6 {
        '6'
    } else if d == 7 {
        '7'
    } else if d == 8 {
        '8'
    } else {
        '9'
    }
}

fn digit_str(d: u64) -> (r: &'static str)
    requires
        d < 10,
    ensures
        r@ == seq![digit_char(d as nat)],
{
    if d == 0 {
        proof {
            reveal_strlit("0");
            assert("0"@ =~= seq![digit_char(0)]);
        }
        "0"
    } else if d == 1 {
        proof {
            reveal_strlit("1");
            assert("1"@ =~= seq![digit_char(1)]);
        }
        "1"
    } else if d == 2 {
        proof {
            reveal_strlit("2");
            assert("2"@ =~= seq![digit_char(2)]);
        }
        "2"
    } else if d == 3 {
        proof {
            reveal_strlit("3");
            assert("3"@ =~= seq![digit_char(3)]);
        }
        "3"
    } else if d == 4 {
        proof {
            reveal_strlit("4");
            assert("4"@ =~= seq![digit_char(4)]);
        }
        "4"
    } else if d == 5 {
        proof {
            reveal_strlit("5");
            assert("5"@ =~= seq![digit_char(5)]);
        }
        "5"
    } else if d == 6 {
        proof {
            reveal_strlit("6");
            assert("6"@ =~= seq![digit_char(6)]);
        }
        "6"
    } else if d == 7 {
        proof {
            reveal_strlit("7");
            assert("7"@ =~= seq![digit_char(7)]);
        }
        "7"
    } else if d == 8 {
        proof {
            reveal_strlit("8");
            assert("8"@ =~= seq![digit_char(8)]);
        }
        "8"
    } else {
        proof {
            reveal_strlit("9");
            assert("9"@ =~= seq![digit_char(9)]);
        }
        "9"
    }
}

/// Renders `n` in decimal.
pub fn decimal_string(n: u64) -> (r: String)
    ensures
        r@ == dec_digits(n as nat),
    decreases n,
{
    if n < 10 {
        let mut r = String::new();
        r.append(digit_str(n));
        proof {
            assert(r@ =~= dec_digits(n as nat));
        }
        r
    } else {
        let mut r = decimal_string(n / 10);
        r.append(digit_str(n % 10));
        proof {
            assert(r@ =~= dec_digits(n as nat));
        }
        r
    }
}

/// Compares two strings character by character.
pub fn str_eq(a: &str, b: &str) -> (r: bool)
    ensures
        r == (a@ == b@),
{
    let n = a.unicode_len();
    let m = b.unicode_len();
    if n != m {
        return false;
    }
    let mut i: usize = 0;
    while i < n
        invariant
            i <= n,
            n == a@.len(),
            n == b@.len(),
            forall|j: int| 0 <= j < i ==> a@[j] == b@[j],
        decreases n - i,
    {
        if a.get_char(i) != b.get_char(i) {
            return false;
        }
        i = i + 1;
    }
    proof {
        assert(a@ =~= b@);
    }
    true
}

/// What `str::trim` removes depends on the characters of the string alone;
/// this names its result.
pub uninterp spec fn spec_trimmed(s: Seq<char>) -> Seq<char>;

/// Relies on str::trim: returns the input without leading and trailing
/// whitespace; an empty string stays empty.
#[verifier::external_body]
fn trim_of(s: &str) -> (r: String)
    ensures
        r@ == spec_trimmed(s@),
        s@.len() == 0 ==> r@.len() == 0,
{
    s.trim().to_owned()
}

/// True when `s` is empty or whitespace-only.
pub fn is_blank(s: &str) -> (r: bool)
    ensures
        r == (spec_trimmed(s@).len() == 0),
{
    let t = trim_of(s);
    t.as_str().is_empty()
}

} // verus!
