//! A monotonically increasing counter used to assign tray icon ids and to
//! key staged icon files, together with a verified decimal formatter for
//! turning counter values into strings.

use vstd::prelude::*;
use vstd::string::StringExecFns;

verus! {

/// A monotonically increasing counter. The process holds one instance for
/// id assignment; each GTK driver holds one for staged-file revisions.
pub struct Counter {
    count: u32,
}

impl Counter {
    /// The value the next call to [`Counter::next`] will return.
    pub closed spec fn peek(&self) -> u32 {
        self.count
    }

    /// A fresh counter, whose first value is 1.
    pub fn new() -> (r: Self)
        ensures
            r.peek() == 1,
    {
        Counter { count: 1 }
    }

    /// Returns the current value and advances the counter.
    pub fn next(&mut self) -> (r: u32)
        requires
            old(self).peek() < u32::MAX,
        ensures
            r == old(self).peek(),
            final(self).peek() == old(self).peek() + 1,
    {
        let r = self.count;
        self.count = self.count + 1;
        r
    }
}

/// The character for one decimal digit.
pub open spec fn dec_digit(d: int) -> char {
    if d == 0 {
        '0'
    } else if d == 1 {
        '1'
    } else if d == 2 {
        '2'
    } else if d == 3 {
        '3'
    } else if d == 4 {
        '4'
    } else if d == 5 {
        '5'
    } else if d == 6 {
        '6'
    } else if d == 7 {
        '7'
    } else if d == 8 {
        '8'
    } else {
        '9'
    }
}

/// The decimal representation of a number, most significant digit first,
/// without leading zeros (except for the number 0 itself).
pub open spec fn dec_rep(n: nat) -> Seq<char>
    decreases n,
{
    if n < 10 {
        seq![dec_digit(n as int)]
    } else {
        dec_rep(n / 10).push(dec_digit((n % 10) as int))
    }
}

/// A single decimal digit as a string slice.
fn digit_str(d: u32) -> (r: &'static str)
    requires
        d < 10,
    ensures
        r@ == seq![dec_digit(d as int)],
{
    proof {
        reveal_strlit("0");
        reveal_strlit("1");
        reveal_strlit("2");
        reveal_strlit("3");
        reveal_strlit("4");
        reveal_strlit("5");
        reveal_strlit("6");
        reveal_strlit("7");
        reveal_strlit("8");
        reveal_strlit("9");
    }
    if d == 0 {
        "0"
    } else if d == 1 {
        "1"
    } else if d == 2 {
        "2"
    } else if d == 3 {
        "3"
    } else if d == 4 {
        "4"
    } else if d == 5 {
        "5"
    } else if d == 6 {
        "6"
    } else if d == 7 {
        "7"
    } else if d == 8 {
        "8"
    } else {
        "9"
    }
}

/// Formats a number in decimal.
pub fn format_u32(n: u32) -> (r: String)
    ensures
        r@ == dec_rep(n as nat),
    decreases n,
{
    if n < 10 {
        String::from_str(digit_str(n))
    } else {
        let mut s = format_u32(n / 10);
        s.append(digit_str(n % 10));
        proof {
            assert(s@ =~= dec_rep((n / 10) as nat).push(dec_digit((n % 10) as int)));
        }
        s
    }
}

/// Every decimal representation has at least one character.
pub proof fn lemma_dec_rep_len(n: nat)
    ensures
        dec_rep(n).len() >= 1,
    decreases n,
{
    if n >= 10 {
        lemma_dec_rep_len(n / 10);
    }
}

/// Distinct numbers have distinct decimal representations.
pub proof fn lemma_dec_rep_injective(a: nat, b: nat)
    requires
        a != b,
    ensures
        dec_rep(a) != dec_rep(b),
    decreases a + b,
{
    lemma_dec_rep_len(a);
    lemma_dec_rep_len(b);
    if a < 10 && b < 10 {
        assert(dec_rep(a)[0] != dec_rep(b)[0]);
    } else if a < 10 && b >= 10 {
        lemma_dec_rep_len(b / 10);
        assert(dec_rep(b).len() >= 2);
    } else if a >= 10 && b < 10 {
        lemma_dec_rep_len(a / 10);
        assert(dec_rep(a).len() >= 2);
    } else {
        vstd::arithmetic::div_mod::lemma_fundamental_div_mod(a as int, 10);
        vstd::arithmetic::div_mod::lemma_fundamental_div_mod(b as int, 10);
        if a % 10 != b % 10 {
            if dec_rep(a).len() == dec_rep(b).len() {
                assert(dec_rep(a).last() != dec_rep(b).last());
            }
        } else {
            assert(a / 10 != b / 10);
            lemma_dec_rep_injective(a / 10, b / 10);
            if dec_rep(a) == dec_rep(b) {
                assert(dec_rep(a).drop_last() =~= dec_rep(a / 10));
                assert(dec_rep(b).drop_last() =~= dec_rep(b / 10));
                assert(false);
            }
        }
    }
}

} // verus!
