//! Verified text-building helpers: decimal renderings of integers and
//! repeated single-character fills, used by the formatter layer.

use vstd::prelude::*;
use vstd::string::StringExecFns;

verus! {

/// The character for a single decimal digit value.
pub open spec fn digit_char(d: nat) -> char {
    if d == 0 {
        '0'
    } else if d == 1 {
        '1'
    } else if d == 2 {
        '2'
    } else if d == 3 {
        '3'
    } else if d == 4 {
        '4'
    } else if d == 5 {
        '5'
    } else if d == 6 {
        '6'
    } else if d == 7 {
        '7'
    } else if d == 8 {
        '8'
    } else {
        '9'
    }
}

/// Decimal representation of `n`, most significant digit first,
/// without leading zeros (zero itself is "0").
pub open spec fn dec_rep(n: nat) -> Seq<char>
    decreases n,
{
    if n < 10 {
        seq![digit_char(n)]
    } else {
        dec_rep(n / 10).push(digit_char(n % 10))
    }
}

/// One-decimal rendering of a value carried in tenths: 123 is shown as "12.3".
pub open spec fn tenths_rep(p: nat) -> Seq<char> {
    dec_rep(p / 10) + seq!['.'] + seq![digit_char(p % 10)]
}

/// `n` copies of the character `c`.
pub open spec fn repeat_char(c: char, n: nat) -> Seq<char> {
    Seq::new(n, |i| c)
}

/// No ANSI escape character anywhere in `s`.
pub open spec fn esc_free(s: Seq<char>) -> bool {
    forall|i: int| 0 <= i < s.len() ==> s[i] != '\u{1B}'
}

/// Escape-freedom is preserved by concatenation.
pub proof fn lemma_esc_free_concat(a: Seq<char>, b: Seq<char>)
    requires
        esc_free(a),
        esc_free(b),
    ensures
        esc_free(a + b),
{
    assert forall|i: int| 0 <= i < (a + b).len() implies (a + b)[i] != '\u{1B}' by {
        if i < a.len() {
            assert((a + b)[i] == a[i]);
        } else {
            assert((a + b)[i] == b[i - a.len()]);
        }
    }
}

/// A decimal rendering consists of digit characters only.
pub proof fn lemma_dec_rep_esc_free(n: nat)
    ensures
        esc_free(dec_rep(n)),
    decreases n,
{
    if n < 10 {
        assert(esc_free(seq![digit_char(n)]));
    } else {
        lemma_dec_rep_esc_free(n / 10);
        assert(dec_rep(n / 10).push(digit_char(n % 10)) =~= dec_rep(n / 10) + seq![
            digit_char(n % 10),
        ]);
        lemma_esc_free_concat(dec_rep(n / 10), seq![digit_char(n % 10)]);
    }
}

/// A one-decimal rendering consists of digits and a dot only.
pub proof fn lemma_tenths_rep_esc_free(p: nat)
    ensures
        esc_free(tenths_rep(p)),
{
    lemma_dec_rep_esc_free(p / 10);
    lemma_esc_free_concat(dec_rep(p / 10), seq!['.']);
    lemma_esc_free_concat(dec_rep(p / 10) + seq!['.'], seq![digit_char(p % 10)]);
}

/// Repetitions of a character other than the escape are escape-free.
pub proof fn lemma_repeat_esc_free(c: char, n: nat)
    requires
        c != '\u{1B}',
    ensures
        esc_free(repeat_char(c, n)),
{
}

fn digit_str(d: u64) -> (r: &'static str)
    requires
        d < 10,
    ensures
        r@ == seq![digit_char(d as nat)],
{
    proof {
        reveal_strlit("0");
        reveal_strlit("1");
        reveal_strlit("2");
        reveal_strlit("3");
        reveal_strlit("4");
        reveal_strlit("5");
        reveal_strlit("6");
        reveal_strlit("7");
        reveal_strlit("8");
        reveal_strlit("9");
    }
    if d == 0 {
        proof {
            assert("0"@ =~= seq!['0']);
        }
        "0"
    } else if d == 1 {
        proof {
            assert("1"@ =~= seq!['1']);
        }
        "1"
    } else if d == 2 {
        proof {
            assert("2"@ =~= seq!['2']);
        }
        "2"
    } else if d == 3 {
        proof {
            assert("3"@ =~= seq!['3']);
        }
        "3"
    } else if d == 4 {
        proof {
            assert("4"@ =~= seq!['4']);
        }
        "4"
    } else if d == 5 {
        proof {
            assert("5"@ =~= seq!['5']);
        }
        "5"
    } else if d == 6 {
        proof {
            assert("6"@ =~= seq!['6']);
        }
        "6"
    } else if d == 7 {
        proof {
            assert("7"@ =~= seq!['7']);
        }
        "7"
    } else if d == 8 {
        proof {
            assert("8"@ =~= seq!['8']);
        }
        "8"
    } else {
        proof {
            assert("9"@ =~= seq!['9']);
        }
        "9"
    }
}

/// Decimal string of `n`, e.g. 1536 becomes "1536".
pub fn u64_to_string(n: u64) -> (r: String)
    ensures
        r@ == dec_rep(n as nat),
    decreases n,
{
    if n < 10 {
        digit_str(n).to_owned()
    } else {
        let mut r = u64_to_string(n / 10);
        r.append(digit_str(n % 10));
        proof {
            assert(dec_rep((n / 10) as nat).push(digit_char((n % 10) as nat)) =~= dec_rep(
                (n / 10) as nat,
            ) + seq![digit_char((n % 10) as nat)]);
        }
        r
    }
}

/// Appends the decimal rendering of `n` to `s`.
pub fn append_u64(s: &mut String, n: u64)
    ensures
        final(s)@ == old(s)@ + dec_rep(n as nat),
{
    let t = u64_to_string(n);
    s.append(t.as_str());
}

/// Appends the one-decimal rendering of the tenths value `p` to `s`.
pub fn append_tenths(s: &mut String, p: u64)
    ensures
        final(s)@ == old(s)@ + tenths_rep(p as nat),
{
    append_u64(s, p / 10);
    s.append(".");
    append_u64(s, p % 10);
    proof {
        reveal_strlit(".");
        assert("."@ =~= seq!['.']);
        assert(dec_rep((p % 10) as nat) == seq![digit_char((p % 10) as nat)]);
        assert(old(s)@ + dec_rep((p / 10) as nat) + "."@ + dec_rep((p % 10) as nat) =~= old(s)@
            + tenths_rep(p as nat));
    }
}

/// Appends `n` copies of the one-character string `unit` to `s`.
pub fn append_repeat(s: &mut String, unit: &str, n: u64)
    requires
        unit@.len() == 1,
    ensures
        final(s)@ == old(s)@ + repeat_char(unit@[0], n as nat),
{
    proof {
        assert(old(s)@ + repeat_char(unit@[0], 0nat) =~= old(s)@);
    }
    let mut i: u64 = 0;
    while i < n
        invariant
            i <= n,
            unit@.len() == 1,
            s@ == old(s)@ + repeat_char(unit@[0], i as nat),
        decreases n - i,
    {
        s.append(unit);
        proof {
            assert(unit@ =~= seq![unit@[0]]);
            assert((old(s)@ + repeat_char(unit@[0], i as nat)) + unit@ =~= old(s)@ + repeat_char(
                unit@[0],
                (i + 1) as nat,
            ));
        }
        i = i + 1;
    }
}

} // verus!
