//! Decimal rendering of unsigned integers, with the injectivity proof that
//! topic naming and group-id derivation lean on.

use vstd::prelude::*;
use vstd::string::StringExecFns;

verus! {

/// The character standing for one decimal digit.
pub open spec fn digit_char(d: nat) -> char {
    if d == 0 {
        '0'
    } else if d == 1 {
        '1'
    } else if d == 2 {
        '2'
    } else if d == 3 {
        '3'
    } else if d == 4 {
        '4'
    } else if d == 5 {
        '5'
    } else if d == 6 {
        '6'
    } else if d == 7 {
        '7'
    } else if d == 8 {
        '8'
    } else {
        '9'
    }
}

/// Decimal rendering of a natural number, most significant digit first.
/// Zero renders as "0"; no other rendering has a leading zero.
pub open spec fn decimal_chars(n: nat) -> Seq<char>
    decreases n,
{
    if n < 10 {
        seq![digit_char(n)]
    } else {
        decimal_chars(n / 10) + seq![digit_char(n % 10)]
    }
}

proof fn lemma_decimal_len(n: nat)
    ensures
        decimal_chars(n).len() >= 1,
        n >= 10 ==> decimal_chars(n).len() >= 2,
    decreases n,
{
    if n >= 10 {
        lemma_decimal_len(n / 10);
    }
}

proof fn lemma_digit_char_injective(a: nat, b: nat)
    requires
        a < 10,
        b < 10,
        digit_char(a) == digit_char(b),
    ensures
        a == b,
{
}

/// Law: distinct numbers have distinct decimal renderings.
pub proof fn lemma_decimal_injective(a: nat, b: nat)
    requires
        decimal_chars(a) == decimal_chars(b),
    ensures
        a == b,
    decreases a,
{
    lemma_decimal_len(a);
    lemma_decimal_len(b);
    if a < 10 && b < 10 {
        assert(decimal_chars(a)[0] == digit_char(a));
        assert(decimal_chars(b)[0] == digit_char(b));
        lemma_digit_char_injective(a, b);
    } else if a < 10 {
        assert(decimal_chars(a).len() == 1);
        assert(false);
    } else if b < 10 {
        assert(decimal_chars(b).len() == 1);
        assert(false);
    } else {
        assert(decimal_chars(a).last() == digit_char(a % 10));
        assert(decimal_chars(b).last() == digit_char(b % 10));
        lemma_digit_char_injective(a % 10, b % 10);
        assert(decimal_chars(a).drop_last() =~= decimal_chars(a / 10));
        assert(decimal_chars(b).drop_last() =~= decimal_chars(b / 10));
        lemma_decimal_injective(a / 10, b / 10);
        vstd::arithmetic::div_mod::lemma_fundamental_div_mod(a as int, 10);
        vstd::arithmetic::div_mod::lemma_fundamental_div_mod(b as int, 10);
    }
}

/// Equal sequences sharing their prefix have equal suffixes.
pub proof fn lemma_concat_cancel_left<A>(p: Seq<A>, x: Seq<A>, y: Seq<A>)
    requires
        p + x == p + y,
    ensures
        x == y,
{
    assert(x =~= (p + x).subrange(p.len() as int, (p + x).len() as int));
    assert(y =~= (p + y).subrange(p.len() as int, (p + y).len() as int));
}

/// The digit characters of `ds` read back to front.
spec fn rev_digit_chars(ds: Seq<u8>) -> Seq<char> {
    Seq::new(ds.len(), |i: int| digit_char(ds[ds.len() - 1 - i] as nat))
}

/// Append the character for one decimal digit.
fn push_digit(s: &mut String, d: u8)
    requires
        d < 10,
    ensures
        final(s)@ == old(s)@ + seq![digit_char(d as nat)],
{
    let c: &str = if d == 0 {
        "0"
    } else if d == 1 {
        "1"
    } else if d == 2 {
        "2"
    } else if d == 3 {
        "3"
    } else if d == 4 {
        "4"
    } else if d == 5 {
        "5"
    } else if d == 6 {
        "6"
    } else if d == 7 {
        "7"
    } else if d == 8 {
        "8"
    } else {
        "9"
    };
    proof {
        reveal_strlit("0");
        reveal_strlit("1");
        reveal_strlit("2");
        reveal_strlit("3");
        reveal_strlit("4");
        reveal_strlit("5");
        reveal_strlit("6");
        reveal_strlit("7");
        reveal_strlit("8");
        reveal_strlit("9");
        assert(c@ =~= seq![digit_char(d as nat)]);
    }
    s.append(c);
}

/// Render `n` in decimal.
pub fn u128_to_decimal(n: u128) -> (r: String)
    ensures
        r@ == decimal_chars(n as nat),
{
    let mut low: Vec<u8> = Vec::new();
    let mut cur: u128 = n;
    proof {
        assert(decimal_chars(n as nat) =~= decimal_chars(n as nat) + rev_digit_chars(low@));
    }
    while cur >= 10
        invariant
            decimal_chars(n as nat) == decimal_chars(cur as nat) + rev_digit_chars(low@),
            forall|k: int| 0 <= k < low@.len() ==> low@[k] < 10,
        decreases cur,
    {
        let d: u8 = (cur % 10) as u8;
        proof {
            assert(d as nat == (cur as nat) % 10);
            assert((cur / 10) as nat == (cur as nat) / 10);
            assert(rev_digit_chars(low@.push(d)) =~= seq![digit_char(d as nat)] + rev_digit_chars(
                low@,
            ));
            assert(decimal_chars((cur / 10) as nat) + rev_digit_chars(low@.push(d))
                =~= decimal_chars(cur as nat) + rev_digit_chars(low@));
        }
        low.push(d);
        cur = cur / 10;
    }
    let mut r = String::new();
    push_digit(&mut r, cur as u8);
    let mut i: usize = low.len();
    proof {
        assert(rev_digit_chars(low@).subrange(0, low@.len() - i) =~= Seq::<char>::empty());
        assert(r@ =~= seq![digit_char(cur as nat)] + rev_digit_chars(low@).subrange(
            0,
            low@.len() - i,
        ));
    }
    while i > 0
        invariant
            i <= low@.len(),
            cur < 10,
            forall|k: int| 0 <= k < low@.len() ==> low@[k] < 10,
            decimal_chars(n as nat) == decimal_chars(cur as nat) + rev_digit_chars(low@),
            r@ == seq![digit_char(cur as nat)] + rev_digit_chars(low@).subrange(
                0,
                low@.len() - i,
            ),
        decreases i,
    {
        i = i - 1;
        let d = low[i];
        push_digit(&mut r, d);
        proof {
            let rev = rev_digit_chars(low@);
            assert(rev[low@.len() - 1 - i] == digit_char(low@[i as int] as nat));
            assert(rev.subrange(0, low@.len() - i) =~= rev.subrange(
                0,
                low@.len() - (i + 1),
            ) + seq![digit_char(low@[i as int] as nat)]);
            assert(r@ =~= seq![digit_char(cur as nat)] + rev.subrange(0, low@.len() - i));
        }
    }
    proof {
        assert(rev_digit_chars(low@).subrange(0, low@.len() as int) =~= rev_digit_chars(low@));
        assert(decimal_chars(cur as nat) =~= seq![digit_char(cur as nat)]);
        assert(r@ =~= decimal_chars(n as nat));
    }
    r
}

/// Render `n` in decimal.
pub fn u64_to_decimal(n: u64) -> (r: String)
    ensures
        r@ == decimal_chars(n as nat),
{
    u128_to_decimal(n as u128)
}

} // verus!
