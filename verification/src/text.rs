//! Decimal text of integers, as `to_string` writes it, for error messages.
use vstd::prelude::*;

verus! {

/// The character of the decimal digit `d`.
pub open spec fn digit_char(d: int) -> char {
    if d == 0 {
        '0'
    } else if d == 1 {
        '1'
    } else if d == 2 {
        '2'
    } else if d == 3 {
        '3'
    } else if d == 4 {
        '4'
    } else if d == 5 {
        '5'
    } else if d == 6 {
        '6'
    } else if d == 7 {
        '7'
    } else if d == 8 {
        '8'
    } else {
        '9'
    }
}

/// The decimal digits of `n`, without leading zeros.
pub open spec fn nat_text(n: nat) -> Seq<char>
    decreases n,
{
    if n < 10 {
        seq![digit_char(n as int)]
    } else {
        nat_text(n / 10) + seq![digit_char((n % 10) as int)]
    }
}

/// The decimal text of `x`, with a leading `-` when it is negative.
pub open spec fn int_text(x: int) -> Seq<char> {
    if x < 0 {
        seq!['-'] + nat_text((-x) as nat)
    } else {
        nat_text(x as nat)
    }
}

/// The decimal texts of `m`, separated by `", "`.
pub open spec fn joined_text(m: Seq<i32>) -> Seq<char>
    decreases m.len(),
{
    if m.len() == 0 {
        Seq::empty()
    } else if m.len() == 1 {
        int_text(m[0] as int)
    } else {
        joined_text(m.drop_last()) + seq![',', ' '] + int_text(m.last() as int)
    }
}

fn digit_str(d: u64) -> (r: &'static str)
    requires
        d < 10,
    ensures
        r@ == seq![digit_char(d as int)],
{
    proof {
        reveal_strlit("0");
        reveal_strlit("1");
        reveal_strlit("2");
        reveal_strlit("3");
        reveal_strlit("4");
        reveal_strlit("5");
        reveal_strlit("6");
        reveal_strlit("7");
        reveal_strlit("8");
        reveal_strlit("9");
    }
    if d == 0 {
        "0"
    } else if d == 1 {
        "1"
    } else if d == 2 {
        "2"
    } else if d == 3 {
        "3"
    } else if d == 4 {
        "4"
    } else if d == 5 {
        "5"
    } else if d == 6 {
        "6"
    } else if d == 7 {
        "7"
    } else if d == 8 {
        "8"
    } else {
        "9"
    }
}

/// Appends the decimal digits of `n` to `s`.
pub fn append_nat(s: &mut String, n: u64)
    ensures
        final(s)@ == old(s)@ + nat_text(n as nat),
    decreases n,
{
    if n >= 10 {
        append_nat(s, n / 10);
    }
    s.append(digit_str(n % 10));
    assert(final(s)@ =~= old(s)@ + nat_text(n as nat)) by {
        if n >= 10 {
            assert(nat_text(n as nat) == nat_text((n / 10) as nat) + seq![digit_char((n % 10) as int)]);
        }
    }
}

/// Appends the decimal text of `x` to `s`.
pub fn append_int(s: &mut String, x: i32)
    ensures
        final(s)@ == old(s)@ + int_text(x as int),
{
    if x < 0 {
        proof {
            reveal_strlit("-");
        }
        s.append("-");
        let magnitude: u64 = (0 - (x as i64)) as u64;
        append_nat(s, magnitude);
        assert(final(s)@ =~= old(s)@ + int_text(x as int));
    } else {
        append_nat(s, x as u64);
    }
}

/// Appends the decimal texts of `m`, separated by `", "`, to `s`.
pub fn append_joined(s: &mut String, m: &Vec<i32>)
    ensures
        final(s)@ == old(s)@ + joined_text(m@),
{
    proof {
        reveal_strlit(", ");
    }
    let mut i: usize = 0;
    while i < m.len()
        invariant
            i <= m@.len(),
            s@ == old(s)@ + joined_text(m@.take(i as int)),
        decreases m@.len() - i,
    {
        proof {
            reveal_strlit(", ");
        }
        let ghost before = s@;
        if i > 0 {
            s.append(", ");
        }
        append_int(s, m[i]);
        let ghost t = m@.take(i + 1);
        assert(t.drop_last() =~= m@.take(i as int));
        assert(t.last() == m@[i as int]);
        if i == 0 {
            assert(t[0] == m@[0]);
            assert(joined_text(t) == int_text(m@[0] as int));
            assert(m@.take(0) =~= Seq::<i32>::empty());
        } else {
            assert(joined_text(t) == joined_text(t.drop_last()) + seq![',', ' '] + int_text(
                t.last() as int,
            ));
        }
        assert(s@ =~= old(s)@ + joined_text(m@.take(i + 1)));
        i += 1;
    }
    assert(m@.take(m@.len() as int) =~= m@);
}

} // verus!
