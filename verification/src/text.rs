//! Decimal rendering of numbers, for the lines under which snapshots are
//! logged.

use vstd::prelude::*;
use vstd::string::StringExecFns;

verus! {

/// The character of one decimal digit.
pub open spec fn digit(d: nat) -> char {
    if d == 0 {
        '0'
    } else if d == 1 {
        '1'
    } else if d == 2 {
        '2'
    } else if d == 3 {
        '3'
    } else if d == 4 {
        '4'
    } else if d == 5 {
        '5'
    } else if d == 6 {
        '6'
    } else if d == 7 {
        '7'
    } else if d == 8 {
        '8'
    } else {
        '9'
    }
}

/// The usual decimal notation of a number: no sign, no leading zero except
/// for the number zero itself.
pub open spec fn spec_decimal(n: nat) -> Seq<char>
    decreases n,
{
    if n < 10 {
        seq![digit(n)]
    } else {
        spec_decimal(n / 10) + seq![digit(n % 10)]
    }
}

/// The characters of a digit sequence read back to front: the sequence
/// holds the least significant digit first, the notation starts with the
/// most significant one.
pub open spec fn digits_rev(ds: Seq<u8>) -> Seq<char>
    decreases ds.len(),
{
    if ds.len() == 0 {
        Seq::empty()
    } else {
        seq![digit(ds.last() as nat)] + digits_rev(ds.drop_last())
    }
}

proof fn lemma_digits_rev_push(ds: Seq<u8>, d: u8)
    ensures
        digits_rev(ds.push(d)) == seq![digit(d as nat)] + digits_rev(ds),
{
    assert(ds.push(d).last() == d);
    assert(ds.push(d).drop_last() =~= ds);
}

proof fn lemma_digits_rev_index(ds: Seq<u8>)
    ensures
        digits_rev(ds).len() == ds.len(),
        forall|j: int|
            0 <= j < ds.len() ==> digits_rev(ds)[j] == digit(ds[ds.len() - 1 - j] as nat),
    decreases ds.len(),
{
    if ds.len() > 0 {
        lemma_digits_rev_index(ds.drop_last());
        assert forall|j: int| 0 <= j < ds.len() implies digits_rev(ds)[j] == digit(
            ds[ds.len() - 1 - j] as nat,
        ) by {
            if j > 0 {
                assert(digits_rev(ds)[j] == digits_rev(ds.drop_last())[j - 1]);
                assert(ds.drop_last()[ds.drop_last().len() - 1 - (j - 1)] == ds[ds.len() - 1 - j]);
            }
        }
    }
}

/// The decimal notation of a number.
pub fn decimal_string(n: usize) -> (r: String)
    ensures
        r@ == spec_decimal(n as nat),
{
    let mut ds: Vec<u8> = Vec::new();
    let mut m: usize = n;
    loop
        invariant_except_break
            ds@.len() == 0 ==> m == n,
            ds@.len() > 0 ==> m > 0 && spec_decimal(n as nat) == spec_decimal(m as nat)
                + digits_rev(ds@),
        invariant
            forall|k: int| 0 <= k < ds@.len() ==> ds@[k] < 10,
        ensures
            forall|k: int| 0 <= k < ds@.len() ==> ds@[k] < 10,
            spec_decimal(n as nat) == digits_rev(ds@),
        decreases m,
    {
        let ghost pre = ds@;
        let ghost m0 = m;
        let d: u8 = (m % 10) as u8;
        ds.push(d);
        m = m / 10;
        proof {
            lemma_digits_rev_push(pre, d);
            if pre.len() == 0 {
                assert(spec_decimal(n as nat) == spec_decimal(m0 as nat));
                if m == 0 {
                    assert(spec_decimal(m0 as nat) =~= digits_rev(ds@));
                } else {
                    assert(spec_decimal(m0 as nat) =~= spec_decimal(m as nat) + digits_rev(ds@));
                }
            } else {
                if m == 0 {
                    assert(spec_decimal(m0 as nat) =~= seq![digit(d as nat)]);
                    assert(spec_decimal(n as nat) =~= digits_rev(ds@));
                } else {
                    assert(spec_decimal(m0 as nat) =~= spec_decimal(m as nat) + seq![
                        digit(d as nat),
                    ]);
                    assert(spec_decimal(n as nat) =~= spec_decimal(m as nat) + digits_rev(ds@));
                }
            }
        }
        if m == 0 {
            break;
        }
    }
    proof {
        lemma_digits_rev_index(ds@);
    }
    let mut out = String::new();
    let count: usize = ds.len();
    let mut i: usize = count;
    while i > 0
        invariant
            i <= count,
            count == ds@.len(),
            forall|k: int| 0 <= k < ds@.len() ==> ds@[k] < 10,
            digits_rev(ds@).len() == ds@.len(),
            forall|j: int|
                0 <= j < ds@.len() ==> digits_rev(ds@)[j] == digit(ds@[ds@.len() - 1 - j] as nat),
            out@.len() == count - i,
            forall|j: int| 0 <= j < out@.len() ==> out@[j] == digits_rev(ds@)[j],
        decreases i,
    {
        i -= 1;
        let d: u8 = ds[i];
        proof {
            reveal_strlit("0");
            reveal_strlit("1");
            reveal_strlit("2");
            reveal_strlit("3");
            reveal_strlit("4");
            reveal_strlit("5");
            reveal_strlit("6");
            reveal_strlit("7");
            reveal_strlit("8");
            reveal_strlit("9");
        }
        if d == 0 {
            out.append("0");
        } else if d == 1 {
            out.append("1");
        } else if d == 2 {
            out.append("2");
        } else if d == 3 {
            out.append("3");
        } else if d == 4 {
            out.append("4");
        } else if d == 5 {
            out.append("5");
        } else if d == 6 {
            out.append("6");
        } else if d == 7 {
            out.append("7");
        } else if d == 8 {
            out.append("8");
        } else {
            out.append("9");
        }
        proof {
            assert(out@.last() == digit(d as nat));
            assert(digits_rev(ds@)[count - 1 - i] == digit(d as nat));
        }
    }
    proof {
        assert(out@ =~= digits_rev(ds@));
    }
    out
}

} // verus!
