use vstd::prelude::*;

verus! {

/// The character for one decimal digit.
pub open spec fn digit_char(d: int) -> char {
    if d == 0 {
        '0'
    } else if d == 1 {
        '1'
    } else if d == 2 {
        '2'
    } else if d == 3 {
        '3'
    } else if d == 4 {
        '4'
    } else if d == 5 {
        '5'
    } else if d == 6 {
        '6'
    } else if d == 7 {
        '7'
    } else if d == 8 {
        '8'
    } else {
        '9'
    }
}

/// The decimal digits of a natural number, most significant first, with no
/// leading zero except for zero itself.
pub open spec fn dec_digits(n: nat) -> Seq<char>
    decreases n,
{
    if n < 10 {
        seq![digit_char(n as int)]
    } else {
        dec_digits(n / 10).push(digit_char((n % 10) as int))
    }
}

/// The decimal text of an integer: a minus sign before the magnitude's
/// digits when negative.
pub open spec fn dec_text(v: int) -> Seq<char> {
    if v < 0 {
        seq!['-'] + dec_digits((-v) as nat)
    } else {
        dec_digits(v as nat)
    }
}

/// The one line the view shows for counter value `v`.
pub open spec fn counter_text(v: int) -> Seq<char> {
    "Counter: "@ + dec_text(v)
}

/// The digits of a digit stack read from its top: element `i` of the result
/// is the character of the digit `i` places below the stack's top.
pub open spec fn digits_from_top(ds: Seq<u8>) -> Seq<char> {
    Seq::new(ds.len(), |i: int| digit_char(ds[ds.len() - 1 - i] as int))
}

fn digit_str(d: u8) -> (r: &'static str)
    requires
        d < 10,
    ensures
        r@ == seq![digit_char(d as int)],
{
    proof {
        reveal_strlit("0");
        reveal_strlit("1");
        reveal_strlit("2");
        reveal_strlit("3");
        reveal_strlit("4");
        reveal_strlit("5");
        reveal_strlit("6");
        reveal_strlit("7");
        reveal_strlit("8");
        reveal_strlit("9");
    }
    let r: &'static str = match d {
        0 => "0",
        1 => "1",
        2 => "2",
        3 => "3",
        4 => "4",
        5 => "5",
        6 => "6",
        7 => "7",
        8 => "8",
        _ => "9",
    };
    proof {
        assert(r@ =~= seq![digit_char(d as int)]);
    }
    r
}

fn dec_string_u32(n: u32) -> (s: String)
    ensures
        s@ == dec_digits(n as nat),
{
    let mut m: u32 = n;
    let mut ds: Vec<u8> = Vec::new();
    ds.push((m % 10) as u8);
    m = m / 10;
    proof {
        if m > 0 {
            assert(dec_digits(n as nat) =~= dec_digits(m as nat) + digits_from_top(ds@));
        } else {
            assert(dec_digits(n as nat) =~= digits_from_top(ds@));
        }
    }
    while m > 0
        invariant
            forall|i: int| 0 <= i < ds@.len() ==> ds@[i] < 10,
            ds@.len() >= 1,
            m > 0 ==> dec_digits(n as nat) =~= dec_digits(m as nat) + digits_from_top(ds@),
            m == 0 ==> dec_digits(n as nat) =~= digits_from_top(ds@),
        decreases m,
    {
        let ghost pre = ds@;
        let ghost mpre = m as nat;
        let d: u8 = (m % 10) as u8;
        ds.push(d);
        m = m / 10;
        proof {
            assert(digits_from_top(pre.push(d)) =~= seq![digit_char(d as int)]
                + digits_from_top(pre));
            if m > 0 {
                assert(dec_digits(mpre) == dec_digits(mpre / 10).push(digit_char(
                    (mpre % 10) as int,
                )));
                assert(dec_digits(mpre / 10).push(digit_char((mpre % 10) as int))
                    =~= dec_digits(mpre / 10) + seq![digit_char(d as int)]);
                assert(dec_digits(n as nat) =~= dec_digits(m as nat) + digits_from_top(ds@));
            } else {
                assert(mpre < 10);
                assert(dec_digits(mpre) =~= seq![digit_char(d as int)]);
                assert(dec_digits(n as nat) =~= digits_from_top(ds@));
            }
        }
    }
    let mut s = String::new();
    let mut i: usize = ds.len();
    while i > 0
        invariant
            i <= ds@.len(),
            forall|j: int| 0 <= j < ds@.len() ==> ds@[j] < 10,
            dec_digits(n as nat) =~= digits_from_top(ds@),
            s@ =~= digits_from_top(ds@).take(ds@.len() - i),
        decreases i,
    {
        let ghost spre = s@;
        let ghost ipre = i as int;
        i = i - 1;
        s.append(digit_str(ds[i]));
        proof {
            let rev = digits_from_top(ds@);
            assert(rev[ds@.len() - ipre] == digit_char(ds@[ipre - 1] as int));
            assert(s@ =~= rev.take(ds@.len() - i as int));
        }
    }
    proof {
        assert(s@ =~= digits_from_top(ds@));
    }
    s
}

/// The decimal text of an `i32`, exactly as `dec_text` states it.
pub fn int_text(v: i32) -> (s: String)
    ensures
        s@ == dec_text(v as int),
{
    if v >= 0 {
        dec_string_u32(v as u32)
    } else {
        let mag: u32 = (-(v as i64)) as u32;
        let digits = dec_string_u32(mag);
        let mut s = String::from_str("-");
        proof {
            reveal_strlit("-");
            assert("-"@ =~= seq!['-']);
        }
        s.append(digits.as_str());
        s
    }
}

/// Renders the view's text for counter value `count`: the literal label
/// `Counter: ` followed by the value in decimal. A pure function of the
/// value: equal counts render equal text.
pub fn render_text(count: i32) -> (s: String)
    ensures
        s@ == counter_text(count as int),
{
    let mut s = String::from_str("Counter: ");
    let num = int_text(count);
    s.append(num.as_str());
    s
}

} // verus!
