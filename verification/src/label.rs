use vstd::prelude::*;
use vstd::string::*;
use crate::gender::Gender;
use crate::gender::symbol_seq;

verus! {

/// The character of one decimal digit.
pub open spec fn digit_char(d: int) -> char {
    if d == 0 {
        '0'
    } else if d == 1 {
        '1'
    } else if d == 2 {
        '2'
    } else if d == 3 {
        '3'
    } else if d == 4 {
        '4'
    } else if d == 5 {
        '5'
    } else if d == 6 {
        '6'
    } else if d == 7 {
        '7'
    } else if d == 8 {
        '8'
    } else {
        '9'
    }
}

/// The decimal rendering of a non-negative integer, most significant digit
/// first and without leading zeroes.
pub open spec fn decimal_seq(n: int) -> Seq<char>
    recommends
        n >= 0,
    decreases n,
{
    if n < 10 {
        seq![digit_char(n)]
    } else {
        decimal_seq(n / 10).push(digit_char(n % 10))
    }
}

/// Every space replaced by an underscore; all other characters kept.
pub open spec fn underscored(s: Seq<char>) -> Seq<char> {
    s.map_values(|c: char| if c == ' ' { '_' } else { c })
}

/// The label before the whitespace policy is applied.
pub open spec fn plain_label(name: Seq<char>, g: Gender, level: int) -> Seq<char> {
    "Wild "@ + name + symbol_seq(g) + " (lv"@ + decimal_seq(level) + ")"@
}

/// The final label: the plain label, its spaces turned to underscores
/// unless `whitespace` asks to keep them.
pub open spec fn rendered_label(name: Seq<char>, g: Gender, level: int, whitespace: bool) -> Seq<
    char,
> {
    if whitespace {
        plain_label(name, g, level)
    } else {
        underscored(plain_label(name, g, level))
    }
}

/// The string of one decimal digit.
fn digit_str(d: u32) -> (r: &'static str)
    requires
        d < 10,
    ensures
        r@ == seq![digit_char(d as int)],
{
    proof {
        reveal_strlit("0");
        reveal_strlit("1");
        reveal_strlit("2");
        reveal_strlit("3");
        reveal_strlit("4");
        reveal_strlit("5");
        reveal_strlit("6");
        reveal_strlit("7");
        reveal_strlit("8");
        reveal_strlit("9");
    }
    let r = match d {
        0 => "0",
        1 => "1",
        2 => "2",
        3 => "3",
        4 => "4",
        5 => "5",
        6 => "6",
        7 => "7",
        8 => "8",
        _ => "9",
    };
    proof {
        assert(r@ =~= seq![digit_char(d as int)]);
    }
    r
}

/// Append the decimal rendering of `n` to `out`.
fn push_decimal(out: &mut String, n: u32)
    requires
        1 <= n <= 100,
    ensures
        final(out)@ == old(out)@ + decimal_seq(n as int),
{
    if n >= 100 {
        proof {
            reveal_strlit("100");
            reveal_with_fuel(decimal_seq, 4);
            assert(decimal_seq(1) =~= seq!['1']);
            assert(decimal_seq(10) =~= seq!['1', '0']);
            assert(decimal_seq(100) =~= seq!['1', '0', '0']);
            assert("100"@ =~= decimal_seq(100));
        }
        out.append("100");
    } else if n >= 10 {
        out.append(digit_str(n / 10));
        out.append(digit_str(n % 10));
        proof {
            reveal_with_fuel(decimal_seq, 2);
            assert(decimal_seq(n as int) =~= seq![
                digit_char(n as int / 10),
                digit_char(n as int % 10),
            ]);
            assert(out@ =~= old(out)@ + decimal_seq(n as int));
        }
    } else {
        out.append(digit_str(n));
        proof {
            assert(out@ =~= old(out)@ + decimal_seq(n as int));
        }
    }
}

/// A copy of `s` with every space turned into an underscore.
fn replace_spaces(s: &str) -> (r: String)
    ensures
        r@ == underscored(s@),
{
    let n = s.unicode_len();
    let mut out = String::new();
    let mut i: usize = 0;
    proof {
        reveal_strlit("_");
        assert(out@ =~= underscored(s@.subrange(0, 0)));
    }
    while i < n
        invariant
            n as nat == s@.len(),
            i <= n,
            out@ == underscored(s@.subrange(0, i as int)),
        decreases n - i,
    {
        let c = s.get_char(i);
        if c == ' ' {
            out.append("_");
            proof {
                reveal_strlit("_");
                assert("_"@ =~= seq!['_']);
                assert(out@ =~= underscored(s@.subrange(0, i + 1)));
            }
        } else {
            let piece = s.substring_char(i, i + 1);
            out.append(piece);
            proof {
                assert(piece@[0] == s@[i as int]);
                assert(out@ =~= underscored(s@.subrange(0, i + 1)));
            }
        }
        i = i + 1;
    }
    proof {
        assert(s@.subrange(0, n as int) =~= s@);
    }
    out
}

/// Compose the label for one resolved encounter: the fixed prefix, the name,
/// the gender symbol and the level, with spaces turned to underscores unless
/// `whitespace` keeps them. The result is a function of the arguments alone,
/// so equal inputs always yield the identical label.
pub fn format_label(name: &str, gender: Gender, level: u32, whitespace: bool) -> (r: String)
    requires
        1 <= level <= 100,
    ensures
        r@ == rendered_label(name@, gender, level as int, whitespace),
{
    let mut mon = String::from_str("Wild ");
    mon.append(name);
    mon.append(gender.symbol());
    mon.append(" (lv");
    push_decimal(&mut mon, level);
    mon.append(")");
    proof {
        assert(mon@ =~= plain_label(name@, gender, level as int));
    }
    if !whitespace {
        replace_spaces(mon.as_str())
    } else {
        mon
    }
}

} // verus!
