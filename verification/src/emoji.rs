//! Rendering a chain count as custom emoji digits.

use vstd::prelude::*;
use vstd::string::StringExecFns;

verus! {

/// The decimal digits of `n`, least significant first; a single zero digit
/// for zero.
pub open spec fn digits_of(n: int) -> Seq<int>
    decreases n,
{
    if n < 10 {
        seq![n]
    } else {
        seq![n % 10] + digits_of(n / 10)
    }
}

/// The emoji spelling of one decimal digit.
pub open spec fn emoji_of(d: int) -> Seq<char> {
    if d == 0 {
        "<:combo0:1083097710112022739>"@
    } else if d == 1 {
        "<:combo1:1083097662624112753>"@
    } else if d == 2 {
        "<:combo2:1083097661814620302>"@
    } else if d == 3 {
        "<:combo3:1083097660669567037>"@
    } else if d == 4 {
        "<:combo4:1083097659360944168>"@
    } else if d == 5 {
        "<:combo5:1083097655854510161>"@
    } else if d == 6 {
        "<:combo6:1083097654927564830>"@
    } else if d == 7 {
        "<:combo7:1083097653363101697>"@
    } else if d == 8 {
        "<:combo8:1083097652834615356>"@
    } else if d == 9 {
        "<:combo9:1083097651232374784>"@
    } else {
        "<:x_:1083098032268120075>"@
    }
}

/// The emoji spellings of a digit run, concatenated in order.
pub open spec fn emoji_run(ds: Seq<int>) -> Seq<char>
    decreases ds.len(),
{
    if ds.len() == 0 {
        Seq::empty()
    } else {
        emoji_run(ds.drop_last()) + emoji_of(ds.last())
    }
}

/// The full emoji rendering of a count: its digits, least significant
/// first, each spelled as an emoji.
pub open spec fn combo_emojis_of(n: int) -> Seq<char> {
    emoji_run(digits_of(n))
}

/// The emoji for one digit.
pub fn digit_emoji(d: u32) -> (s: &'static str)
    ensures
        s@ == emoji_of(d as int),
{
    match d {
        0 => "<:combo0:1083097710112022739>",
        1 => "<:combo1:1083097662624112753>",
        2 => "<:combo2:1083097661814620302>",
        3 => "<:combo3:1083097660669567037>",
        4 => "<:combo4:1083097659360944168>",
        5 => "<:combo5:1083097655854510161>",
        6 => "<:combo6:1083097654927564830>",
        7 => "<:combo7:1083097653363101697>",
        8 => "<:combo8:1083097652834615356>",
        9 => "<:combo9:1083097651232374784>",
        _ => "<:x_:1083098032268120075>",
    }
}

/// The decimal digits of `combo`, least significant first.
pub fn combo_digits(combo: u32) -> (v: Vec<u32>)
    ensures
        v@.map_values(|d: u32| d as int) == digits_of(combo as int),
{
    let mut v: Vec<u32> = Vec::new();
    let mut n: u32 = combo;
    loop
        invariant_except_break
            digits_of(combo as int) == v@.map_values(|d: u32| d as int) + digits_of(n as int),
        ensures
            v@.map_values(|d: u32| d as int) == digits_of(combo as int),
        decreases n,
    {
        let ghost prior = v@;
        v.push(n % 10);
        proof {
            assert(v@.map_values(|d: u32| d as int) =~= prior.map_values(|d: u32| d as int)
                + seq![(n % 10) as int]);
        }
        if n < 10 {
            proof {
                assert(digits_of(n as int) =~= seq![(n % 10) as int]);
                assert(digits_of(combo as int) =~= v@.map_values(|d: u32| d as int));
            }
            break;
        }
        n = n / 10;
        proof {
            assert(digits_of(combo as int) =~= v@.map_values(|d: u32| d as int)
                + digits_of(n as int));
        }
    }
    v
}

/// Renders a chain count as emoji digits, least significant digit first.
pub fn combo_to_emojis(combo: u32) -> (s: String)
    ensures
        s@ == combo_emojis_of(combo as int),
{
    let digits: Vec<u32> = combo_digits(combo);
    let mut s: String = String::new();
    let ghost ds = digits@.map_values(|d: u32| d as int);
    let mut i: usize = 0;
    while i < digits.len()
        invariant
            i <= digits.len(),
            ds == digits@.map_values(|d: u32| d as int),
            s@ == emoji_run(ds.subrange(0, i as int)),
        decreases digits.len() - i,
    {
        let e: &str = digit_emoji(digits[i]);
        s.append(e);
        proof {
            assert(ds.subrange(0, i + 1).drop_last() =~= ds.subrange(0, i as int));
            assert(ds.subrange(0, i + 1).last() == ds[i as int]);
        }
        i += 1;
    }
    proof {
        assert(ds.subrange(0, digits@.len() as int) =~= ds);
    }
    s
}

} // verus!
