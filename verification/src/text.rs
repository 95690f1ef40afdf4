//! Building text: decimal numerals, joining with separators, pushing characters.

use vstd::prelude::*;
use vstd::string::*;

verus! {

/// The character of a decimal digit.
pub open spec fn digit_char(d: nat) -> char {
    (48 + d) as char
}

/// The decimal numeral of a natural number, as `Display` writes it for an unsigned integer.
pub open spec fn decimal(n: nat) -> Seq<char>
    decreases n,
{
    if n < 10 {
        seq![digit_char(n)]
    } else {
        decimal(n / 10).push(digit_char(n % 10))
    }
}

/// The parts joined with `sep` between each two neighbours.
pub open spec fn seq_join(parts: Seq<Seq<char>>, sep: Seq<char>) -> Seq<char>
    decreases parts.len(),
{
    if parts.len() == 0 {
        Seq::empty()
    } else if parts.len() == 1 {
        parts[0]
    } else {
        seq_join(parts.drop_last(), sep) + sep + parts.last()
    }
}

/// The views of a sequence of strings.
pub open spec fn string_views(parts: Seq<String>) -> Seq<Seq<char>> {
    parts.map_values(|s: String| s@)
}

/// Appends one character: calls `String::push`, which the contract takes to
/// grow the string by exactly that character at its end.
#[verifier::external_body]
pub(crate) fn push_char(s: &mut String, c: char)
    ensures
        final(s)@ == old(s)@.push(c),
{
    s.push(c);
}

fn digit(d: u128) -> (c: char)
    requires
        d < 10,
    ensures
        c == digit_char(d as nat),
{
    let b: u8 = 48u8 + (d as u8);
    b as char
}

/// Appends the decimal numeral of `n`.
pub fn push_decimal(s: &mut String, n: u128)
    ensures
        final(s)@ == old(s)@ + decimal(n as nat),
    decreases n,
{
    if n >= 10 {
        push_decimal(s, n / 10);
    }
    let c = digit(n % 10);
    push_char(s, c);
}

/// The decimal numeral of `n`.
pub fn format_decimal(n: u128) -> (res: String)
    ensures
        res@ == decimal(n as nat),
{
    let mut s = String::new();
    push_decimal(&mut s, n);
    assert(s@ =~= decimal(n as nat));
    s
}

/// Joins the strings: calls `itertools::Itertools::join` on an iterator over
/// them, which the contract takes to write each string unchanged, in order,
/// with `sep` between each two neighbours and nothing for no strings.
#[verifier::external_body]
pub(crate) fn itertools_join(parts: &Vec<String>, sep: &str) -> (res: String)
    ensures
        res@ == seq_join(string_views(parts@), sep@),
{
    itertools::Itertools::join(&mut parts.iter(), sep)
}

/// Joining one more part adds the separator (where there were parts) and the part.
proof fn lemma_join_push(parts: Seq<Seq<char>>, part: Seq<char>, sep: Seq<char>)
    ensures
        seq_join(parts.push(part), sep) == if parts.len() == 0 {
            part
        } else {
            seq_join(parts, sep) + sep + part
        },
{
    assert(parts.push(part).drop_last() =~= parts);
}

/// Joins the strings, in order, with `sep` between each two neighbours.
pub(crate) fn join_strings(parts: &Vec<String>, sep: &str) -> (res: String)
    ensures
        res@ == seq_join(string_views(parts@), sep@),
{
    let mut res = String::new();
    let n = parts.len();
    for i in 0..n
        invariant
            n == parts@.len(),
            res@ == seq_join(string_views(parts@.take(i as int)), sep@),
    {
        proof {
            assert(string_views(parts@.take(i + 1)) =~= string_views(parts@.take(i as int)).push(
                parts@[i as int]@,
            ));
            lemma_join_push(string_views(parts@.take(i as int)), parts@[i as int]@, sep@);
        }
        if i > 0 {
            res.append(sep);
        }
        res.append(parts[i].as_str());
    }
    assert(parts@.take(n as int) =~= parts@);
    res
}

/// The views of a sequence of string slices.
pub open spec fn str_views(parts: Seq<&str>) -> Seq<Seq<char>> {
    parts.map_values(|s: &str| s@)
}

/// Joins the string slices, in order, with `sep` between each two neighbours.
pub(crate) fn join_strs(parts: &[&str], sep: &str) -> (res: String)
    ensures
        res@ == seq_join(str_views(parts@), sep@),
{
    let mut res = String::new();
    let n = parts.len();
    for i in 0..n
        invariant
            n == parts@.len(),
            res@ == seq_join(str_views(parts@.take(i as int)), sep@),
    {
        proof {
            assert(str_views(parts@.take(i + 1)) =~= str_views(parts@.take(i as int)).push(
                parts@[i as int]@,
            ));
            lemma_join_push(str_views(parts@.take(i as int)), parts@[i as int]@, sep@);
        }
        if i > 0 {
            res.append(sep);
        }
        res.append(parts[i]);
    }
    assert(parts@.take(n as int) =~= parts@);
    res
}

} // verus!
