//! Building the text of diagnostics.
use vstd::prelude::*;
use itertools::Itertools;
use crate::ty_def::Kind;

verus! {

/// The decimal digit `d`.
pub open spec fn digit(d: nat) -> char {
    if d == 0 { '0' }
    else if d == 1 { '1' }
    else if d == 2 { '2' }
    else if d == 3 { '3' }
    else if d == 4 { '4' }
    else if d == 5 { '5' }
    else if d == 6 { '6' }
    else if d == 7 { '7' }
    else if d == 8 { '8' }
    else { '9' }
}

/// `n` written in decimal, without sign or leading zeros.
pub open spec fn decimal(n: nat) -> Seq<char>
    decreases n,
{
    if n < 10 {
        seq![digit(n)]
    } else {
        decimal(n / 10).push(digit(n % 10))
    }
}

/// `parts` with `sep` between each two.
pub open spec fn join_texts(parts: Seq<Seq<char>>, sep: Seq<char>) -> Seq<char>
    decreases parts.len(),
{
    if parts.len() == 0 {
        Seq::empty()
    } else if parts.len() == 1 {
        parts[0]
    } else {
        join_texts(parts.drop_last(), sep) + sep + parts.last()
    }
}

/// The texts of a sequence of strings.
pub open spec fn texts(v: Seq<String>) -> Seq<Seq<char>> {
    v.map_values(|s: String| s@)
}

/// How a kind is written: `*`, `(k1 -> k2)`, `Any`.
pub open spec fn kind_text(k: Kind) -> Seq<char>
    decreases k,
{
    match k {
        Kind::Star => "*"@,
        Kind::Abs(a, b) => "("@ + kind_text(*a) + " -> "@ + kind_text(*b) + ")"@,
        Kind::Any => "Any"@,
    }
}

/// Relies on std's `Display` for `usize` (through `ToString::to_string`),
/// which writes the number in decimal without sign, padding or separators.
#[verifier::external_body]
pub(crate) fn usize_text(n: usize) -> (r: String)
    ensures
        r@ == decimal(n as nat),
{
    n.to_string()
}

/// Relies on `itertools::Itertools::join`: the items' texts in order, with
/// `", "` between each two, and the empty string for no items.
#[verifier::external_body]
pub(crate) fn join_comma(items: &Vec<String>) -> (r: String)
    ensures
        r@ == join_texts(texts(items@), ", "@),
{
    items.iter().join(", ")
}

/// `a`, `b`, `c`, `d` and `e`, one after the other.
pub(crate) fn concat5(a: &str, b: &str, c: &str, d: &str, e: &str) -> (r: String)
    ensures
        r@ == a@ + b@ + c@ + d@ + e@,
{
    let mut s = a.to_string();
    s.append(b);
    s.append(c);
    s.append(d);
    s.append(e);
    s
}

impl Kind {
    /// The kind as it is written in diagnostics.
    pub fn display(&self) -> (r: String)
        ensures
            r@ == kind_text(*self),
        decreases self,
    {
        match self {
            Kind::Star => "*".to_string(),
            Kind::Abs(a, b) => {
                let ta = a.display();
                let tb = b.display();
                concat5("(", ta.as_str(), " -> ", tb.as_str(), ")")
            },
            Kind::Any => "Any".to_string(),
        }
    }
}

} // verus!
