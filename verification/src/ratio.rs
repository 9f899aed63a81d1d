//! Aspect ratios: a size such as `1024x1024` as the nearest standard ratio.
use vstd::prelude::*;
use vstd::string::*;
use crate::json::opt_text;
use crate::text::{contains, holds, parted, split_once, trim, trimmed};

verus! {

/// The standard aspect ratios, in the order in which they are tried.
#[derive(Clone, Copy, Debug, PartialEq, Eq)]
pub enum StandardRatio {
    Square,
    ThreeTwo,
    FourThree,
    SixteenNine,
    TwentyOneNine,
    TwoThree,
    ThreeFour,
    NineSixteen,
}

impl StandardRatio {
    /// How a ratio is written.
    pub open spec fn label(self) -> Seq<char> {
        match self {
            StandardRatio::Square => "1:1"@,
            StandardRatio::ThreeTwo => "3:2"@,
            StandardRatio::FourThree => "4:3"@,
            StandardRatio::SixteenNine => "16:9"@,
            StandardRatio::TwentyOneNine => "21:9"@,
            StandardRatio::TwoThree => "2:3"@,
            StandardRatio::ThreeFour => "3:4"@,
            StandardRatio::NineSixteen => "9:16"@,
        }
    }

    /// Writes the ratio.
    pub fn name(self) -> (r: &'static str)
        ensures
            r@ == self.label(),
    {
        match self {
            StandardRatio::Square => "1:1",
            StandardRatio::ThreeTwo => "3:2",
            StandardRatio::FourThree => "4:3",
            StandardRatio::SixteenNine => "16:9",
            StandardRatio::TwentyOneNine => "21:9",
            StandardRatio::TwoThree => "2:3",
            StandardRatio::ThreeFour => "3:4",
            StandardRatio::NineSixteen => "9:16",
        }
    }
}

/// The two sides of a text, at the first of the separators that it holds.
pub open spec fn parted_by(s: Seq<char>, seps: Seq<Seq<char>>) -> Option<(Seq<char>, Seq<char>)>
    decreases seps.len(),
{
    if seps.len() == 0 {
        None
    } else {
        match parted(s, seps[0]) {
            Some(p) => Some(p),
            None => parted_by(s, seps.drop_first()),
        }
    }
}

/// Splits a text at the first of four separators that it holds.
pub fn split_by<'a>(s: &'a str, a: &str, b: &str, c: &str, d: &str) -> (r: Option<
    (&'a str, &'a str),
>)
    ensures
        match r {
            Some((x, y)) => parted_by(s@, seq![a@, b@, c@, d@]) == Some((x@, y@)),
            None => parted_by(s@, seq![a@, b@, c@, d@]) is None,
        },
{
    proof {
        let all = seq![a@, b@, c@, d@];
        assert(all.drop_first() =~= seq![b@, c@, d@]);
        assert(seq![b@, c@, d@].drop_first() =~= seq![c@, d@]);
        assert(seq![c@, d@].drop_first() =~= seq![d@]);
        assert(seq![d@].drop_first() =~= Seq::<Seq<char>>::empty());
        reveal_with_fuel(parted_by, 5);
    }
    match split_once(s, a) {
        Some(p) => Some(p),
        None => match split_once(s, b) {
            Some(p) => Some(p),
            None => match split_once(s, c) {
                Some(p) => Some(p),
                None => split_once(s, d),
            },
        },
    }
}

/// The sides that a size names, as texts: nothing where it is empty, a ratio
/// already, or no two sides.
pub open spec fn sides_of(size: Seq<char>) -> Option<(Seq<char>, Seq<char>)> {
    let s = trimmed(size);
    if s.len() == 0 || holds(s, ":"@) {
        None
    } else {
        match parted_by(s, seq!["x"@, "X"@, "*"@, "×"@]) {
            Some((w, h)) => Some((trimmed(w), trimmed(h))),
            None => None,
        }
    }
}

/// The sides that a size names, as texts, for the caller to read as numbers
/// and to look for the nearest standard ratio.
pub fn size_sides(size: &str) -> (r: Option<(&str, &str)>)
    ensures
        match r {
            Some((w, h)) => sides_of(size@) == Some((w@, h@)),
            None => sides_of(size@) is None,
        },
{
    let s = trim(size);
    if s.is_empty() || contains(s, ":") {
        return None;
    }
    match split_by(s, "x", "X", "*", "×") {
        Some((w, h)) => Some((trim(w), trim(h))),
        None => None,
    }
}

/// The ratio of a size: a ratio is itself; two sides give the nearest standard
/// ratio; anything else is taken as it is.
pub open spec fn ratio_of(size: Seq<char>, nearest: Option<StandardRatio>) -> Option<Seq<char>> {
    let s = trimmed(size);
    if s.len() == 0 {
        None
    } else if sides_of(size) is None {
        Some(s)
    } else {
        match nearest {
            Some(ratio) => Some(ratio.label()),
            None => Some(s),
        }
    }
}

/// The ratio of a size. `nearest` is the standard ratio nearest to its two
/// sides: nothing where they are no positive numbers.
pub fn size_to_ratio(size: &str, nearest: Option<StandardRatio>) -> (r: Option<&str>)
    ensures
        opt_text(r) == ratio_of(size@, nearest),
{
    let s = trim(size);
    if s.is_empty() {
        return None;
    }
    if size_sides(size).is_none() {
        return Some(s);
    }
    match nearest {
        Some(ratio) => Some(ratio.name()),
        None => Some(s),
    }
}

} // verus!
