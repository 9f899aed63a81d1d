//! Amounts and billing details whose arithmetic on double-precision numbers is
//! still to be done: which numbers are added, multiplied and divided, and where
//! they are shown.
use vstd::prelude::*;
use vstd::string::*;
use crate::double::Double;

verus! {

/// An amount: a formula over double-precision numbers and integers.
#[derive(Debug)]
pub enum Cost {
    /// A double-precision number.
    Num(Double),
    /// An integer, taken as a double-precision number.
    Count(i64),
    Sum(Box<Cost>, Box<Cost>),
    Product(Box<Cost>, Box<Cost>),
    Quotient(Box<Cost>, Box<Cost>),
}

impl Cost {
    pub open spec fn plus(self, other: Cost) -> Cost {
        Cost::Sum(Box::new(self), Box::new(other))
    }

    pub open spec fn times(self, other: Cost) -> Cost {
        Cost::Product(Box::new(self), Box::new(other))
    }

    pub open spec fn over(self, other: Cost) -> Cost {
        Cost::Quotient(Box::new(self), Box::new(other))
    }

    pub fn sum(self, other: Cost) -> (r: Cost)
        ensures
            r == self.plus(other),
    {
        Cost::Sum(Box::new(self), Box::new(other))
    }

    pub fn product(self, other: Cost) -> (r: Cost)
        ensures
            r == self.times(other),
    {
        Cost::Product(Box::new(self), Box::new(other))
    }

    pub fn quotient(self, other: Cost) -> (r: Cost)
        ensures
            r == self.over(other),
    {
        Cost::Quotient(Box::new(self), Box::new(other))
    }

    /// A copy of the amount.
    pub fn dup(&self) -> (r: Cost)
        ensures
            r == *self,
        decreases self,
    {
        match self {
            Cost::Num(d) => Cost::Num(*d),
            Cost::Count(i) => Cost::Count(*i),
            Cost::Sum(a, b) => {
                let x = a.dup();
                let y = b.dup();
                Cost::Sum(Box::new(x), Box::new(y))
            },
            Cost::Product(a, b) => {
                let x = a.dup();
                let y = b.dup();
                Cost::Product(Box::new(x), Box::new(y))
            },
            Cost::Quotient(a, b) => {
                let x = a.dup();
                let y = b.dup();
                Cost::Quotient(Box::new(x), Box::new(y))
            },
        }
    }
}

/// The product of two real numbers.
#[verifier::opaque]
pub open spec fn product(a: real, b: real) -> real {
    a * b
}

/// The quotient of two real numbers.
#[verifier::opaque]
pub open spec fn quotient(a: real, b: real) -> real {
    a / b
}

/// What an amount comes to in exact arithmetic, for any reading of the
/// double-precision numbers in it.
pub open spec fn amount(c: Cost, num: spec_fn(Double) -> real) -> real
    decreases c,
{
    match c {
        Cost::Num(d) => num(d),
        Cost::Count(i) => i as real,
        Cost::Sum(a, b) => amount(*a, num) + amount(*b, num),
        Cost::Product(a, b) => product(amount(*a, num), amount(*b, num)),
        Cost::Quotient(a, b) => quotient(amount(*a, num), amount(*b, num)),
    }
}

/// Factors can be exchanged.
pub proof fn lemma_exchange(x: real, d: real, e: real)
    ensures
        product(product(x, d), e) == product(product(x, e), d),
        product(x, d) == product(d, x),
        product(x, product(d, e)) == product(product(x, d), e),
{
    reveal(product);
    assert((x * d) * e == (x * e) * d) by (nonlinear_arith);
    assert(x * (d * e) == (x * d) * e) by (nonlinear_arith);
    assert(x * d == d * x) by (nonlinear_arith);
}

/// A factor can be taken into a sum.
pub proof fn lemma_distribute(x: real, y: real, d: real)
    ensures
        product(x + y, d) == product(x, d) + product(y, d),
{
    reveal(product);
    assert((x + y) * d == x * d + y * d) by (nonlinear_arith);
}

/// A factor of zero and one of one.
pub proof fn lemma_neutral(x: real)
    ensures
        product(0real, x) == 0real,
        product(x, 0real) == 0real,
        product(1real, x) == x,
        product(x, 1real) == x,
{
    reveal(product);
    assert(0real * x == 0real) by (nonlinear_arith);
    assert(x * 0real == 0real) by (nonlinear_arith);
    assert(1real * x == x) by (nonlinear_arith);
    assert(x * 1real == x) by (nonlinear_arith);
}

/// A factor can be taken out of what is divided by a million.
pub proof fn lemma_millionth(x: real, d: real)
    ensures
        quotient(product(x, d), 1000000real) == product(quotient(x, 1000000real), d),
{
    reveal(product);
    reveal(quotient);
    assert((x * d) / 1000000real == (x / 1000000real) * d) by (nonlinear_arith);
}

/// A part of a billing detail.
#[derive(Debug)]
pub enum Piece {
    /// A text.
    Text(String),
    /// An amount, shown in full.
    Shown(Cost),
    /// An amount, shown with so many decimals.
    Fixed(u8, Cost),
}

/// A part of a billing detail, as a mathematical value.
pub enum PieceModel {
    Text(Seq<char>),
    Shown(Cost),
    Fixed(u8, Cost),
}

impl View for Piece {
    type V = PieceModel;

    open spec fn view(&self) -> PieceModel {
        match *self {
            Piece::Text(s) => PieceModel::Text(s@),
            Piece::Shown(c) => PieceModel::Shown(c),
            Piece::Fixed(n, c) => PieceModel::Fixed(n, c),
        }
    }
}

/// A billing detail: its parts, one after the other.
#[derive(Debug)]
pub struct Detail {
    pub pieces: Vec<Piece>,
}

/// A billing detail, as a mathematical value.
pub type DetailModel = Seq<PieceModel>;

impl View for Detail {
    type V = Seq<PieceModel>;

    open spec fn view(&self) -> Seq<PieceModel> {
        self.pieces@.map_values(|p: Piece| p@)
    }
}

/// The detail with a text behind it.
pub open spec fn said(d: Seq<PieceModel>, s: Seq<char>) -> Seq<PieceModel> {
    d.push(PieceModel::Text(s))
}

/// The detail with an amount behind it.
pub open spec fn showing(d: Seq<PieceModel>, c: Cost) -> Seq<PieceModel> {
    d.push(PieceModel::Shown(c))
}

/// The detail with an amount of so many decimals behind it.
pub open spec fn showing_fixed(d: Seq<PieceModel>, n: u8, c: Cost) -> Seq<PieceModel> {
    d.push(PieceModel::Fixed(n, c))
}

/// The detail that a text begins.
pub open spec fn saying(s: Seq<char>) -> Seq<PieceModel> {
    said(Seq::empty(), s)
}

impl Detail {
    /// Begins a detail with a text.
    pub fn start(s: &str) -> (r: Detail)
        ensures
            r@ == saying(s@),
    {
        let mut pieces: Vec<Piece> = Vec::new();
        pieces.push(Piece::Text(s.to_owned()));
        let r = Detail { pieces };
        assert(r@ =~= saying(s@));
        r
    }

    /// The detail with a text behind it.
    pub fn text(self, s: &str) -> (r: Detail)
        ensures
            r@ == said(self@, s@),
    {
        let mut pieces = self.pieces;
        pieces.push(Piece::Text(s.to_owned()));
        let r = Detail { pieces };
        assert(r@ =~= said(self@, s@));
        r
    }

    /// The detail with an amount behind it.
    pub fn shown(self, c: &Cost) -> (r: Detail)
        ensures
            r@ == showing(self@, *c),
    {
        let mut pieces = self.pieces;
        pieces.push(Piece::Shown(c.dup()));
        let r = Detail { pieces };
        assert(r@ =~= showing(self@, *c));
        r
    }

    /// The detail with an amount of so many decimals behind it.
    pub fn fixed(self, n: u8, c: &Cost) -> (r: Detail)
        ensures
            r@ == showing_fixed(self@, n, *c),
    {
        let mut pieces = self.pieces;
        pieces.push(Piece::Fixed(n, c.dup()));
        let r = Detail { pieces };
        assert(r@ =~= showing_fixed(self@, n, *c));
        r
    }

    /// The detail with an integer behind it.
    pub fn count(self, i: i64) -> (r: Detail)
        ensures
            r@ == showing(self@, Cost::Count(i)),
    {
        let c = Cost::Count(i);
        self.shown(&c)
    }

    /// The detail with a number behind it.
    pub fn number(self, d: Double) -> (r: Detail)
        ensures
            r@ == showing(self@, Cost::Num(d)),
    {
        let c = Cost::Num(d);
        self.shown(&c)
    }
}

} // verus!
