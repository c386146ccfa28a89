//! Arithmetic expressions over decimal literals.
//!
//! An [`Expr`] records how a number is obtained: from a literal as it was
//! written, or from other numbers by one arithmetic step. Each node stands
//! for one double-precision operation, applied to the values of its children
//! in the order written; a literal stands for the double nearest to the
//! decimal text it holds. A quotient whose divisor is zero has no value, and
//! neither has an expression that holds one.
//!
//! Contracts speak of a [`Term`], the same expression with the text of each
//! literal as a sequence of characters.

use vstd::prelude::*;

verus! {

/// The mathematical form of an [`Expr`], with the text of each literal as a
/// sequence of characters.
pub enum Term {
    Literal(Seq<char>),
    Abs(Box<Term>),
    Sqrt(Box<Term>),
    Sum(Box<Term>, Box<Term>),
    Diff(Box<Term>, Box<Term>),
    Prod(Box<Term>, Box<Term>),
    Quot(Box<Term>, Box<Term>),
}

/// A number, given by the arithmetic that produces it.
#[derive(Debug, PartialEq)]
pub enum Expr {
    /// A decimal literal, kept as written.
    Literal(String),
    /// The absolute value of the operand.
    Abs(Box<Expr>),
    /// The square root of the operand.
    Sqrt(Box<Expr>),
    /// Left plus right.
    Sum(Box<Expr>, Box<Expr>),
    /// Left minus right.
    Diff(Box<Expr>, Box<Expr>),
    /// Left times right.
    Prod(Box<Expr>, Box<Expr>),
    /// Left divided by right.
    Quot(Box<Expr>, Box<Expr>),
}

impl Term {
    /// The literal with the given text.
    pub open spec fn literal(text: Seq<char>) -> Term {
        Term::Literal(text)
    }

    /// The absolute value of `a`.
    pub open spec fn abs(a: Term) -> Term {
        Term::Abs(Box::new(a))
    }

    /// The square root of `a`.
    pub open spec fn sqrt(a: Term) -> Term {
        Term::Sqrt(Box::new(a))
    }

    /// `a` plus `b`.
    pub open spec fn sum(a: Term, b: Term) -> Term {
        Term::Sum(Box::new(a), Box::new(b))
    }

    /// `a` minus `b`.
    pub open spec fn diff(a: Term, b: Term) -> Term {
        Term::Diff(Box::new(a), Box::new(b))
    }

    /// `a` times `b`.
    pub open spec fn prod(a: Term, b: Term) -> Term {
        Term::Prod(Box::new(a), Box::new(b))
    }

    /// `a` divided by `b`.
    pub open spec fn quot(a: Term, b: Term) -> Term {
        Term::Quot(Box::new(a), Box::new(b))
    }

    /// The number zero.
    pub open spec fn zero() -> Term {
        Term::Literal("0"@)
    }

    /// The number one.
    pub open spec fn one() -> Term {
        Term::Literal("1"@)
    }

    /// The number one hundred.
    pub open spec fn hundred() -> Term {
        Term::Literal("100"@)
    }

    /// What stands for a number that was never given.
    pub open spec fn nan() -> Term {
        Term::Literal("NaN"@)
    }
}

impl View for Expr {
    type V = Term;

    open spec fn view(&self) -> Term {
        self.term()
    }
}

impl Clone for Expr {
    fn clone(&self) -> (res: Self)
        ensures
            res@ == self@,
        decreases self,
    {
        match self {
            Expr::Literal(s) => Expr::Literal(s.clone()),
            Expr::Abs(a) => Expr::Abs(Box::new((&**a).clone())),
            Expr::Sqrt(a) => Expr::Sqrt(Box::new((&**a).clone())),
            Expr::Sum(a, b) => Expr::Sum(Box::new((&**a).clone()), Box::new((&**b).clone())),
            Expr::Diff(a, b) => Expr::Diff(Box::new((&**a).clone()), Box::new((&**b).clone())),
            Expr::Prod(a, b) => Expr::Prod(Box::new((&**a).clone()), Box::new((&**b).clone())),
            Expr::Quot(a, b) => Expr::Quot(Box::new((&**a).clone()), Box::new((&**b).clone())),
        }
    }
}

impl Expr {
    /// The term this expression denotes.
    pub open spec fn term(&self) -> Term
        decreases self,
    {
        match self {
            Expr::Literal(s) => Term::Literal(s@),
            Expr::Abs(a) => Term::Abs(Box::new(a.term())),
            Expr::Sqrt(a) => Term::Sqrt(Box::new(a.term())),
            Expr::Sum(a, b) => Term::Sum(Box::new(a.term()), Box::new(b.term())),
            Expr::Diff(a, b) => Term::Diff(Box::new(a.term()), Box::new(b.term())),
            Expr::Prod(a, b) => Term::Prod(Box::new(a.term()), Box::new(b.term())),
            Expr::Quot(a, b) => Term::Quot(Box::new(a.term()), Box::new(b.term())),
        }
    }

    /// A literal with the given text.
    pub fn literal(text: &str) -> (res: Expr)
        ensures
            res@ == Term::Literal(text@),
    {
        Expr::Literal(text.to_owned())
    }

    /// The absolute value of `a`.
    pub fn abs(a: Expr) -> (res: Expr)
        ensures
            res@ == Term::abs(a@),
    {
        Expr::Abs(Box::new(a))
    }

    /// The square root of `a`.
    pub fn sqrt(a: Expr) -> (res: Expr)
        ensures
            res@ == Term::sqrt(a@),
    {
        Expr::Sqrt(Box::new(a))
    }

    /// `a` plus `b`.
    pub fn sum(a: Expr, b: Expr) -> (res: Expr)
        ensures
            res@ == Term::sum(a@, b@),
    {
        Expr::Sum(Box::new(a), Box::new(b))
    }

    /// `a` minus `b`.
    pub fn diff(a: Expr, b: Expr) -> (res: Expr)
        ensures
            res@ == Term::diff(a@, b@),
    {
        Expr::Diff(Box::new(a), Box::new(b))
    }

    /// `a` times `b`.
    pub fn prod(a: Expr, b: Expr) -> (res: Expr)
        ensures
            res@ == Term::prod(a@, b@),
    {
        Expr::Prod(Box::new(a), Box::new(b))
    }

    /// `a` divided by `b`.
    pub fn quot(a: Expr, b: Expr) -> (res: Expr)
        ensures
            res@ == Term::quot(a@, b@),
    {
        Expr::Quot(Box::new(a), Box::new(b))
    }

    /// The number zero.
    pub fn zero() -> (res: Expr)
        ensures
            res@ == Term::zero(),
    {
        Expr::literal("0")
    }

    /// The number one.
    pub fn one() -> (res: Expr)
        ensures
            res@ == Term::one(),
    {
        Expr::literal("1")
    }

    /// The number one hundred.
    pub fn hundred() -> (res: Expr)
        ensures
            res@ == Term::hundred(),
    {
        Expr::literal("100")
    }

    /// What stands for a number that was never given: it reads as
    /// not-a-number.
    pub fn nan() -> (res: Expr)
        ensures
            res@ == Term::nan(),
    {
        Expr::literal("NaN")
    }
}

} // verus!
