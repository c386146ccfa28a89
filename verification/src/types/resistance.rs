//! Resistance, in ohms.

use crate::expr::{Expr, Term};
use crate::types::current::Current;
use crate::types::power::Power;
use crate::types::{
    band_of, calculate_addition_with_tolerance, calculate_division_with_tolerance,
    calculate_multiplication_with_tolerance, clone_tolerance, parse_quantity, product, quotient,
    reading_of, total, Band, ErrorView, Measurement, ParserError, Quantity, Tolerance,
};
use vstd::prelude::*;

verus! {

/// A resistance: its nominal value in ohms, and its tolerance.
#[derive(Debug, PartialEq)]
pub struct Resistance {
    pub value: Expr,
    pub tolerance: Option<Tolerance>,
}

impl View for Resistance {
    type V = Quantity;

    open spec fn view(&self) -> Quantity {
        Quantity { value: self.value@, tolerance: band_of(self.tolerance) }
    }
}

impl Clone for Resistance {
    fn clone(&self) -> (res: Self)
        ensures
            res@ == self@,
    {
        Resistance { value: self.value.clone(), tolerance: clone_tolerance(&self.tolerance) }
    }
}

impl Default for Resistance {
    /// Zero ohms, exactly.
    fn default() -> (res: Self)
        ensures
            res@ == (Quantity { value: Term::zero(), tolerance: None }),
    {
        Self { value: Expr::zero(), tolerance: None }
    }
}

impl Measurement for Resistance {
    open spec fn nominal(&self) -> Term {
        self.value@
    }

    open spec fn band(&self) -> Option<Band> {
        band_of(self.tolerance)
    }

    open spec fn unit(&self) -> Seq<char> {
        "R"@
    }

    fn get_nominal_value(&self) -> (res: Expr) {
        self.value.clone()
    }

    fn get_tolerance(&self) -> (res: Option<Tolerance>) {
        clone_tolerance(&self.tolerance)
    }

    fn get_unit(&self) -> (res: &'static str) {
        "R"
    }
}

/// A resistance or the reason why there is none, in mathematical form.
pub open spec fn resistance_view(res: Result<Resistance, ParserError>) -> Result<
    Quantity,
    ErrorView,
> {
    match res {
        Ok(q) => Ok(q@),
        Err(e) => Err(e@),
    }
}

/// A copy of a resistance or of the reason why there is none.
pub fn clone_resistance(res: &Result<Resistance, ParserError>) -> (copy: Result<
    Resistance,
    ParserError,
>)
    ensures
        resistance_view(copy) == resistance_view(*res),
{
    match res {
        Ok(q) => Ok(q.clone()),
        Err(e) => Err(e.clone()),
    }
}

impl core::str::FromStr for Resistance {
    type Err = ParserError;

    /// Reads a field as a resistance.
    fn from_str(input: &str) -> (res: Result<Self, Self::Err>)
        ensures
            resistance_view(res) == reading_of(input@),
    {
        match parse_quantity(input) {
            Ok(pair) => Ok(Resistance { value: pair.0, tolerance: pair.1 }),
            Err(e) => Err(e),
        }
    }
}

impl Resistance {
    /// The sum of two resistances: the two in series.
    pub fn add(&self, rhs: &Resistance) -> (res: Resistance)
        ensures
            res@ == total(self@, rhs@),
    {
        let (value, tol) = calculate_addition_with_tolerance(self, rhs);
        Resistance { value, tolerance: tol }
    }

    /// Adds a resistance in series to this one.
    pub fn add_assign(&mut self, rhs: &Resistance)
        ensures
            final(self)@ == total(old(self)@, rhs@),
    {
        let (value, tol) = calculate_addition_with_tolerance(&*self, rhs);
        self.value = value;
        self.tolerance = tol;
    }

    /// The square of the current `rhs` over this resistance.
    pub fn mul_current(&self, rhs: &Current) -> (res: Power)
        ensures
            res@ == quotient(product(rhs@, rhs@), self@),
    {
        let current2 = calculate_multiplication_with_tolerance(rhs, rhs);
        let current2 = Current { value: current2.0, tolerance: current2.1 };
        let (value, tol) = calculate_division_with_tolerance(&current2, self);
        Power { value, tolerance: tol }
    }
}

} // verus!
