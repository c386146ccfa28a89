//! Current, in amperes.

use crate::expr::{Expr, Term};
use crate::types::resistance::Resistance;
use crate::types::voltage::Voltage;
use crate::types::{
    band_of, calculate_multiplication_with_tolerance, clone_tolerance, parse_quantity, product,
    reading_of, Band, ErrorView, Measurement, ParserError, Quantity, Tolerance,
};
use vstd::prelude::*;

verus! {

/// A current: its nominal value in amperes, and its tolerance.
#[derive(Debug, PartialEq)]
pub struct Current {
    pub value: Expr,
    pub tolerance: Option<Tolerance>,
}

impl View for Current {
    type V = Quantity;

    open spec fn view(&self) -> Quantity {
        Quantity { value: self.value@, tolerance: band_of(self.tolerance) }
    }
}

impl Clone for Current {
    fn clone(&self) -> (res: Self)
        ensures
            res@ == self@,
    {
        Current { value: self.value.clone(), tolerance: clone_tolerance(&self.tolerance) }
    }
}

impl Default for Current {
    /// Zero amperes, exactly.
    fn default() -> (res: Self)
        ensures
            res@ == (Quantity { value: Term::zero(), tolerance: None }),
    {
        Self { value: Expr::zero(), tolerance: None }
    }
}

impl Measurement for Current {
    open spec fn nominal(&self) -> Term {
        self.value@
    }

    open spec fn band(&self) -> Option<Band> {
        band_of(self.tolerance)
    }

    open spec fn unit(&self) -> Seq<char> {
        "A"@
    }

    fn get_nominal_value(&self) -> (res: Expr) {
        self.value.clone()
    }

    fn get_tolerance(&self) -> (res: Option<Tolerance>) {
        clone_tolerance(&self.tolerance)
    }

    fn get_unit(&self) -> (res: &'static str) {
        "A"
    }
}

/// A current or the reason why there is none, in mathematical form.
pub open spec fn current_view(res: Result<Current, ParserError>) -> Result<
    Quantity,
    ErrorView,
> {
    match res {
        Ok(q) => Ok(q@),
        Err(e) => Err(e@),
    }
}

/// A copy of a current or of the reason why there is none.
pub fn clone_current(res: &Result<Current, ParserError>) -> (copy: Result<
    Current,
    ParserError,
>)
    ensures
        current_view(copy) == current_view(*res),
{
    match res {
        Ok(q) => Ok(q.clone()),
        Err(e) => Err(e.clone()),
    }
}

impl core::str::FromStr for Current {
    type Err = ParserError;

    /// Reads a field as a current.
    fn from_str(input: &str) -> (res: Result<Self, Self::Err>)
        ensures
            current_view(res) == reading_of(input@),
    {
        match parse_quantity(input) {
            Ok(pair) => Ok(Current { value: pair.0, tolerance: pair.1 }),
            Err(e) => Err(e),
        }
    }
}

impl Current {
    /// The voltage that drives this current through the resistance `rhs`: the
    /// current times the resistance.
    pub fn mul_resistance(&self, rhs: &Resistance) -> (res: Voltage)
        ensures
            res@ == product(self@, rhs@),
    {
        let (value, tol) = calculate_multiplication_with_tolerance(self, rhs);
        Voltage { value, tolerance: tol }
    }
}

} // verus!
