//! Power, in watts.

use crate::expr::{Expr, Term};
use crate::types::current::Current;
use crate::types::resistance::Resistance;
use crate::types::voltage::Voltage;
use crate::types::{
    band_of, calculate_division_with_tolerance, calculate_multiplication_with_tolerance,
    clone_tolerance, parse_quantity, product, quotient, reading_of, Band, ErrorView, Measurement,
    ParserError, Quantity, Tolerance,
};
use vstd::prelude::*;

verus! {

/// A power: its nominal value in watts, and its tolerance.
#[derive(Debug, PartialEq)]
pub struct Power {
    pub value: Expr,
    pub tolerance: Option<Tolerance>,
}

impl View for Power {
    type V = Quantity;

    open spec fn view(&self) -> Quantity {
        Quantity { value: self.value@, tolerance: band_of(self.tolerance) }
    }
}

impl Clone for Power {
    fn clone(&self) -> (res: Self)
        ensures
            res@ == self@,
    {
        Power { value: self.value.clone(), tolerance: clone_tolerance(&self.tolerance) }
    }
}

impl Default for Power {
    /// Zero watts, exactly.
    fn default() -> (res: Self)
        ensures
            res@ == (Quantity { value: Term::zero(), tolerance: None }),
    {
        Self { value: Expr::zero(), tolerance: None }
    }
}

impl Measurement for Power {
    open spec fn nominal(&self) -> Term {
        self.value@
    }

    open spec fn band(&self) -> Option<Band> {
        band_of(self.tolerance)
    }

    open spec fn unit(&self) -> Seq<char> {
        "W"@
    }

    fn get_nominal_value(&self) -> (res: Expr) {
        self.value.clone()
    }

    fn get_tolerance(&self) -> (res: Option<Tolerance>) {
        clone_tolerance(&self.tolerance)
    }

    fn get_unit(&self) -> (res: &'static str) {
        "W"
    }
}

/// A power or the reason why there is none, in mathematical form.
pub open spec fn power_view(res: Result<Power, ParserError>) -> Result<
    Quantity,
    ErrorView,
> {
    match res {
        Ok(q) => Ok(q@),
        Err(e) => Err(e@),
    }
}

/// A copy of a power or of the reason why there is none.
pub fn clone_power(res: &Result<Power, ParserError>) -> (copy: Result<
    Power,
    ParserError,
>)
    ensures
        power_view(copy) == power_view(*res),
{
    match res {
        Ok(q) => Ok(q.clone()),
        Err(e) => Err(e.clone()),
    }
}

impl core::str::FromStr for Power {
    type Err = ParserError;

    /// Reads a field as a power.
    fn from_str(input: &str) -> (res: Result<Self, Self::Err>)
        ensures
            power_view(res) == reading_of(input@),
    {
        match parse_quantity(input) {
            Ok(pair) => Ok(Power { value: pair.0, tolerance: pair.1 }),
            Err(e) => Err(e),
        }
    }
}

impl Power {
    /// The current that carries this power at the voltage `rhs`: the power over
    /// the voltage.
    pub fn div_voltage(&self, rhs: &Voltage) -> (res: Current)
        ensures
            res@ == quotient(self@, rhs@),
    {
        let (value, tol) = calculate_division_with_tolerance(self, rhs);
        Current { value, tolerance: tol }
    }

    /// The resistance in which the current `rhs` turns over this power: the
    /// power over the square of the current.
    pub fn div_current(&self, rhs: &Current) -> (res: Resistance)
        ensures
            res@ == quotient(self@, product(rhs@, rhs@)),
    {
        let current2 = calculate_multiplication_with_tolerance(rhs, rhs);
        let current2 = Current { value: current2.0, tolerance: current2.1 };
        let (value, tol) = calculate_division_with_tolerance(self, &current2);
        Resistance { value, tolerance: tol }
    }

    /// The voltage at which the current `rhs` carries this power: the power
    /// over the current.
    pub fn mul_current(&self, rhs: &Current) -> (res: Voltage)
        ensures
            res@ == quotient(self@, rhs@),
    {
        let (value, tol) = calculate_division_with_tolerance(self, rhs);
        Voltage { value, tolerance: tol }
    }
}

} // verus!
