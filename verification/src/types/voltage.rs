//! Voltage, in volts.

use crate::expr::{Expr, Term};
use crate::types::current::Current;
use crate::types::power::Power;
use crate::types::resistance::Resistance;
use crate::types::{
    band_of, calculate_addition_with_tolerance, calculate_division_with_tolerance,
    calculate_multiplication_with_tolerance, calculate_subtraction_with_tolerance, clone_tolerance,
    difference, parse_quantity, product, quotient, reading_of, total, Band, ErrorView, Measurement,
    ParserError, Quantity, Tolerance,
};
use vstd::prelude::*;

verus! {

/// A voltage: its nominal value in volts, and its tolerance.
#[derive(Debug, PartialEq)]
pub struct Voltage {
    pub value: Expr,
    pub tolerance: Option<Tolerance>,
}

impl View for Voltage {
    type V = Quantity;

    open spec fn view(&self) -> Quantity {
        Quantity { value: self.value@, tolerance: band_of(self.tolerance) }
    }
}

impl Clone for Voltage {
    fn clone(&self) -> (res: Self)
        ensures
            res@ == self@,
    {
        Voltage { value: self.value.clone(), tolerance: clone_tolerance(&self.tolerance) }
    }
}

impl Default for Voltage {
    /// Zero volts, exactly.
    fn default() -> (res: Self)
        ensures
            res@ == (Quantity { value: Term::zero(), tolerance: None }),
    {
        Self { value: Expr::zero(), tolerance: None }
    }
}

impl Measurement for Voltage {
    open spec fn nominal(&self) -> Term {
        self.value@
    }

    open spec fn band(&self) -> Option<Band> {
        band_of(self.tolerance)
    }

    open spec fn unit(&self) -> Seq<char> {
        "V"@
    }

    fn get_nominal_value(&self) -> (res: Expr) {
        self.value.clone()
    }

    fn get_tolerance(&self) -> (res: Option<Tolerance>) {
        clone_tolerance(&self.tolerance)
    }

    fn get_unit(&self) -> (res: &'static str) {
        "V"
    }
}

/// A voltage or the reason why there is none, in mathematical form.
pub open spec fn voltage_view(res: Result<Voltage, ParserError>) -> Result<
    Quantity,
    ErrorView,
> {
    match res {
        Ok(q) => Ok(q@),
        Err(e) => Err(e@),
    }
}

/// A copy of a voltage or of the reason why there is none.
pub fn clone_voltage(res: &Result<Voltage, ParserError>) -> (copy: Result<
    Voltage,
    ParserError,
>)
    ensures
        voltage_view(copy) == voltage_view(*res),
{
    match res {
        Ok(q) => Ok(q.clone()),
        Err(e) => Err(e.clone()),
    }
}

impl core::str::FromStr for Voltage {
    type Err = ParserError;

    /// Reads a field as a voltage.
    fn from_str(input: &str) -> (res: Result<Self, Self::Err>)
        ensures
            voltage_view(res) == reading_of(input@),
    {
        match parse_quantity(input) {
            Ok(pair) => Ok(Voltage { value: pair.0, tolerance: pair.1 }),
            Err(e) => Err(e),
        }
    }
}

impl Voltage {
    /// The sum of two voltages.
    pub fn add(&self, rhs: &Voltage) -> (res: Voltage)
        ensures
            res@ == total(self@, rhs@),
    {
        let (value, tol) = calculate_addition_with_tolerance(self, rhs);
        Voltage { value, tolerance: tol }
    }

    /// The difference of two voltages.
    pub fn sub(&self, rhs: &Voltage) -> (res: Voltage)
        ensures
            res@ == difference(self@, rhs@),
    {
        let (value, tol) = calculate_subtraction_with_tolerance(self, rhs);
        Voltage { value, tolerance: tol }
    }

    /// The resistance across which this voltage drives the current `rhs`: the
    /// voltage over the current.
    pub fn div_current(&self, rhs: &Current) -> (res: Resistance)
        ensures
            res@ == quotient(self@, rhs@),
    {
        let (value, tol) = calculate_division_with_tolerance(self, rhs);
        Resistance { value, tolerance: tol }
    }

    /// The resistance that takes the power `rhs` at this voltage: the square of
    /// the voltage over the power.
    pub fn div_power(&self, rhs: &Power) -> (res: Resistance)
        ensures
            res@ == quotient(product(self@, self@), rhs@),
    {
        let voltage2 = calculate_multiplication_with_tolerance(self, self);
        let voltage2 = Voltage { value: voltage2.0, tolerance: voltage2.1 };
        let (value, tol) = calculate_division_with_tolerance(&voltage2, rhs);
        Resistance { value, tolerance: tol }
    }

    /// The current that this voltage drives through the resistance `rhs`: the
    /// voltage over the resistance.
    pub fn div_resistance(&self, rhs: &Resistance) -> (res: Current)
        ensures
            res@ == quotient(self@, rhs@),
    {
        let (value, tol) = calculate_division_with_tolerance(self, rhs);
        Current { value, tolerance: tol }
    }

    /// The power of the current `rhs` at this voltage: the voltage times the
    /// current.
    pub fn mul_current(&self, rhs: &Current) -> (res: Power)
        ensures
            res@ == product(self@, rhs@),
    {
        let (value, tol) = calculate_multiplication_with_tolerance(self, rhs);
        Power { value, tolerance: tol }
    }
}

} // verus!
