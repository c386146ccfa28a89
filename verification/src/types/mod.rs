//! Quantities with an asymmetric percentage tolerance, and the arithmetic
//! that carries the tolerance along.

use crate::expr::{Expr, Term};
use crate::parser::{blocks_of, blocks_view, parse_blocks, Block, BlockView};
use crate::parser::{is_rest_of, lemma_failure_is_rest};
use crate::text::{blank, trim, trimmed};
use vstd::prelude::*;
use vstd::string::*;

pub mod current;
pub mod power;
pub mod resistance;
pub mod voltage;

verus! {

/// Why a field holds no quantity.
#[derive(Debug, PartialEq)]
pub enum ParserError {
    /// The field is blank.
    EmptyInput,
    /// The field does not follow the grammar; the text that was not read.
    IncorrectInput(String),
}

/// The mathematical form of a [`ParserError`].
pub enum ErrorView {
    EmptyInput,
    IncorrectInput(Seq<char>),
}

impl View for ParserError {
    type V = ErrorView;

    open spec fn view(&self) -> ErrorView {
        match self {
            ParserError::EmptyInput => ErrorView::EmptyInput,
            ParserError::IncorrectInput(rest) => ErrorView::IncorrectInput(rest@),
        }
    }
}

impl Clone for ParserError {
    fn clone(&self) -> (res: Self)
        ensures
            res@ == self@,
    {
        match self {
            ParserError::EmptyInput => ParserError::EmptyInput,
            ParserError::IncorrectInput(rest) => ParserError::IncorrectInput(rest.clone()),
        }
    }
}

/// A decimal prefix of a unit.
#[derive(Debug, Clone, Copy, PartialEq, Eq, Structural)]
pub enum Dim {
    Pico,
    Nano,
    Micro,
    Milli,
    /// No prefix: the unit itself.
    Base,
    Kilo,
    Mega,
    Giga,
    Tera,
}

impl Dim {
    /// The prefix that a letter stands for; a letter that is no prefix stands
    /// for none.
    pub open spec fn of_letter(c: char) -> Dim {
        if c == 'p' {
            Dim::Pico
        } else if c == 'n' {
            Dim::Nano
        } else if c == 'u' {
            Dim::Micro
        } else if c == 'm' {
            Dim::Milli
        } else if c == 'k' {
            Dim::Kilo
        } else if c == 'M' {
            Dim::Mega
        } else if c == 'G' {
            Dim::Giga
        } else if c == 'T' {
            Dim::Tera
        } else {
            Dim::Base
        }
    }

    /// The decimal literal of the factor that the prefix multiplies by.
    pub open spec fn factor_text(self) -> Seq<char> {
        match self {
            Dim::Pico => "1e-12"@,
            Dim::Nano => "1e-9"@,
            Dim::Micro => "1e-6"@,
            Dim::Milli => "1e-3"@,
            Dim::Base => "1"@,
            Dim::Kilo => "1e3"@,
            Dim::Mega => "1e6"@,
            Dim::Giga => "1e9"@,
            Dim::Tera => "1e12"@,
        }
    }

    /// The factor that the prefix multiplies by, as a literal.
    pub fn coefficient(&self) -> (res: Expr)
        ensures
            res@ == Term::Literal(self.factor_text()),
    {
        match self {
            Dim::Pico => Expr::literal("1e-12"),
            Dim::Nano => Expr::literal("1e-9"),
            Dim::Micro => Expr::literal("1e-6"),
            Dim::Milli => Expr::literal("1e-3"),
            Dim::Base => Expr::literal("1"),
            Dim::Kilo => Expr::literal("1e3"),
            Dim::Mega => Expr::literal("1e6"),
            Dim::Giga => Expr::literal("1e9"),
            Dim::Tera => Expr::literal("1e12"),
        }
    }
}

impl From<char> for Dim {
    fn from(c: char) -> (res: Dim) {
        match c {
            'p' => Dim::Pico,
            'n' => Dim::Nano,
            'u' => Dim::Micro,
            'm' => Dim::Milli,
            'k' => Dim::Kilo,
            'M' => Dim::Mega,
            'G' => Dim::Giga,
            'T' => Dim::Tera,
            _ => Dim::Base,
        }
    }
}

impl vstd::std_specs::convert::FromSpecImpl<char> for Dim {
    open spec fn obeys_from_spec() -> bool {
        true
    }

    open spec fn from_spec(c: char) -> Dim {
        Dim::of_letter(c)
    }
}

/// An asymmetric tolerance: how far, in percent of the nominal value, the
/// true value may lie above (`plus`) and below (`minus`).
#[derive(Debug, PartialEq)]
pub struct Tolerance {
    pub plus: Expr,
    pub minus: Expr,
}

/// The mathematical form of a [`Tolerance`].
pub struct Band {
    pub plus: Term,
    pub minus: Term,
}

impl View for Tolerance {
    type V = Band;

    open spec fn view(&self) -> Band {
        Band { plus: self.plus@, minus: self.minus@ }
    }
}

impl Clone for Tolerance {
    fn clone(&self) -> (res: Self)
        ensures
            res@ == self@,
    {
        Tolerance { plus: self.plus.clone(), minus: self.minus.clone() }
    }
}

/// The mathematical form of a tolerance that may be absent.
pub open spec fn band_of(tolerance: Option<Tolerance>) -> Option<Band> {
    match tolerance {
        Some(t) => Some(t@),
        None => None,
    }
}

/// A copy of a tolerance that may be absent.
pub fn clone_tolerance(tolerance: &Option<Tolerance>) -> (res: Option<Tolerance>)
    ensures
        band_of(res) == band_of(*tolerance),
{
    match tolerance {
        Some(t) => Some(t.clone()),
        None => None,
    }
}

/// A nominal value with its tolerance, in mathematical form: what the four
/// kinds of quantity have in common.
pub struct Quantity {
    pub value: Term,
    pub tolerance: Option<Band>,
}

impl Quantity {
    /// The quantity with the given nominal value and tolerance.
    pub open spec fn of(value: Term, tolerance: Option<Band>) -> Quantity {
        Quantity { value, tolerance }
    }
}

/// What a cell of a result table shows.
#[derive(Debug, PartialEq)]
pub enum Readout {
    /// No value: the cell reads `N/A`.
    NotAvailable,
    /// A value in the quantity's unit, to be scaled to the magnitude prefix
    /// that fits it and shown with two decimals, the prefix letter and the
    /// unit; behind a minus sign where `dash` is set.
    Scaled { dash: bool, value: Expr, unit: String },
    /// A percentage, shown with two decimals and a percent sign; behind a
    /// minus sign where `dash` is set.
    Percent { dash: bool, value: Expr },
}

/// The mathematical form of a [`Readout`].
pub enum ReadoutView {
    NotAvailable,
    Scaled { dash: bool, value: Term, unit: Seq<char> },
    Percent { dash: bool, value: Term },
}

impl View for Readout {
    type V = ReadoutView;

    open spec fn view(&self) -> ReadoutView {
        match self {
            Readout::NotAvailable => ReadoutView::NotAvailable,
            Readout::Scaled { dash, value, unit } => ReadoutView::Scaled {
                dash: *dash,
                value: value@,
                unit: unit@,
            },
            Readout::Percent { dash, value } => ReadoutView::Percent { dash: *dash, value: value@ },
        }
    }
}

/// The lower end of the band round `value`: `value × (100 − minus) / 100`.
pub open spec fn lower_bound(value: Term, band: Band) -> Term {
    Term::quot(Term::prod(value, Term::diff(Term::hundred(), band.minus)), Term::hundred())
}

/// The upper end of the band round `value`: `value × (100 + plus) / 100`.
pub open spec fn upper_bound(value: Term, band: Band) -> Term {
    Term::quot(Term::prod(value, Term::sum(Term::hundred(), band.plus)), Term::hundred())
}

/// A share of `value`: `value × percent / 100`.
pub open spec fn share(value: Term, percent: Term) -> Term {
    Term::quot(Term::prod(value, percent), Term::hundred())
}

/// One of the seven lines in which a quantity is shown.
#[derive(Debug, Clone, Copy, PartialEq, Eq, Structural)]
pub enum Line {
    /// The nominal value.
    Nominal,
    /// The greatest value within the tolerance.
    Max,
    /// The least value within the tolerance.
    Min,
    /// The upward deviation, in the unit itself.
    TolPlus,
    /// The downward deviation, in the unit itself.
    TolMinus,
    /// The upward tolerance, in percent.
    TolPlusPercent,
    /// The downward tolerance, in percent.
    TolMinusPercent,
}

/// A value in a unit, for display.
pub open spec fn scaled(dash: bool, value: Term, unit: Seq<char>) -> ReadoutView {
    ReadoutView::Scaled { dash, value, unit }
}

/// What one line shows of a quantity. All lines but the nominal value need a
/// tolerance; the two downward ones stand behind a minus sign.
pub open spec fn readout(line: Line, q: Quantity, unit: Seq<char>) -> ReadoutView {
    match line {
        Line::Nominal => scaled(false, q.value, unit),
        _ => match q.tolerance {
            None => ReadoutView::NotAvailable,
            Some(band) => match line {
                Line::Nominal => scaled(false, q.value, unit),
                Line::Max => scaled(false, upper_bound(q.value, band), unit),
                Line::Min => scaled(false, lower_bound(q.value, band), unit),
                Line::TolPlus => scaled(false, share(q.value, band.plus), unit),
                Line::TolMinus => scaled(true, share(q.value, band.minus), unit),
                Line::TolPlusPercent => ReadoutView::Percent { dash: false, value: band.plus },
                Line::TolMinusPercent => ReadoutView::Percent { dash: true, value: band.minus },
            },
        },
    }
}

/// Anything that has a nominal value, a tolerance and a unit.
pub trait Measurement {
    /// The nominal value.
    spec fn nominal(&self) -> Term;

    /// The tolerance, if there is one.
    spec fn band(&self) -> Option<Band>;

    /// The unit's label.
    spec fn unit(&self) -> Seq<char>;

    /// The nominal value, in the unit itself.
    fn get_nominal_value(&self) -> (res: Expr)
        ensures
            res@ == self.nominal(),
    ;

    /// The tolerance; `None` for an exact value.
    fn get_tolerance(&self) -> (res: Option<Tolerance>)
        ensures
            band_of(res) == self.band(),
    ;

    /// The unit's label, as it is displayed.
    fn get_unit(&self) -> (res: &'static str)
        ensures
            res@ == self.unit(),
    ;

    /// A value in this quantity's unit, for display.
    fn normalize(&self, value: Expr) -> (res: Readout)
        ensures
            res@ == scaled(false, value@, self.unit()),
    {
        Readout::Scaled { dash: false, value, unit: self.get_unit().to_owned() }
    }

    /// The nominal value, for display.
    fn get_value_nom(&self) -> (res: Readout)
        ensures
            res@ == readout(
                Line::Nominal,
                Quantity::of(self.nominal(), self.band()),
                self.unit(),
            ),
    {
        self.normalize(self.get_nominal_value())
    }

    /// The least value within the tolerance; not available without one.
    fn get_value_min(&self) -> (res: Readout)
        ensures
            res@ == readout(
                Line::Min,
                Quantity::of(self.nominal(), self.band()),
                self.unit(),
            ),
    {
        match self.get_tolerance() {
            Some(tol) => {
                let min = Expr::quot(
                    Expr::prod(self.get_nominal_value(), Expr::diff(Expr::hundred(), tol.minus)),
                    Expr::hundred(),
                );
                self.normalize(min)
            },
            None => Readout::NotAvailable,
        }
    }

    /// The greatest value within the tolerance; not available without one.
    fn get_value_max(&self) -> (res: Readout)
        ensures
            res@ == readout(
                Line::Max,
                Quantity::of(self.nominal(), self.band()),
                self.unit(),
            ),
    {
        match self.get_tolerance() {
            Some(tol) => {
                let max = Expr::quot(
                    Expr::prod(self.get_nominal_value(), Expr::sum(Expr::hundred(), tol.plus)),
                    Expr::hundred(),
                );
                self.normalize(max)
            },
            None => Readout::NotAvailable,
        }
    }

    /// The upward deviation in the unit itself; not available without a
    /// tolerance.
    fn get_tol_value_plus(&self) -> (res: Readout)
        ensures
            res@ == readout(
                Line::TolPlus,
                Quantity::of(self.nominal(), self.band()),
                self.unit(),
            ),
    {
        match self.get_tolerance() {
            Some(tol) => {
                let delta = Expr::quot(
                    Expr::prod(self.get_nominal_value(), tol.plus),
                    Expr::hundred(),
                );
                self.normalize(delta)
            },
            None => Readout::NotAvailable,
        }
    }

    /// The downward deviation in the unit itself, behind a minus sign; not
    /// available without a tolerance.
    fn get_tol_value_minus(&self) -> (res: Readout)
        ensures
            res@ == readout(
                Line::TolMinus,
                Quantity::of(self.nominal(), self.band()),
                self.unit(),
            ),
    {
        match self.get_tolerance() {
            Some(tol) => {
                let delta = Expr::quot(
                    Expr::prod(self.get_nominal_value(), tol.minus),
                    Expr::hundred(),
                );
                Readout::Scaled { dash: true, value: delta, unit: self.get_unit().to_owned() }
            },
            None => Readout::NotAvailable,
        }
    }

    /// The upward tolerance in percent; not available without a tolerance.
    fn get_tol_percent_plus(&self) -> (res: Readout)
        ensures
            res@ == readout(
                Line::TolPlusPercent,
                Quantity::of(self.nominal(), self.band()),
                self.unit(),
            ),
    {
        match self.get_tolerance() {
            Some(tol) => Readout::Percent { dash: false, value: tol.plus },
            None => Readout::NotAvailable,
        }
    }

    /// The downward tolerance in percent, behind a minus sign; not available
    /// without a tolerance.
    fn get_tol_percent_minus(&self) -> (res: Readout)
        ensures
            res@ == readout(
                Line::TolMinusPercent,
                Quantity::of(self.nominal(), self.band()),
                self.unit(),
            ),
    {
        match self.get_tolerance() {
            Some(tol) => Readout::Percent { dash: true, value: tol.minus },
            None => Readout::NotAvailable,
        }
    }
}

/// The nominal value and the tolerance of a measurement.
pub open spec fn measured<M: Measurement + ?Sized>(m: &M) -> Quantity {
    Quantity::of(m.nominal(), m.band())
}

/// A quantity of any kind: a nominal value, a tolerance, and the label of a
/// unit of the caller's choice.
#[derive(Debug, PartialEq)]
pub struct Labelled {
    pub value: Expr,
    pub tolerance: Option<Tolerance>,
    pub unit: &'static str,
}

impl View for Labelled {
    type V = Quantity;

    open spec fn view(&self) -> Quantity {
        Quantity { value: self.value@, tolerance: band_of(self.tolerance) }
    }
}

impl Measurement for Labelled {
    open spec fn nominal(&self) -> Term {
        self.value@
    }

    open spec fn band(&self) -> Option<Band> {
        band_of(self.tolerance)
    }

    open spec fn unit(&self) -> Seq<char> {
        self.unit@
    }

    fn get_nominal_value(&self) -> (res: Expr) {
        self.value.clone()
    }

    fn get_tolerance(&self) -> (res: Option<Tolerance>) {
        clone_tolerance(&self.tolerance)
    }

    fn get_unit(&self) -> (res: &'static str) {
        self.unit
    }
}

/// The upward side of a tolerance; zero where there is none.
pub open spec fn plus_or_zero(band: Option<Band>) -> Term {
    match band {
        Some(b) => b.plus,
        None => Term::zero(),
    }
}

/// The downward side of a tolerance; zero where there is none.
pub open spec fn minus_or_zero(band: Option<Band>) -> Term {
    match band {
        Some(b) => b.minus,
        None => Term::zero(),
    }
}

/// The tolerance of a product: the percentages add up side by side. Exact
/// factors give an exact product.
pub open spec fn product_band(a: Option<Band>, b: Option<Band>) -> Option<Band> {
    if a is None && b is None {
        None
    } else {
        Some(
            Band {
                plus: Term::sum(plus_or_zero(a), plus_or_zero(b)),
                minus: Term::sum(minus_or_zero(a), minus_or_zero(b)),
            },
        )
    }
}

/// The tolerance of a quotient: the numerator's upward side adds to the
/// denominator's downward side, and the other way round.
pub open spec fn quotient_band(a: Option<Band>, b: Option<Band>) -> Option<Band> {
    if a is None && b is None {
        None
    } else {
        Some(
            Band {
                plus: Term::sum(plus_or_zero(a), minus_or_zero(b)),
                minus: Term::sum(minus_or_zero(a), plus_or_zero(b)),
            },
        )
    }
}

/// How far a value may lie above its nominal value, in the unit itself:
/// `value × (1 + plus / 100) − value`; zero for an exact value.
pub open spec fn deviation_up(value: Term, band: Option<Band>) -> Term {
    match band {
        Some(b) => Term::diff(
            Term::prod(value, Term::sum(Term::one(), Term::quot(b.plus, Term::hundred()))),
            value,
        ),
        None => Term::zero(),
    }
}

/// How far a value may lie below its nominal value, in the unit itself:
/// `value − value × (1 − minus / 100)`; zero for an exact value.
pub open spec fn deviation_down(value: Term, band: Option<Band>) -> Term {
    match band {
        Some(b) => Term::diff(
            value,
            Term::prod(value, Term::diff(Term::one(), Term::quot(b.minus, Term::hundred()))),
        ),
        None => Term::zero(),
    }
}

/// The tolerance of a sum or difference `result` of `a` and `b`: the
/// deviations add up in the unit itself and are then taken in percent of
/// the result.
pub open spec fn combined_band(
    result: Term,
    a: Term,
    a_band: Option<Band>,
    b: Term,
    b_band: Option<Band>,
) -> Option<Band> {
    if a_band is None && b_band is None {
        None
    } else {
        Some(
            Band {
                plus: Term::prod(
                    Term::quot(
                        Term::sum(deviation_up(a, a_band), deviation_up(b, b_band)),
                        result,
                    ),
                    Term::hundred(),
                ),
                minus: Term::prod(
                    Term::quot(
                        Term::sum(deviation_down(a, a_band), deviation_down(b, b_band)),
                        result,
                    ),
                    Term::hundred(),
                ),
            },
        )
    }
}

/// The product of two quantities.
pub open spec fn product(a: Quantity, b: Quantity) -> Quantity {
    Quantity {
        value: Term::prod(a.value, b.value),
        tolerance: product_band(a.tolerance, b.tolerance),
    }
}

/// The quotient of two quantities.
pub open spec fn quotient(a: Quantity, b: Quantity) -> Quantity {
    Quantity {
        value: Term::quot(a.value, b.value),
        tolerance: quotient_band(a.tolerance, b.tolerance),
    }
}

/// The sum of two quantities.
pub open spec fn total(a: Quantity, b: Quantity) -> Quantity {
    Quantity {
        value: Term::sum(a.value, b.value),
        tolerance: combined_band(
            Term::sum(a.value, b.value),
            a.value,
            a.tolerance,
            b.value,
            b.tolerance,
        ),
    }
}

/// The difference of two quantities.
pub open spec fn difference(a: Quantity, b: Quantity) -> Quantity {
    Quantity {
        value: Term::diff(a.value, b.value),
        tolerance: combined_band(
            Term::diff(a.value, b.value),
            a.value,
            a.tolerance,
            b.value,
            b.tolerance,
        ),
    }
}

/// An exact quantity.
pub open spec fn exact(value: Term) -> Quantity {
    Quantity { value, tolerance: None }
}

/// The two sides of a tolerance, downward first; zeros where there is none.
fn sides(tolerance: Option<Tolerance>) -> (res: (Expr, Expr))
    ensures
        res.0@ == minus_or_zero(band_of(tolerance)),
        res.1@ == plus_or_zero(band_of(tolerance)),
{
    match tolerance {
        Some(tol) => (tol.minus, tol.plus),
        None => (Expr::zero(), Expr::zero()),
    }
}

/// The two deviations of a value in the unit itself, downward first; zeros
/// for an exact value.
fn deviations(value: &Expr, tolerance: Option<Tolerance>) -> (res: (Expr, Expr))
    ensures
        res.0@ == deviation_down(value@, band_of(tolerance)),
        res.1@ == deviation_up(value@, band_of(tolerance)),
{
    match tolerance {
        Some(tol) => (
            Expr::diff(
                value.clone(),
                Expr::prod(
                    value.clone(),
                    Expr::diff(Expr::one(), Expr::quot(tol.minus, Expr::hundred())),
                ),
            ),
            Expr::diff(
                Expr::prod(
                    value.clone(),
                    Expr::sum(Expr::one(), Expr::quot(tol.plus, Expr::hundred())),
                ),
                value.clone(),
            ),
        ),
        None => (Expr::zero(), Expr::zero()),
    }
}

/// The product of two quantities: the nominal values multiply, the
/// percentages of the tolerances add up.
pub fn calculate_multiplication_with_tolerance<M: Measurement, N: Measurement>(
    factor1: &M,
    factor2: &N,
) -> (res: (Expr, Option<Tolerance>))
    ensures
        res.0@ == Term::prod(factor1.nominal(), factor2.nominal()),
        band_of(res.1) == product_band(factor1.band(), factor2.band()),
{
    let result = Expr::prod(factor1.get_nominal_value(), factor2.get_nominal_value());
    let operand1_tol = factor1.get_tolerance();
    let operand2_tol = factor2.get_tolerance();
    if operand1_tol.is_none() && operand2_tol.is_none() {
        return (result, None);
    }
    let (operand1_min, operand1_max) = sides(operand1_tol);
    let (operand2_min, operand2_max) = sides(operand2_tol);
    let tol = Tolerance {
        plus: Expr::sum(operand1_max, operand2_max),
        minus: Expr::sum(operand1_min, operand2_min),
    };
    (result, Some(tol))
}

/// The quotient of two quantities: the nominal values divide, the
/// tolerances add up crosswise. A divisor of zero is not looked for here: it
/// leaves the quotient without a value.
pub fn calculate_division_with_tolerance<M: Measurement, N: Measurement>(
    factor1: &M,
    factor2: &N,
) -> (res: (Expr, Option<Tolerance>))
    ensures
        res.0@ == Term::quot(factor1.nominal(), factor2.nominal()),
        band_of(res.1) == quotient_band(factor1.band(), factor2.band()),
{
    let result = Expr::quot(factor1.get_nominal_value(), factor2.get_nominal_value());
    let operand1_tol = factor1.get_tolerance();
    let operand2_tol = factor2.get_tolerance();
    if operand1_tol.is_none() && operand2_tol.is_none() {
        return (result, None);
    }
    let (operand1_min, operand1_max) = sides(operand1_tol);
    let (operand2_min, operand2_max) = sides(operand2_tol);
    let tol = Tolerance {
        plus: Expr::sum(operand1_max, operand2_min),
        minus: Expr::sum(operand1_min, operand2_max),
    };
    (result, Some(tol))
}

/// The tolerance of a sum or difference, from the deviations of both sides.
fn combine<M: Measurement, N: Measurement>(result: &Expr, factor1: &M, factor2: &N) -> (res:
    Option<Tolerance>)
    ensures
        band_of(res) == combined_band(
            result@,
            factor1.nominal(),
            factor1.band(),
            factor2.nominal(),
            factor2.band(),
        ),
{
    let operand1_tol = factor1.get_tolerance();
    let operand2_tol = factor2.get_tolerance();
    if operand1_tol.is_none() && operand2_tol.is_none() {
        return None;
    }
    let operand1_nom = factor1.get_nominal_value();
    let operand2_nom = factor2.get_nominal_value();
    let (operand1_min, operand1_max) = deviations(&operand1_nom, operand1_tol);
    let (operand2_min, operand2_max) = deviations(&operand2_nom, operand2_tol);
    let max_result = Expr::sum(operand1_max, operand2_max);
    let min_result = Expr::sum(operand1_min, operand2_min);
    Some(
        Tolerance {
            plus: Expr::prod(Expr::quot(max_result, result.clone()), Expr::hundred()),
            minus: Expr::prod(Expr::quot(min_result, result.clone()), Expr::hundred()),
        },
    )
}

/// The sum of two quantities: the nominal values add, and so do the
/// deviations in the unit itself, which are then taken in percent of the
/// sum.
pub fn calculate_addition_with_tolerance<M: Measurement, N: Measurement>(
    factor1: &M,
    factor2: &N,
) -> (res: (Expr, Option<Tolerance>))
    ensures
        res.0@ == Term::sum(factor1.nominal(), factor2.nominal()),
        band_of(res.1) == combined_band(
            Term::sum(factor1.nominal(), factor2.nominal()),
            factor1.nominal(),
            factor1.band(),
            factor2.nominal(),
            factor2.band(),
        ),
{
    let result = Expr::sum(factor1.get_nominal_value(), factor2.get_nominal_value());
    let tol = combine(&result, factor1, factor2);
    (result, tol)
}

/// The difference of two quantities: the nominal values subtract; the
/// deviations in the unit itself add, and are then taken in percent of the
/// difference.
pub fn calculate_subtraction_with_tolerance<M: Measurement, N: Measurement>(
    factor1: &M,
    factor2: &N,
) -> (res: (Expr, Option<Tolerance>))
    ensures
        res.0@ == Term::diff(factor1.nominal(), factor2.nominal()),
        band_of(res.1) == combined_band(
            Term::diff(factor1.nominal(), factor2.nominal()),
            factor1.nominal(),
            factor1.band(),
            factor2.nominal(),
            factor2.band(),
        ),
{
    let result = Expr::diff(factor1.get_nominal_value(), factor2.get_nominal_value());
    let tol = combine(&result, factor1, factor2);
    (result, tol)
}

/// A tolerance with a new upward side: the downward side stays, or is zero
/// where there was no tolerance.
pub open spec fn with_plus(band: Option<Band>, plus: Term) -> Band {
    Band { plus, minus: minus_or_zero(band) }
}

/// A tolerance with a new downward side: the upward side stays, or is zero
/// where there was no tolerance.
pub open spec fn with_minus(band: Option<Band>, minus: Term) -> Band {
    Band { plus: plus_or_zero(band), minus }
}

/// A quantity after one more block: a number replaces the nominal value, a
/// one-sided tolerance replaces its own side, a two-sided one replaces both.
pub open spec fn apply_block(q: Quantity, block: BlockView) -> Quantity {
    match block {
        BlockView::Number(n) => Quantity { value: n, tolerance: q.tolerance },
        BlockView::NumberSuffix(pair) => Quantity {
            value: Term::prod(pair.0, Term::Literal(pair.1.factor_text())),
            tolerance: q.tolerance,
        },
        BlockView::TolMinus(t) => Quantity {
            value: q.value,
            tolerance: Some(with_minus(q.tolerance, t)),
        },
        BlockView::TolPlus(t) => Quantity {
            value: q.value,
            tolerance: Some(with_plus(q.tolerance, t)),
        },
        BlockView::TolPlusMinus(t) => Quantity {
            value: q.value,
            tolerance: Some(Band { plus: t, minus: t }),
        },
    }
}

/// The quantity that a list of blocks gives, block by block from the left,
/// starting without a number and without a tolerance.
pub open spec fn quantity_of(blocks: Seq<BlockView>) -> Quantity
    decreases blocks.len(),
{
    if blocks.len() == 0 {
        Quantity { value: Term::nan(), tolerance: None }
    } else {
        apply_block(quantity_of(blocks.drop_last()), blocks.last())
    }
}

/// The reading of a field: blank text is empty input; text that is not a
/// list of blocks is incorrect input, with the part that was not read; any
/// other text gives the quantity of its blocks.
pub open spec fn reading_of(text: Seq<char>) -> Result<Quantity, ErrorView> {
    let field = trimmed(text);
    if field.len() == 0 {
        Err(ErrorView::EmptyInput)
    } else {
        match blocks_of(field) {
            Ok(blocks) => Ok(quantity_of(blocks)),
            Err(e) => Err(ErrorView::IncorrectInput(e.remainder)),
        }
    }
}

/// A blank field, and no other, reads as empty input.
pub proof fn lemma_blank_reads_empty(text: Seq<char>)
    ensures
        blank(text) <==> reading_of(text) == Err::<Quantity, ErrorView>(ErrorView::EmptyInput),
{
}

/// Where a field is incorrect, the text that comes with the error is the
/// trimmed field from some character on.
pub proof fn lemma_incorrect_input_is_rest(text: Seq<char>)
    ensures
        reading_of(text) matches Err(ErrorView::IncorrectInput(rest)) ==> is_rest_of(
            rest,
            trimmed(text),
        ),
{
    lemma_failure_is_rest(trimmed(text));
}

/// The last number among the blocks is the nominal value: one more number
/// replaces whatever value there was, and leaves the tolerance alone.
pub proof fn lemma_last_number_wins(blocks: Seq<BlockView>, n: Term)
    ensures
        quantity_of(blocks.push(BlockView::Number(n))) == (Quantity {
            value: n,
            tolerance: quantity_of(blocks).tolerance,
        }),
{
    assert(blocks.push(BlockView::Number(n)).drop_last() =~= blocks);
}

/// A two-sided tolerance replaces both sides, whatever they were.
pub proof fn lemma_two_sided_replaces_both(blocks: Seq<BlockView>, t: Term)
    ensures
        quantity_of(blocks.push(BlockView::TolPlusMinus(t))) == (Quantity {
            value: quantity_of(blocks).value,
            tolerance: Some(Band { plus: t, minus: t }),
        }),
{
    assert(blocks.push(BlockView::TolPlusMinus(t)).drop_last() =~= blocks);
}

/// A one-sided tolerance replaces its own side and keeps the other; a side
/// that was never given is zero.
pub proof fn lemma_one_sided_keeps_other(blocks: Seq<BlockView>, t: Term)
    ensures
        quantity_of(blocks.push(BlockView::TolPlus(t))).tolerance == Some(
            Band { plus: t, minus: minus_or_zero(quantity_of(blocks).tolerance) },
        ),
        quantity_of(blocks.push(BlockView::TolMinus(t))).tolerance == Some(
            Band { plus: plus_or_zero(quantity_of(blocks).tolerance), minus: t },
        ),
{
    assert(blocks.push(BlockView::TolPlus(t)).drop_last() =~= blocks);
    assert(blocks.push(BlockView::TolMinus(t)).drop_last() =~= blocks);
}

/// Exact operands give an exact result, in all four operations.
pub proof fn lemma_exact_stays_exact(a: Term, b: Term)
    ensures
        product(exact(a), exact(b)).tolerance is None,
        quotient(exact(a), exact(b)).tolerance is None,
        total(exact(a), exact(b)).tolerance is None,
        difference(exact(a), exact(b)).tolerance is None,
{
}

/// What [`parse_quantity`] returns, in mathematical form.
pub open spec fn reading_view(res: Result<(Expr, Option<Tolerance>), ParserError>) -> Result<
    Quantity,
    ErrorView,
> {
    match res {
        Ok(pair) => Ok(Quantity { value: pair.0@, tolerance: band_of(pair.1) }),
        Err(e) => Err(e@),
    }
}

/// Applies one block to a nominal value and a tolerance.
fn fold_block(value: Expr, tol: Option<Tolerance>, block: &Block) -> (res: (
    Expr,
    Option<Tolerance>,
))
    ensures
        (Quantity { value: res.0@, tolerance: band_of(res.1) }) == apply_block(
            Quantity { value: value@, tolerance: band_of(tol) },
            block@,
        ),
{
    match block {
        Block::Number(n) => (n.clone(), tol),
        Block::NumberSuffix(pair) => (Expr::prod(pair.0.clone(), pair.1.coefficient()), tol),
        Block::TolMinus(t) => {
            let tol = match tol {
                Some(tt) => Tolerance { plus: tt.plus, minus: t.clone() },
                None => Tolerance { plus: Expr::zero(), minus: t.clone() },
            };
            (value, Some(tol))
        },
        Block::TolPlus(t) => {
            let tol = match tol {
                Some(tt) => Tolerance { plus: t.clone(), minus: tt.minus },
                None => Tolerance { plus: t.clone(), minus: Expr::zero() },
            };
            (value, Some(tol))
        },
        Block::TolPlusMinus(t) => (value, Some(Tolerance { plus: t.clone(), minus: t.clone() })),
    }
}

/// Reads a field as a nominal value and a tolerance.
pub fn parse_quantity(input: &str) -> (res: Result<(Expr, Option<Tolerance>), ParserError>)
    ensures
        reading_view(res) == reading_of(input@),
{
    let input = trim(input);
    if input.unicode_len() == 0 {
        return Err(ParserError::EmptyInput);
    }
    match parse_blocks(input) {
        Ok(blocks) => {
            let ghost all = blocks_view(blocks@);
            let mut value = Expr::nan();
            let mut tol: Option<Tolerance> = None;
            let mut i: usize = 0;
            while i < blocks.len()
                invariant
                    i <= blocks.len(),
                    all == blocks_view(blocks@),
                    (Quantity { value: value@, tolerance: band_of(tol) }) == quantity_of(
                        all.take(i as int),
                    ),
                decreases blocks.len() - i,
            {
                proof {
                    assert(all.take(i + 1).drop_last() =~= all.take(i as int));
                }
                let (v, t) = fold_block(value, tol, &blocks[i]);
                value = v;
                tol = t;
                i += 1;
            }
            assert(all.take(i as int) =~= all);
            Ok((value, tol))
        },
        Err(e) => Err(ParserError::IncorrectInput(e.remainder)),
    }
}

} // verus!
