//! Exact arithmetic on terms: what an expression is worth where every
//! literal is worth a fraction and every step is carried out without
//! rounding. This is the yardstick for the formulas of the library: the laws
//! at the end of this file say what holds of them in exact arithmetic.

use crate::expr::Term;
use crate::ohm_law::{solved, CalcType, OhmDataView};
use crate::types::{exact, product, quotient, Band, Quantity};
use crate::voltage_divider::LegView;
use vstd::prelude::*;

verus! {

/// A fraction of two integers.
pub struct Fraction {
    pub num: int,
    pub den: int,
}

impl Fraction {
    /// Whether the fraction has a denominator other than zero.
    pub open spec fn proper(self) -> bool {
        self.den != 0
    }

    /// Whether two fractions are the same number.
    pub open spec fn same(self, other: Fraction) -> bool {
        self.num * other.den == other.num * self.den
    }

    /// Whether the fraction is zero.
    pub open spec fn is_zero(self) -> bool {
        self.num == 0
    }

    /// The sum of two fractions.
    pub open spec fn plus(self, other: Fraction) -> Fraction {
        Fraction { num: self.num * other.den + other.num * self.den, den: self.den * other.den }
    }

    /// The difference of two fractions.
    pub open spec fn minus(self, other: Fraction) -> Fraction {
        Fraction { num: self.num * other.den - other.num * self.den, den: self.den * other.den }
    }

    /// The product of two fractions.
    pub open spec fn times(self, other: Fraction) -> Fraction {
        Fraction { num: self.num * other.num, den: self.den * other.den }
    }

    /// The quotient of two fractions.
    pub open spec fn over(self, other: Fraction) -> Fraction {
        Fraction { num: self.num * other.den, den: self.den * other.num }
    }

    /// The absolute value of a fraction.
    pub open spec fn abs(self) -> Fraction {
        Fraction {
            num: if self.num < 0 {
                -self.num
            } else {
                self.num
            },
            den: if self.den < 0 {
                -self.den
            } else {
                self.den
            },
        }
    }
}

/// What a term is worth in exact arithmetic, where `literal` says what each
/// literal is worth. A term has no worth where one of its literals has none,
/// where it divides by zero, or where it takes a square root.
pub open spec fn worth(term: Term, literal: spec_fn(Seq<char>) -> Option<Fraction>) -> Option<
    Fraction,
>
    decreases term,
{
    match term {
        Term::Literal(text) => match literal(text) {
            Some(f) => if f.proper() {
                Some(f)
            } else {
                None
            },
            None => None,
        },
        Term::Abs(a) => match worth(*a, literal) {
            Some(x) => Some(x.abs()),
            None => None,
        },
        Term::Sqrt(_) => None,
        Term::Sum(a, b) => match (worth(*a, literal), worth(*b, literal)) {
            (Some(x), Some(y)) => Some(x.plus(y)),
            _ => None,
        },
        Term::Diff(a, b) => match (worth(*a, literal), worth(*b, literal)) {
            (Some(x), Some(y)) => Some(x.minus(y)),
            _ => None,
        },
        Term::Prod(a, b) => match (worth(*a, literal), worth(*b, literal)) {
            (Some(x), Some(y)) => Some(x.times(y)),
            _ => None,
        },
        Term::Quot(a, b) => match (worth(*a, literal), worth(*b, literal)) {
            (Some(x), Some(y)) => if y.is_zero() {
                None
            } else {
                Some(x.over(y))
            },
            _ => None,
        },
    }
}

/// What a term is worth is a proper fraction.
pub proof fn lemma_worth_is_proper(term: Term, literal: spec_fn(Seq<char>) -> Option<Fraction>)
    ensures
        worth(term, literal) matches Some(f) ==> f.proper(),
    decreases term,
{
    match term {
        Term::Literal(_) => {},
        Term::Abs(a) => {
            lemma_worth_is_proper(*a, literal);
        },
        Term::Sqrt(_) => {},
        Term::Sum(a, b) => {
            lemma_worth_is_proper(*a, literal);
            lemma_worth_is_proper(*b, literal);
            if let (Some(x), Some(y)) = (worth(*a, literal), worth(*b, literal)) {
                lemma_nonzero_product(x.den, y.den);
            }
        },
        Term::Diff(a, b) => {
            lemma_worth_is_proper(*a, literal);
            lemma_worth_is_proper(*b, literal);
            if let (Some(x), Some(y)) = (worth(*a, literal), worth(*b, literal)) {
                lemma_nonzero_product(x.den, y.den);
            }
        },
        Term::Prod(a, b) => {
            lemma_worth_is_proper(*a, literal);
            lemma_worth_is_proper(*b, literal);
            if let (Some(x), Some(y)) = (worth(*a, literal), worth(*b, literal)) {
                lemma_nonzero_product(x.den, y.den);
            }
        },
        Term::Quot(a, b) => {
            lemma_worth_is_proper(*a, literal);
            lemma_worth_is_proper(*b, literal);
            if let (Some(x), Some(y)) = (worth(*a, literal), worth(*b, literal)) {
                if !y.is_zero() {
                    lemma_nonzero_product(x.den, y.num);
                }
            }
        },
    }
}

/// A product of two integers other than zero is not zero.
proof fn lemma_nonzero_product(a: int, b: int)
    requires
        a != 0,
        b != 0,
    ensures
        a * b != 0,
{
    assert(a * b != 0) by (nonlinear_arith)
        requires
            a != 0,
            b != 0,
    ;
}

/// A quotient times its divisor is the dividend.
pub proof fn lemma_quotient_times_divisor(x: Fraction, y: Fraction)
    requires
        x.proper(),
        y.proper(),
        !y.is_zero(),
    ensures
        x.same(x.over(y).times(y)),
        x.same(y.times(x.over(y))),
{
    let (a, b, c, d) = (x.num, x.den, y.num, y.den);
    assert(a * ((b * c) * d) == ((a * d) * c) * b) by (nonlinear_arith);
    assert(a * (d * (b * c)) == (c * (a * d)) * b) by (nonlinear_arith);
}

/// What the quantities of a solved Ohm's-law scene are worth.
pub struct Worths {
    pub voltage: Fraction,
    pub current: Fraction,
    pub resistance: Fraction,
    pub power: Fraction,
}

/// Whether the four quantities that are shown have these worths.
pub open spec fn worths_of(
    data: OhmDataView,
    literal: spec_fn(Seq<char>) -> Option<Fraction>,
    w: Worths,
) -> bool {
    &&& data.voltage matches Ok(v) && worth(v.value, literal) == Some(w.voltage)
    &&& data.current matches Ok(i) && worth(i.value, literal) == Some(w.current)
    &&& data.resistance matches Ok(r) && worth(r.value, literal) == Some(w.resistance)
    &&& data.power matches Ok(p) && worth(p.value, literal) == Some(w.power)
}

/// Whether both quantities of a pair are entered.
pub open spec fn pair_entered(calc: CalcType, entered: OhmDataView) -> bool {
    match calc {
        CalcType::Unsolved => false,
        CalcType::VCRP => entered.voltage is Ok && entered.current is Ok,
        CalcType::VRCP => entered.voltage is Ok && entered.resistance is Ok,
        CalcType::VPCR => entered.voltage is Ok && entered.power is Ok,
        CalcType::CRVP => entered.current is Ok && entered.resistance is Ok,
        CalcType::CPVR => entered.current is Ok && entered.power is Ok,
        CalcType::RPVC => entered.resistance is Ok && entered.power is Ok,
    }
}

/// Ohm's law and the power formula hold of what is solved: whichever pair
/// is entered, the four quantities that are shown satisfy `V = I × R` and
/// `P = V × I` in exact arithmetic, wherever all four have a worth. (From
/// resistance and power the solved two are square roots, which have no
/// worth here.)
pub proof fn lemma_ohms_law_holds(
    calc: CalcType,
    entered: OhmDataView,
    before: OhmDataView,
    literal: spec_fn(Seq<char>) -> Option<Fraction>,
    w: Worths,
)
    requires
        pair_entered(calc, entered),
        worths_of(solved(calc, entered, before), literal, w),
    ensures
        w.voltage.same(w.current.times(w.resistance)),
        w.power.same(w.voltage.times(w.current)),
{
    let data = solved(calc, entered, before);
    let v = data.voltage->Ok_0.value;
    let i = data.current->Ok_0.value;
    let r = data.resistance->Ok_0.value;
    let p = data.power->Ok_0.value;
    lemma_worth_is_proper(v, literal);
    lemma_worth_is_proper(i, literal);
    lemma_worth_is_proper(r, literal);
    lemma_worth_is_proper(p, literal);
    match calc {
        CalcType::VCRP => {
            // R = V / I, P = V × I
            lemma_quotient_times_divisor(w.voltage, w.current);
            lemma_same_reflexive(w.power);
        },
        CalcType::VRCP => {
            // I = V / R, P = V × I
            lemma_quotient_times_divisor(w.voltage, w.resistance);
            lemma_same_reflexive(w.power);
        },
        CalcType::VPCR => {
            // I = P / V, R = V / I
            lemma_quotient_times_divisor(w.voltage, w.current);
            lemma_quotient_times_divisor(w.power, w.voltage);
        },
        CalcType::CRVP => {
            // V = I × R, P = V × I
            lemma_same_reflexive(w.voltage);
            lemma_same_reflexive(w.power);
        },
        CalcType::CPVR => {
            // V = P / I, R = V / I
            lemma_quotient_times_divisor(w.voltage, w.current);
            lemma_quotient_times_divisor(w.power, w.current);
        },
        _ => {},
    }
}

/// A fraction is the same number as itself.
proof fn lemma_same_reflexive(x: Fraction)
    ensures
        x.same(x),
{
}

/// Taking away what was added gives back what was there.
proof fn lemma_plus_minus(x: Fraction, y: Fraction)
    requires
        x.proper(),
        y.proper(),
    ensures
        x.plus(y).minus(y).same(x),
{
    let (a, b, c, d) = (x.num, x.den, y.num, y.den);
    assert(((a * d + c * b) * d - c * (b * d)) * b == a * ((b * d) * d)) by (nonlinear_arith);
}

/// Ohm's law holds across every leg that the chain current fills in: where
/// a leg lacks its voltage or its resistance, the voltage across the leg
/// (the voltage at its node minus the voltage at the node below) is, in
/// exact arithmetic, the chain current times the resistance of the leg.
pub proof fn lemma_ohms_law_across_leg(
    leg: LegView,
    current: Quantity,
    below: Quantity,
    literal: spec_fn(Seq<char>) -> Option<Fraction>,
    v: Fraction,
    r: Fraction,
    c: Fraction,
    u: Fraction,
)
    requires
        leg.voltage_entered is Err || leg.resistance_entered is Err,
        leg.solved(current, below).voltage matches Ok(q) && worth(q.value, literal) == Some(v),
        leg.solved(current, below).resistance matches Ok(q) && worth(q.value, literal) == Some(r),
        worth(current.value, literal) == Some(c),
        worth(below.value, literal) == Some(u),
    ensures
        v.minus(u).same(c.times(r)),
{
    lemma_worth_is_proper(current.value, literal);
    lemma_worth_is_proper(below.value, literal);
    lemma_worth_is_proper(leg.solved(current, below).voltage->Ok_0.value, literal);
    lemma_worth_is_proper(leg.solved(current, below).resistance->Ok_0.value, literal);
    match (leg.voltage_entered, leg.resistance_entered) {
        (Ok(entered), Err(_)) => {
            // R = (V − U) / I
            assert(worth(Term::diff(entered.value, below.value), literal) == Some(v.minus(u)));
            assert(worth(
                Term::quot(Term::diff(entered.value, below.value), current.value),
                literal,
            ) == Some(r));
            lemma_nonzero_product(v.den, u.den);
            lemma_quotient_times_divisor(v.minus(u), c);
        },
        (Err(_), Ok(entered)) => {
            // V = I × R + U
            assert(worth(Term::prod(current.value, entered.value), literal) == Some(c.times(r)));
            assert(worth(
                Term::sum(Term::prod(current.value, entered.value), below.value),
                literal,
            ) == Some(v));
            lemma_nonzero_product(c.den, r.den);
            lemma_plus_minus(c.times(r), u);
        },
        _ => {},
    }
}

/// The worth of a tolerance band, side by side.
pub open spec fn band_worth(band: Band, literal: spec_fn(Seq<char>) -> Option<Fraction>) -> Option<
    (Fraction, Fraction),
> {
    match (worth(band.plus, literal), worth(band.minus, literal)) {
        (Some(plus), Some(minus)) => Some((plus, minus)),
        _ => None,
    }
}

/// The tolerances of factors add up: the tolerance of a product is worth,
/// side by side, the sum of what the tolerances of the factors are worth;
/// that of a quotient the sum taken crosswise.
pub proof fn lemma_tolerances_add_up(
    a: Quantity,
    x: Band,
    b: Quantity,
    y: Band,
    literal: spec_fn(Seq<char>) -> Option<Fraction>,
    xw: (Fraction, Fraction),
    yw: (Fraction, Fraction),
)
    requires
        a.tolerance == Some(x),
        b.tolerance == Some(y),
        band_worth(x, literal) == Some(xw),
        band_worth(y, literal) == Some(yw),
    ensures
        band_worth(product(a, b).tolerance->Some_0, literal) == Some(
            (xw.0.plus(yw.0), xw.1.plus(yw.1)),
        ),
        band_worth(quotient(a, b).tolerance->Some_0, literal) == Some(
            (xw.0.plus(yw.1), xw.1.plus(yw.0)),
        ),
{
}

/// An exact operand leaves a tolerance as it is: where a quantity with a
/// tolerance is multiplied or divided by an exact one, each side of the
/// result's tolerance is worth what it was worth before. This holds where
/// the literal `0` is worth zero.
pub proof fn lemma_exact_operand_keeps_tolerance(
    a: Quantity,
    x: Band,
    b: Term,
    literal: spec_fn(Seq<char>) -> Option<Fraction>,
    xw: (Fraction, Fraction),
)
    requires
        a.tolerance == Some(x),
        band_worth(x, literal) == Some(xw),
        literal("0"@) matches Some(zero) && zero.proper() && zero.is_zero(),
    ensures
        band_worth(product(a, exact(b)).tolerance->Some_0, literal) matches Some(w) && w.0.same(
            xw.0,
        ) && w.1.same(xw.1),
        band_worth(quotient(a, exact(b)).tolerance->Some_0, literal) matches Some(w) && w.0.same(
            xw.0,
        ) && w.1.same(xw.1),
        band_worth(product(exact(b), a).tolerance->Some_0, literal) matches Some(w) && w.0.same(
            xw.0,
        ) && w.1.same(xw.1),
{
    let zero = literal("0"@)->Some_0;
    lemma_plus_zero(xw.0, zero);
    lemma_plus_zero(xw.1, zero);
    assert(worth(Term::zero(), literal) == Some(zero));
    assert(worth(Term::sum(x.plus, Term::zero()), literal) == Some(xw.0.plus(zero)));
    assert(worth(Term::sum(x.minus, Term::zero()), literal) == Some(xw.1.plus(zero)));
    assert(worth(Term::sum(Term::zero(), x.plus), literal) == Some(zero.plus(xw.0)));
    assert(worth(Term::sum(Term::zero(), x.minus), literal) == Some(zero.plus(xw.1)));
}

/// Adding zero changes nothing.
proof fn lemma_plus_zero(x: Fraction, zero: Fraction)
    requires
        zero.proper(),
        zero.is_zero(),
    ensures
        x.plus(zero).same(x),
        zero.plus(x).same(x),
{
    let (a, b, d) = (x.num, x.den, zero.den);
    assert((a * d + 0 * b) * b == a * (b * d)) by (nonlinear_arith);
    assert((0 * b + a * d) * b == a * (d * b)) by (nonlinear_arith);
}

} // verus!
