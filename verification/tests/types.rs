use ohmcalc::expr::Expr;
use ohmcalc::types::current::Current;
use ohmcalc::types::power::Power;
use ohmcalc::types::resistance::Resistance;
use ohmcalc::types::voltage::Voltage;
use ohmcalc::types::{
    calculate_addition_with_tolerance, calculate_division_with_tolerance,
    calculate_multiplication_with_tolerance, calculate_subtraction_with_tolerance,
    parse_quantity, Dim, Labelled, Measurement, ParserError, Readout, Tolerance,
};

fn eval(e: &Expr) -> f64 {
    match e {
        Expr::Literal(text) => text.parse::<f64>().unwrap(),
        Expr::Abs(a) => eval(a).abs(),
        Expr::Sqrt(a) => eval(a).sqrt(),
        Expr::Sum(a, b) => eval(a) + eval(b),
        Expr::Diff(a, b) => eval(a) - eval(b),
        Expr::Prod(a, b) => eval(a) * eval(b),
        Expr::Quot(a, b) => eval(a) / eval(b),
    }
}

/// The two sides of a tolerance as numbers, upward first.
fn sides(tolerance: &Option<Tolerance>) -> Option<(f64, f64)> {
    tolerance.as_ref().map(|t| (eval(&t.plus), eval(&t.minus)))
}

fn num(value: f64) -> Expr {
    Expr::literal(&format!("{:?}", value))
}

fn tol(plus: f64, minus: f64) -> Option<Tolerance> {
    Some(Tolerance { plus: num(plus), minus: num(minus) })
}

/// A value with the magnitude prefix that fits it, two decimals and a unit.
fn normalize(value: f64, unit: &str) -> String {
    let prefixes = [
        (1e-12, "p"),
        (1e-9, "n"),
        (1e-6, "u"),
        (1e-3, "m"),
        (1.0, ""),
        (1e3, "k"),
        (1e6, "M"),
        (1e9, "G"),
        (1e12, "T"),
    ];
    for &(threshold, prefix) in prefixes.iter().rev() {
        if value.abs() >= threshold {
            return format!("{:.2}{}{}", value / threshold, prefix, unit);
        }
    }
    format!("{}", value)
}

fn render(readout: &Readout) -> String {
    match readout {
        Readout::NotAvailable => "N/A".to_string(),
        Readout::Scaled { dash, value, unit } => {
            format!("{}{}", if *dash { "-" } else { "" }, normalize(eval(value), unit))
        }
        Readout::Percent { dash, value } => {
            format!("{}{:.2}%", if *dash { "-" } else { "" }, eval(value))
        }
    }
}

/// A voltage as a number and the two sides of its tolerance.
fn voltage(text: &str) -> Result<(f64, Option<(f64, f64)>), ParserError> {
    text.parse::<Voltage>().map(|v| (eval(&v.value), sides(&v.tolerance)))
}

#[test]
fn test_trait_measurement() {
    let test = Labelled { value: num(220.0), tolerance: tol(5.0, 3.3), unit: "TEST" };

    assert_eq!(test.get_unit(), "TEST");
    assert_eq!(sides(&test.get_tolerance()), Some((5.0, 3.3)));
    assert_eq!(eval(&test.get_nominal_value()), 220.0);
    assert_eq!(render(&test.get_value_nom()), "220.00TEST");
    assert_eq!(render(&test.get_value_min()), "212.74TEST");
    assert_eq!(render(&test.get_value_max()), "231.00TEST");
    assert_eq!(render(&test.get_tol_value_plus()), "11.00TEST");
    assert_eq!(render(&test.get_tol_value_minus()), "-7.26TEST");
    assert_eq!(render(&test.get_tol_percent_plus()), "5.00%");
    assert_eq!(render(&test.get_tol_percent_minus()), "-3.30%");
}

#[test]
fn test_trait_calculation() {
    let value1 = Labelled { value: num(300.0), tolerance: tol(5.0, 3.3), unit: "V1" };

    let value2 = Labelled { value: num(150.0), tolerance: tol(1.0, 2.5), unit: "V2" };

    // *
    let a = calculate_multiplication_with_tolerance(&value1, &value2);
    assert_eq!(eval(&a.0), 45000.0);
    assert_eq!(sides(&a.1), Some((6.0, 5.8)));
    // /
    let b = calculate_division_with_tolerance(&value1, &value2);
    assert_eq!(eval(&b.0), 2.0);
    assert_eq!(sides(&b.1), Some((7.5, 4.3)));
    // +
    let c = calculate_addition_with_tolerance(&value1, &value2);
    assert_eq!(eval(&c.0), 450.0);
    assert_eq!(sides(&c.1), Some((3.6666666666666665, 3.033333333333341)));
    // -
    let d = calculate_subtraction_with_tolerance(&value1, &value2);
    assert_eq!(eval(&d.0), 150.0);
    assert_eq!(sides(&d.1), Some((11.0, 9.100000000000023)));

    let value3 = Labelled { value: num(150.0), tolerance: None, unit: "V3" };

    // *
    let a = calculate_multiplication_with_tolerance(&value1, &value3);
    assert_eq!(eval(&a.0), 45000.0);
    assert_eq!(sides(&a.1), Some((5.0, 3.3)));

    // /
    let b = calculate_division_with_tolerance(&value1, &value3);
    assert_eq!(eval(&b.0), 2.0);
    assert_eq!(sides(&b.1), Some((5.0, 3.3)));

    // +
    let c = calculate_addition_with_tolerance(&value1, &value3);
    assert_eq!(eval(&c.0), 450.0);
    assert_eq!(sides(&c.1), Some((3.3333333333333335, 2.2000000000000073)));

    // -
    let d = calculate_subtraction_with_tolerance(&value1, &value3);
    assert_eq!(eval(&d.0), 150.0);
    assert_eq!(sides(&d.1), Some((10.0, 6.600000000000023)));
}

#[test]
fn test_voltage_parser() {
    assert_eq!(voltage("12u"), Ok((12e-6, None)));
    assert_eq!(voltage("12m"), Ok((12e-3, None)));
    assert_eq!(voltage("12"), Ok((12.0, None)));
    assert_eq!(voltage("12k"), Ok((12e3, None)));
    assert_eq!(voltage("12M"), Ok((12e6, None)));
    assert_eq!(voltage("12G"), Ok((12e9, None)));
    assert_eq!(voltage("12T"), Ok((12e12, None)));
}

#[test]
fn test_voltage_with_tolerance_parser() {
    assert_eq!(voltage("12 +5%"), Ok((12.0, Some((5.0, 0.0)))));
    assert_eq!(voltage("12 -5%"), Ok((12.0, Some((0.0, 5.0)))));
    assert_eq!(voltage("12 5.25%"), Ok((12.0, Some((5.25, 5.25)))));
    assert_eq!(voltage("12 +5% -3%"), Ok((12.0, Some((5.0, 3.0)))));
}

#[test]
fn a_field_is_read_as_it_is_written() {
    assert_eq!(
        "12k +5% -3%".parse::<Voltage>(),
        Ok(Voltage {
            value: Expr::prod(Expr::literal("12"), Expr::literal("1e3")),
            tolerance: Some(Tolerance {
                plus: Expr::literal("5"),
                minus: Expr::abs(Expr::literal("3")),
            }),
        })
    );
    assert_eq!(
        "7".parse::<Power>(),
        Ok(Power { value: Expr::literal("7"), tolerance: None })
    );
}

#[test]
fn blank_fields_are_empty_input() {
    assert_eq!("".parse::<Voltage>(), Err(ParserError::EmptyInput));
    assert_eq!("   ".parse::<Current>(), Err(ParserError::EmptyInput));
    assert_eq!(" \t\n ".parse::<Resistance>(), Err(ParserError::EmptyInput));
    assert_eq!("\u{a0}\u{2003}".parse::<Power>(), Err(ParserError::EmptyInput));
}

#[test]
fn fields_are_trimmed_before_they_are_read() {
    assert_eq!(voltage("  12k \n"), Ok((12e3, None)));
    assert_eq!(voltage("\t12 5%  "), Ok((12.0, Some((5.0, 5.0)))));
}

#[test]
fn incorrect_input_carries_what_was_not_read() {
    assert_eq!("5%%".parse::<Voltage>(), Err(ParserError::IncorrectInput("%".to_string())));
    assert_eq!("12x".parse::<Voltage>(), Err(ParserError::IncorrectInput("x".to_string())));
    assert_eq!("12 x".parse::<Current>(), Err(ParserError::IncorrectInput(" x".to_string())));
    assert_eq!("abc".parse::<Resistance>(), Err(ParserError::IncorrectInput("abc".to_string())));
    assert_eq!(" 12 5e ".parse::<Power>(), Err(ParserError::IncorrectInput("5e".to_string())));
    assert_eq!("1\n2".parse::<Power>(), Err(ParserError::IncorrectInput("\n2".to_string())));
}

#[test]
fn the_last_number_wins() {
    assert_eq!(voltage("1 2 3k"), Ok((3000.0, None)));
    assert_eq!(voltage("5% 12 7"), Ok((7.0, Some((5.0, 5.0)))));
}

#[test]
fn a_field_without_a_number_is_not_a_number() {
    let (value, tolerance) = voltage("5%").unwrap();
    assert!(value.is_nan());
    assert_eq!(tolerance, Some((5.0, 5.0)));
}

#[test]
fn later_tolerances_replace_earlier_ones_of_their_side() {
    assert_eq!(voltage("12 +5% +7%"), Ok((12.0, Some((7.0, 0.0)))));
    assert_eq!(voltage("12 -5% +7% -1%"), Ok((12.0, Some((7.0, 1.0)))));
    assert_eq!(voltage("12 +5% -3% 2%"), Ok((12.0, Some((2.0, 2.0)))));
    assert_eq!(voltage("12 2% +5%"), Ok((12.0, Some((5.0, 2.0)))));
    assert_eq!(voltage("12 +/-2% -4%"), Ok((12.0, Some((2.0, 4.0)))));
    assert_eq!(voltage("-4% 12"), Ok((12.0, Some((0.0, 4.0)))));
}

#[test]
fn parse_quantity_is_what_every_kind_reads() {
    let (value, tolerance) = parse_quantity("100m +1% -1%").unwrap();
    assert_eq!(eval(&value), 0.1);
    assert_eq!(sides(&tolerance), Some((1.0, 1.0)));
    let current = "100m +1% -1%".parse::<Current>().unwrap();
    assert_eq!(current.value, value);
    assert_eq!(current.tolerance, tolerance);
}

#[test]
fn magnitudes_have_their_factor() {
    let factors = [
        (Dim::Pico, 1e-12),
        (Dim::Nano, 1e-9),
        (Dim::Micro, 1e-6),
        (Dim::Milli, 1e-3),
        (Dim::Base, 1.0),
        (Dim::Kilo, 1e3),
        (Dim::Mega, 1e6),
        (Dim::Giga, 1e9),
        (Dim::Tera, 1e12),
    ];
    for (dim, factor) in factors {
        assert_eq!(eval(&dim.coefficient()), factor);
    }
}

#[test]
fn letters_stand_for_magnitudes() {
    assert_eq!(Dim::from('p'), Dim::Pico);
    assert_eq!(Dim::from('n'), Dim::Nano);
    assert_eq!(Dim::from('u'), Dim::Micro);
    assert_eq!(Dim::from('m'), Dim::Milli);
    assert_eq!(Dim::from('k'), Dim::Kilo);
    assert_eq!(Dim::from('M'), Dim::Mega);
    assert_eq!(Dim::from('G'), Dim::Giga);
    assert_eq!(Dim::from('T'), Dim::Tera);
    assert_eq!(Dim::from('x'), Dim::Base);
    assert_eq!(Dim::from('K'), Dim::Base);
}

#[test]
fn units_of_the_four_kinds() {
    assert_eq!(Voltage::default().get_unit(), "V");
    assert_eq!(Current::default().get_unit(), "A");
    assert_eq!(Resistance::default().get_unit(), "R");
    assert_eq!(Power::default().get_unit(), "W");
    assert_eq!(eval(&Voltage::default().value), 0.0);
    assert_eq!(Voltage::default().tolerance, None);
}

#[test]
fn exact_quantities_show_no_band() {
    let exact = Resistance { value: num(4700.0), tolerance: None };
    assert_eq!(render(&exact.get_value_nom()), "4.70kR");
    assert_eq!(exact.get_value_min(), Readout::NotAvailable);
    assert_eq!(exact.get_value_max(), Readout::NotAvailable);
    assert_eq!(exact.get_tol_value_plus(), Readout::NotAvailable);
    assert_eq!(exact.get_tol_value_minus(), Readout::NotAvailable);
    assert_eq!(exact.get_tol_percent_plus(), Readout::NotAvailable);
    assert_eq!(exact.get_tol_percent_minus(), Readout::NotAvailable);
}

#[test]
fn display_values_are_scaled_to_their_magnitude() {
    let small = Current { value: num(0.012), tolerance: None };
    assert_eq!(render(&small.get_value_nom()), "12.00mA");
    let large = Power { value: num(2.5e6), tolerance: tol(10.0, 20.0) };
    assert_eq!(render(&large.get_value_nom()), "2.50MW");
    assert_eq!(render(&large.get_value_max()), "2.75MW");
    assert_eq!(render(&large.get_value_min()), "2.00MW");
    assert_eq!(render(&large.get_tol_value_plus()), "250.00kW");
    assert_eq!(render(&large.get_tol_value_minus()), "-500.00kW");
}

#[test]
fn tolerances_add_up_in_products_and_cross_in_quotients() {
    let v = Voltage { value: num(10.0), tolerance: tol(5.0, 3.3) };
    let i = Current { value: num(2.0), tolerance: tol(1.0, 2.5) };
    let p = v.mul_current(&i);
    assert_eq!(eval(&p.value), 20.0);
    assert_eq!(sides(&p.tolerance), Some((6.0, 5.8)));
    let r = v.div_current(&i);
    assert_eq!(eval(&r.value), 5.0);
    assert_eq!(sides(&r.tolerance), Some((7.5, 4.3)));
}

#[test]
fn an_exact_operand_leaves_the_tolerance_as_it_is() {
    let v = Voltage { value: num(10.0), tolerance: tol(5.0, 3.3) };
    let i = Current { value: num(2.0), tolerance: None };
    assert_eq!(sides(&v.mul_current(&i).tolerance), Some((5.0, 3.3)));
    assert_eq!(sides(&v.div_current(&i).tolerance), Some((5.0, 3.3)));
    let p = Power { value: num(20.0), tolerance: None };
    // Under an exact numerator the two sides change places.
    assert_eq!(sides(&p.div_voltage(&v).tolerance), Some((3.3, 5.0)));
    let exact = Voltage { value: num(10.0), tolerance: None };
    assert_eq!(exact.mul_current(&i).tolerance, None);
    assert_eq!(exact.div_current(&i).tolerance, None);
    assert_eq!(exact.add(&exact).tolerance, None);
    assert_eq!(exact.sub(&exact).tolerance, None);
}

#[test]
fn the_operations_between_the_kinds() {
    let v = Voltage { value: num(12.0), tolerance: None };
    let i = Current { value: num(3.0), tolerance: None };
    let r = Resistance { value: num(4.0), tolerance: None };
    let p = Power { value: num(36.0), tolerance: None };
    assert_eq!(eval(&v.add(&v).value), 24.0);
    assert_eq!(eval(&v.sub(&v).value), 0.0);
    assert_eq!(eval(&v.div_current(&i).value), 4.0);
    assert_eq!(eval(&v.div_power(&p).value), 4.0);
    assert_eq!(eval(&v.div_resistance(&r).value), 3.0);
    assert_eq!(eval(&v.mul_current(&i).value), 36.0);
    assert_eq!(eval(&i.mul_resistance(&r).value), 12.0);
    assert_eq!(eval(&p.div_voltage(&v).value), 3.0);
    assert_eq!(eval(&p.div_current(&i).value), 4.0);
    assert_eq!(eval(&p.mul_current(&i).value), 12.0);
    assert_eq!(eval(&r.add(&r).value), 8.0);
    assert_eq!(eval(&r.mul_current(&i).value), 2.25);
    let mut sum = Resistance { value: num(1000.0), tolerance: tol(5.0, 5.0) };
    sum.add_assign(&Resistance { value: num(1000.0), tolerance: tol(1.0, 1.0) });
    assert_eq!(eval(&sum.value), 2000.0);
    let (plus, minus) = sides(&sum.tolerance).unwrap();
    assert!((plus - 3.0).abs() < 1e-9);
    assert!((minus - 3.0).abs() < 1e-9);
}

#[test]
fn the_nominal_value_is_read_back_from_its_display() {
    for text in ["12", "12m", "4.7k", "0.33u", "2.2M", "150n", "1T"] {
        let (value, _) = voltage(text).unwrap();
        let shown = normalize(value, "");
        let (again, _) = voltage(&shown).unwrap();
        assert!((again - value).abs() <= value.abs() * 0.005, "{} -> {}", text, shown);
    }
}
