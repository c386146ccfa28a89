use ohmcalc::expr::Expr;
use ohmcalc::table::Row;
use ohmcalc::types::current::Current;
use ohmcalc::types::resistance::Resistance;
use ohmcalc::types::voltage::Voltage;
use ohmcalc::types::{ParserError, Readout, Tolerance};
use ohmcalc::voltage_divider::{help, Leg, LegForm, Message, VoltageDivider};

fn eval(e: &Expr) -> f64 {
    match e {
        Expr::Literal(text) => text.parse::<f64>().unwrap(),
        Expr::Abs(a) => eval(a).abs(),
        Expr::Sqrt(a) => eval(a).sqrt(),
        Expr::Sum(a, b) => eval(a) + eval(b),
        Expr::Diff(a, b) => eval(a) - eval(b),
        Expr::Prod(a, b) => eval(a) * eval(b),
        Expr::Quot(a, b) => eval(a) / eval(b),
    }
}

fn sides(tolerance: &Option<Tolerance>) -> Option<(f64, f64)> {
    tolerance.as_ref().map(|t| (eval(&t.plus), eval(&t.minus)))
}

fn normalize(value: f64, unit: &str) -> String {
    let prefixes = [
        (1e-12, "p"),
        (1e-9, "n"),
        (1e-6, "u"),
        (1e-3, "m"),
        (1.0, ""),
        (1e3, "k"),
        (1e6, "M"),
        (1e9, "G"),
        (1e12, "T"),
    ];
    for &(threshold, prefix) in prefixes.iter().rev() {
        if value.abs() >= threshold {
            return format!("{:.2}{}{}", value / threshold, prefix, unit);
        }
    }
    format!("{}", value)
}

fn render(readout: &Readout) -> String {
    match readout {
        Readout::NotAvailable => "N/A".to_string(),
        Readout::Scaled { dash, value, unit } => {
            format!("{}{}", if *dash { "-" } else { "" }, normalize(eval(value), unit))
        }
        Readout::Percent { dash, value } => {
            format!("{}{:.2}%", if *dash { "-" } else { "" }, eval(value))
        }
    }
}

fn render_row(row: &Row) -> Vec<String> {
    vec![
        row.label.to_string(),
        render(&row.voltage),
        render(&row.current),
        render(&row.resistance),
        render(&row.power),
    ]
}

/// A chain with the given texts, resistance first, solved.
fn chain(legs: &[(&str, &str)]) -> VoltageDivider {
    let mut divider = VoltageDivider::default();
    for _ in 2..legs.len() {
        divider.update(Message::LegAdd);
    }
    for (id, (resistance, voltage)) in legs.iter().enumerate() {
        divider.update(Message::InputResistanceChanged(id, resistance.to_string()));
        divider.update(Message::InputVoltageChanged(id, voltage.to_string()));
    }
    divider
}

fn voltage_of(leg: &Leg) -> Option<f64> {
    leg.voltage.as_ref().ok().map(|v| eval(&v.value))
}

fn current_of(leg: &Leg) -> Option<f64> {
    leg.current.as_ref().ok().map(|c| eval(&c.value))
}

fn resistance_of(leg: &Leg) -> Option<f64> {
    leg.resistance.as_ref().ok().map(|r| eval(&r.value))
}

fn power_of(leg: &Leg) -> Option<f64> {
    leg.power.as_ref().ok().map(|p| eval(&p.value))
}

fn close(a: Option<f64>, b: f64) -> bool {
    match a {
        Some(a) => (a - b).abs() <= 1e-12 * b.abs().max(1.0),
        None => false,
    }
}

#[test]
fn a_new_chain_has_two_empty_legs() {
    let divider = VoltageDivider::default();
    assert_eq!(divider.legs.len(), 2);
    for leg in &divider.legs {
        assert_eq!(leg.resistance_raw, "");
        assert_eq!(leg.voltage_raw, "");
        assert_eq!(leg.voltage, Err(ParserError::EmptyInput));
        assert_eq!(leg.current, Err(ParserError::EmptyInput));
        assert_eq!(leg.resistance, Err(ParserError::EmptyInput));
        assert_eq!(leg.power, Err(ParserError::EmptyInput));
    }
    assert_eq!(divider.chain_current(), None);
}

#[test]
fn two_legs_with_the_lower_voltage_given() {
    // The leg at the ground end gives resistance and voltage, the leg above
    // it only its resistance.
    let divider = chain(&[("1k", ""), ("1k", "5")]);
    let current = divider.chain_current().unwrap();
    assert!(close(Some(eval(&current.value)), 5e-3));
    assert!(close(current_of(&divider.legs[0]), 5e-3));
    assert!(close(current_of(&divider.legs[1]), 5e-3));
    assert!(close(voltage_of(&divider.legs[1]), 5.0));
    assert!(close(voltage_of(&divider.legs[0]), 10.0));
    assert!(close(resistance_of(&divider.legs[0]), 1000.0));
    assert!(close(power_of(&divider.legs[0]), 0.05));
    assert!(close(power_of(&divider.legs[1]), 0.025));
}

#[test]
fn two_legs_with_the_lower_voltage_at_zero() {
    let divider = chain(&[("1k", ""), ("1k", "0")]);
    assert!(close(current_of(&divider.legs[0]), 0.0));
    assert!(close(current_of(&divider.legs[1]), 0.0));
    assert!(close(voltage_of(&divider.legs[0]), 0.0));
    assert!(close(voltage_of(&divider.legs[1]), 0.0));
}

#[test]
fn a_voltage_without_resistance_is_the_top_voltage() {
    // The first walk goes from the ground end up: bottom voltage 2 V over
    // 1 k, top voltage 12 V.
    let divider = chain(&[("", "12"), ("1k", "2")]);
    let current = eval(&divider.chain_current().unwrap().value);
    assert!(close(Some(current), (2.0 - 12.0) / 1000.0));
    // The leg with a voltage and no resistance gets its resistance from the
    // voltage across it.
    assert!(close(resistance_of(&divider.legs[0]), (12.0 - 2.0) / current));
    assert!(close(voltage_of(&divider.legs[0]), 12.0));
    assert!(close(resistance_of(&divider.legs[1]), 1000.0));
}

#[test]
fn resistances_add_up_until_a_voltage_is_known() {
    let divider = chain(&[("1k", ""), ("2k", "6"), ("3k", ""), ("4k", "")]);
    // From the ground end: 4k and 3k are added, then 2k with the bottom
    // voltage; the 1k above it is left out.
    let current = eval(&divider.chain_current().unwrap().value);
    assert!(close(Some(current), 6.0 / 9000.0));
    assert!(close(voltage_of(&divider.legs[3]), current * 4000.0));
    assert!(close(voltage_of(&divider.legs[2]), current * 3000.0 + current * 4000.0));
    assert!(close(voltage_of(&divider.legs[1]), 6.0));
    assert!(close(voltage_of(&divider.legs[0]), current * 1000.0 + 6.0));
    for leg in &divider.legs {
        assert!(close(current_of(leg), current));
        assert!(close(power_of(leg), voltage_of(leg).unwrap() * current));
    }
}

#[test]
fn an_empty_leg_breaks_the_chain() {
    let divider = chain(&[("1k", "10"), ("", ""), ("1k", "5")]);
    assert_eq!(divider.chain_current(), None);
    for leg in &divider.legs {
        assert_eq!(leg.current, Err(ParserError::EmptyInput));
        assert_eq!(leg.power, Err(ParserError::EmptyInput));
    }
    assert!(close(voltage_of(&divider.legs[0]), 10.0));
    assert!(close(resistance_of(&divider.legs[2]), 1000.0));
    assert_eq!(divider.legs[1].voltage, Err(ParserError::EmptyInput));
    assert_eq!(divider.legs[1].resistance, Err(ParserError::EmptyInput));
    // Even at the supply end, behind everything that is known.
    let divider = chain(&[("", ""), ("1k", "5")]);
    assert_eq!(divider.chain_current(), None);
    assert_eq!(divider.legs[1].current, Err(ParserError::EmptyInput));
}

#[test]
fn without_a_bottom_voltage_there_is_no_current() {
    let divider = chain(&[("1k", ""), ("1k", "")]);
    assert_eq!(divider.chain_current(), None);
    let divider = chain(&[("", "10"), ("", "5")]);
    assert_eq!(divider.chain_current(), None);
    assert!(close(voltage_of(&divider.legs[0]), 10.0));
    assert_eq!(divider.legs[0].resistance, Err(ParserError::EmptyInput));
}

#[test]
fn incorrect_fields_count_as_unknown() {
    let divider = chain(&[("1k", "1x"), ("1k", "5")]);
    assert_eq!(
        divider.legs[0].voltage_entered,
        Err(ParserError::IncorrectInput("x".to_string()))
    );
    assert!(close(voltage_of(&divider.legs[0]), 10.0));
    assert!(close(current_of(&divider.legs[0]), 5e-3));
}

#[test]
fn the_chain_is_solved_from_what_is_entered_now() {
    let mut divider = chain(&[("1k", ""), ("1k", "5")]);
    assert!(close(voltage_of(&divider.legs[0]), 10.0));
    divider.update(Message::InputVoltageChanged(1, "".to_string()));
    assert_eq!(divider.chain_current(), None);
    assert_eq!(divider.legs[0].voltage, Err(ParserError::EmptyInput));
    assert_eq!(divider.legs[0].current, Err(ParserError::EmptyInput));
    assert_eq!(divider.legs[1].voltage, Err(ParserError::EmptyInput));
    divider.update(Message::InputVoltageChanged(1, "3".to_string()));
    assert!(close(voltage_of(&divider.legs[0]), 6.0));
}

#[test]
fn tolerances_run_through_the_chain() {
    let divider = chain(&[("1k 5%", ""), ("1k 1%", "5 +2% -2%")]);
    let current = divider.chain_current().unwrap();
    assert!(close(Some(eval(&current.value)), 5e-3));
    // (5 V ± 2 % − 0 V) / (1 k ± 1 %): 2 % + 1 % on each side.
    let (plus, minus) = sides(&current.tolerance).unwrap();
    assert!((plus - 3.0).abs() < 1e-9);
    assert!((minus - 3.0).abs() < 1e-9);
    let top = divider.legs[0].voltage.as_ref().unwrap();
    assert!(close(Some(eval(&top.value)), 10.0));
    // 5 V ± 8 % across the upper leg and 5 V ± 2 % below it: ± 5 % of 10 V.
    let (plus, minus) = sides(&top.tolerance).unwrap();
    assert!((plus - 5.0).abs() < 1e-9);
    assert!((minus - 5.0).abs() < 1e-9);
}

#[test]
fn the_first_two_legs_cannot_be_taken_out() {
    let mut divider = chain(&[("1k", ""), ("1k", "5")]);
    for id in [0, 1, 2, 3, usize::MAX] {
        divider.update(Message::LegDelete(id));
        assert_eq!(divider.legs.len(), 2);
        assert_eq!(divider.legs[0].resistance_raw, "1k");
        assert_eq!(divider.legs[1].voltage_raw, "5");
        assert!(close(voltage_of(&divider.legs[0]), 10.0));
    }
    divider.update(Message::LegAdd);
    divider.update(Message::LegAdd);
    assert_eq!(divider.legs.len(), 4);
    divider.update(Message::LegDelete(0));
    divider.update(Message::LegDelete(1));
    assert_eq!(divider.legs.len(), 4);
    divider.update(Message::LegDelete(4));
    assert_eq!(divider.legs.len(), 4);
    divider.update(Message::LegDelete(2));
    assert_eq!(divider.legs.len(), 3);
    divider.update(Message::LegDelete(2));
    assert_eq!(divider.legs.len(), 2);
    divider.update(Message::LegDelete(2));
    assert_eq!(divider.legs.len(), 2);
}

#[test]
fn taking_out_a_leg_moves_the_others_up() {
    let mut divider = chain(&[("1k", ""), ("2k", ""), ("3k", ""), ("4k", "8")]);
    divider.update(Message::LegDelete(2));
    assert_eq!(divider.legs.len(), 3);
    assert_eq!(divider.legs[2].resistance_raw, "4k");
    assert_eq!(divider.legs[2].voltage_raw, "8");
    assert!(close(current_of(&divider.legs[0]), 8.0 / 4000.0));
}

#[test]
fn edits_of_legs_that_are_not_there_change_nothing() {
    let mut divider = chain(&[("1k", ""), ("1k", "5")]);
    divider.update(Message::InputResistanceChanged(2, "7".to_string()));
    divider.update(Message::InputVoltageChanged(9, "7".to_string()));
    assert_eq!(divider.legs.len(), 2);
    assert_eq!(divider.legs[0].resistance_raw, "1k");
    assert_eq!(divider.legs[1].resistance_raw, "1k");
    assert!(close(voltage_of(&divider.legs[0]), 10.0));
}

#[test]
fn apply_edits_without_solving() {
    let mut divider = VoltageDivider::default();
    divider.apply(Message::InputResistanceChanged(0, "1k".to_string()));
    assert_eq!(divider.legs[0].resistance_raw, "1k");
    assert!(divider.legs[0].resistance_entered.is_ok());
    assert_eq!(divider.legs[0].resistance, Err(ParserError::EmptyInput));
    divider.solve();
    assert!(close(resistance_of(&divider.legs[0]), 1000.0));
}

#[test]
fn the_form_of_the_chain() {
    let mut divider = chain(&[("1k", ""), ("", "5"), ("", ""), ("1k", "2"), ("x", "y"), ("x", "")]);
    divider.update(Message::InputVoltageChanged(5, "1".to_string()));
    divider.update(Message::InputResistanceChanged(5, "1 %".to_string()));
    divider.update(Message::LegAdd);
    divider.update(Message::InputVoltageChanged(6, "1%%".to_string()));
    divider.update(Message::InputResistanceChanged(6, "1".to_string()));
    divider.update(Message::LegAdd);
    divider.update(Message::InputVoltageChanged(7, "z".to_string()));
    let form = divider.view_form();
    let hints: Vec<&str> = form.iter().map(|leg| leg.hint.as_str()).collect();
    assert_eq!(
        hints,
        vec![
            "Voltage field is empty.",
            "Resistance field is empty.",
            "Both resistance and voltage fields are empty.",
            "All fields are correct.",
            "Resistance field error: x; Voltage field error: y",
            "Resistance field error:  %",
            "Voltage field error: %",
            "Example: 1k 5%",
        ]
    );
    assert_eq!(
        form[0],
        LegForm {
            number: 1,
            resistance_text: "1k".to_string(),
            voltage_text: "".to_string(),
            hint: "Voltage field is empty.".to_string(),
            deletable: false,
        }
    );
    let deletable: Vec<bool> = form.iter().map(|leg| leg.deletable).collect();
    assert_eq!(deletable, vec![false, false, true, true, true, true, true, true]);
    let numbers: Vec<usize> = form.iter().map(|leg| leg.number).collect();
    assert_eq!(numbers, vec![1, 2, 3, 4, 5, 6, 7, 8]);
}

#[test]
fn the_result_tables_of_the_chain() {
    let divider = chain(&[("1k 5%", ""), ("1k", "5")]);
    let tables = divider.view_result();
    assert_eq!(tables.len(), 2);
    assert_eq!(tables[0].number, 1);
    assert_eq!(tables[1].number, 2);
    let lower: Vec<Vec<String>> = tables[1].rows.iter().map(render_row).collect();
    assert_eq!(lower[0], vec!["Value nom", "5.00V", "5.00mA", "1.00kR", "25.00mW"]);
    assert_eq!(lower[1], vec!["Value max", "N/A", "N/A", "N/A", "N/A"]);
    assert_eq!(lower[6], vec!["Tol minus, %", "N/A", "N/A", "N/A", "N/A"]);
    let upper: Vec<Vec<String>> = tables[0].rows.iter().map(render_row).collect();
    assert_eq!(upper[0][0], "Value nom");
    assert_eq!(upper[0][1], "10.00V");
    assert_eq!(upper[0][2], "5.00mA");
    assert_eq!(upper[0][3], "1.00kR");
    assert_eq!(upper[5][3], "5.00%");
    assert_eq!(upper[6][3], "-5.00%");
    let broken = chain(&[("", ""), ("1k", "5")]);
    let tables = broken.view_result();
    let first: Vec<Vec<String>> = tables[0].rows.iter().map(render_row).collect();
    for row in &first {
        assert_eq!(row[1..], ["N/A", "N/A", "N/A", "N/A"]);
    }
    let second: Vec<Vec<String>> = tables[1].rows.iter().map(render_row).collect();
    assert_eq!(second[0], vec!["Value nom", "5.00V", "N/A", "1.00kR", "N/A"]);
}

#[test]
fn the_operations_that_the_chain_uses() {
    let bottom = Voltage { value: Expr::literal("5"), tolerance: None };
    let top = Voltage::default();
    let sum = Resistance { value: Expr::literal("1e3"), tolerance: None };
    let current: Current = bottom.sub(&top).div_resistance(&sum);
    assert_eq!(
        current.value,
        Expr::quot(Expr::diff(Expr::literal("5"), Expr::literal("0")), Expr::literal("1e3"))
    );
    assert_eq!(current.tolerance, None);
}

#[test]
fn the_divider_has_its_title_and_help() {
    assert_eq!(VoltageDivider::default().title(), "Voltage Divider");
    let (title, text) = help();
    assert_eq!(title, "Voltage Divider");
    assert!(text.starts_with("\nThe program calculates parameters in a resistive voltage divider"));
}
