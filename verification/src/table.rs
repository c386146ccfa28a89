//! The result table: seven lines for each of the four quantities.

use crate::types::current::{current_view, Current};
use crate::types::power::{power_view, Power};
use crate::types::resistance::{resistance_view, Resistance};
use crate::types::voltage::{voltage_view, Voltage};
use crate::types::{
    measured, readout, ErrorView, Line, Measurement, ParserError, Quantity, Readout, ReadoutView,
};
use vstd::prelude::*;

verus! {

/// One line of the result table: its label, and a cell for each quantity.
#[derive(Debug, PartialEq)]
pub struct Row {
    pub label: &'static str,
    pub voltage: Readout,
    pub current: Readout,
    pub resistance: Readout,
    pub power: Readout,
}

/// The mathematical form of a [`Row`].
pub struct RowView {
    pub label: Seq<char>,
    pub voltage: ReadoutView,
    pub current: ReadoutView,
    pub resistance: ReadoutView,
    pub power: ReadoutView,
}

impl View for Row {
    type V = RowView;

    open spec fn view(&self) -> RowView {
        RowView {
            label: self.label@,
            voltage: self.voltage@,
            current: self.current@,
            resistance: self.resistance@,
            power: self.power@,
        }
    }
}

/// The label of a line.
pub open spec fn label_of(line: Line) -> Seq<char> {
    match line {
        Line::Nominal => "Value nom"@,
        Line::Max => "Value max"@,
        Line::Min => "Value min"@,
        Line::TolPlus => "Tol plus"@,
        Line::TolMinus => "Tol minus"@,
        Line::TolPlusPercent => "Tol plus, %"@,
        Line::TolMinusPercent => "Tol minus, %"@,
    }
}

/// The seven lines, in the order in which the table shows them.
pub open spec fn lines() -> Seq<Line> {
    seq![
        Line::Nominal,
        Line::Max,
        Line::Min,
        Line::TolPlus,
        Line::TolMinus,
        Line::TolPlusPercent,
        Line::TolMinusPercent,
    ]
}

/// What a line shows of a quantity that may be missing: nothing is
/// available of one that is.
pub open spec fn cell(line: Line, data: Result<Quantity, ErrorView>, unit: Seq<char>) -> ReadoutView {
    match data {
        Ok(q) => readout(line, q, unit),
        Err(_) => ReadoutView::NotAvailable,
    }
}

/// The four quantities of a table, each a value or the reason why there is
/// none.
pub struct Shown {
    pub voltage: Result<Quantity, ErrorView>,
    pub current: Result<Quantity, ErrorView>,
    pub resistance: Result<Quantity, ErrorView>,
    pub power: Result<Quantity, ErrorView>,
}

/// One line of the table.
pub open spec fn row_of(line: Line, shown: Shown) -> RowView {
    RowView {
        label: label_of(line),
        voltage: cell(line, shown.voltage, "V"@),
        current: cell(line, shown.current, "A"@),
        resistance: cell(line, shown.resistance, "R"@),
        power: cell(line, shown.power, "W"@),
    }
}

/// The table of four quantities.
pub open spec fn table_of(shown: Shown) -> Seq<RowView> {
    lines().map_values(|line: Line| row_of(line, shown))
}

/// The mathematical form of a table.
pub open spec fn rows_view(rows: Seq<Row>) -> Seq<RowView> {
    rows.map_values(|row: Row| row@)
}

/// The nominal, the least and the greatest value of a measurement, for
/// display. Nothing is available of a measurement that is missing.
pub fn format_measurement<T: Measurement, E>(data: &Result<T, E>) -> (res: (
    Readout,
    Readout,
    Readout,
))
    ensures
        res.0@ == match data {
            Ok(m) => readout(Line::Nominal, measured(m), m.unit()),
            Err(_) => ReadoutView::NotAvailable,
        },
        res.1@ == match data {
            Ok(m) => readout(Line::Min, measured(m), m.unit()),
            Err(_) => ReadoutView::NotAvailable,
        },
        res.2@ == match data {
            Ok(m) => readout(Line::Max, measured(m), m.unit()),
            Err(_) => ReadoutView::NotAvailable,
        },
{
    match data {
        Ok(measurement) => (
            measurement.get_value_nom(),
            measurement.get_value_min(),
            measurement.get_value_max(),
        ),
        Err(_) => (Readout::NotAvailable, Readout::NotAvailable, Readout::NotAvailable),
    }
}

/// The tolerance of a measurement, for display: upward and downward, first
/// in the unit itself and then in percent. Nothing is available of a
/// measurement that is missing.
pub fn format_tol<T: Measurement, E>(data: &Result<T, E>) -> (res: (
    Readout,
    Readout,
    Readout,
    Readout,
))
    ensures
        res.0@ == match data {
            Ok(m) => readout(Line::TolPlus, measured(m), m.unit()),
            Err(_) => ReadoutView::NotAvailable,
        },
        res.1@ == match data {
            Ok(m) => readout(Line::TolMinus, measured(m), m.unit()),
            Err(_) => ReadoutView::NotAvailable,
        },
        res.2@ == match data {
            Ok(m) => readout(Line::TolPlusPercent, measured(m), m.unit()),
            Err(_) => ReadoutView::NotAvailable,
        },
        res.3@ == match data {
            Ok(m) => readout(Line::TolMinusPercent, measured(m), m.unit()),
            Err(_) => ReadoutView::NotAvailable,
        },
{
    match data {
        Ok(measurement) => (
            measurement.get_tol_value_plus(),
            measurement.get_tol_value_minus(),
            measurement.get_tol_percent_plus(),
            measurement.get_tol_percent_minus(),
        ),
        Err(_) => (
            Readout::NotAvailable,
            Readout::NotAvailable,
            Readout::NotAvailable,
            Readout::NotAvailable,
        ),
    }
}

/// The table of four quantities: seven lines, a cell for each quantity in
/// each.
pub fn result_rows(
    voltage: &Result<Voltage, ParserError>,
    current: &Result<Current, ParserError>,
    resistance: &Result<Resistance, ParserError>,
    power: &Result<Power, ParserError>,
) -> (rows: Vec<Row>)
    ensures
        rows_view(rows@) == table_of(
            Shown {
                voltage: voltage_view(*voltage),
                current: current_view(*current),
                resistance: resistance_view(*resistance),
                power: power_view(*power),
            },
        ),
{
    let (voltage_nom, voltage_min, voltage_max) = format_measurement(voltage);
    let (voltage_tol_plus, voltage_tol_minus, voltage_tol_plus_p, voltage_tol_minus_p) =
        format_tol(voltage);
    let (current_nom, current_min, current_max) = format_measurement(current);
    let (current_tol_plus, current_tol_minus, current_tol_plus_p, current_tol_minus_p) =
        format_tol(current);
    let (resistance_nom, resistance_min, resistance_max) = format_measurement(resistance);
    let (resistance_tol_plus, resistance_tol_minus, resistance_tol_plus_p, resistance_tol_minus_p) =
        format_tol(resistance);
    let (power_nom, power_min, power_max) = format_measurement(power);
    let (power_tol_plus, power_tol_minus, power_tol_plus_p, power_tol_minus_p) = format_tol(power);
    let mut rows: Vec<Row> = Vec::new();
    rows.push(
        Row {
            label: "Value nom",
            voltage: voltage_nom,
            current: current_nom,
            resistance: resistance_nom,
            power: power_nom,
        },
    );
    rows.push(
        Row {
            label: "Value max",
            voltage: voltage_max,
            current: current_max,
            resistance: resistance_max,
            power: power_max,
        },
    );
    rows.push(
        Row {
            label: "Value min",
            voltage: voltage_min,
            current: current_min,
            resistance: resistance_min,
            power: power_min,
        },
    );
    rows.push(
        Row {
            label: "Tol plus",
            voltage: voltage_tol_plus,
            current: current_tol_plus,
            resistance: resistance_tol_plus,
            power: power_tol_plus,
        },
    );
    rows.push(
        Row {
            label: "Tol minus",
            voltage: voltage_tol_minus,
            current: current_tol_minus,
            resistance: resistance_tol_minus,
            power: power_tol_minus,
        },
    );
    rows.push(
        Row {
            label: "Tol plus, %",
            voltage: voltage_tol_plus_p,
            current: current_tol_plus_p,
            resistance: resistance_tol_plus_p,
            power: power_tol_plus_p,
        },
    );
    rows.push(
        Row {
            label: "Tol minus, %",
            voltage: voltage_tol_minus_p,
            current: current_tol_minus_p,
            resistance: resistance_tol_minus_p,
            power: power_tol_minus_p,
        },
    );
    assert(rows_view(rows@) =~= table_of(
        Shown {
            voltage: voltage_view(*voltage),
            current: current_view(*current),
            resistance: resistance_view(*resistance),
            power: power_view(*power),
        },
    ));
    rows
}

} // verus!
