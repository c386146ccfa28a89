//! The voltage-divider scene: a chain of legs in series, each a resistor and
//! the voltage at its node. Leg 0 is at the supply end, the last leg at the
//! ground end.
//!
//! The chain is solved in two walks from the ground end to the supply end.
//! The first finds the current through the chain, the second fills in what
//! each leg lacks.

use crate::table::{result_rows, rows_view, table_of, Row, Shown};
use crate::types::current::{current_view, Current};
use crate::types::power::{power_view, Power};
use crate::types::resistance::{clone_resistance, resistance_view, Resistance};
use crate::types::voltage::{clone_voltage, voltage_view, Voltage};
use crate::types::{
    difference, exact, product, quotient, reading_of, total, ErrorView, ParserError, Quantity,
};
use crate::expr::Term;
use core::str::FromStr;
use vstd::prelude::*;
use vstd::string::*;

verus! {

/// The heading of the scene's help page.
pub const HELP_TITLE: &'static str = "Voltage Divider";

/// The body of the scene's help page, in Markdown.
pub const HELP_TEXT: &'static str = "
The program calculates parameters in a resistive voltage divider circuit. It allows you to define the characteristics of each leg of the divider and provides tools for customization.

#### Features and Interface
1. **Leg Configuration**:  
   - By default, the circuit starts with two legs.  
   - You can add additional legs using the **Add Leg** button.  
   - Each additional leg will have a `-` button on the right for easy deletion.

2. **Automatic Numbering**:  
   - Legs are numbered automatically, starting from 1, and renumbered dynamically after any additions or deletions.

3. **Input Fields for Each Leg**:  
   - For each leg, you can specify:  
      -- **Resistance**: The resistance of the leg (in ohms, Ω).  
      -- **Voltage**: The voltage at the leg relative to ground (not the voltage drop across the resistor).  

4. **Calculation Requirements**:  
   - All known fields must be filled in.  
   - At least one leg must be fully defined, meaning both **resistance** and **voltage** must be provided for that leg.

#### Data Input Format
##### Value Units
The input format supports values with units, similar to those used in Ohm's Law calculations. To specify a unit, append the unit prefix directly to the number:  
- Example: 12m represents 0.012R (milliohms).  

Supported unit prefixes:  
- **p** (pico, 10⁻¹²),  
- **n** (nano, 10⁻⁹),  
- **u** (micro, 10⁻⁶),  
- **m** (milli, 10⁻³),  
- **k** (kilo, 10³),  
- **M** (mega, 10⁶),  
- **G** (giga, 10⁹).

##### Uncertainty (Error Margins)
Input values can include error margins using the following formats:  
- Symmetrical error: 5% (±5% from the value),  
- Asymmetrical positive error: +5%,  
- Asymmetrical negative error: -5%,  
- Symmetrical error: +/-5%.

#### Results
Once all required parameters are defined, the results will be displayed in a table below the input fields. Calculations account for any defined error margins and unit conversions. The results include:  
- Voltage distribution across all legs,  
- Current through each resistor,  
- Power dissipated by each resistor.";

/// One leg of the chain.
#[derive(Debug)]
pub struct Leg {
    /// The text of the resistance field.
    pub resistance_raw: String,
    /// The text of the voltage field.
    pub voltage_raw: String,
    /// What the resistance field reads as.
    pub resistance_entered: Result<Resistance, ParserError>,
    /// What the voltage field reads as.
    pub voltage_entered: Result<Voltage, ParserError>,
    /// The voltage at the leg's node: entered or solved.
    pub voltage: Result<Voltage, ParserError>,
    /// The current through the leg.
    pub current: Result<Current, ParserError>,
    /// The leg's resistance: entered or solved.
    pub resistance: Result<Resistance, ParserError>,
    /// The power at the leg.
    pub power: Result<Power, ParserError>,
}

/// The mathematical form of a [`Leg`].
pub struct LegView {
    pub resistance_raw: Seq<char>,
    pub voltage_raw: Seq<char>,
    pub resistance_entered: Result<Quantity, ErrorView>,
    pub voltage_entered: Result<Quantity, ErrorView>,
    pub voltage: Result<Quantity, ErrorView>,
    pub current: Result<Quantity, ErrorView>,
    pub resistance: Result<Quantity, ErrorView>,
    pub power: Result<Quantity, ErrorView>,
}

impl LegView {
    /// A leg with both fields empty.
    pub open spec fn empty() -> LegView {
        LegView {
            resistance_raw: Seq::empty(),
            voltage_raw: Seq::empty(),
            resistance_entered: Err(ErrorView::EmptyInput),
            voltage_entered: Err(ErrorView::EmptyInput),
            voltage: Err(ErrorView::EmptyInput),
            current: Err(ErrorView::EmptyInput),
            resistance: Err(ErrorView::EmptyInput),
            power: Err(ErrorView::EmptyInput),
        }
    }
}

impl View for Leg {
    type V = LegView;

    open spec fn view(&self) -> LegView {
        LegView {
            resistance_raw: self.resistance_raw@,
            voltage_raw: self.voltage_raw@,
            resistance_entered: resistance_view(self.resistance_entered),
            voltage_entered: voltage_view(self.voltage_entered),
            voltage: voltage_view(self.voltage),
            current: current_view(self.current),
            resistance: resistance_view(self.resistance),
            power: power_view(self.power),
        }
    }
}

impl Default for Leg {
    fn default() -> (res: Self)
        ensures
            res@ == LegView::empty(),
    {
        Self {
            resistance_raw: String::new(),
            voltage_raw: String::new(),
            resistance_entered: Err(ParserError::EmptyInput),
            voltage_entered: Err(ParserError::EmptyInput),
            voltage: Err(ParserError::EmptyInput),
            current: Err(ParserError::EmptyInput),
            resistance: Err(ParserError::EmptyInput),
            power: Err(ParserError::EmptyInput),
        }
    }
}

/// An edit of the chain.
#[derive(Debug)]
pub enum Message {
    /// The voltage field of a leg has a new text.
    InputVoltageChanged(usize, String),
    /// The resistance field of a leg has a new text.
    InputResistanceChanged(usize, String),
    /// A leg is added at the ground end.
    LegAdd,
    /// A leg is taken out.
    LegDelete(usize),
}

impl Clone for Message {
    fn clone(&self) -> (res: Self)
        ensures
            res@ == self@,
    {
        match self {
            Message::InputVoltageChanged(id, s) => Message::InputVoltageChanged(*id, s.clone()),
            Message::InputResistanceChanged(id, s) => Message::InputResistanceChanged(
                *id,
                s.clone(),
            ),
            Message::LegAdd => Message::LegAdd,
            Message::LegDelete(id) => Message::LegDelete(*id),
        }
    }
}

/// The mathematical form of a [`Message`].
pub enum MessageView {
    InputVoltageChanged(usize, Seq<char>),
    InputResistanceChanged(usize, Seq<char>),
    LegAdd,
    LegDelete(usize),
}

impl View for Message {
    type V = MessageView;

    open spec fn view(&self) -> MessageView {
        match self {
            Message::InputVoltageChanged(id, s) => MessageView::InputVoltageChanged(*id, s@),
            Message::InputResistanceChanged(id, s) => MessageView::InputResistanceChanged(*id, s@),
            Message::LegAdd => MessageView::LegAdd,
            Message::LegDelete(id) => MessageView::LegDelete(*id),
        }
    }
}

/// The state of the scene: the legs of the chain, from the supply end.
#[derive(Debug)]
pub struct VoltageDivider {
    pub legs: Vec<Leg>,
}

impl View for VoltageDivider {
    type V = Seq<LegView>;

    open spec fn view(&self) -> Seq<LegView> {
        self.legs@.map_values(|leg: Leg| leg@)
    }
}

/// What the first walk has gathered.
pub struct Gathered {
    /// The voltage of the last leg seen that gives a voltage and no
    /// resistance.
    pub top: Option<Quantity>,
    /// The voltage of the last leg seen that gives both.
    pub bottom: Option<Quantity>,
    /// The resistances added up so far.
    pub sum: Option<Quantity>,
    /// Whether a leg that gives neither was seen.
    pub broken: bool,
}

impl Gathered {
    /// Nothing gathered yet.
    pub open spec fn start() -> Gathered {
        Gathered { top: None, bottom: None, sum: None, broken: false }
    }

    /// A resistance added in front of the sum.
    pub open spec fn add_resistance(self, r: Quantity) -> Gathered {
        Gathered {
            sum: Some(
                match self.sum {
                    Some(rr) => total(r, rr),
                    None => r,
                },
            ),
            ..self
        }
    }

    /// What is gathered after one more leg:
    ///
    /// - a leg that gives neither resistance nor voltage wipes out what was
    ///   gathered and breaks the chain;
    /// - a leg that gives both sets the bottom voltage and adds its
    ///   resistance;
    /// - a leg that gives only a voltage sets the top voltage;
    /// - a leg that gives only a resistance adds it, as long as no bottom
    ///   voltage is set.
    pub open spec fn absorb(self, leg: LegView) -> Gathered {
        match (leg.resistance_entered, leg.voltage_entered) {
            (Err(_), Err(_)) => Gathered { top: None, bottom: None, sum: None, broken: true },
            (Ok(r), Ok(v)) => Gathered { bottom: Some(v), ..self.add_resistance(r) },
            (Err(_), Ok(v)) => Gathered { top: Some(v), ..self },
            (Ok(r), Err(_)) => if self.bottom is None {
                self.add_resistance(r)
            } else {
                self
            },
        }
    }

    /// The current through the chain: bottom voltage minus top voltage, over
    /// the sum of the resistances. A top voltage that was not set counts as
    /// zero. There is none where the bottom voltage or the sum is missing,
    /// or where the chain is broken.
    pub open spec fn current(self) -> Option<Quantity> {
        let top = match self.top {
            Some(v) => v,
            None => exact(Term::zero()),
        };
        match (self.bottom, self.sum) {
            (Some(bottom), Some(sum)) => if self.broken {
                None
            } else {
                Some(quotient(difference(bottom, top), sum))
            },
            _ => None,
        }
    }
}

/// What the first walk gathers from the legs, taken from the last to the
/// first.
pub open spec fn gather(legs: Seq<LegView>) -> Gathered
    decreases legs.len(),
{
    if legs.len() == 0 {
        Gathered::start()
    } else {
        gather(legs.drop_first()).absorb(legs.first())
    }
}

/// The current through the chain, where the legs settle it.
pub open spec fn chain_current(legs: Seq<LegView>) -> Option<Quantity> {
    gather(legs).current()
}

impl LegView {
    /// The leg without a chain current: it shows what was entered, and
    /// neither current nor power.
    pub open spec fn unsolved(self) -> LegView {
        LegView {
            voltage: self.voltage_entered,
            resistance: self.resistance_entered,
            current: Err(ErrorView::EmptyInput),
            power: Err(ErrorView::EmptyInput),
            ..self
        }
    }

    /// The voltage at the leg's node, given the chain current and the
    /// voltage at the node below: the entered one, or else the current times
    /// the resistance, plus the voltage below.
    pub open spec fn node_voltage(self, current: Quantity, below: Quantity) -> Option<Quantity> {
        match (self.voltage_entered, self.resistance_entered) {
            (Ok(v), _) => Some(v),
            (Err(_), Ok(r)) => Some(total(product(current, r), below)),
            (Err(_), Err(_)) => None,
        }
    }

    /// The leg with the chain current `current` and the voltage `below` at
    /// the node below it:
    ///
    /// - with a voltage and no resistance, the resistance is the voltage
    ///   minus the voltage below, over the current;
    /// - with a resistance and no voltage, the voltage is the current times
    ///   the resistance, plus the voltage below;
    /// - with either, the leg carries the current, and its power is its
    ///   voltage times the current;
    /// - with neither, the leg stays unsolved.
    pub open spec fn solved(self, current: Quantity, below: Quantity) -> LegView {
        match self.node_voltage(current, below) {
            Some(v) => LegView {
                voltage: Ok(v),
                resistance: match self.resistance_entered {
                    Ok(r) => Ok(r),
                    Err(_) => Ok(quotient(difference(v, below), current)),
                },
                current: Ok(current),
                power: Ok(product(v, current)),
                ..self
            },
            None => self.unsolved(),
        }
    }
}

/// The voltage at the node of the first of `legs`, from the chain current and
/// the legs below; zero below the last leg. A leg that gives neither voltage
/// nor resistance passes on the voltage below it.
pub open spec fn voltage_above(legs: Seq<LegView>, current: Quantity) -> Quantity
    decreases legs.len(),
{
    if legs.len() == 0 {
        exact(Term::zero())
    } else {
        let below = voltage_above(legs.drop_first(), current);
        match legs.first().node_voltage(current, below) {
            Some(v) => v,
            None => below,
        }
    }
}

/// The legs with what the chain current settles, each from the voltage at
/// the node below it.
pub open spec fn fill(legs: Seq<LegView>, current: Quantity) -> Seq<LegView> {
    Seq::new(
        legs.len(),
        |i: int| legs[i].solved(current, voltage_above(legs.skip(i + 1), current)),
    )
}

/// The chain, solved: with a chain current every leg is filled in; without
/// one every leg shows what was entered, and no current.
pub open spec fn solve(legs: Seq<LegView>) -> Seq<LegView> {
    match chain_current(legs) {
        Some(current) => fill(legs, current),
        None => Seq::new(legs.len(), |i: int| legs[i].unsolved()),
    }
}

/// The legs after an edit, before they are solved anew. An edit of a leg
/// that is not there changes nothing, and neither does taking out one of the
/// first two legs.
pub open spec fn edit(legs: Seq<LegView>, message: MessageView) -> Seq<LegView> {
    match message {
        MessageView::InputResistanceChanged(id, s) => if id < legs.len() {
            legs.update(
                id as int,
                LegView { resistance_raw: s, resistance_entered: reading_of(s), ..legs[id as int] },
            )
        } else {
            legs
        },
        MessageView::InputVoltageChanged(id, s) => if id < legs.len() {
            legs.update(
                id as int,
                LegView { voltage_raw: s, voltage_entered: reading_of(s), ..legs[id as int] },
            )
        } else {
            legs
        },
        MessageView::LegAdd => legs.push(LegView::empty()),
        MessageView::LegDelete(id) => if 2 <= id < legs.len() {
            legs.remove(id as int)
        } else {
            legs
        },
    }
}

/// The chain after an edit: edited, then solved.
pub open spec fn step(legs: Seq<LegView>, message: MessageView) -> Seq<LegView> {
    solve(edit(legs, message))
}

/// Taking out one of the first two legs changes nothing.
pub proof fn lemma_first_two_legs_stay(legs: Seq<LegView>, id: usize)
    requires
        id < 2,
    ensures
        edit(legs, MessageView::LegDelete(id)) == legs,
{
}

/// A chain of two legs or more keeps two legs or more, whatever the edit.
pub proof fn lemma_at_least_two_legs(legs: Seq<LegView>, message: MessageView)
    requires
        legs.len() >= 2,
    ensures
        step(legs, message).len() >= 2,
        edit(legs, message).len() >= 2,
{
}

/// Solving changes neither the number of the legs nor what was entered.
pub proof fn lemma_solve_keeps_entries(legs: Seq<LegView>)
    ensures
        solve(legs).len() == legs.len(),
        forall|i: int|
            0 <= i < legs.len() ==> {
                &&& (#[trigger] solve(legs)[i]).resistance_raw == legs[i].resistance_raw
                &&& solve(legs)[i].voltage_raw == legs[i].voltage_raw
                &&& solve(legs)[i].resistance_entered == legs[i].resistance_entered
                &&& solve(legs)[i].voltage_entered == legs[i].voltage_entered
            },
{
}

/// Whether two chains have the same entries, leg by leg.
pub open spec fn same_entries(a: Seq<LegView>, b: Seq<LegView>) -> bool {
    &&& a.len() == b.len()
    &&& forall|i: int|
        0 <= i < a.len() ==> {
            &&& (#[trigger] a[i]).resistance_raw == b[i].resistance_raw
            &&& a[i].voltage_raw == b[i].voltage_raw
            &&& a[i].resistance_entered == b[i].resistance_entered
            &&& a[i].voltage_entered == b[i].voltage_entered
        }
}

/// The first walk gathers the same from chains with the same entries.
proof fn lemma_gather_reads_entries(a: Seq<LegView>, b: Seq<LegView>)
    requires
        same_entries(a, b),
    ensures
        gather(a) == gather(b),
    decreases a.len(),
{
    if a.len() > 0 {
        assert(same_entries(a.drop_first(), b.drop_first())) by {
            assert forall|i: int| 0 <= i < a.drop_first().len() implies {
                &&& (#[trigger] a.drop_first()[i]).resistance_raw
                    == b.drop_first()[i].resistance_raw
                &&& a.drop_first()[i].voltage_raw == b.drop_first()[i].voltage_raw
                &&& a.drop_first()[i].resistance_entered == b.drop_first()[i].resistance_entered
                &&& a.drop_first()[i].voltage_entered == b.drop_first()[i].voltage_entered
            } by {
                assert(a.drop_first()[i] == a[i + 1]);
                assert(b.drop_first()[i] == b[i + 1]);
            }
        }
        lemma_gather_reads_entries(a.drop_first(), b.drop_first());
        assert(a.first() == a[0]);
        assert(b.first() == b[0]);
    }
}

/// The voltage above a chain is the same for chains with the same entries.
proof fn lemma_voltage_above_reads_entries(
    a: Seq<LegView>,
    b: Seq<LegView>,
    current: Quantity,
)
    requires
        same_entries(a, b),
    ensures
        voltage_above(a, current) == voltage_above(b, current),
    decreases a.len(),
{
    if a.len() > 0 {
        assert(same_entries(a.drop_first(), b.drop_first())) by {
            assert forall|i: int| 0 <= i < a.drop_first().len() implies {
                &&& (#[trigger] a.drop_first()[i]).resistance_raw
                    == b.drop_first()[i].resistance_raw
                &&& a.drop_first()[i].voltage_raw == b.drop_first()[i].voltage_raw
                &&& a.drop_first()[i].resistance_entered == b.drop_first()[i].resistance_entered
                &&& a.drop_first()[i].voltage_entered == b.drop_first()[i].voltage_entered
            } by {
                assert(a.drop_first()[i] == a[i + 1]);
                assert(b.drop_first()[i] == b[i + 1]);
            }
        }
        lemma_voltage_above_reads_entries(a.drop_first(), b.drop_first(), current);
        assert(a.first() == a[0]);
        assert(b.first() == b[0]);
    }
}

/// What is solved depends on what was entered and on nothing else: chains
/// with the same entries are solved alike.
pub proof fn lemma_solve_reads_entries(a: Seq<LegView>, b: Seq<LegView>)
    requires
        same_entries(a, b),
    ensures
        solve(a) == solve(b),
{
    lemma_gather_reads_entries(a, b);
    match chain_current(a) {
        Some(current) => {
            assert forall|i: int| 0 <= i < a.len() implies a[i].solved(
                current,
                voltage_above(a.skip(i + 1), current),
            ) == b[i].solved(current, voltage_above(b.skip(i + 1), current)) by {
                assert(same_entries(a.skip(i + 1), b.skip(i + 1))) by {
                    assert forall|k: int| 0 <= k < a.skip(i + 1).len() implies {
                        &&& (#[trigger] a.skip(i + 1)[k]).resistance_raw == b.skip(
                            i + 1,
                        )[k].resistance_raw
                        &&& a.skip(i + 1)[k].voltage_raw == b.skip(i + 1)[k].voltage_raw
                        &&& a.skip(i + 1)[k].resistance_entered == b.skip(
                            i + 1,
                        )[k].resistance_entered
                        &&& a.skip(i + 1)[k].voltage_entered == b.skip(i + 1)[k].voltage_entered
                    } by {
                        assert(a.skip(i + 1)[k] == a[i + 1 + k]);
                        assert(b.skip(i + 1)[k] == b[i + 1 + k]);
                    }
                }
                lemma_voltage_above_reads_entries(a.skip(i + 1), b.skip(i + 1), current);
                assert(a[i].resistance_raw == b[i].resistance_raw);
            }
            assert(fill(a, current) =~= fill(b, current));
        },
        None => {
            assert forall|i: int| 0 <= i < a.len() implies a[i].unsolved() == b[i].unsolved() by {
                assert(a[i].resistance_raw == b[i].resistance_raw);
            }
            assert(solve(a) =~= solve(b));
        },
    }
}

/// A chain that is solved stays as it is when it is solved again.
pub proof fn lemma_solve_twice(legs: Seq<LegView>)
    ensures
        solve(solve(legs)) == solve(legs),
{
    lemma_solve_keeps_entries(legs);
    lemma_solve_reads_entries(solve(legs), legs);
}

/// Asking to take out one of the first two legs of a solved chain leaves
/// the chain as it is.
pub proof fn lemma_delete_below_two_is_no_op(legs: Seq<LegView>, id: usize)
    requires
        id < 2,
    ensures
        step(solve(legs), MessageView::LegDelete(id)) == solve(legs),
{
    lemma_solve_twice(legs);
}

/// A leg that gives neither voltage nor resistance leaves the chain without
/// a current.
pub proof fn lemma_gap_breaks_chain(legs: Seq<LegView>, i: int)
    requires
        0 <= i < legs.len(),
        legs[i].resistance_entered is Err,
        legs[i].voltage_entered is Err,
    ensures
        chain_current(legs) is None,
{
    lemma_gap_is_remembered(legs, i);
}

/// The first walk remembers a leg that gives neither voltage nor resistance.
proof fn lemma_gap_is_remembered(legs: Seq<LegView>, i: int)
    requires
        0 <= i < legs.len(),
        legs[i].resistance_entered is Err,
        legs[i].voltage_entered is Err,
    ensures
        gather(legs).broken,
    decreases legs.len(),
{
    if i > 0 {
        assert(legs.drop_first()[i - 1] == legs[i]);
        lemma_gap_is_remembered(legs.drop_first(), i - 1);
    }
}

/// One current runs through the whole chain: where the chain has a current,
/// every leg carries it, has a voltage and a resistance, and its power is
/// its voltage times the current; where the chain has none, no leg shows a
/// current or a power.
pub proof fn lemma_one_current(legs: Seq<LegView>, i: int)
    requires
        0 <= i < legs.len(),
    ensures
        match chain_current(legs) {
            Some(current) => {
                &&& solve(legs)[i].current == Ok::<Quantity, ErrorView>(current)
                &&& solve(legs)[i].voltage is Ok
                &&& solve(legs)[i].resistance is Ok
                &&& solve(legs)[i].power == Ok::<Quantity, ErrorView>(
                    product(solve(legs)[i].voltage->Ok_0, current),
                )
            },
            None => {
                &&& solve(legs)[i].current == Err::<Quantity, ErrorView>(ErrorView::EmptyInput)
                &&& solve(legs)[i].power == Err::<Quantity, ErrorView>(ErrorView::EmptyInput)
                &&& solve(legs)[i].voltage == legs[i].voltage_entered
                &&& solve(legs)[i].resistance == legs[i].resistance_entered
            },
        },
{
    if chain_current(legs) is Some {
        if legs[i].resistance_entered is Err && legs[i].voltage_entered is Err {
            lemma_gap_breaks_chain(legs, i);
        }
    }
}

/// What was entered is shown as entered: solving never replaces a voltage
/// or a resistance that a leg gives.
pub proof fn lemma_entries_are_shown(legs: Seq<LegView>, i: int)
    requires
        0 <= i < legs.len(),
    ensures
        legs[i].voltage_entered is Ok ==> solve(legs)[i].voltage == legs[i].voltage_entered,
        legs[i].resistance_entered is Ok ==> solve(legs)[i].resistance
            == legs[i].resistance_entered,
{
}

/// One leg of the form, as it is to be drawn.
#[derive(Debug, PartialEq)]
pub struct LegForm {
    /// The number of the leg, from 1 at the supply end.
    pub number: usize,
    /// The text in the resistance field.
    pub resistance_text: String,
    /// The text in the voltage field.
    pub voltage_text: String,
    /// The line under the two fields: what the fields lack.
    pub hint: String,
    /// Whether the leg may be taken out.
    pub deletable: bool,
}

/// The mathematical form of a [`LegForm`].
pub struct LegFormView {
    pub number: usize,
    pub resistance_text: Seq<char>,
    pub voltage_text: Seq<char>,
    pub hint: Seq<char>,
    pub deletable: bool,
}

impl View for LegForm {
    type V = LegFormView;

    open spec fn view(&self) -> LegFormView {
        LegFormView {
            number: self.number,
            resistance_text: self.resistance_text@,
            voltage_text: self.voltage_text@,
            hint: self.hint@,
            deletable: self.deletable,
        }
    }
}

/// The table of one leg, with the number of the leg.
#[derive(Debug, PartialEq)]
pub struct LegTable {
    /// The number of the leg, from 1 at the supply end.
    pub number: usize,
    /// The seven lines of the leg.
    pub rows: Vec<Row>,
}

impl LegView {
    /// The line under the fields of the leg.
    pub open spec fn hint(self) -> Seq<char> {
        match (self.resistance_entered, self.voltage_entered) {
            (Err(ErrorView::IncorrectInput(e1)), Err(ErrorView::IncorrectInput(e2))) =>
                "Resistance field error: "@ + e1 + "; Voltage field error: "@ + e2,
            (Err(ErrorView::IncorrectInput(e1)), Ok(_)) => "Resistance field error: "@ + e1,
            (Ok(_), Err(ErrorView::IncorrectInput(e2))) => "Voltage field error: "@ + e2,
            (Err(ErrorView::EmptyInput), Err(ErrorView::EmptyInput)) =>
                "Both resistance and voltage fields are empty."@,
            (Err(ErrorView::EmptyInput), Ok(_)) => "Resistance field is empty."@,
            (Ok(_), Err(ErrorView::EmptyInput)) => "Voltage field is empty."@,
            (Ok(_), Ok(_)) => "All fields are correct."@,
            _ => "Example: 1k 5%"@,
        }
    }

    /// The leg at position `id` of the form. Only legs behind the first two
    /// may be taken out.
    pub open spec fn form(self, id: int) -> LegFormView {
        LegFormView {
            number: (id + 1) as usize,
            resistance_text: self.resistance_raw,
            voltage_text: self.voltage_raw,
            hint: self.hint(),
            deletable: id > 1,
        }
    }

    /// The four quantities that the table shows of the leg.
    pub open spec fn shown(self) -> Shown {
        Shown {
            voltage: self.voltage,
            current: self.current,
            resistance: self.resistance,
            power: self.power,
        }
    }
}

/// What the first walk has gathered so far.
struct Chain {
    top: Option<Voltage>,
    bottom: Option<Voltage>,
    sum: Option<Resistance>,
    broken: bool,
}

impl View for Chain {
    type V = Gathered;

    closed spec fn view(&self) -> Gathered {
        Gathered {
            top: match self.top {
                Some(v) => Some(v@),
                None => None,
            },
            bottom: match self.bottom {
                Some(v) => Some(v@),
                None => None,
            },
            sum: match self.sum {
                Some(r) => Some(r@),
                None => None,
            },
            broken: self.broken,
        }
    }
}

impl Chain {
    /// Adds a resistance in front of the sum.
    fn add_resistance(&mut self, r: &Resistance)
        ensures
            final(self)@ == old(self)@.add_resistance(r@),
    {
        let sum = match &self.sum {
            Some(rr) => r.add(rr),
            None => r.clone(),
        };
        self.sum = Some(sum);
    }

    /// Takes in one more leg.
    fn absorb(&mut self, leg: &Leg)
        ensures
            final(self)@ == old(self)@.absorb(leg@),
    {
        match (&leg.resistance_entered, &leg.voltage_entered) {
            (Err(_), Err(_)) => {
                self.top = None;
                self.bottom = None;
                self.sum = None;
                self.broken = true;
            },
            (Ok(r), Ok(v)) => {
                self.bottom = Some(v.clone());
                self.add_resistance(r);
            },
            (Err(_), Ok(v)) => {
                self.top = Some(v.clone());
            },
            (Ok(r), Err(_)) => {
                if self.bottom.is_none() {
                    self.add_resistance(r);
                }
            },
        }
    }

    /// The current through the chain, where what was gathered settles it.
    fn current(self) -> (res: Option<Current>)
        ensures
            match res {
                Some(c) => self@.current() == Some(c@),
                None => self@.current() is None,
            },
    {
        let top = match self.top {
            Some(v) => v,
            None => Voltage::default(),
        };
        match (self.bottom, self.sum) {
            (Some(bottom), Some(sum)) => {
                if self.broken {
                    None
                } else {
                    Some(bottom.sub(&top).div_resistance(&sum))
                }
            },
            _ => None,
        }
    }
}

impl Leg {
    /// Shows what was entered, and neither current nor power.
    fn set_unsolved(&mut self)
        ensures
            final(self)@ == old(self)@.unsolved(),
    {
        self.voltage = clone_voltage(&self.voltage_entered);
        self.resistance = clone_resistance(&self.resistance_entered);
        self.current = Err(ParserError::EmptyInput);
        self.power = Err(ParserError::EmptyInput);
    }

    /// Fills in the leg from the chain current and the voltage at the node
    /// below it, and returns the voltage at its own node.
    fn set_solved(&mut self, current: &Current, below: Voltage) -> (above: Voltage)
        ensures
            final(self)@ == old(self)@.solved(current@, below@),
            above@ == match old(self)@.node_voltage(current@, below@) {
                Some(v) => v,
                None => below@,
            },
    {
        let voltage = match (&self.voltage_entered, &self.resistance_entered) {
            (Ok(v), _) => v.clone(),
            (Err(_), Ok(r)) => current.mul_resistance(r).add(&below),
            (Err(_), Err(_)) => {
                self.set_unsolved();
                return below;
            },
        };
        let resistance = match &self.resistance_entered {
            Ok(r) => r.clone(),
            Err(_) => voltage.sub(&below).div_current(current),
        };
        self.power = Ok(voltage.mul_current(current));
        self.current = Ok(current.clone());
        self.resistance = Ok(resistance);
        self.voltage = Ok(voltage.clone());
        voltage
    }

    /// The line under the fields of the leg.
    pub fn hint(&self) -> (res: String)
        ensures
            res@ == self@.hint(),
    {
        match (&self.resistance_entered, &self.voltage_entered) {
            (Err(ParserError::IncorrectInput(e1)), Err(ParserError::IncorrectInput(e2))) => {
                "Resistance field error: ".to_owned().concat(e1.as_str()).concat(
                    "; Voltage field error: ",
                ).concat(e2.as_str())
            },
            (Err(ParserError::IncorrectInput(e1)), Ok(_)) => {
                "Resistance field error: ".to_owned().concat(e1.as_str())
            },
            (Ok(_), Err(ParserError::IncorrectInput(e2))) => {
                "Voltage field error: ".to_owned().concat(e2.as_str())
            },
            (Err(ParserError::EmptyInput), Err(ParserError::EmptyInput)) => {
                "Both resistance and voltage fields are empty.".to_owned()
            },
            (Err(ParserError::EmptyInput), Ok(_)) => "Resistance field is empty.".to_owned(),
            (Ok(_), Err(ParserError::EmptyInput)) => "Voltage field is empty.".to_owned(),
            (Ok(_), Ok(_)) => "All fields are correct.".to_owned(),
            _ => "Example: 1k 5%".to_owned(),
        }
    }
}

impl Default for VoltageDivider {
    /// Two legs, both empty.
    fn default() -> (res: Self)
        ensures
            res@ == seq![LegView::empty(), LegView::empty()],
    {
        let mut legs: Vec<Leg> = Vec::new();
        legs.push(Leg::default());
        legs.push(Leg::default());
        let res = Self { legs };
        assert(res@ =~= seq![LegView::empty(), LegView::empty()]);
        res
    }
}

impl VoltageDivider {
    /// The name of the scene.
    pub fn title(&self) -> (res: String)
        ensures
            res@ == "Voltage Divider"@,
    {
        "Voltage Divider".to_owned()
    }

    /// Takes an edit of the chain and solves the chain anew.
    pub fn update(&mut self, message: Message)
        ensures
            final(self)@ == step(old(self)@, message@),
            old(self)@.len() >= 2 ==> final(self)@.len() >= 2,
    {
        self.apply(message);
        self.solve();
    }

    /// Applies an edit to the legs.
    pub fn apply(&mut self, message: Message)
        ensures
            final(self)@ == edit(old(self)@, message@),
    {
        match message {
            Message::InputResistanceChanged(id, s) => {
                if id < self.legs.len() {
                    self.legs[id].resistance_entered = Resistance::from_str(s.as_str());
                    self.legs[id].resistance_raw = s;
                }
            },
            Message::InputVoltageChanged(id, s) => {
                if id < self.legs.len() {
                    self.legs[id].voltage_entered = Voltage::from_str(s.as_str());
                    self.legs[id].voltage_raw = s;
                }
            },
            Message::LegAdd => {
                self.legs.push(Leg::default());
            },
            Message::LegDelete(id) => {
                if 2 <= id && id < self.legs.len() {
                    let _leg = self.legs.remove(id);
                }
            },
        }
        assert(self@ =~= edit(old(self)@, message@));
    }

    /// The current through the chain, where the legs settle it.
    pub fn chain_current(&self) -> (res: Option<Current>)
        ensures
            match res {
                Some(c) => chain_current(self@) == Some(c@),
                None => chain_current(self@) is None,
            },
    {
        let mut chain = Chain { top: None, bottom: None, sum: None, broken: false };
        let mut i = self.legs.len();
        assert(self@.skip(i as int) =~= Seq::empty());
        while i > 0
            invariant
                i <= self.legs.len(),
                chain@ == gather(self@.skip(i as int)),
            decreases i,
        {
            i -= 1;
            proof {
                assert(self@.skip(i as int).drop_first() =~= self@.skip(i + 1));
            }
            chain.absorb(&self.legs[i]);
        }
        assert(self@.skip(0) =~= self@);
        chain.current()
    }

    /// Solves the chain: finds the chain current and fills in every leg.
    pub fn solve(&mut self)
        ensures
            final(self)@ == solve(old(self)@),
    {
        let ghost before = self@;
        let len = self.legs.len();
        match self.chain_current() {
            Some(current) => {
                let mut pre_voltage = Voltage::default();
                let mut i = len;
                assert(before.skip(i as int) =~= Seq::empty());
                while i > 0
                    invariant
                        i <= len == self.legs.len() == before.len(),
                        forall|j: int| 0 <= j < i ==> self@[j] == before[j],
                        forall|j: int|
                            i <= j < len ==> self@[j] == before[j].solved(
                                current@,
                                voltage_above(before.skip(j + 1), current@),
                            ),
                        pre_voltage@ == voltage_above(before.skip(i as int), current@),
                    decreases i,
                {
                    i -= 1;
                    proof {
                        assert(before.skip(i as int).drop_first() =~= before.skip(i + 1));
                    }
                    let ghost legs = self@;
                    pre_voltage = self.legs[i].set_solved(&current, pre_voltage);
                    assert(self@ =~= legs.update(i as int, self.legs@[i as int]@));
                }
                assert(self@ =~= fill(before, current@));
            },
            None => {
                let mut i: usize = 0;
                while i < len
                    invariant
                        i <= len == self.legs.len() == before.len(),
                        forall|j: int| 0 <= j < i ==> self@[j] == before[j].unsolved(),
                        forall|j: int| i <= j < len ==> self@[j] == before[j],
                    decreases len - i,
                {
                    let ghost legs = self@;
                    self.legs[i].set_unsolved();
                    assert(self@ =~= legs.update(i as int, self.legs@[i as int]@));
                    i += 1;
                }
                assert(self@ =~= Seq::new(before.len(), |i: int| before[i].unsolved()));
            },
        }
    }

    /// The form: every leg with its texts, its hint, and whether it may be
    /// taken out.
    pub fn view_form(&self) -> (legs: Vec<LegForm>)
        ensures
            legs@.len() == self@.len(),
            forall|id: int| 0 <= id < legs@.len() ==> legs@[id]@ == self@[id].form(id),
    {
        let mut elements: Vec<LegForm> = Vec::new();
        let mut id: usize = 0;
        while id < self.legs.len()
            invariant
                id <= self.legs.len(),
                elements@.len() == id,
                forall|k: int| 0 <= k < id ==> elements@[k]@ == self@[k].form(k),
            decreases self.legs.len() - id,
        {
            let leg = &self.legs[id];
            elements.push(
                LegForm {
                    number: id + 1,
                    resistance_text: leg.resistance_raw.clone(),
                    voltage_text: leg.voltage_raw.clone(),
                    hint: leg.hint(),
                    deletable: id > 1,
                },
            );
            id += 1;
        }
        elements
    }

    /// The result tables: for every leg its number and its seven lines.
    pub fn view_result(&self) -> (tables: Vec<LegTable>)
        ensures
            tables@.len() == self@.len(),
            forall|id: int|
                0 <= id < tables@.len() ==> tables@[id].number == id + 1 && rows_view(
                    tables@[id].rows@,
                ) == table_of(self@[id].shown()),
    {
        let mut data: Vec<LegTable> = Vec::new();
        let mut id: usize = 0;
        while id < self.legs.len()
            invariant
                id <= self.legs.len(),
                data@.len() == id,
                forall|k: int|
                    0 <= k < id ==> data@[k].number == k + 1 && rows_view(data@[k].rows@)
                        == table_of(self@[k].shown()),
            decreases self.legs.len() - id,
        {
            let leg = &self.legs[id];
            let rows = result_rows(&leg.voltage, &leg.current, &leg.resistance, &leg.power);
            data.push(LegTable { number: id + 1, rows });
            id += 1;
        }
        data
    }
}

/// The help page of the scene: its heading and its body.
pub fn help() -> (res: (String, String))
    ensures
        res.0@ == HELP_TITLE@,
        res.1@ == HELP_TEXT@,
{
    (HELP_TITLE.to_owned(), HELP_TEXT.to_owned())
}

} // verus!
