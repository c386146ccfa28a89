//! The Ohm's-law scene: four fields, of which any two settle the other two.

use crate::expr::{Expr, Term};
use crate::text::{blank, is_blank, lemma_all_space_is_blank};
use crate::types::current::{clone_current, current_view, Current};
use crate::types::power::{clone_power, power_view, Power};
use crate::types::resistance::{clone_resistance, resistance_view, Resistance};
use crate::types::voltage::{clone_voltage, voltage_view, Voltage};
use crate::table::{result_rows, rows_view, table_of, Row, Shown};
use crate::types::{exact, product, quotient, reading_of, ErrorView, ParserError, Quantity};
use core::str::FromStr;
use vstd::prelude::*;
use vstd::string::*;

verus! {

/// The heading of the scene's help page.
pub const HELP_TITLE: &'static str = "Ohm Law\n";

/// The body of the scene's help page, in Markdown.
pub const HELP_TEXT: &'static str = "
The program performs calculations based on Ohm's Law: **U = I × R** and the power formula: **P = U × I**, where:  
- **U** — Voltage (volts, V),  
- **I** — Current (amperes, A),  
- **R** — Resistance (ohms, Ω),  
- **P** — Power (watts, W).

#### How to Use
1. Fill in any **two known fields** out of the four: voltage (**U**), current (**I**), resistance (**R**), or power (**P**).
2. After filling in two fields, the remaining fields will become read-only.
3. The results will be displayed in the table below.

If a parameter cannot be calculated, it will be marked as **N/A**.

#### Data Input Format
##### Value Units
Each input field supports values with units. To specify a unit, append the unit prefix directly to the number:  
- Example: 12m represents 0.012V (millivolts).  

Supported unit prefixes:  
- **p** (pico, 10⁻¹²),  
- **n** (nano, 10⁻⁹),  
- **u** (micro, 10⁻⁶),  
- **m** (milli, 10⁻³),  
- **k** (kilo, 10³),  
- **M** (mega, 10⁶),  
- **G** (giga, 10⁹).

##### Uncertainty (Error Margins)
Input values can include error margins using the following formats:  
- Symmetrical error: 5% (±5% from the value),  
- Asymmetrical positive error: +5%,  
- Asymmetrical negative error: -5%,  
- Symmetrical error: +/-5%.

#### Error Handling in Results
All input uncertainties are considered during calculations. The results will reflect the range of uncertainty based on the provided error margins.
";

/// Which two of the four quantities are given, and so which two are solved
/// for. The letters name voltage, current, resistance and power: the first
/// two are given, the last two are computed.
#[derive(Debug, Clone, Copy, PartialEq, Eq, Structural)]
pub enum CalcType {
    /// Fewer than two fields are filled: nothing is computed.
    Unsolved,
    /// Voltage and current are given.
    VCRP,
    /// Voltage and resistance are given.
    VRCP,
    /// Voltage and power are given.
    VPCR,
    /// Current and resistance are given.
    CRVP,
    /// Current and power are given.
    CPVR,
    /// Resistance and power are given.
    RPVC,
}

/// Which of the four fields accept input.
#[derive(Debug, Clone, Copy, PartialEq, Eq, Structural)]
pub struct FieldsEnable {
    pub voltage: bool,
    pub current: bool,
    pub resistance: bool,
    pub power: bool,
}

impl FieldsEnable {
    /// All four fields accept input.
    pub open spec fn all() -> FieldsEnable {
        FieldsEnable { voltage: true, current: true, resistance: true, power: true }
    }
}

impl Default for FieldsEnable {
    fn default() -> (res: Self)
        ensures
            res == FieldsEnable::all(),
    {
        Self { voltage: true, current: true, resistance: true, power: true }
    }
}

/// The four quantities, each a value or the reason why there is none.
#[derive(Debug)]
pub struct OhmData {
    pub voltage: Result<Voltage, ParserError>,
    pub current: Result<Current, ParserError>,
    pub resistance: Result<Resistance, ParserError>,
    pub power: Result<Power, ParserError>,
}

/// The mathematical form of an [`OhmData`].
pub struct OhmDataView {
    pub voltage: Result<Quantity, ErrorView>,
    pub current: Result<Quantity, ErrorView>,
    pub resistance: Result<Quantity, ErrorView>,
    pub power: Result<Quantity, ErrorView>,
}

impl OhmDataView {
    /// No quantity is there, none is wrong.
    pub open spec fn empty() -> OhmDataView {
        OhmDataView {
            voltage: Err(ErrorView::EmptyInput),
            current: Err(ErrorView::EmptyInput),
            resistance: Err(ErrorView::EmptyInput),
            power: Err(ErrorView::EmptyInput),
        }
    }
}

impl View for OhmData {
    type V = OhmDataView;

    open spec fn view(&self) -> OhmDataView {
        OhmDataView {
            voltage: voltage_view(self.voltage),
            current: current_view(self.current),
            resistance: resistance_view(self.resistance),
            power: power_view(self.power),
        }
    }
}

impl Default for OhmData {
    fn default() -> (res: Self)
        ensures
            res@ == OhmDataView::empty(),
    {
        Self {
            voltage: Err(ParserError::EmptyInput),
            current: Err(ParserError::EmptyInput),
            resistance: Err(ParserError::EmptyInput),
            power: Err(ParserError::EmptyInput),
        }
    }
}

impl Clone for OhmData {
    fn clone(&self) -> (res: Self)
        ensures
            res@ == self@,
    {
        Self {
            voltage: clone_voltage(&self.voltage),
            current: clone_current(&self.current),
            resistance: clone_resistance(&self.resistance),
            power: clone_power(&self.power),
        }
    }
}

/// The text of the four fields, as typed.
#[derive(Debug)]
pub struct OhmDataRaw {
    pub voltage: String,
    pub current: String,
    pub resistance: String,
    pub power: String,
}

/// The mathematical form of an [`OhmDataRaw`].
pub struct OhmRawView {
    pub voltage: Seq<char>,
    pub current: Seq<char>,
    pub resistance: Seq<char>,
    pub power: Seq<char>,
}

impl OhmRawView {
    /// Four fields without text.
    pub open spec fn empty() -> OhmRawView {
        OhmRawView {
            voltage: Seq::empty(),
            current: Seq::empty(),
            resistance: Seq::empty(),
            power: Seq::empty(),
        }
    }
}

impl View for OhmDataRaw {
    type V = OhmRawView;

    open spec fn view(&self) -> OhmRawView {
        OhmRawView {
            voltage: self.voltage@,
            current: self.current@,
            resistance: self.resistance@,
            power: self.power@,
        }
    }
}

impl Default for OhmDataRaw {
    fn default() -> (res: Self)
        ensures
            res@ == OhmRawView::empty(),
    {
        Self {
            voltage: String::new(),
            current: String::new(),
            resistance: String::new(),
            power: String::new(),
        }
    }
}

impl Clone for OhmDataRaw {
    fn clone(&self) -> (res: Self)
        ensures
            res@ == self@,
    {
        Self {
            voltage: self.voltage.clone(),
            current: self.current.clone(),
            resistance: self.resistance.clone(),
            power: self.power.clone(),
        }
    }
}

/// An edit of one of the four fields, with the field's new text.
#[derive(Debug)]
pub enum Message {
    InputVoltageChanged(String),
    InputCurrentChanged(String),
    InputResistanceChanged(String),
    InputPowerChanged(String),
}

impl Clone for Message {
    fn clone(&self) -> (res: Self)
        ensures
            res@ == self@,
    {
        match self {
            Message::InputVoltageChanged(s) => Message::InputVoltageChanged(s.clone()),
            Message::InputCurrentChanged(s) => Message::InputCurrentChanged(s.clone()),
            Message::InputResistanceChanged(s) => Message::InputResistanceChanged(s.clone()),
            Message::InputPowerChanged(s) => Message::InputPowerChanged(s.clone()),
        }
    }
}

/// The mathematical form of a [`Message`].
pub enum MessageView {
    InputVoltageChanged(Seq<char>),
    InputCurrentChanged(Seq<char>),
    InputResistanceChanged(Seq<char>),
    InputPowerChanged(Seq<char>),
}

impl View for Message {
    type V = MessageView;

    open spec fn view(&self) -> MessageView {
        match self {
            Message::InputVoltageChanged(s) => MessageView::InputVoltageChanged(s@),
            Message::InputCurrentChanged(s) => MessageView::InputCurrentChanged(s@),
            Message::InputResistanceChanged(s) => MessageView::InputResistanceChanged(s@),
            Message::InputPowerChanged(s) => MessageView::InputPowerChanged(s@),
        }
    }
}

/// The state of the scene.
#[derive(Debug)]
pub struct OhmLaw {
    /// Which fields accept input.
    pub fields_enable: FieldsEnable,
    /// The text of the fields.
    pub data_raw: OhmDataRaw,
    /// What the text of each field reads as.
    pub entered: OhmData,
    /// The four quantities as they are shown: the two that are given and the
    /// two that follow from them.
    pub data: OhmData,
    /// Which two quantities are given.
    pub calc_type: CalcType,
}

/// The mathematical form of an [`OhmLaw`].
pub struct OhmLawView {
    pub fields_enable: FieldsEnable,
    pub data_raw: OhmRawView,
    pub entered: OhmDataView,
    pub data: OhmDataView,
    pub calc_type: CalcType,
}

impl View for OhmLaw {
    type V = OhmLawView;

    open spec fn view(&self) -> OhmLawView {
        OhmLawView {
            fields_enable: self.fields_enable,
            data_raw: self.data_raw@,
            entered: self.entered@,
            data: self.data@,
            calc_type: self.calc_type,
        }
    }
}

/// Whether a field counts as filled: it holds text, and the text reads as a
/// quantity.
pub open spec fn filled(raw: Seq<char>, entered: Result<Quantity, ErrorView>) -> bool {
    !blank(raw) && entered is Ok
}

/// The pair of given quantities, by which fields are filled. With more than
/// two filled, voltage goes before current, current before resistance, and
/// resistance before power.
pub open spec fn classify(voltage: bool, current: bool, resistance: bool, power: bool) -> CalcType {
    if voltage && current {
        CalcType::VCRP
    } else if voltage && resistance {
        CalcType::VRCP
    } else if voltage && power {
        CalcType::VPCR
    } else if current && resistance {
        CalcType::CRVP
    } else if current && power {
        CalcType::CPVR
    } else if resistance && power {
        CalcType::RPVC
    } else {
        CalcType::Unsolved
    }
}

impl CalcType {
    /// Whether the voltage is solved for.
    pub open spec fn solves_voltage(self) -> bool {
        self == CalcType::CRVP || self == CalcType::CPVR || self == CalcType::RPVC
    }

    /// Whether the current is solved for.
    pub open spec fn solves_current(self) -> bool {
        self == CalcType::VRCP || self == CalcType::VPCR || self == CalcType::RPVC
    }

    /// Whether the resistance is solved for.
    pub open spec fn solves_resistance(self) -> bool {
        self == CalcType::VCRP || self == CalcType::VPCR || self == CalcType::CPVR
    }

    /// Whether the power is solved for.
    pub open spec fn solves_power(self) -> bool {
        self == CalcType::VCRP || self == CalcType::VRCP || self == CalcType::CRVP
    }
}

impl OhmLawView {
    /// The state after the text of one field was replaced and read.
    pub open spec fn edited(self, message: MessageView) -> OhmLawView {
        match message {
            MessageView::InputVoltageChanged(s) => OhmLawView {
                data_raw: OhmRawView { voltage: s, ..self.data_raw },
                entered: OhmDataView { voltage: reading_of(s), ..self.entered },
                ..self
            },
            MessageView::InputCurrentChanged(s) => OhmLawView {
                data_raw: OhmRawView { current: s, ..self.data_raw },
                entered: OhmDataView { current: reading_of(s), ..self.entered },
                ..self
            },
            MessageView::InputResistanceChanged(s) => OhmLawView {
                data_raw: OhmRawView { resistance: s, ..self.data_raw },
                entered: OhmDataView { resistance: reading_of(s), ..self.entered },
                ..self
            },
            MessageView::InputPowerChanged(s) => OhmLawView {
                data_raw: OhmRawView { power: s, ..self.data_raw },
                entered: OhmDataView { power: reading_of(s), ..self.entered },
                ..self
            },
        }
    }

    /// The pair of given quantities that this state's fields call for.
    pub open spec fn pair(self) -> CalcType {
        classify(
            filled(self.data_raw.voltage, self.entered.voltage),
            filled(self.data_raw.current, self.entered.current),
            filled(self.data_raw.resistance, self.entered.resistance),
            filled(self.data_raw.power, self.entered.power),
        )
    }

    /// The state with its pair of given quantities set by its fields.
    pub open spec fn classified(self) -> OhmLawView {
        OhmLawView { calc_type: self.pair(), ..self }
    }

    /// The state with the two fields that are solved for locked and cleared.
    /// Without a pair, all four fields accept input and keep their text.
    pub open spec fn locked(self) -> OhmLawView {
        let c = self.calc_type;
        if c == CalcType::Unsolved {
            OhmLawView { fields_enable: FieldsEnable::all(), ..self }
        } else {
            OhmLawView {
                fields_enable: FieldsEnable {
                    voltage: self.fields_enable.voltage && !c.solves_voltage(),
                    current: self.fields_enable.current && !c.solves_current(),
                    resistance: self.fields_enable.resistance && !c.solves_resistance(),
                    power: self.fields_enable.power && !c.solves_power(),
                },
                data_raw: OhmRawView {
                    voltage: if c.solves_voltage() {
                        Seq::empty()
                    } else {
                        self.data_raw.voltage
                    },
                    current: if c.solves_current() {
                        Seq::empty()
                    } else {
                        self.data_raw.current
                    },
                    resistance: if c.solves_resistance() {
                        Seq::empty()
                    } else {
                        self.data_raw.resistance
                    },
                    power: if c.solves_power() {
                        Seq::empty()
                    } else {
                        self.data_raw.power
                    },
                },
                entered: OhmDataView {
                    voltage: if c.solves_voltage() {
                        Err(ErrorView::EmptyInput)
                    } else {
                        self.entered.voltage
                    },
                    current: if c.solves_current() {
                        Err(ErrorView::EmptyInput)
                    } else {
                        self.entered.current
                    },
                    resistance: if c.solves_resistance() {
                        Err(ErrorView::EmptyInput)
                    } else {
                        self.entered.resistance
                    },
                    power: if c.solves_power() {
                        Err(ErrorView::EmptyInput)
                    } else {
                        self.entered.power
                    },
                },
                ..self
            }
        }
    }

    /// The state with the quantities that are shown brought up to date.
    pub open spec fn calculated(self) -> OhmLawView {
        OhmLawView { data: solved(self.calc_type, self.entered, self.data), ..self }
    }

    /// The state after an edit: the field is read, the pair is set, the
    /// solved fields are locked, and the quantities are computed.
    pub open spec fn step(self, message: MessageView) -> OhmLawView {
        self.edited(message).classified().locked().calculated()
    }
}

/// The four quantities for a pair of given ones:
///
/// - voltage and current: `R = V / I`, `P = V × I`;
/// - voltage and resistance: `I = V / R`, `P = V × I`;
/// - voltage and power: `I = P / V`, `R = V / I`;
/// - current and resistance: `V = I × R`, `P = V × I`;
/// - current and power: `V = P / I`, `R = V / I`;
/// - resistance and power: `V = √(P × R)`, `I = √(P / R)`, both exact.
///
/// Without a pair none of the four is there. With a pair of which one is
/// missing, the four stay as they were (`before`).
pub open spec fn solved(calc: CalcType, entered: OhmDataView, before: OhmDataView) -> OhmDataView {
    match calc {
        CalcType::Unsolved => OhmDataView::empty(),
        CalcType::VCRP => match (entered.voltage, entered.current) {
            (Ok(v), Ok(i)) => OhmDataView {
                voltage: Ok(v),
                current: Ok(i),
                resistance: Ok(quotient(v, i)),
                power: Ok(product(v, i)),
            },
            _ => before,
        },
        CalcType::VRCP => match (entered.voltage, entered.resistance) {
            (Ok(v), Ok(r)) => OhmDataView {
                voltage: Ok(v),
                current: Ok(quotient(v, r)),
                resistance: Ok(r),
                power: Ok(product(v, quotient(v, r))),
            },
            _ => before,
        },
        CalcType::VPCR => match (entered.voltage, entered.power) {
            (Ok(v), Ok(p)) => OhmDataView {
                voltage: Ok(v),
                current: Ok(quotient(p, v)),
                resistance: Ok(quotient(v, quotient(p, v))),
                power: Ok(p),
            },
            _ => before,
        },
        CalcType::CRVP => match (entered.resistance, entered.current) {
            (Ok(r), Ok(i)) => OhmDataView {
                voltage: Ok(product(i, r)),
                current: Ok(i),
                resistance: Ok(r),
                power: Ok(product(product(i, r), i)),
            },
            _ => before,
        },
        CalcType::CPVR => match (entered.power, entered.current) {
            (Ok(p), Ok(i)) => OhmDataView {
                voltage: Ok(quotient(p, i)),
                current: Ok(i),
                resistance: Ok(quotient(quotient(p, i), i)),
                power: Ok(p),
            },
            _ => before,
        },
        CalcType::RPVC => match (entered.power, entered.resistance) {
            (Ok(p), Ok(r)) => OhmDataView {
                voltage: Ok(exact(Term::sqrt(Term::prod(p.value, r.value)))),
                current: Ok(exact(Term::sqrt(Term::quot(p.value, r.value)))),
                resistance: Ok(r),
                power: Ok(p),
            },
            _ => before,
        },
    }
}

/// How many of four fields are filled.
pub open spec fn count_filled(voltage: bool, current: bool, resistance: bool, power: bool) -> nat {
    (if voltage {
        1nat
    } else {
        0nat
    }) + (if current {
        1nat
    } else {
        0nat
    }) + (if resistance {
        1nat
    } else {
        0nat
    }) + (if power {
        1nat
    } else {
        0nat
    })
}

/// There is a pair of given quantities exactly where two fields or more are
/// filled, and both quantities of the pair are among the filled ones.
pub proof fn lemma_pair_of_filled(voltage: bool, current: bool, resistance: bool, power: bool)
    ensures
        classify(voltage, current, resistance, power) == CalcType::Unsolved <==> count_filled(
            voltage,
            current,
            resistance,
            power,
        ) < 2,
        ({
            let c = classify(voltage, current, resistance, power);
            c != CalcType::Unsolved ==> (voltage || c.solves_voltage()) && (current
                || c.solves_current()) && (resistance || c.solves_resistance()) && (power
                || c.solves_power())
        }),
{
}

/// Each pair solves for exactly two of the four quantities; without a pair
/// none is solved for.
pub proof fn lemma_two_are_solved_for(c: CalcType)
    ensures
        count_filled(
            c.solves_voltage(),
            c.solves_current(),
            c.solves_resistance(),
            c.solves_power(),
        ) == if c == CalcType::Unsolved {
            0nat
        } else {
            2nat
        },
{
}

/// Without a pair of given quantities none of the four is shown.
pub proof fn lemma_no_pair_no_output(state: OhmLawView, message: MessageView)
    requires
        state.edited(message).pair() == CalcType::Unsolved,
    ensures
        state.step(message).data == OhmDataView::empty(),
        state.step(message).fields_enable == FieldsEnable::all(),
        state.step(message).data_raw == state.edited(message).data_raw,
{
}

impl OhmLawView {
    /// Whether the state hangs together: each field reads as its text says;
    /// the pair is the one that the fields call for; exactly the fields that
    /// are solved for are locked, and they are empty; and what is shown is
    /// what the pair and the fields give.
    pub open spec fn wf(self) -> bool {
        &&& self.entered.voltage == reading_of(self.data_raw.voltage)
        &&& self.entered.current == reading_of(self.data_raw.current)
        &&& self.entered.resistance == reading_of(self.data_raw.resistance)
        &&& self.entered.power == reading_of(self.data_raw.power)
        &&& self.calc_type == self.pair()
        &&& self.fields_enable.voltage == !self.calc_type.solves_voltage()
        &&& self.fields_enable.current == !self.calc_type.solves_current()
        &&& self.fields_enable.resistance == !self.calc_type.solves_resistance()
        &&& self.fields_enable.power == !self.calc_type.solves_power()
        &&& self.calc_type.solves_voltage() ==> self.data_raw.voltage.len() == 0
        &&& self.calc_type.solves_current() ==> self.data_raw.current.len() == 0
        &&& self.calc_type.solves_resistance() ==> self.data_raw.resistance.len() == 0
        &&& self.calc_type.solves_power() ==> self.data_raw.power.len() == 0
        &&& self.data == solved(self.calc_type, self.entered, OhmDataView::empty())
    }
}

/// A field without text reads as empty input.
proof fn lemma_empty_reads_empty()
    ensures
        reading_of(Seq::<char>::empty()) == Err::<Quantity, ErrorView>(ErrorView::EmptyInput),
        blank(Seq::<char>::empty()),
{
    lemma_all_space_is_blank(Seq::<char>::empty());
}

/// The first state hangs together.
pub proof fn lemma_fresh_state_wf(state: OhmLawView)
    requires
        state == (OhmLawView {
            fields_enable: FieldsEnable::all(),
            data_raw: OhmRawView::empty(),
            entered: OhmDataView::empty(),
            data: OhmDataView::empty(),
            calc_type: CalcType::Unsolved,
        }),
    ensures
        state.wf(),
{
    lemma_empty_reads_empty();
}

impl OhmLawView {
    /// Whether the field that a message edits accepts input.
    pub open spec fn accepts(self, message: MessageView) -> bool {
        match message {
            MessageView::InputVoltageChanged(_) => self.fields_enable.voltage,
            MessageView::InputCurrentChanged(_) => self.fields_enable.current,
            MessageView::InputResistanceChanged(_) => self.fields_enable.resistance,
            MessageView::InputPowerChanged(_) => self.fields_enable.power,
        }
    }
}

/// Every edit of a field that accepts input takes a state that hangs
/// together to one that does. So at any time the fields that are locked are
/// the two that are solved for, they are empty, and at most two fields are
/// filled.
pub proof fn lemma_step_keeps_wf(state: OhmLawView, message: MessageView)
    requires
        state.wf(),
        state.accepts(message),
    ensures
        state.step(message).wf(),
{
    lemma_empty_reads_empty();
    let edited = state.edited(message);
    let c = edited.pair();
    let next = state.step(message);
    // A field that is solved for is empty, so it is not filled.
    if state.calc_type.solves_voltage() {
        assert(state.data_raw.voltage =~= Seq::<char>::empty());
    }
    if state.calc_type.solves_current() {
        assert(state.data_raw.current =~= Seq::<char>::empty());
    }
    if state.calc_type.solves_resistance() {
        assert(state.data_raw.resistance =~= Seq::<char>::empty());
    }
    if state.calc_type.solves_power() {
        assert(state.data_raw.power =~= Seq::<char>::empty());
    }
    // From a pair, one edit leads to the same pair or to none, so the locks
    // that were set before are the ones that are set now.
    assert(state.calc_type != CalcType::Unsolved ==> c == state.calc_type || c
        == CalcType::Unsolved);
    assert(next.calc_type == c);
    assert(next.pair() == c);
}

/// At most two fields are filled in a state that hangs together, and with a
/// pair exactly two fields accept input.
pub proof fn lemma_at_most_two_filled(state: OhmLawView)
    requires
        state.wf(),
    ensures
        count_filled(
            filled(state.data_raw.voltage, state.entered.voltage),
            filled(state.data_raw.current, state.entered.current),
            filled(state.data_raw.resistance, state.entered.resistance),
            filled(state.data_raw.power, state.entered.power),
        ) <= 2,
        state.calc_type != CalcType::Unsolved ==> count_filled(
            state.fields_enable.voltage,
            state.fields_enable.current,
            state.fields_enable.resistance,
            state.fields_enable.power,
        ) == 2,
{
    lemma_empty_reads_empty();
    if state.calc_type.solves_voltage() {
        assert(state.data_raw.voltage =~= Seq::<char>::empty());
    }
    if state.calc_type.solves_current() {
        assert(state.data_raw.current =~= Seq::<char>::empty());
    }
    if state.calc_type.solves_resistance() {
        assert(state.data_raw.resistance =~= Seq::<char>::empty());
    }
    if state.calc_type.solves_power() {
        assert(state.data_raw.power =~= Seq::<char>::empty());
    }
}

/// One field of the form, as it is to be drawn.
#[derive(Debug, PartialEq)]
pub struct Field {
    /// The name of the quantity.
    pub label: &'static str,
    /// The text in the field.
    pub text: String,
    /// The line under the field: what is wrong with the text, or an example.
    pub hint: String,
    /// Whether the field accepts input.
    pub enabled: bool,
}

/// The mathematical form of a [`Field`].
pub struct FieldView {
    pub label: Seq<char>,
    pub text: Seq<char>,
    pub hint: Seq<char>,
    pub enabled: bool,
}

impl View for Field {
    type V = FieldView;

    open spec fn view(&self) -> FieldView {
        FieldView { label: self.label@, text: self.text@, hint: self.hint@, enabled: self.enabled }
    }
}

/// The line under a field: the text that was not read, where the field is
/// incorrect; an example otherwise.
pub open spec fn hint_of(entered: Result<Quantity, ErrorView>, example: Seq<char>) -> Seq<char> {
    match entered {
        Err(ErrorView::IncorrectInput(rest)) => rest,
        _ => example,
    }
}

impl OhmLawView {
    /// The four fields of the form: voltage, current, resistance, power.
    pub open spec fn form(self) -> Seq<FieldView> {
        seq![
            FieldView {
                label: "Voltage"@,
                text: self.data_raw.voltage,
                hint: hint_of(self.entered.voltage, "Example: 10.5 +3% -7.6%"@),
                enabled: self.fields_enable.voltage,
            },
            FieldView {
                label: "Current"@,
                text: self.data_raw.current,
                hint: hint_of(self.entered.current, "Example: 100m +1% -1%"@),
                enabled: self.fields_enable.current,
            },
            FieldView {
                label: "Resistance"@,
                text: self.data_raw.resistance,
                hint: hint_of(self.entered.resistance, "Example: 10k 5%"@),
                enabled: self.fields_enable.resistance,
            },
            FieldView {
                label: "Power"@,
                text: self.data_raw.power,
                hint: hint_of(self.entered.power, "Example: 1k 5%"@),
                enabled: self.fields_enable.power,
            },
        ]
    }

    /// The four quantities that the table shows.
    pub open spec fn shown(self) -> Shown {
        Shown {
            voltage: self.data.voltage,
            current: self.data.current,
            resistance: self.data.resistance,
            power: self.data.power,
        }
    }
}

/// The text that was not read, where there is one; the example otherwise.
fn hint_text(error: Option<&ParserError>, example: &str) -> (res: String)
    ensures
        res@ == match error {
            Some(ParserError::IncorrectInput(rest)) => rest@,
            _ => example@,
        },
{
    match error {
        Some(ParserError::IncorrectInput(rest)) => rest.clone(),
        _ => example.to_owned(),
    }
}

impl Default for OhmLaw {
    /// Four empty fields, all of which accept input.
    fn default() -> (res: Self)
        ensures
            res@ == (OhmLawView {
                fields_enable: FieldsEnable::all(),
                data_raw: OhmRawView::empty(),
                entered: OhmDataView::empty(),
                data: OhmDataView::empty(),
                calc_type: CalcType::Unsolved,
            }),
            res@.wf(),
    {
        proof {
            lemma_empty_reads_empty();
        }
        OhmLaw {
            fields_enable: FieldsEnable::default(),
            data_raw: OhmDataRaw::default(),
            entered: OhmData::default(),
            data: OhmData::default(),
            calc_type: CalcType::Unsolved,
        }
    }
}

impl OhmLaw {
    /// The name of the scene.
    pub fn title(&self) -> (res: String)
        ensures
            res@ == "Ohm Law"@,
    {
        "Ohm Law".to_owned()
    }

    /// Takes an edit of one field: reads the field, decides which two
    /// quantities are given, locks and clears the two that are solved for,
    /// and computes them.
    pub fn update(&mut self, message: Message)
        ensures
            final(self)@ == old(self)@.step(message@),
            old(self)@.wf() && old(self)@.accepts(message@) ==> final(self)@.wf(),
    {
        proof {
            if old(self)@.wf() && old(self)@.accepts(message@) {
                lemma_step_keeps_wf(old(self)@, message@);
            }
        }
        match message {
            Message::InputVoltageChanged(s) => {
                self.entered.voltage = Voltage::from_str(s.as_str());
                self.data_raw.voltage = s;
            },
            Message::InputCurrentChanged(s) => {
                self.entered.current = Current::from_str(s.as_str());
                self.data_raw.current = s;
            },
            Message::InputResistanceChanged(s) => {
                self.entered.resistance = Resistance::from_str(s.as_str());
                self.data_raw.resistance = s;
            },
            Message::InputPowerChanged(s) => {
                self.entered.power = Power::from_str(s.as_str());
                self.data_raw.power = s;
            },
        }
        self.determine_calctype();
        self.update_field_accessibility();
        self.calculating();
    }

    /// Decides which two quantities are given, by which fields are filled.
    pub fn determine_calctype(&mut self)
        ensures
            final(self)@ == old(self)@.classified(),
    {
        let voltage_filled = !is_blank(self.data_raw.voltage.as_str())
            && self.entered.voltage.is_ok();
        let current_filled = !is_blank(self.data_raw.current.as_str())
            && self.entered.current.is_ok();
        let resistance_filled = !is_blank(self.data_raw.resistance.as_str())
            && self.entered.resistance.is_ok();
        let power_filled = !is_blank(self.data_raw.power.as_str()) && self.entered.power.is_ok();
        self.calc_type = match (voltage_filled, current_filled, resistance_filled, power_filled) {
            (true, true, _, _) => CalcType::VCRP,
            (true, _, true, _) => CalcType::VRCP,
            (true, _, _, true) => CalcType::VPCR,
            (_, true, true, _) => CalcType::CRVP,
            (_, true, _, true) => CalcType::CPVR,
            (_, _, true, true) => CalcType::RPVC,
            _ => CalcType::Unsolved,
        };
    }

    /// Locks and clears the two fields that are solved for; without a pair,
    /// lets all four accept input.
    pub fn update_field_accessibility(&mut self)
        ensures
            final(self)@ == old(self)@.locked(),
    {
        match self.calc_type {
            CalcType::VCRP => {
                self.fields_enable.resistance = false;
                self.fields_enable.power = false;
                self.clear_resistance();
                self.clear_power();
            },
            CalcType::VRCP => {
                self.fields_enable.current = false;
                self.fields_enable.power = false;
                self.clear_current();
                self.clear_power();
            },
            CalcType::VPCR => {
                self.fields_enable.current = false;
                self.fields_enable.resistance = false;
                self.clear_current();
                self.clear_resistance();
            },
            CalcType::CRVP => {
                self.fields_enable.voltage = false;
                self.fields_enable.power = false;
                self.clear_voltage();
                self.clear_power();
            },
            CalcType::CPVR => {
                self.fields_enable.voltage = false;
                self.fields_enable.resistance = false;
                self.clear_resistance();
                self.clear_voltage();
            },
            CalcType::RPVC => {
                self.fields_enable.voltage = false;
                self.fields_enable.current = false;
                self.clear_voltage();
                self.clear_current();
            },
            CalcType::Unsolved => {
                self.fields_enable = FieldsEnable::default();
            },
        }
    }

    fn clear_voltage(&mut self)
        ensures
            final(self)@ == (OhmLawView {
                data_raw: OhmRawView { voltage: Seq::empty(), ..old(self)@.data_raw },
                entered: OhmDataView { voltage: Err(ErrorView::EmptyInput), ..old(self)@.entered },
                ..old(self)@
            }),
    {
        self.data_raw.voltage = String::new();
        self.entered.voltage = Err(ParserError::EmptyInput);
    }

    fn clear_current(&mut self)
        ensures
            final(self)@ == (OhmLawView {
                data_raw: OhmRawView { current: Seq::empty(), ..old(self)@.data_raw },
                entered: OhmDataView { current: Err(ErrorView::EmptyInput), ..old(self)@.entered },
                ..old(self)@
            }),
    {
        self.data_raw.current = String::new();
        self.entered.current = Err(ParserError::EmptyInput);
    }

    fn clear_resistance(&mut self)
        ensures
            final(self)@ == (OhmLawView {
                data_raw: OhmRawView { resistance: Seq::empty(), ..old(self)@.data_raw },
                entered: OhmDataView {
                    resistance: Err(ErrorView::EmptyInput),
                    ..old(self)@.entered
                },
                ..old(self)@
            }),
    {
        self.data_raw.resistance = String::new();
        self.entered.resistance = Err(ParserError::EmptyInput);
    }

    fn clear_power(&mut self)
        ensures
            final(self)@ == (OhmLawView {
                data_raw: OhmRawView { power: Seq::empty(), ..old(self)@.data_raw },
                entered: OhmDataView { power: Err(ErrorView::EmptyInput), ..old(self)@.entered },
                ..old(self)@
            }),
    {
        self.data_raw.power = String::new();
        self.entered.power = Err(ParserError::EmptyInput);
    }

    /// Computes the two quantities that are solved for from the two that
    /// are given, and shows all four. Without a pair none is shown.
    pub fn calculating(&mut self)
        ensures
            final(self)@ == old(self)@.calculated(),
    {
        match self.calc_type {
            CalcType::VCRP => {
                if let (Ok(voltage), Ok(current)) = (&self.entered.voltage, &self.entered.current) {
                    let resistance = voltage.div_current(current);
                    let power = voltage.mul_current(current);
                    self.data = OhmData {
                        voltage: Ok(voltage.clone()),
                        current: Ok(current.clone()),
                        resistance: Ok(resistance),
                        power: Ok(power),
                    };
                }
            },
            CalcType::VRCP => {
                if let (Ok(voltage), Ok(resistance)) = (
                    &self.entered.voltage,
                    &self.entered.resistance,
                ) {
                    let current = voltage.div_resistance(resistance);
                    let power = voltage.mul_current(&current);
                    self.data = OhmData {
                        voltage: Ok(voltage.clone()),
                        current: Ok(current),
                        resistance: Ok(resistance.clone()),
                        power: Ok(power),
                    };
                }
            },
            CalcType::VPCR => {
                if let (Ok(voltage), Ok(power)) = (&self.entered.voltage, &self.entered.power) {
                    let current = power.div_voltage(voltage);
                    let resistance = voltage.div_current(&current);
                    self.data = OhmData {
                        voltage: Ok(voltage.clone()),
                        current: Ok(current),
                        resistance: Ok(resistance),
                        power: Ok(power.clone()),
                    };
                }
            },
            CalcType::CRVP => {
                if let (Ok(resistance), Ok(current)) = (
                    &self.entered.resistance,
                    &self.entered.current,
                ) {
                    let voltage = current.mul_resistance(resistance);
                    let power = voltage.mul_current(current);
                    self.data = OhmData {
                        voltage: Ok(voltage),
                        current: Ok(current.clone()),
                        resistance: Ok(resistance.clone()),
                        power: Ok(power),
                    };
                }
            },
            CalcType::CPVR => {
                if let (Ok(power), Ok(current)) = (&self.entered.power, &self.entered.current) {
                    let voltage = power.mul_current(current);
                    let resistance = voltage.div_current(current);
                    self.data = OhmData {
                        voltage: Ok(voltage),
                        current: Ok(current.clone()),
                        resistance: Ok(resistance),
                        power: Ok(power.clone()),
                    };
                }
            },
            CalcType::RPVC => {
                if let (Ok(power), Ok(resistance)) = (
                    &self.entered.power,
                    &self.entered.resistance,
                ) {
                    let (p, r) = (&power.value, &resistance.value);
                    let voltage = Voltage {
                        value: Expr::sqrt(Expr::prod(p.clone(), r.clone())),
                        tolerance: None,
                    };
                    let current = Current {
                        value: Expr::sqrt(Expr::quot(p.clone(), r.clone())),
                        tolerance: None,
                    };
                    self.data = OhmData {
                        voltage: Ok(voltage),
                        current: Ok(current),
                        resistance: Ok(resistance.clone()),
                        power: Ok(power.clone()),
                    };
                }
            },
            CalcType::Unsolved => {
                self.data = OhmData::default();
            },
        }
    }

    /// The result table: seven lines for each of the four quantities.
    pub fn view_result(&self) -> (rows: Vec<Row>)
        ensures
            rows_view(rows@) == table_of(self@.shown()),
    {
        result_rows(&self.data.voltage, &self.data.current, &self.data.resistance, &self.data.power)
    }

    /// The form: the four fields with their text, hint and lock.
    pub fn view_form(&self) -> (fields: Vec<Field>)
        ensures
            fields@.map_values(|f: Field| f@) == self@.form(),
    {
        let mut fields: Vec<Field> = Vec::new();
        fields.push(
            Field {
                label: "Voltage",
                text: self.data_raw.voltage.clone(),
                hint: hint_text(self.entered.voltage.as_ref().err(), "Example: 10.5 +3% -7.6%"),
                enabled: self.fields_enable.voltage,
            },
        );
        fields.push(
            Field {
                label: "Current",
                text: self.data_raw.current.clone(),
                hint: hint_text(self.entered.current.as_ref().err(), "Example: 100m +1% -1%"),
                enabled: self.fields_enable.current,
            },
        );
        fields.push(
            Field {
                label: "Resistance",
                text: self.data_raw.resistance.clone(),
                hint: hint_text(self.entered.resistance.as_ref().err(), "Example: 10k 5%"),
                enabled: self.fields_enable.resistance,
            },
        );
        fields.push(
            Field {
                label: "Power",
                text: self.data_raw.power.clone(),
                hint: hint_text(self.entered.power.as_ref().err(), "Example: 1k 5%"),
                enabled: self.fields_enable.power,
            },
        );
        assert(fields@.map_values(|f: Field| f@) =~= self@.form());
        fields
    }
}

/// The help page of the scene: its heading and its body.
pub fn help() -> (res: (String, String))
    ensures
        res.0@ == HELP_TITLE@,
        res.1@ == HELP_TEXT@,
{
    (HELP_TITLE.to_owned(), HELP_TEXT.to_owned())
}

} // verus!
