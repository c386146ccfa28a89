//! The shell round the scenes: it shows one scene at a time, switches
//! between them, and hands each message to the scene it is meant for.

use crate::help;
use crate::help::Help;
use crate::ohm_law;
use crate::ohm_law::{OhmLaw, OhmLawView};
use crate::voltage_divider;
use crate::voltage_divider::{LegView, VoltageDivider};
use vstd::prelude::*;
use vstd::string::*;

verus! {

/// The name of the program, as the window title ends.
pub const TITLE_MAIN: &'static str = "Electrical Calculation Wizard";

/// The scene that is shown, with its state.
#[derive(Debug)]
pub enum Scene {
    OhmLawMsg(OhmLaw),
    VoltageDivider(VoltageDivider),
    Help(Help),
}

/// The mathematical form of a [`Scene`].
pub enum SceneView {
    OhmLawMsg(OhmLawView),
    VoltageDivider(Seq<LegView>),
    Help(Seq<char>),
}

impl View for Scene {
    type V = SceneView;

    open spec fn view(&self) -> SceneView {
        match self {
            Scene::OhmLawMsg(s) => SceneView::OhmLawMsg(s@),
            Scene::VoltageDivider(s) => SceneView::VoltageDivider(s@),
            Scene::Help(s) => SceneView::Help(s@),
        }
    }
}

impl Default for Scene {
    /// The Ohm's-law scene in its first state.
    fn default() -> (res: Self)
        ensures
            res@ == SceneView::fresh(SceneType::OhmLaw),
    {
        Scene::OhmLawMsg(OhmLaw::default())
    }
}

/// The name of a scene.
#[derive(Debug, Clone, Copy, PartialEq, Eq, Structural)]
pub enum SceneType {
    OhmLaw,
    VoltageDivider,
    Help,
}

/// What the shell may be told.
#[derive(Debug)]
pub enum Message {
    /// Show another scene, in its first state.
    SwitchScene(SceneType),
    /// A message for the Ohm's-law scene.
    OhmLawMsg(ohm_law::Message),
    /// A message for the voltage-divider scene.
    VoltageDivider(voltage_divider::Message),
    /// A message for the help scene.
    Help(help::Message),
}

impl Clone for Message {
    fn clone(&self) -> (res: Self)
        ensures
            res@ == self@,
    {
        match self {
            Message::SwitchScene(scene_type) => Message::SwitchScene(*scene_type),
            Message::OhmLawMsg(msg) => Message::OhmLawMsg(msg.clone()),
            Message::VoltageDivider(msg) => Message::VoltageDivider(msg.clone()),
            Message::Help(msg) => Message::Help(msg.clone()),
        }
    }
}

/// The mathematical form of a [`Message`].
pub enum MessageView {
    SwitchScene(SceneType),
    OhmLawMsg(ohm_law::MessageView),
    VoltageDivider(voltage_divider::MessageView),
    Help,
}

impl View for Message {
    type V = MessageView;

    open spec fn view(&self) -> MessageView {
        match self {
            Message::SwitchScene(scene_type) => MessageView::SwitchScene(*scene_type),
            Message::OhmLawMsg(msg) => MessageView::OhmLawMsg(msg@),
            Message::VoltageDivider(msg) => MessageView::VoltageDivider(msg@),
            Message::Help(_) => MessageView::Help,
        }
    }
}

impl SceneView {
    /// A scene in its first state.
    pub open spec fn fresh(scene_type: SceneType) -> SceneView {
        match scene_type {
            SceneType::OhmLaw => SceneView::OhmLawMsg(
                OhmLawView {
                    fields_enable: ohm_law::FieldsEnable::all(),
                    data_raw: ohm_law::OhmRawView::empty(),
                    entered: ohm_law::OhmDataView::empty(),
                    data: ohm_law::OhmDataView::empty(),
                    calc_type: ohm_law::CalcType::Unsolved,
                },
            ),
            SceneType::VoltageDivider => SceneView::VoltageDivider(
                seq![LegView::empty(), LegView::empty()],
            ),
            SceneType::Help => SceneView::Help(help::page()),
        }
    }

    /// The name of the scene.
    pub open spec fn title(self) -> Seq<char> {
        match self {
            SceneView::OhmLawMsg(_) => "Ohm Law"@,
            SceneView::VoltageDivider(_) => "Voltage Divider"@,
            SceneView::Help(_) => "Help"@,
        }
    }

    /// The scene after a message: a switch shows the scene asked for in its
    /// first state; a message for the scene that is shown is handed to it; a
    /// message for another scene changes nothing.
    pub open spec fn step(self, message: MessageView) -> SceneView {
        match (message, self) {
            (MessageView::SwitchScene(scene_type), _) => SceneView::fresh(scene_type),
            (MessageView::OhmLawMsg(msg), SceneView::OhmLawMsg(scene)) => SceneView::OhmLawMsg(
                scene.step(msg),
            ),
            (
                MessageView::VoltageDivider(msg),
                SceneView::VoltageDivider(scene),
            ) => SceneView::VoltageDivider(voltage_divider::step(scene, msg)),
            _ => self,
        }
    }
}

/// The state of the program.
#[derive(Debug)]
pub struct App {
    pub scene: Scene,
}

impl Default for App {
    /// The program as it starts: it shows the Ohm's-law scene.
    fn default() -> (res: Self)
        ensures
            res.scene@ == SceneView::fresh(SceneType::OhmLaw),
    {
        App { scene: Scene::default() }
    }
}

impl App {
    /// The window title: the name of the scene, a dash, the name of the
    /// program.
    pub fn title(&self) -> (res: String)
        ensures
            res@ == self.scene@.title() + " - "@ + TITLE_MAIN@,
    {
        let title_scene = match &self.scene {
            Scene::OhmLawMsg(s) => s.title(),
            Scene::VoltageDivider(s) => s.title(),
            Scene::Help(s) => s.title(),
        };
        title_scene.concat(" - ").concat(TITLE_MAIN)
    }

    /// Takes a message: switches the scene, or hands the message to the
    /// scene that is shown.
    pub fn update(&mut self, message: Message)
        ensures
            final(self).scene@ == old(self).scene@.step(message@),
    {
        match message {
            Message::SwitchScene(scene_type) => {
                self.scene = match scene_type {
                    SceneType::OhmLaw => Scene::OhmLawMsg(OhmLaw::default()),
                    SceneType::VoltageDivider => Scene::VoltageDivider(VoltageDivider::default()),
                    SceneType::Help => Scene::Help(Help::new()),
                };
            },
            Message::VoltageDivider(msg) => {
                if let Scene::VoltageDivider(scene) = &mut self.scene {
                    scene.update(msg);
                }
            },
            Message::OhmLawMsg(msg) => {
                if let Scene::OhmLawMsg(scene) = &mut self.scene {
                    scene.update(msg);
                }
            },
            Message::Help(msg) => {
                if let Scene::Help(scene) = &mut self.scene {
                    scene.update(msg);
                }
            },
        }
    }
}

} // verus!
