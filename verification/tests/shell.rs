use ohmcalc::help;
use ohmcalc::help::Help;
use ohmcalc::ohm_law;
use ohmcalc::shell::{App, Message, Scene, SceneType};
use ohmcalc::voltage_divider;

#[test]
fn the_program_starts_with_ohms_law() {
    let app = App::default();
    assert!(matches!(app.scene, Scene::OhmLawMsg(_)));
    assert_eq!(app.title(), "Ohm Law - Electrical Calculation Wizard");
}

#[test]
fn the_title_names_the_scene() {
    let mut app = App::default();
    app.update(Message::SwitchScene(SceneType::VoltageDivider));
    assert_eq!(app.title(), "Voltage Divider - Electrical Calculation Wizard");
    app.update(Message::SwitchScene(SceneType::Help));
    assert_eq!(app.title(), "Help - Electrical Calculation Wizard");
    app.update(Message::SwitchScene(SceneType::OhmLaw));
    assert_eq!(app.title(), "Ohm Law - Electrical Calculation Wizard");
}

#[test]
fn messages_reach_the_scene_that_is_shown() {
    let mut app = App::default();
    app.update(Message::OhmLawMsg(ohm_law::Message::InputVoltageChanged("10".to_string())));
    app.update(Message::OhmLawMsg(ohm_law::Message::InputCurrentChanged("2".to_string())));
    match &app.scene {
        Scene::OhmLawMsg(scene) => {
            assert_eq!(scene.calc_type, ohm_law::CalcType::VCRP);
            assert_eq!(scene.data_raw.voltage, "10");
        }
        _ => panic!("the Ohm's-law scene is shown"),
    }
    // A message for a scene that is not shown is dropped.
    app.update(Message::VoltageDivider(voltage_divider::Message::LegAdd));
    app.update(Message::Help(help::Message::LinkClicked(())));
    match &app.scene {
        Scene::OhmLawMsg(scene) => assert_eq!(scene.data_raw.current, "2"),
        _ => panic!("the Ohm's-law scene is shown"),
    }
    app.update(Message::SwitchScene(SceneType::VoltageDivider));
    app.update(Message::VoltageDivider(voltage_divider::Message::LegAdd));
    app.update(Message::OhmLawMsg(ohm_law::Message::InputVoltageChanged("10".to_string())));
    match &app.scene {
        Scene::VoltageDivider(scene) => assert_eq!(scene.legs.len(), 3),
        _ => panic!("the voltage-divider scene is shown"),
    }
}

#[test]
fn switching_starts_a_scene_afresh() {
    let mut app = App::default();
    app.update(Message::OhmLawMsg(ohm_law::Message::InputVoltageChanged("10".to_string())));
    app.update(Message::SwitchScene(SceneType::OhmLaw));
    match &app.scene {
        Scene::OhmLawMsg(scene) => assert_eq!(scene.data_raw.voltage, ""),
        _ => panic!("the Ohm's-law scene is shown"),
    }
}

#[test]
fn the_help_page_joins_the_pages_of_the_scenes() {
    let mut page = Help::new();
    let ohm = ohm_law::help();
    let divider = voltage_divider::help();
    let expected =
        format!("# Help\n## {}\n{}\n\n## {}\n{}", ohm.0, ohm.1, divider.0, divider.1);
    assert_eq!(page.markdown, expected);
    assert_eq!(page.title(), "Help");
    page.update(help::Message::LinkClicked(()));
    assert_eq!(page.markdown, expected);
    assert!(page.markdown.starts_with("# Help\n## Ohm Law\n\n\nThe program performs"));
}
