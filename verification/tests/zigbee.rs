use son_of_anton::tools::scene_run::{RunAction, SceneRun};
use son_of_anton::tools::zigbee::{
    command_message, controller_scene, is_controller_topic, scene_for_button, state_payload, Brightness, ColorTemp,
    DeviceCommand, DeviceName, DevicePayload, LightState, Scene, SceneStep, ZigbeeController,
};

const ALL_DEVICES: [DeviceName; 18] = [
    DeviceName::HueKitchen1,
    DeviceName::HueKitchen2,
    DeviceName::HueKitchen3,
    DeviceName::HueBedroom1,
    DeviceName::HueBedroom2,
    DeviceName::HueBedroom3,
    DeviceName::HueLivingroom1,
    DeviceName::HueLivingroom2,
    DeviceName::HueLivingroom3,
    DeviceName::HueLivingroom4,
    DeviceName::HueLivingroom5,
    DeviceName::HueLivingroom6,
    DeviceName::IkeaMushroom,
    DeviceName::IkeaDonut,
    DeviceName::LightBulb,
    DeviceName::SofaLight,
    DeviceName::BallLight,
    DeviceName::Controller,
];

fn controller() -> ZigbeeController {
    ZigbeeController::new("localhost", 1883, 250)
}

fn published(plan: &[SceneStep]) -> Vec<(DeviceName, DeviceCommand)> {
    plan.iter()
        .filter_map(|s| match s {
            SceneStep::Publish(d, c) => Some((*d, *c)),
            SceneStep::Sleep => None,
        })
        .collect()
}

fn json(text: &str) -> serde_json::Value {
    serde_json::from_str(text).expect("valid JSON")
}

fn object(fields: &[(&str, serde_json::Value)]) -> serde_json::Value {
    let mut m = serde_json::Map::new();
    for (k, v) in fields {
        m.insert(k.to_string(), v.clone());
    }
    serde_json::Value::Object(m)
}

#[test]
fn device_names_are_snake_case() {
    let expected = [
        "hue_kitchen1",
        "hue_kitchen2",
        "hue_kitchen3",
        "hue_bedroom1",
        "hue_bedroom2",
        "hue_bedroom3",
        "hue_livingroom1",
        "hue_livingroom2",
        "hue_livingroom3",
        "hue_livingroom4",
        "hue_livingroom5",
        "hue_livingroom6",
        "ikea_mushroom",
        "ikea_donut",
        "light_bulb",
        "sofa_light",
        "ball_light",
        "controller",
    ];
    for (d, name) in ALL_DEVICES.iter().zip(expected) {
        assert_eq!(d.as_str(), name);
    }
}

#[test]
fn topics() {
    assert_eq!(DeviceName::HueKitchen1.set_topic(), "zigbee2mqtt/hue_kitchen1/set");
    assert_eq!(DeviceName::SofaLight.state_topic(), "zigbee2mqtt/sofa_light");
    assert_eq!(controller().controller_topic(), "zigbee2mqtt/controller");
    let topics: std::collections::HashSet<String> =
        ALL_DEVICES.iter().map(|d| d.set_topic()).collect();
    assert_eq!(topics.len(), ALL_DEVICES.len());
}

#[test]
fn state_payloads_are_json() {
    assert_eq!(state_payload(LightState::On), r#"{"state":"ON"}"#);
    assert_eq!(state_payload(LightState::Off), r#"{"state":"OFF"}"#);
}

#[test]
fn device_payload_json_matches_serde() {
    let states = [LightState::On, LightState::Off];
    let levels = [
        (Brightness::Min, 8u64),
        (Brightness::Low, 50),
        (Brightness::Medium, 127),
        (Brightness::High, 191),
        (Brightness::Max, 254),
    ];
    let temps = [(ColorTemp::Blue, 250u64), (ColorTemp::White, 352), (ColorTemp::Warm, 454)];
    for state in states {
        for (b, bv) in levels {
            for (t, tv) in temps {
                let p = DevicePayload { state, brightness: b, color_temp: t };
                let text = p.to_json();
                let word = if state == LightState::On { "ON" } else { "OFF" };
                let expected = object(&[
                    ("state", serde_json::Value::from(word)),
                    ("brightness", serde_json::Value::from(bv)),
                    ("color_temp", serde_json::Value::from(tv)),
                ]);
                assert_eq!(json(&text), expected);
                assert!(text.starts_with(r#"{"state":"#));
            }
        }
    }
    let p = DevicePayload {
        state: LightState::On,
        brightness: Brightness::Medium,
        color_temp: ColorTemp::White,
    };
    assert_eq!(p.to_json(), r#"{"state":"ON","brightness":127,"color_temp":352}"#);
}

#[test]
fn levels_and_temperatures() {
    assert_eq!(Brightness::Min.value(), 8);
    assert_eq!(Brightness::Max.value(), 254);
    assert_eq!(ColorTemp::Blue.value(), 250);
    assert_eq!(ColorTemp::Warm.value(), 454);
}

#[test]
fn command_message_for_send() {
    let p = DevicePayload {
        state: LightState::On,
        brightness: Brightness::Low,
        color_temp: ColorTemp::Warm,
    };
    let m = command_message(DeviceName::HueBedroom2, DeviceCommand::Send(p));
    assert_eq!(m.topic, "zigbee2mqtt/hue_bedroom2/set");
    assert_eq!(m.payload, r#"{"state":"ON","brightness":50,"color_temp":454}"#);
    let m = command_message(DeviceName::BallLight, DeviceCommand::TurnOff);
    assert_eq!(m.topic, "zigbee2mqtt/ball_light/set");
    assert_eq!(m.payload, r#"{"state":"OFF"}"#);
}

fn house() -> Vec<DeviceName> {
    vec![
        DeviceName::HueKitchen1,
        DeviceName::HueKitchen2,
        DeviceName::HueKitchen3,
        DeviceName::BallLight,
        DeviceName::IkeaMushroom,
        DeviceName::SofaLight,
        DeviceName::HueLivingroom1,
        DeviceName::HueLivingroom2,
        DeviceName::HueLivingroom3,
        DeviceName::HueLivingroom4,
        DeviceName::HueLivingroom5,
        DeviceName::HueLivingroom6,
        DeviceName::IkeaDonut,
        DeviceName::LightBulb,
        DeviceName::HueBedroom1,
        DeviceName::HueBedroom2,
        DeviceName::HueBedroom3,
    ]
}

#[test]
fn all_off_switches_every_light_off_in_order() {
    let plan = controller().turn_all_off();
    assert_eq!(plan.len(), 34);
    for (i, s) in plan.iter().enumerate() {
        assert_eq!(matches!(s, SceneStep::Sleep), i % 2 == 0);
    }
    let sent = published(&plan);
    let devices: Vec<DeviceName> = sent.iter().map(|(d, _)| *d).collect();
    assert_eq!(devices, house());
    assert!(sent.iter().all(|(_, c)| *c == DeviceCommand::TurnOff));
}

#[test]
fn all_on_uses_requested_level() {
    let plan = controller().turn_all_on(Brightness::High, ColorTemp::Blue);
    let hue = DeviceCommand::Send(DevicePayload {
        state: LightState::On,
        brightness: Brightness::High,
        color_temp: ColorTemp::Blue,
    });
    let sent = published(&plan);
    assert_eq!(sent.len(), 17);
    for (d, c) in &sent {
        let name = d.as_str();
        if name.starts_with("hue_") {
            assert_eq!(*c, hue);
        } else {
            assert_eq!(*c, DeviceCommand::TurnOn);
        }
    }
}

#[test]
fn movie_mode_plan() {
    let plan = controller().movie_mode();
    assert_eq!(plan.len(), 35);
    assert_eq!(plan[34], SceneStep::Sleep);
    let sent = published(&plan);
    let dim = DeviceCommand::Send(DevicePayload {
        state: LightState::On,
        brightness: Brightness::Min,
        color_temp: ColorTemp::Warm,
    });
    assert_eq!(sent[0], (DeviceName::HueKitchen1, DeviceCommand::TurnOff));
    assert_eq!(sent[3], (DeviceName::BallLight, DeviceCommand::TurnOff));
    assert_eq!(sent[4], (DeviceName::IkeaMushroom, DeviceCommand::TurnOff));
    assert_eq!(sent[5], (DeviceName::HueLivingroom1, dim));
    assert_eq!(sent[11], (DeviceName::SofaLight, DeviceCommand::TurnOn));
    assert_eq!(sent[12], (DeviceName::IkeaDonut, DeviceCommand::TurnOn));
    assert_eq!(sent[13], (DeviceName::LightBulb, DeviceCommand::TurnOn));
    assert_eq!(sent[16], (DeviceName::HueBedroom3, DeviceCommand::TurnOff));
}

#[test]
fn party_mode_plan() {
    let plan = controller().party_mode();
    let sent = published(&plan);
    let low = DeviceCommand::Send(DevicePayload {
        state: LightState::On,
        brightness: Brightness::Low,
        color_temp: ColorTemp::Warm,
    });
    let medium = DeviceCommand::Send(DevicePayload {
        state: LightState::On,
        brightness: Brightness::Medium,
        color_temp: ColorTemp::Warm,
    });
    assert_eq!(sent[0], (DeviceName::HueKitchen1, low));
    assert_eq!(sent[3], (DeviceName::BallLight, DeviceCommand::TurnOff));
    assert_eq!(sent[4], (DeviceName::IkeaMushroom, medium));
    assert_eq!(sent[5], (DeviceName::SofaLight, DeviceCommand::TurnOn));
    assert_eq!(sent[14], (DeviceName::HueBedroom1, low));
    assert_eq!(plan.last(), Some(&SceneStep::Sleep));
}

#[test]
fn night_mode_plan() {
    let plan = controller().night_mode();
    let sent = published(&plan);
    let devices: Vec<DeviceName> = sent.iter().map(|(d, _)| *d).collect();
    assert_eq!(devices, house());
    for (d, c) in &sent {
        if d.as_str().starts_with("hue_livingroom") {
            assert!(matches!(c, DeviceCommand::Send(p) if p.brightness == Brightness::Min));
        } else {
            assert_eq!(*c, DeviceCommand::TurnOff);
        }
    }
}

#[test]
fn every_scene_reaches_each_light_once() {
    let c = controller();
    let scenes = [
        Scene::AllOff,
        Scene::AllOn(Brightness::Medium, ColorTemp::White),
        Scene::Night,
        Scene::Movie,
        Scene::Party,
    ];
    for s in scenes {
        let mut devices: Vec<&str> = published(&c.scene(s)).iter().map(|(d, _)| d.as_str()).collect();
        devices.sort();
        let mut expected: Vec<&str> = house().iter().map(|d| d.as_str()).collect();
        expected.sort();
        assert_eq!(devices, expected);
    }
}

#[test]
fn buttons() {
    for a in ["arrow_down_click", "off", "brightness_down_click"] {
        assert_eq!(scene_for_button(a), Some(Scene::AllOff));
    }
    for a in ["arrow_up_click", "on", "brightness_up_click"] {
        assert_eq!(scene_for_button(a), Some(Scene::AllOn(Brightness::Medium, ColorTemp::White)));
    }
    for a in ["arrow_left_click", "left"] {
        assert_eq!(scene_for_button(a), Some(Scene::Movie));
    }
    for a in ["arrow_right_click", "right"] {
        assert_eq!(scene_for_button(a), Some(Scene::Party));
    }
    assert_eq!(scene_for_button("toggle"), None);
    assert_eq!(scene_for_button(""), None);
    assert_eq!(scene_for_button("Off"), None);
}

#[test]
fn controller_topic_check() {
    assert!(is_controller_topic("zigbee2mqtt/controller"));
    assert!(is_controller_topic("zigbee2mqtt/controller/action"));
    assert!(!is_controller_topic("zigbee2mqtt/hue_kitchen1"));
}

#[test]
fn controller_settings() {
    let c = controller();
    assert_eq!(c.broker_host(), "localhost");
    assert_eq!(c.broker_port(), 1883);
    assert_eq!(c.sleep_duration(), 250);
}

#[test]
fn run_with_all_publishes_accepted() {
    let c = controller();
    let plan = c.turn_all_off();
    let n = plan.len();
    let mut run = SceneRun::new(plan, c.sleep_duration());
    let mut last: Option<Result<(), String>> = None;
    let mut sleeps = 0;
    let mut topics = Vec::new();
    loop {
        match run.next_action(last.take()) {
            RunAction::Sleep(ms) => {
                assert_eq!(ms, 250);
                sleeps += 1;
            }
            RunAction::Publish(m) => {
                assert_eq!(m.payload, r#"{"state":"OFF"}"#);
                topics.push(m.topic);
                last = Some(Ok(()));
            }
            RunAction::Finished(r) => {
                assert_eq!(r, Ok(()));
                break;
            }
        }
    }
    assert!(run.is_done());
    assert_eq!(sleeps + topics.len(), n);
    assert_eq!(topics[0], "zigbee2mqtt/hue_kitchen1/set");
    assert_eq!(topics[16], "zigbee2mqtt/hue_bedroom3/set");
}

#[test]
fn run_stops_at_first_refusal() {
    let c = controller();
    let mut run = SceneRun::new(c.party_mode(), 10);
    let mut last: Option<Result<(), String>> = None;
    let mut published = 0;
    let outcome = loop {
        match run.next_action(last.take()) {
            RunAction::Sleep(_) => {}
            RunAction::Publish(_) => {
                published += 1;
                last = Some(if published == 3 { Err("broker gone".to_string()) } else { Ok(()) });
            }
            RunAction::Finished(r) => break r,
        }
    };
    assert_eq!(outcome, Err("broker gone".to_string()));
    assert_eq!(published, 3);
    assert!(run.is_done());
}

#[test]
fn empty_plan_finishes_at_once() {
    let mut run = SceneRun::new(Vec::new(), 5);
    match run.next_action::<()>(None) {
        RunAction::Finished(r) => assert_eq!(r, Ok(())),
        _ => panic!("an empty plan has nothing to do"),
    }
}

#[test]
fn broker_messages_to_scenes() {
    assert_eq!(controller_scene("zigbee2mqtt/controller", Some("left")), Some(Scene::Movie));
    assert_eq!(controller_scene("zigbee2mqtt/controller", Some("off")), Some(Scene::AllOff));
    assert_eq!(controller_scene("zigbee2mqtt/controller", None), None);
    assert_eq!(controller_scene("zigbee2mqtt/controller", Some("toggle")), None);
    assert_eq!(controller_scene("zigbee2mqtt/hue_kitchen1", Some("left")), None);
}
