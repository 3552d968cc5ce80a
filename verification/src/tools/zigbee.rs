//! Zigbee lights driven through zigbee2mqtt: device names and topics, the
//! JSON payloads sent to lights, the light scenes as ordered plans, and the
//! state machine that plays a plan against the MQTT broker.

use vstd::prelude::*;
use vstd::string::*;
use crate::text::{contains_seq, decimal, push_decimal, str_contains, str_eq};

verus! {

/// The devices known to zigbee2mqtt in this house.
#[derive(Debug, Clone, Copy, PartialEq, Eq, Structural)]
pub enum DeviceName {
    HueKitchen1,
    HueKitchen2,
    HueKitchen3,
    HueBedroom1,
    HueBedroom2,
    HueBedroom3,
    HueLivingroom1,
    HueLivingroom2,
    HueLivingroom3,
    HueLivingroom4,
    HueLivingroom5,
    HueLivingroom6,
    IkeaMushroom,
    IkeaDonut,
    LightBulb,
    SofaLight,
    BallLight,
    Controller,
}

impl DeviceName {
    /// The device's friendly name in zigbee2mqtt: the variant's name in
    /// snake case.
    pub open spec fn spec_name(self) -> Seq<char> {
        match self {
            DeviceName::HueKitchen1 => "hue_kitchen1"@,
            DeviceName::HueKitchen2 => "hue_kitchen2"@,
            DeviceName::HueKitchen3 => "hue_kitchen3"@,
            DeviceName::HueBedroom1 => "hue_bedroom1"@,
            DeviceName::HueBedroom2 => "hue_bedroom2"@,
            DeviceName::HueBedroom3 => "hue_bedroom3"@,
            DeviceName::HueLivingroom1 => "hue_livingroom1"@,
            DeviceName::HueLivingroom2 => "hue_livingroom2"@,
            DeviceName::HueLivingroom3 => "hue_livingroom3"@,
            DeviceName::HueLivingroom4 => "hue_livingroom4"@,
            DeviceName::HueLivingroom5 => "hue_livingroom5"@,
            DeviceName::HueLivingroom6 => "hue_livingroom6"@,
            DeviceName::IkeaMushroom => "ikea_mushroom"@,
            DeviceName::IkeaDonut => "ikea_donut"@,
            DeviceName::LightBulb => "light_bulb"@,
            DeviceName::SofaLight => "sofa_light"@,
            DeviceName::BallLight => "ball_light"@,
            DeviceName::Controller => "controller"@,
        }
    }

    /// The device's friendly name in zigbee2mqtt.
    pub fn as_str(&self) -> (s: &'static str)
        ensures
            s@ == self.spec_name(),
    {
        match self {
            DeviceName::HueKitchen1 => "hue_kitchen1",
            DeviceName::HueKitchen2 => "hue_kitchen2",
            DeviceName::HueKitchen3 => "hue_kitchen3",
            DeviceName::HueBedroom1 => "hue_bedroom1",
            DeviceName::HueBedroom2 => "hue_bedroom2",
            DeviceName::HueBedroom3 => "hue_bedroom3",
            DeviceName::HueLivingroom1 => "hue_livingroom1",
            DeviceName::HueLivingroom2 => "hue_livingroom2",
            DeviceName::HueLivingroom3 => "hue_livingroom3",
            DeviceName::HueLivingroom4 => "hue_livingroom4",
            DeviceName::HueLivingroom5 => "hue_livingroom5",
            DeviceName::HueLivingroom6 => "hue_livingroom6",
            DeviceName::IkeaMushroom => "ikea_mushroom",
            DeviceName::IkeaDonut => "ikea_donut",
            DeviceName::LightBulb => "light_bulb",
            DeviceName::SofaLight => "sofa_light",
            DeviceName::BallLight => "ball_light",
            DeviceName::Controller => "controller",
        }
    }

    /// The topic on which zigbee2mqtt publishes the device's state.
    pub fn state_topic(&self) -> (t: String)
        ensures
            t@ == state_topic_of(*self),
    {
        let mut t = String::from_str("zigbee2mqtt/");
        t.append(self.as_str());
        t
    }

    /// The topic on which the device accepts commands.
    pub fn set_topic(&self) -> (t: String)
        ensures
            t@ == set_topic_of(*self),
    {
        let mut t = self.state_topic();
        t.append("/set");
        t
    }
}

/// `zigbee2mqtt/<name>`.
pub open spec fn state_topic_of(d: DeviceName) -> Seq<char> {
    "zigbee2mqtt/"@ + d.spec_name()
}

/// `zigbee2mqtt/<name>/set`.
pub open spec fn set_topic_of(d: DeviceName) -> Seq<char> {
    state_topic_of(d) + "/set"@
}

/// Power state in a device payload.
#[derive(Debug, Clone, Copy, PartialEq, Eq, Structural)]
pub enum LightState {
    On,
    Off,
}

impl LightState {
    /// The word zigbee2mqtt expects: `ON` or `OFF`.
    pub open spec fn spec_word(self) -> Seq<char> {
        match self {
            LightState::On => "ON"@,
            LightState::Off => "OFF"@,
        }
    }

    pub fn as_str(&self) -> (s: &'static str)
        ensures
            s@ == self.spec_word(),
    {
        match self {
            LightState::On => "ON",
            LightState::Off => "OFF",
        }
    }
}

/// Colour temperature in mired (the lights accept 250..=454).
#[derive(Debug, Clone, Copy, PartialEq, Eq, Structural)]
pub enum ColorTemp {
    Blue,
    White,
    Warm,
}

impl ColorTemp {
    pub open spec fn spec_value(self) -> u16 {
        match self {
            ColorTemp::Blue => 250,
            ColorTemp::White => 352,
            ColorTemp::Warm => 454,
        }
    }

    /// The mired value sent for this temperature.
    pub fn value(&self) -> (v: u16)
        ensures
            v == self.spec_value(),
    {
        match self {
            ColorTemp::Blue => 250,
            ColorTemp::White => 352,
            ColorTemp::Warm => 454,
        }
    }
}

/// Brightness level (the lights accept 0..=254).
#[derive(Debug, Clone, Copy, PartialEq, Eq, Structural)]
pub enum Brightness {
    Min,
    Low,
    Medium,
    High,
    Max,
}

impl Brightness {
    pub open spec fn spec_value(self) -> u8 {
        match self {
            Brightness::Min => 8,
            Brightness::Low => 50,
            Brightness::Medium => 127,
            Brightness::High => 191,
            Brightness::Max => 254,
        }
    }

    /// The brightness value sent for this level.
    pub fn value(&self) -> (v: u8)
        ensures
            v == self.spec_value(),
    {
        match self {
            Brightness::Min => 8,
            Brightness::Low => 50,
            Brightness::Medium => 127,
            Brightness::High => 191,
            Brightness::Max => 254,
        }
    }
}

/// A full state for one light.
#[derive(Debug, Clone, Copy, PartialEq, Eq, Structural)]
pub struct DevicePayload {
    pub state: LightState,
    pub brightness: Brightness,
    pub color_temp: ColorTemp,
}

/// `{"state":"ON"}` or `{"state":"OFF"}`.
pub open spec fn state_json(s: LightState) -> Seq<char> {
    "{\"state\":\""@ + s.spec_word() + "\"}"@
}

/// The payload as a JSON object with the fields `state`, `brightness` and
/// `color_temp`, in that order, the two levels as numbers.
pub open spec fn payload_json(p: DevicePayload) -> Seq<char> {
    "{\"state\":\""@ + p.state.spec_word() + "\",\"brightness\":"@ + decimal(
        p.brightness.spec_value() as nat,
    ) + ",\"color_temp\":"@ + decimal(p.color_temp.spec_value() as nat) + "}"@
}

impl DevicePayload {
    /// The JSON text sent to the light.
    pub fn to_json(&self) -> (j: String)
        ensures
            j@ == payload_json(*self),
    {
        let mut j = String::from_str("{\"state\":\"");
        j.append(self.state.as_str());
        j.append("\",\"brightness\":");
        push_decimal(&mut j, self.brightness.value() as u16);
        j.append(",\"color_temp\":");
        push_decimal(&mut j, self.color_temp.value());
        j.append("}");
        j
    }
}

/// The JSON text that switches a light on or off and leaves the rest alone.
pub fn state_payload(s: LightState) -> (j: String)
    ensures
        j@ == state_json(s),
{
    let mut j = String::from_str("{\"state\":\"");
    j.append(s.as_str());
    j.append("\"}");
    j
}

/// What one publish asks of a light.
#[derive(Debug, Clone, Copy, PartialEq, Eq, Structural)]
pub enum DeviceCommand {
    TurnOn,
    TurnOff,
    Send(DevicePayload),
}

/// The JSON text of a command.
pub open spec fn command_json(c: DeviceCommand) -> Seq<char> {
    match c {
        DeviceCommand::TurnOn => state_json(LightState::On),
        DeviceCommand::TurnOff => state_json(LightState::Off),
        DeviceCommand::Send(p) => payload_json(p),
    }
}

/// One step of a scene: wait the controller's pause, or publish a command.
#[derive(Debug, Clone, Copy, PartialEq, Eq, Structural)]
pub enum SceneStep {
    Sleep,
    Publish(DeviceName, DeviceCommand),
}

/// A message for the broker.
pub struct MqttMessage {
    pub topic: String,
    pub payload: String,
}

/// The message that carries `c` to device `d`.
pub fn command_message(d: DeviceName, c: DeviceCommand) -> (m: MqttMessage)
    ensures
        m.topic@ == set_topic_of(d),
        m.payload@ == command_json(c),
{
    let payload = match c {
        DeviceCommand::TurnOn => state_payload(LightState::On),
        DeviceCommand::TurnOff => state_payload(LightState::Off),
        DeviceCommand::Send(p) => p.to_json(),
    };
    MqttMessage { topic: d.set_topic(), payload }
}

} // verus!

verus! {

/// The kitchen lights, in the order scenes visit them.
pub open spec fn kitchen_devices() -> Seq<DeviceName> {
    seq![DeviceName::HueKitchen1, DeviceName::HueKitchen2, DeviceName::HueKitchen3]
}

/// The living-room lights, in the order scenes visit them.
pub open spec fn livingroom_devices() -> Seq<DeviceName> {
    seq![
        DeviceName::HueLivingroom1,
        DeviceName::HueLivingroom2,
        DeviceName::HueLivingroom3,
        DeviceName::HueLivingroom4,
        DeviceName::HueLivingroom5,
        DeviceName::HueLivingroom6,
    ]
}

/// The bedroom lights, in the order scenes visit them.
pub open spec fn bedroom_devices() -> Seq<DeviceName> {
    seq![DeviceName::HueBedroom1, DeviceName::HueBedroom2, DeviceName::HueBedroom3]
}

/// A pause, then `c` sent to `d`.
pub open spec fn one_step(d: DeviceName, c: DeviceCommand) -> Seq<SceneStep> {
    seq![SceneStep::Sleep, SceneStep::Publish(d, c)]
}

/// A pause before each device of `devs`, each sent `c`, in order.
pub open spec fn each_step(devs: Seq<DeviceName>, c: DeviceCommand) -> Seq<SceneStep> {
    Seq::new(
        2 * devs.len(),
        |i: int|
            if i % 2 == 0 {
                SceneStep::Sleep
            } else {
                SceneStep::Publish(devs[i / 2], c)
            },
    )
}

/// The payload every scene uses for a light that is on.
pub open spec fn on_payload(b: Brightness, t: ColorTemp) -> DeviceCommand {
    DeviceCommand::Send(DevicePayload { state: LightState::On, brightness: b, color_temp: t })
}

/// Every light off: kitchen, ball light, mushroom, sofa light, living room,
/// donut, bulb, bedroom.
pub open spec fn all_off_plan() -> Seq<SceneStep> {
    let off = DeviceCommand::TurnOff;
    each_step(kitchen_devices(), off) + one_step(DeviceName::BallLight, off) + one_step(
        DeviceName::IkeaMushroom,
        off,
    ) + one_step(DeviceName::SofaLight, off) + each_step(livingroom_devices(), off) + one_step(
        DeviceName::IkeaDonut,
        off,
    ) + one_step(DeviceName::LightBulb, off) + each_step(bedroom_devices(), off)
}

/// Every light on: the Hue lights at the given level and temperature, the
/// others switched on, in the same order as `all_off_plan`.
pub open spec fn all_on_plan(b: Brightness, t: ColorTemp) -> Seq<SceneStep> {
    let on = DeviceCommand::TurnOn;
    let hue = on_payload(b, t);
    each_step(kitchen_devices(), hue) + one_step(DeviceName::BallLight, on) + one_step(
        DeviceName::IkeaMushroom,
        on,
    ) + one_step(DeviceName::SofaLight, on) + each_step(livingroom_devices(), hue) + one_step(
        DeviceName::IkeaDonut,
        on,
    ) + one_step(DeviceName::LightBulb, on) + each_step(bedroom_devices(), hue)
}

/// Night: only the living-room Hue lights stay on, dim and warm; a final
/// pause closes the scene.
pub open spec fn night_plan() -> Seq<SceneStep> {
    let off = DeviceCommand::TurnOff;
    let dim = on_payload(Brightness::Min, ColorTemp::Warm);
    each_step(kitchen_devices(), off) + one_step(DeviceName::BallLight, off) + one_step(
        DeviceName::IkeaMushroom,
        off,
    ) + one_step(DeviceName::SofaLight, off) + each_step(livingroom_devices(), dim) + one_step(
        DeviceName::IkeaDonut,
        off,
    ) + one_step(DeviceName::LightBulb, off) + each_step(bedroom_devices(), off) + seq![
        SceneStep::Sleep,
    ]
}

/// Movie: kitchen, ball light, mushroom and bedroom off; living room dim and
/// warm; sofa light, donut and bulb on; a final pause.
pub open spec fn movie_plan() -> Seq<SceneStep> {
    let off = DeviceCommand::TurnOff;
    let on = DeviceCommand::TurnOn;
    let dim = on_payload(Brightness::Min, ColorTemp::Warm);
    each_step(kitchen_devices(), off) + one_step(DeviceName::BallLight, off) + one_step(
        DeviceName::IkeaMushroom,
        off,
    ) + each_step(livingroom_devices(), dim) + one_step(DeviceName::SofaLight, on) + one_step(
        DeviceName::IkeaDonut,
        on,
    ) + one_step(DeviceName::LightBulb, on) + each_step(bedroom_devices(), off) + seq![
        SceneStep::Sleep,
    ]
}

/// Party: Hue lights low and warm, mushroom medium and warm, ball light off,
/// sofa light, donut and bulb on; a final pause.
pub open spec fn party_plan() -> Seq<SceneStep> {
    let off = DeviceCommand::TurnOff;
    let on = DeviceCommand::TurnOn;
    let low = on_payload(Brightness::Low, ColorTemp::Warm);
    each_step(kitchen_devices(), low) + one_step(DeviceName::BallLight, off) + one_step(
        DeviceName::IkeaMushroom,
        on_payload(Brightness::Medium, ColorTemp::Warm),
    ) + one_step(DeviceName::SofaLight, on) + each_step(livingroom_devices(), low) + one_step(
        DeviceName::IkeaDonut,
        on,
    ) + one_step(DeviceName::LightBulb, on) + each_step(bedroom_devices(), low) + seq![
        SceneStep::Sleep,
    ]
}

/// The scenes a controller can play.
#[derive(Debug, Clone, Copy, PartialEq, Eq, Structural)]
pub enum Scene {
    AllOff,
    AllOn(Brightness, ColorTemp),
    Night,
    Movie,
    Party,
}

/// The plan of a scene.
pub open spec fn scene_plan(s: Scene) -> Seq<SceneStep> {
    match s {
        Scene::AllOff => all_off_plan(),
        Scene::AllOn(b, t) => all_on_plan(b, t),
        Scene::Night => night_plan(),
        Scene::Movie => movie_plan(),
        Scene::Party => party_plan(),
    }
}

fn push_one(plan: &mut Vec<SceneStep>, d: DeviceName, c: DeviceCommand)
    ensures
        final(plan)@ == old(plan)@ + one_step(d, c),
{
    plan.push(SceneStep::Sleep);
    plan.push(SceneStep::Publish(d, c));
    assert(final(plan)@ =~= old(plan)@ + one_step(d, c));
}

fn push_each(plan: &mut Vec<SceneStep>, devs: &Vec<DeviceName>, c: DeviceCommand)
    ensures
        final(plan)@ == old(plan)@ + each_step(devs@, c),
{
    let ghost start = plan@;
    assert(each_step(devs@.take(0), c) =~= Seq::<SceneStep>::empty());
    assert(start + Seq::<SceneStep>::empty() =~= start);
    let n = devs.len();
    for i in 0..n
        invariant
            n == devs@.len(),
            plan@ == start + each_step(devs@.take(i as int), c),
    {
        let d = devs[i];
        push_one(plan, d, c);
        assert(each_step(devs@.take(i + 1), c) =~= each_step(devs@.take(i as int), c) + one_step(
            d,
            c,
        ));
        assert(plan@ =~= start + each_step(devs@.take(i + 1), c));
    }
    assert(devs@.take(n as int) =~= devs@);
}

/// The light controller: how to reach the broker, the pause between two
/// commands, and the lights of each room.
pub struct ZigbeeController {
    broker_host: String,
    broker_port: u16,
    sleep_duration: u64,
    livingroom: Vec<DeviceName>,
    kitchen: Vec<DeviceName>,
    bedroom: Vec<DeviceName>,
}

impl ZigbeeController {
    #[verifier::type_invariant]
    spec fn rooms_are_fixed(self) -> bool {
        &&& self.livingroom@ == livingroom_devices()
        &&& self.kitchen@ == kitchen_devices()
        &&& self.bedroom@ == bedroom_devices()
    }

    pub closed spec fn spec_broker_host(self) -> Seq<char> {
        self.broker_host@
    }

    pub closed spec fn spec_broker_port(self) -> u16 {
        self.broker_port
    }

    pub closed spec fn spec_sleep_duration(self) -> u64 {
        self.sleep_duration
    }

    /// A controller for the broker at `broker_host:broker_port` that pauses
    /// `sleep_duration` milliseconds before each command.
    pub fn new(broker_host: &str, broker_port: u16, sleep_duration: u64) -> (c: Self)
        ensures
            c.spec_broker_host() == broker_host@,
            c.spec_broker_port() == broker_port,
            c.spec_sleep_duration() == sleep_duration,
    {
        let livingroom = vec![
            DeviceName::HueLivingroom1,
            DeviceName::HueLivingroom2,
            DeviceName::HueLivingroom3,
            DeviceName::HueLivingroom4,
            DeviceName::HueLivingroom5,
            DeviceName::HueLivingroom6,
        ];
        let kitchen = vec![DeviceName::HueKitchen1, DeviceName::HueKitchen2, DeviceName::HueKitchen3];
        let bedroom = vec![DeviceName::HueBedroom1, DeviceName::HueBedroom2, DeviceName::HueBedroom3];
        assert(livingroom@ =~= livingroom_devices());
        assert(kitchen@ =~= kitchen_devices());
        assert(bedroom@ =~= bedroom_devices());
        ZigbeeController {
            broker_host: String::from_str(broker_host),
            broker_port,
            sleep_duration,
            livingroom,
            kitchen,
            bedroom,
        }
    }

    pub fn broker_host(&self) -> (h: &str)
        ensures
            h@ == self.spec_broker_host(),
    {
        self.broker_host.as_str()
    }

    pub fn broker_port(&self) -> (p: u16)
        ensures
            p == self.spec_broker_port(),
    {
        self.broker_port
    }

    /// Milliseconds to wait before each command.
    pub fn sleep_duration(&self) -> (d: u64)
        ensures
            d == self.spec_sleep_duration(),
    {
        self.sleep_duration
    }

    /// The topic on which the remote control's button presses arrive.
    pub fn controller_topic(&self) -> (t: String)
        ensures
            t@ == state_topic_of(DeviceName::Controller),
    {
        DeviceName::Controller.state_topic()
    }

    /// Plan of the scene that switches every light off.
    pub fn turn_all_off(&self) -> (plan: Vec<SceneStep>)
        ensures
            plan@ == all_off_plan(),
    {
        proof {
            use_type_invariant(self);
        }
        let off = DeviceCommand::TurnOff;
        let mut plan: Vec<SceneStep> = Vec::new();
        push_each(&mut plan, &self.kitchen, off);
        push_one(&mut plan, DeviceName::BallLight, off);
        push_one(&mut plan, DeviceName::IkeaMushroom, off);
        push_one(&mut plan, DeviceName::SofaLight, off);
        push_each(&mut plan, &self.livingroom, off);
        push_one(&mut plan, DeviceName::IkeaDonut, off);
        push_one(&mut plan, DeviceName::LightBulb, off);
        push_each(&mut plan, &self.bedroom, off);
        assert(plan@ =~= all_off_plan());
        plan
    }

    /// Plan of the scene that switches every light on, the Hue lights at
    /// the given level and temperature.
    pub fn turn_all_on(&self, brightness: Brightness, color_temp: ColorTemp) -> (plan: Vec<
        SceneStep,
    >)
        ensures
            plan@ == all_on_plan(brightness, color_temp),
    {
        proof {
            use_type_invariant(self);
        }
        let on = DeviceCommand::TurnOn;
        let hue = DeviceCommand::Send(
            DevicePayload { state: LightState::On, brightness, color_temp },
        );
        let mut plan: Vec<SceneStep> = Vec::new();
        push_each(&mut plan, &self.kitchen, hue);
        push_one(&mut plan, DeviceName::BallLight, on);
        push_one(&mut plan, DeviceName::IkeaMushroom, on);
        push_one(&mut plan, DeviceName::SofaLight, on);
        push_each(&mut plan, &self.livingroom, hue);
        push_one(&mut plan, DeviceName::IkeaDonut, on);
        push_one(&mut plan, DeviceName::LightBulb, on);
        push_each(&mut plan, &self.bedroom, hue);
        assert(plan@ =~= all_on_plan(brightness, color_temp));
        plan
    }

    /// Plan of the night scene.
    pub fn night_mode(&self) -> (plan: Vec<SceneStep>)
        ensures
            plan@ == night_plan(),
    {
        proof {
            use_type_invariant(self);
        }
        let off = DeviceCommand::TurnOff;
        let dim = DeviceCommand::Send(
            DevicePayload {
                state: LightState::On,
                brightness: Brightness::Min,
                color_temp: ColorTemp::Warm,
            },
        );
        let mut plan: Vec<SceneStep> = Vec::new();
        push_each(&mut plan, &self.kitchen, off);
        push_one(&mut plan, DeviceName::BallLight, off);
        push_one(&mut plan, DeviceName::IkeaMushroom, off);
        push_one(&mut plan, DeviceName::SofaLight, off);
        push_each(&mut plan, &self.livingroom, dim);
        push_one(&mut plan, DeviceName::IkeaDonut, off);
        push_one(&mut plan, DeviceName::LightBulb, off);
        push_each(&mut plan, &self.bedroom, off);
        plan.push(SceneStep::Sleep);
        assert(plan@ =~= night_plan());
        plan
    }

    /// Plan of the movie scene.
    pub fn movie_mode(&self) -> (plan: Vec<SceneStep>)
        ensures
            plan@ == movie_plan(),
    {
        proof {
            use_type_invariant(self);
        }
        let off = DeviceCommand::TurnOff;
        let on = DeviceCommand::TurnOn;
        let dim = DeviceCommand::Send(
            DevicePayload {
                state: LightState::On,
                brightness: Brightness::Min,
                color_temp: ColorTemp::Warm,
            },
        );
        let mut plan: Vec<SceneStep> = Vec::new();
        push_each(&mut plan, &self.kitchen, off);
        push_one(&mut plan, DeviceName::BallLight, off);
        push_one(&mut plan, DeviceName::IkeaMushroom, off);
        push_each(&mut plan, &self.livingroom, dim);
        push_one(&mut plan, DeviceName::SofaLight, on);
        push_one(&mut plan, DeviceName::IkeaDonut, on);
        push_one(&mut plan, DeviceName::LightBulb, on);
        push_each(&mut plan, &self.bedroom, off);
        plan.push(SceneStep::Sleep);
        assert(plan@ =~= movie_plan());
        plan
    }

    /// Plan of the party scene.
    pub fn party_mode(&self) -> (plan: Vec<SceneStep>)
        ensures
            plan@ == party_plan(),
    {
        proof {
            use_type_invariant(self);
        }
        let off = DeviceCommand::TurnOff;
        let on = DeviceCommand::TurnOn;
        let low = DeviceCommand::Send(
            DevicePayload {
                state: LightState::On,
                brightness: Brightness::Low,
                color_temp: ColorTemp::Warm,
            },
        );
        let medium = DeviceCommand::Send(
            DevicePayload {
                state: LightState::On,
                brightness: Brightness::Medium,
                color_temp: ColorTemp::Warm,
            },
        );
        let mut plan: Vec<SceneStep> = Vec::new();
        push_each(&mut plan, &self.kitchen, low);
        push_one(&mut plan, DeviceName::BallLight, off);
        push_one(&mut plan, DeviceName::IkeaMushroom, medium);
        push_one(&mut plan, DeviceName::SofaLight, on);
        push_each(&mut plan, &self.livingroom, low);
        push_one(&mut plan, DeviceName::IkeaDonut, on);
        push_one(&mut plan, DeviceName::LightBulb, on);
        push_each(&mut plan, &self.bedroom, low);
        plan.push(SceneStep::Sleep);
        assert(plan@ =~= party_plan());
        plan
    }

    /// Plan of any scene.
    pub fn scene(&self, s: Scene) -> (plan: Vec<SceneStep>)
        ensures
            plan@ == scene_plan(s),
    {
        match s {
            Scene::AllOff => self.turn_all_off(),
            Scene::AllOn(b, t) => self.turn_all_on(b, t),
            Scene::Night => self.night_mode(),
            Scene::Movie => self.movie_mode(),
            Scene::Party => self.party_mode(),
        }
    }
}

} // verus!

verus! {

/// The scene a button of the remote control asks for, by the action name
/// zigbee2mqtt reports: down or off switches all off, up or on switches all
/// on (medium, white), left plays the movie scene, right the party scene.
pub open spec fn button_scene(a: Seq<char>) -> Option<Scene> {
    if a == "arrow_down_click"@ || a == "off"@ || a == "brightness_down_click"@ {
        Some(Scene::AllOff)
    } else if a == "arrow_up_click"@ || a == "on"@ || a == "brightness_up_click"@ {
        Some(Scene::AllOn(Brightness::Medium, ColorTemp::White))
    } else if a == "arrow_left_click"@ || a == "left"@ {
        Some(Scene::Movie)
    } else if a == "arrow_right_click"@ || a == "right"@ {
        Some(Scene::Party)
    } else {
        None
    }
}

/// The scene for a button action of the remote control; `None` for an
/// action that has no scene.
pub fn scene_for_button(action: &str) -> (s: Option<Scene>)
    ensures
        s == button_scene(action@),
{
    if str_eq(action, "arrow_down_click") || str_eq(action, "off") || str_eq(
        action,
        "brightness_down_click",
    ) {
        Some(Scene::AllOff)
    } else if str_eq(action, "arrow_up_click") || str_eq(action, "on") || str_eq(
        action,
        "brightness_up_click",
    ) {
        Some(Scene::AllOn(Brightness::Medium, ColorTemp::White))
    } else if str_eq(action, "arrow_left_click") || str_eq(action, "left") {
        Some(Scene::Movie)
    } else if str_eq(action, "arrow_right_click") || str_eq(action, "right") {
        Some(Scene::Party)
    } else {
        None
    }
}

/// Whether a message on `topic` comes from the remote control: the topic
/// holds the controller's name.
pub fn is_controller_topic(topic: &str) -> (r: bool)
    ensures
        r == contains_seq(topic@, DeviceName::Controller.spec_name()),
{
    str_contains(topic, DeviceName::Controller.as_str())
}

/// The scene a message from the broker asks for: one on a topic of the
/// remote control that carries a button action with a scene; none otherwise.
pub open spec fn message_scene(topic: Seq<char>, action: Option<Seq<char>>) -> Option<Scene> {
    if contains_seq(topic, DeviceName::Controller.spec_name()) {
        match action {
            Some(a) => button_scene(a),
            None => None,
        }
    } else {
        None
    }
}

/// The scene to play for a message on `topic` whose payload carried the
/// button action `action` (`None` when it carried none).
pub fn controller_scene(topic: &str, action: Option<&str>) -> (s: Option<Scene>)
    ensures
        s == message_scene(
            topic@,
            match action {
                Some(a) => Some(a@),
                None => None,
            },
        ),
{
    if !is_controller_topic(topic) {
        return None;
    }
    match action {
        Some(a) => scene_for_button(a),
        None => None,
    }
}

/// Only the remote control plays scenes: a message on any other topic, or
/// one without a button action, or with an action that has no scene,
/// switches no light.
pub proof fn lemma_only_controller_buttons_play(topic: Seq<char>, action: Option<Seq<char>>)
    ensures
        !contains_seq(topic, DeviceName::Controller.spec_name()) ==> message_scene(topic, action)
            is None,
        action is None ==> message_scene(topic, action) is None,
        message_scene(topic, action) is Some ==> (action matches Some(a) && message_scene(
            topic,
            action,
        ) == button_scene(a)),
{
}

/// Every brightness level is within 0..=254 and every colour temperature
/// within 250..=454, the ranges the lights accept.
pub proof fn lemma_levels_in_range(b: Brightness, t: ColorTemp)
    ensures
        b.spec_value() <= 254,
        250 <= t.spec_value() <= 454,
{
}

/// What each command tells a light, whatever the plan: switching on sends
/// the JSON object `{"state":"ON"}`, switching off `{"state":"OFF"}`, and a
/// full state sends the state word, the brightness and the colour
/// temperature (as decimal numbers), in that order.
pub proof fn lemma_command_texts(p: DevicePayload)
    ensures
        command_json(DeviceCommand::TurnOn) == "{\"state\":\"ON\"}"@,
        command_json(DeviceCommand::TurnOff) == "{\"state\":\"OFF\"}"@,
        command_json(DeviceCommand::Send(p)) == "{\"state\":\""@ + (if p.state == LightState::On {
            "ON"@
        } else {
            "OFF"@
        }) + "\",\"brightness\":"@ + decimal(p.brightness.spec_value() as nat)
            + ",\"color_temp\":"@ + decimal(p.color_temp.spec_value() as nat) + "}"@,
{
    reveal_strlit("{\"state\":\"ON\"}");
    reveal_strlit("{\"state\":\"OFF\"}");
    reveal_strlit("{\"state\":\"");
    reveal_strlit("\"}");
    reveal_strlit("ON");
    reveal_strlit("OFF");
    assert(command_json(DeviceCommand::TurnOn) =~= "{\"state\":\"ON\"}"@);
    assert(command_json(DeviceCommand::TurnOff) =~= "{\"state\":\"OFF\"}"@);
}

/// The message for a command goes to the commanded device's set topic,
/// `zigbee2mqtt/<name>/set`, and no other device's.
pub proof fn lemma_command_topic(d: DeviceName)
    ensures
        set_topic_of(d) == "zigbee2mqtt/"@ + d.spec_name() + "/set"@,
{
}

/// Which remote-control buttons play which scene: down (or off, or
/// dimming down) switches all off, up (or on, or brightening) switches all
/// on at medium white, left plays the movie scene, right the party scene;
/// no button plays the night scene, and every other action plays nothing.
pub proof fn lemma_buttons_choose_scenes(a: Seq<char>)
    ensures
        button_scene(a) == Some(Scene::AllOff) <==> (a == "arrow_down_click"@ || a == "off"@ || a
            == "brightness_down_click"@),
        button_scene(a) == Some(Scene::AllOn(Brightness::Medium, ColorTemp::White)) <==> (a
            == "arrow_up_click"@ || a == "on"@ || a == "brightness_up_click"@),
        button_scene(a) == Some(Scene::Movie) <==> (a == "arrow_left_click"@ || a == "left"@),
        button_scene(a) == Some(Scene::Party) <==> (a == "arrow_right_click"@ || a == "right"@),
        button_scene(a) != Some(Scene::Night),
        button_scene(a) is None <==> !(a == "arrow_down_click"@ || a == "off"@ || a
            == "brightness_down_click"@ || a == "arrow_up_click"@ || a == "on"@ || a
            == "brightness_up_click"@ || a == "arrow_left_click"@ || a == "left"@ || a
            == "arrow_right_click"@ || a == "right"@),
{
    reveal_strlit("arrow_down_click");
    reveal_strlit("off");
    reveal_strlit("brightness_down_click");
    reveal_strlit("arrow_up_click");
    reveal_strlit("on");
    reveal_strlit("brightness_up_click");
    reveal_strlit("arrow_left_click");
    reveal_strlit("left");
    reveal_strlit("arrow_right_click");
    reveal_strlit("right");
    let lits = seq![
        "arrow_down_click"@,
        "off"@,
        "brightness_down_click"@,
        "arrow_up_click"@,
        "on"@,
        "brightness_up_click"@,
        "arrow_left_click"@,
        "left"@,
        "arrow_right_click"@,
        "right"@,
    ];
    assert forall|i: int, j: int| 0 <= i < 10 && 0 <= j < 10 && i != j implies lits[i] != lits[j] by {
        if lits[i].len() == lits[j].len() {
            assert(lits[i][6] != lits[j][6] || lits[i][0] != lits[j][0]);
        }
    }
}

/// The brightness levels rise from `Min` to `Max`, which is the lights'
/// maximum 254; the colour temperatures rise from `Blue`, the coldest the
/// lights accept (250), through `White` to `Warm`, the warmest (454).
pub proof fn lemma_levels_ordered()
    ensures
        Brightness::Min.spec_value() < Brightness::Low.spec_value(),
        Brightness::Low.spec_value() < Brightness::Medium.spec_value(),
        Brightness::Medium.spec_value() < Brightness::High.spec_value(),
        Brightness::High.spec_value() < Brightness::Max.spec_value(),
        Brightness::Max.spec_value() == 254,
        ColorTemp::Blue.spec_value() == 250,
        ColorTemp::Blue.spec_value() < ColorTemp::White.spec_value(),
        ColorTemp::White.spec_value() < ColorTemp::Warm.spec_value(),
        ColorTemp::Warm.spec_value() == 454,
{
}

} // verus!
