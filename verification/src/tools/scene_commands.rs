//! What each scene tells each light, stated device by device: which lights
//! go off, which come on, and at what brightness and colour temperature.

use vstd::prelude::*;
use crate::tools::zigbee::{
    bedroom_devices, each_step, kitchen_devices, livingroom_devices, one_step, scene_plan,
    Brightness, ColorTemp, DeviceCommand, DeviceName, DevicePayload, LightState, Scene, SceneStep,
};

verus! {

/// Every command of `p` satisfies `f` for the device it addresses.
pub open spec fn device_commands(
    p: Seq<SceneStep>,
    f: spec_fn(DeviceName, DeviceCommand) -> bool,
) -> bool {
    forall|i: int|
        0 <= i < p.len() ==> match #[trigger] p[i] {
            SceneStep::Publish(d, c) => f(d, c),
            SceneStep::Sleep => true,
        }
}

/// A Hue kitchen light.
pub open spec fn in_kitchen(d: DeviceName) -> bool {
    ||| d == DeviceName::HueKitchen1
    ||| d == DeviceName::HueKitchen2
    ||| d == DeviceName::HueKitchen3
}

/// A Hue living-room light.
pub open spec fn in_livingroom(d: DeviceName) -> bool {
    ||| d == DeviceName::HueLivingroom1
    ||| d == DeviceName::HueLivingroom2
    ||| d == DeviceName::HueLivingroom3
    ||| d == DeviceName::HueLivingroom4
    ||| d == DeviceName::HueLivingroom5
    ||| d == DeviceName::HueLivingroom6
}

/// A Hue bedroom light.
pub open spec fn in_bedroom(d: DeviceName) -> bool {
    ||| d == DeviceName::HueBedroom1
    ||| d == DeviceName::HueBedroom2
    ||| d == DeviceName::HueBedroom3
}

/// A full state: on (or off) at a brightness and colour temperature.
pub open spec fn full(state: LightState, b: Brightness, t: ColorTemp) -> DeviceCommand {
    DeviceCommand::Send(DevicePayload { state, brightness: b, color_temp: t })
}

proof fn lemma_concat_devices(
    a: Seq<SceneStep>,
    b: Seq<SceneStep>,
    f: spec_fn(DeviceName, DeviceCommand) -> bool,
)
    requires
        device_commands(a, f),
        device_commands(b, f),
    ensures
        device_commands(a + b, f),
{
    assert forall|i: int| 0 <= i < (a + b).len() implies match #[trigger] (a + b)[i] {
        SceneStep::Publish(d, c) => f(d, c),
        SceneStep::Sleep => true,
    } by {
        if i >= a.len() {
            assert((a + b)[i] == b[i - a.len()]);
        }
    }
}

proof fn lemma_room(devs: Seq<DeviceName>, c: DeviceCommand, f: spec_fn(DeviceName, DeviceCommand) -> bool)
    requires
        forall|j: int| 0 <= j < devs.len() ==> f(#[trigger] devs[j], c),
    ensures
        device_commands(each_step(devs, c), f),
{
    let e = each_step(devs, c);
    assert forall|i: int| 0 <= i < e.len() implies match #[trigger] e[i] {
        SceneStep::Publish(d, c2) => f(d, c2),
        SceneStep::Sleep => true,
    } by {
        if i % 2 == 1 {
            assert(0 <= i / 2 < devs.len());
            assert(f(devs[i / 2], c));
        }
    }
}

proof fn lemma_kitchen(c: DeviceCommand, f: spec_fn(DeviceName, DeviceCommand) -> bool)
    requires
        forall|d: DeviceName| in_kitchen(d) ==> #[trigger] f(d, c),
    ensures
        device_commands(each_step(kitchen_devices(), c), f),
{
    let k = kitchen_devices();
    assert forall|j: int| 0 <= j < k.len() implies f(#[trigger] k[j], c) by {
        assert(in_kitchen(k[j]));
    }
    lemma_room(k, c, f);
}

proof fn lemma_livingroom(c: DeviceCommand, f: spec_fn(DeviceName, DeviceCommand) -> bool)
    requires
        forall|d: DeviceName| in_livingroom(d) ==> #[trigger] f(d, c),
    ensures
        device_commands(each_step(livingroom_devices(), c), f),
{
    let l = livingroom_devices();
    assert forall|j: int| 0 <= j < l.len() implies f(#[trigger] l[j], c) by {
        assert(in_livingroom(l[j]));
    }
    lemma_room(l, c, f);
}

proof fn lemma_bedroom(c: DeviceCommand, f: spec_fn(DeviceName, DeviceCommand) -> bool)
    requires
        forall|d: DeviceName| in_bedroom(d) ==> #[trigger] f(d, c),
    ensures
        device_commands(each_step(bedroom_devices(), c), f),
{
    let b = bedroom_devices();
    assert forall|j: int| 0 <= j < b.len() implies f(#[trigger] b[j], c) by {
        assert(in_bedroom(b[j]));
    }
    lemma_room(b, c, f);
}

proof fn lemma_single(d: DeviceName, c: DeviceCommand, f: spec_fn(DeviceName, DeviceCommand) -> bool)
    requires
        f(d, c),
    ensures
        device_commands(one_step(d, c), f),
{
}

proof fn lemma_eight(
    s1: Seq<SceneStep>,
    s2: Seq<SceneStep>,
    s3: Seq<SceneStep>,
    s4: Seq<SceneStep>,
    s5: Seq<SceneStep>,
    s6: Seq<SceneStep>,
    s7: Seq<SceneStep>,
    s8: Seq<SceneStep>,
    f: spec_fn(DeviceName, DeviceCommand) -> bool,
)
    requires
        device_commands(s1, f),
        device_commands(s2, f),
        device_commands(s3, f),
        device_commands(s4, f),
        device_commands(s5, f),
        device_commands(s6, f),
        device_commands(s7, f),
        device_commands(s8, f),
    ensures
        device_commands(s1 + s2 + s3 + s4 + s5 + s6 + s7 + s8, f),
        device_commands(s1 + s2 + s3 + s4 + s5 + s6 + s7 + s8 + seq![SceneStep::Sleep], f),
{
    lemma_concat_devices(s1, s2, f);
    lemma_concat_devices(s1 + s2, s3, f);
    lemma_concat_devices(s1 + s2 + s3, s4, f);
    lemma_concat_devices(s1 + s2 + s3 + s4, s5, f);
    lemma_concat_devices(s1 + s2 + s3 + s4 + s5, s6, f);
    lemma_concat_devices(s1 + s2 + s3 + s4 + s5 + s6, s7, f);
    lemma_concat_devices(s1 + s2 + s3 + s4 + s5 + s6 + s7, s8, f);
    lemma_concat_devices(
        s1 + s2 + s3 + s4 + s5 + s6 + s7 + s8,
        seq![SceneStep::Sleep],
        f,
    );
}

/// All off: every light of the house is switched off, the remote control is
/// never addressed.
pub proof fn lemma_all_off_commands()
    ensures
        device_commands(
            scene_plan(Scene::AllOff),
            |d: DeviceName, c: DeviceCommand| d != DeviceName::Controller && c
                == DeviceCommand::TurnOff,
        ),
{
    let f = |d: DeviceName, c: DeviceCommand| d != DeviceName::Controller && c
        == DeviceCommand::TurnOff;
    let off = DeviceCommand::TurnOff;
    lemma_kitchen(off, f);
    lemma_livingroom(off, f);
    lemma_bedroom(off, f);
    lemma_single(DeviceName::BallLight, off, f);
    lemma_single(DeviceName::IkeaMushroom, off, f);
    lemma_single(DeviceName::SofaLight, off, f);
    lemma_single(DeviceName::IkeaDonut, off, f);
    lemma_single(DeviceName::LightBulb, off, f);
    lemma_eight(
        each_step(kitchen_devices(), off),
        one_step(DeviceName::BallLight, off),
        one_step(DeviceName::IkeaMushroom, off),
        one_step(DeviceName::SofaLight, off),
        each_step(livingroom_devices(), off),
        one_step(DeviceName::IkeaDonut, off),
        one_step(DeviceName::LightBulb, off),
        each_step(bedroom_devices(), off),
        f,
    );
}

/// All on: every Hue light gets the requested brightness and temperature,
/// switched on; every other light of the house is switched on.
pub proof fn lemma_all_on_commands(b: Brightness, t: ColorTemp)
    ensures
        device_commands(
            scene_plan(Scene::AllOn(b, t)),
            |d: DeviceName, c: DeviceCommand|
                if in_kitchen(d) || in_livingroom(d) || in_bedroom(d) {
                    c == full(LightState::On, b, t)
                } else {
                    d != DeviceName::Controller && c == DeviceCommand::TurnOn
                },
        ),
{
    let f = |d: DeviceName, c: DeviceCommand|
        if in_kitchen(d) || in_livingroom(d) || in_bedroom(d) {
            c == full(LightState::On, b, t)
        } else {
            d != DeviceName::Controller && c == DeviceCommand::TurnOn
        };
    let on = DeviceCommand::TurnOn;
    let hue = full(LightState::On, b, t);
    lemma_kitchen(hue, f);
    lemma_livingroom(hue, f);
    lemma_bedroom(hue, f);
    lemma_single(DeviceName::BallLight, on, f);
    lemma_single(DeviceName::IkeaMushroom, on, f);
    lemma_single(DeviceName::SofaLight, on, f);
    lemma_single(DeviceName::IkeaDonut, on, f);
    lemma_single(DeviceName::LightBulb, on, f);
    lemma_eight(
        each_step(kitchen_devices(), hue),
        one_step(DeviceName::BallLight, on),
        one_step(DeviceName::IkeaMushroom, on),
        one_step(DeviceName::SofaLight, on),
        each_step(livingroom_devices(), hue),
        one_step(DeviceName::IkeaDonut, on),
        one_step(DeviceName::LightBulb, on),
        each_step(bedroom_devices(), hue),
        f,
    );
}

/// Night: only the living-room Hue lights stay on, at minimum brightness
/// and warm; every other light of the house is switched off.
pub proof fn lemma_night_commands()
    ensures
        device_commands(
            scene_plan(Scene::Night),
            |d: DeviceName, c: DeviceCommand|
                if in_livingroom(d) {
                    c == full(LightState::On, Brightness::Min, ColorTemp::Warm)
                } else {
                    d != DeviceName::Controller && c == DeviceCommand::TurnOff
                },
        ),
{
    let f = |d: DeviceName, c: DeviceCommand|
        if in_livingroom(d) {
            c == full(LightState::On, Brightness::Min, ColorTemp::Warm)
        } else {
            d != DeviceName::Controller && c == DeviceCommand::TurnOff
        };
    let off = DeviceCommand::TurnOff;
    let dim = full(LightState::On, Brightness::Min, ColorTemp::Warm);
    lemma_kitchen(off, f);
    lemma_livingroom(dim, f);
    lemma_bedroom(off, f);
    lemma_single(DeviceName::BallLight, off, f);
    lemma_single(DeviceName::IkeaMushroom, off, f);
    lemma_single(DeviceName::SofaLight, off, f);
    lemma_single(DeviceName::IkeaDonut, off, f);
    lemma_single(DeviceName::LightBulb, off, f);
    lemma_eight(
        each_step(kitchen_devices(), off),
        one_step(DeviceName::BallLight, off),
        one_step(DeviceName::IkeaMushroom, off),
        one_step(DeviceName::SofaLight, off),
        each_step(livingroom_devices(), dim),
        one_step(DeviceName::IkeaDonut, off),
        one_step(DeviceName::LightBulb, off),
        each_step(bedroom_devices(), off),
        f,
    );
}

/// Movie: the living-room Hue lights at minimum brightness and warm; the
/// sofa light, donut and bulb on; the kitchen, ball light, mushroom and
/// bedroom off.
pub proof fn lemma_movie_commands()
    ensures
        device_commands(
            scene_plan(Scene::Movie),
            |d: DeviceName, c: DeviceCommand|
                if in_livingroom(d) {
                    c == full(LightState::On, Brightness::Min, ColorTemp::Warm)
                } else if d == DeviceName::SofaLight || d == DeviceName::IkeaDonut || d
                    == DeviceName::LightBulb {
                    c == DeviceCommand::TurnOn
                } else {
                    d != DeviceName::Controller && c == DeviceCommand::TurnOff
                },
        ),
{
    let f = |d: DeviceName, c: DeviceCommand|
        if in_livingroom(d) {
            c == full(LightState::On, Brightness::Min, ColorTemp::Warm)
        } else if d == DeviceName::SofaLight || d == DeviceName::IkeaDonut || d
            == DeviceName::LightBulb {
            c == DeviceCommand::TurnOn
        } else {
            d != DeviceName::Controller && c == DeviceCommand::TurnOff
        };
    let off = DeviceCommand::TurnOff;
    let on = DeviceCommand::TurnOn;
    let dim = full(LightState::On, Brightness::Min, ColorTemp::Warm);
    lemma_kitchen(off, f);
    lemma_livingroom(dim, f);
    lemma_bedroom(off, f);
    lemma_single(DeviceName::BallLight, off, f);
    lemma_single(DeviceName::IkeaMushroom, off, f);
    lemma_single(DeviceName::SofaLight, on, f);
    lemma_single(DeviceName::IkeaDonut, on, f);
    lemma_single(DeviceName::LightBulb, on, f);
    lemma_eight(
        each_step(kitchen_devices(), off),
        one_step(DeviceName::BallLight, off),
        one_step(DeviceName::IkeaMushroom, off),
        each_step(livingroom_devices(), dim),
        one_step(DeviceName::SofaLight, on),
        one_step(DeviceName::IkeaDonut, on),
        one_step(DeviceName::LightBulb, on),
        each_step(bedroom_devices(), off),
        f,
    );
}

/// Party: every Hue light low and warm, the mushroom medium and warm, the
/// sofa light, donut and bulb on; only the ball light goes off.
pub proof fn lemma_party_commands()
    ensures
        device_commands(
            scene_plan(Scene::Party),
            |d: DeviceName, c: DeviceCommand|
                if in_kitchen(d) || in_livingroom(d) || in_bedroom(d) {
                    c == full(LightState::On, Brightness::Low, ColorTemp::Warm)
                } else if d == DeviceName::IkeaMushroom {
                    c == full(LightState::On, Brightness::Medium, ColorTemp::Warm)
                } else if d == DeviceName::BallLight {
                    c == DeviceCommand::TurnOff
                } else {
                    d != DeviceName::Controller && c == DeviceCommand::TurnOn
                },
        ),
{
    let f = |d: DeviceName, c: DeviceCommand|
        if in_kitchen(d) || in_livingroom(d) || in_bedroom(d) {
            c == full(LightState::On, Brightness::Low, ColorTemp::Warm)
        } else if d == DeviceName::IkeaMushroom {
            c == full(LightState::On, Brightness::Medium, ColorTemp::Warm)
        } else if d == DeviceName::BallLight {
            c == DeviceCommand::TurnOff
        } else {
            d != DeviceName::Controller && c == DeviceCommand::TurnOn
        };
    let off = DeviceCommand::TurnOff;
    let on = DeviceCommand::TurnOn;
    let low = full(LightState::On, Brightness::Low, ColorTemp::Warm);
    let medium = full(LightState::On, Brightness::Medium, ColorTemp::Warm);
    lemma_kitchen(low, f);
    lemma_livingroom(low, f);
    lemma_bedroom(low, f);
    lemma_single(DeviceName::BallLight, off, f);
    lemma_single(DeviceName::IkeaMushroom, medium, f);
    lemma_single(DeviceName::SofaLight, on, f);
    lemma_single(DeviceName::IkeaDonut, on, f);
    lemma_single(DeviceName::LightBulb, on, f);
    lemma_eight(
        each_step(kitchen_devices(), low),
        one_step(DeviceName::BallLight, off),
        one_step(DeviceName::IkeaMushroom, medium),
        one_step(DeviceName::SofaLight, on),
        each_step(livingroom_devices(), low),
        one_step(DeviceName::IkeaDonut, on),
        one_step(DeviceName::LightBulb, on),
        each_step(bedroom_devices(), low),
        f,
    );
}

} // verus!
