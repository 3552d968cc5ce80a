//! What every scene plan promises: a pause before each command, one command
//! for each light of the house and none for the remote control, and the
//! all-off and all-on scenes doing what their names say.

use vstd::prelude::*;
use crate::tools::zigbee::{
    all_off_plan, all_on_plan, bedroom_devices, each_step, kitchen_devices, livingroom_devices,
    movie_plan, night_plan, on_payload, one_step, party_plan, scene_plan, Brightness, ColorTemp,
    set_topic_of, DeviceCommand, DeviceName, Scene, SceneStep,
};

verus! {

/// Pauses and commands alternate, starting with a pause: the steps at odd
/// positions are exactly the commands, so each command follows a pause.
pub open spec fn paced(p: Seq<SceneStep>) -> bool {
    forall|i: int| 0 <= i < p.len() ==> ((#[trigger] p[i] is Publish) <==> i % 2 == 1)
}

/// The device a step addresses (the remote control stands for a pause).
pub open spec fn step_device(s: SceneStep) -> DeviceName {
    match s {
        SceneStep::Publish(d, _) => d,
        SceneStep::Sleep => DeviceName::Controller,
    }
}

/// The devices commanded by a paced plan, in order.
pub open spec fn commanded_devices(p: Seq<SceneStep>) -> Seq<DeviceName> {
    Seq::new(p.len() / 2, |k: int| step_device(p[2 * k + 1]))
}

/// Each light of the house occurs exactly once, the remote control never.
pub open spec fn each_light_once(s: Seq<DeviceName>) -> bool {
    &&& s.no_duplicates()
    &&& forall|d: DeviceName| s.contains(d) <==> d != DeviceName::Controller
}

proof fn lemma_concat_paced(a: Seq<SceneStep>, b: Seq<SceneStep>)
    requires
        paced(a),
        paced(b),
        a.len() % 2 == 0,
    ensures
        paced(a + b),
        commanded_devices(a + b) == commanded_devices(a) + commanded_devices(b),
        (a + b).len() % 2 == b.len() % 2,
{
    let m = a.len() / 2;
    assert(a.len() == 2 * m);
    assert forall|i: int| 0 <= i < (a + b).len() implies ((#[trigger] (a + b)[i] is Publish) <==> i
        % 2 == 1) by {
        if i >= a.len() {
            assert((a + b)[i] == b[i - a.len()]);
            assert((i - a.len()) % 2 == i % 2);
        }
    }
    let l = commanded_devices(a + b);
    let r = commanded_devices(a) + commanded_devices(b);
    assert((a.len() + b.len()) / 2 == m + b.len() / 2);
    assert forall|k: int| 0 <= k < l.len() implies l[k] == r[k] by {
        if k < m {
            assert((a + b)[2 * k + 1] == a[2 * k + 1]);
        } else {
            assert((a + b)[2 * k + 1] == b[2 * (k - m) + 1]);
        }
    }
    assert(l =~= r);
}

proof fn lemma_each_paced(devs: Seq<DeviceName>, c: DeviceCommand)
    ensures
        paced(each_step(devs, c)),
        each_step(devs, c).len() % 2 == 0,
        commanded_devices(each_step(devs, c)) == devs,
{
    let e = each_step(devs, c);
    assert forall|k: int| 0 <= k < devs.len() implies commanded_devices(e)[k] == devs[k] by {
        assert((2 * k + 1) / 2 == k);
        assert((2 * k + 1) % 2 == 1);
    }
    assert(commanded_devices(e) =~= devs);
}

proof fn lemma_one_paced(d: DeviceName, c: DeviceCommand)
    ensures
        paced(one_step(d, c)),
        one_step(d, c).len() == 2,
        commanded_devices(one_step(d, c)) == seq![d],
{
    assert(commanded_devices(one_step(d, c)) =~= seq![d]);
}

proof fn lemma_pause_paced()
    ensures
        paced(seq![SceneStep::Sleep]),
        commanded_devices(seq![SceneStep::Sleep]) == Seq::<DeviceName>::empty(),
{
    assert(commanded_devices(seq![SceneStep::Sleep]) =~= Seq::<DeviceName>::empty());
}

proof fn lemma_eight_blocks(
    s1: Seq<SceneStep>,
    s2: Seq<SceneStep>,
    s3: Seq<SceneStep>,
    s4: Seq<SceneStep>,
    s5: Seq<SceneStep>,
    s6: Seq<SceneStep>,
    s7: Seq<SceneStep>,
    s8: Seq<SceneStep>,
)
    requires
        paced(s1) && s1.len() % 2 == 0,
        paced(s2) && s2.len() % 2 == 0,
        paced(s3) && s3.len() % 2 == 0,
        paced(s4) && s4.len() % 2 == 0,
        paced(s5) && s5.len() % 2 == 0,
        paced(s6) && s6.len() % 2 == 0,
        paced(s7) && s7.len() % 2 == 0,
        paced(s8) && s8.len() % 2 == 0,
    ensures
        paced(s1 + s2 + s3 + s4 + s5 + s6 + s7 + s8),
        paced(s1 + s2 + s3 + s4 + s5 + s6 + s7 + s8 + seq![SceneStep::Sleep]),
        commanded_devices(s1 + s2 + s3 + s4 + s5 + s6 + s7 + s8) == commanded_devices(s1)
            + commanded_devices(s2) + commanded_devices(s3) + commanded_devices(s4)
            + commanded_devices(s5) + commanded_devices(s6) + commanded_devices(s7)
            + commanded_devices(s8),
        commanded_devices(s1 + s2 + s3 + s4 + s5 + s6 + s7 + s8 + seq![SceneStep::Sleep])
            == commanded_devices(s1 + s2 + s3 + s4 + s5 + s6 + s7 + s8),
{
    lemma_concat_paced(s1, s2);
    lemma_concat_paced(s1 + s2, s3);
    lemma_concat_paced(s1 + s2 + s3, s4);
    lemma_concat_paced(s1 + s2 + s3 + s4, s5);
    lemma_concat_paced(s1 + s2 + s3 + s4 + s5, s6);
    lemma_concat_paced(s1 + s2 + s3 + s4 + s5 + s6, s7);
    lemma_concat_paced(s1 + s2 + s3 + s4 + s5 + s6 + s7, s8);
    let all = s1 + s2 + s3 + s4 + s5 + s6 + s7 + s8;
    lemma_pause_paced();
    lemma_concat_paced(all, seq![SceneStep::Sleep]);
    assert(commanded_devices(all) + Seq::<DeviceName>::empty() =~= commanded_devices(all));
}

/// The order in which most scenes visit the lights.
pub open spec fn house_order() -> Seq<DeviceName> {
    kitchen_devices() + seq![DeviceName::BallLight, DeviceName::IkeaMushroom, DeviceName::SofaLight]
        + livingroom_devices() + seq![DeviceName::IkeaDonut, DeviceName::LightBulb]
        + bedroom_devices()
}

/// The order in which the movie scene visits the lights: the sofa light
/// comes after the living room.
pub open spec fn movie_order() -> Seq<DeviceName> {
    kitchen_devices() + seq![DeviceName::BallLight, DeviceName::IkeaMushroom]
        + livingroom_devices() + seq![
        DeviceName::SofaLight,
        DeviceName::IkeaDonut,
        DeviceName::LightBulb,
    ] + bedroom_devices()
}

spec fn house_index(d: DeviceName) -> int {
    match d {
        DeviceName::HueKitchen1 => 0,
        DeviceName::HueKitchen2 => 1,
        DeviceName::HueKitchen3 => 2,
        DeviceName::BallLight => 3,
        DeviceName::IkeaMushroom => 4,
        DeviceName::SofaLight => 5,
        DeviceName::HueLivingroom1 => 6,
        DeviceName::HueLivingroom2 => 7,
        DeviceName::HueLivingroom3 => 8,
        DeviceName::HueLivingroom4 => 9,
        DeviceName::HueLivingroom5 => 10,
        DeviceName::HueLivingroom6 => 11,
        DeviceName::IkeaDonut => 12,
        DeviceName::LightBulb => 13,
        DeviceName::HueBedroom1 => 14,
        DeviceName::HueBedroom2 => 15,
        DeviceName::HueBedroom3 => 16,
        DeviceName::Controller => -1,
    }
}

spec fn movie_index(d: DeviceName) -> int {
    match d {
        DeviceName::HueKitchen1 => 0,
        DeviceName::HueKitchen2 => 1,
        DeviceName::HueKitchen3 => 2,
        DeviceName::BallLight => 3,
        DeviceName::IkeaMushroom => 4,
        DeviceName::HueLivingroom1 => 5,
        DeviceName::HueLivingroom2 => 6,
        DeviceName::HueLivingroom3 => 7,
        DeviceName::HueLivingroom4 => 8,
        DeviceName::HueLivingroom5 => 9,
        DeviceName::HueLivingroom6 => 10,
        DeviceName::SofaLight => 11,
        DeviceName::IkeaDonut => 12,
        DeviceName::LightBulb => 13,
        DeviceName::HueBedroom1 => 14,
        DeviceName::HueBedroom2 => 15,
        DeviceName::HueBedroom3 => 16,
        DeviceName::Controller => -1,
    }
}

proof fn lemma_indexed_order(s: Seq<DeviceName>, idx: spec_fn(DeviceName) -> int)
    requires
        idx(DeviceName::Controller) == -1,
        forall|k: int| 0 <= k < s.len() ==> idx(#[trigger] s[k]) == k,
        forall|d: DeviceName|
            d != DeviceName::Controller ==> 0 <= #[trigger] idx(d) < s.len() && s[idx(d)] == d,
    ensures
        each_light_once(s),
{
    assert forall|i: int, j: int| 0 <= i < s.len() && 0 <= j < s.len() && i != j implies s[i]
        != s[j] by {
        assert(idx(s[i]) == i);
        assert(idx(s[j]) == j);
    }
    assert forall|d: DeviceName| s.contains(d) <==> d != DeviceName::Controller by {
        if s.contains(d) {
            let k = choose|k: int| 0 <= k < s.len() && s[k] == d;
            assert(idx(s[k]) == k);
        }
        if d != DeviceName::Controller {
            assert(s[idx(d)] == d);
        }
    }
}

proof fn lemma_house_order_each_light_once()
    ensures
        each_light_once(house_order()),
{
    let s = house_order();
    let idx = |d: DeviceName| house_index(d);
    assert(s =~= seq![
        DeviceName::HueKitchen1,
        DeviceName::HueKitchen2,
        DeviceName::HueKitchen3,
        DeviceName::BallLight,
        DeviceName::IkeaMushroom,
        DeviceName::SofaLight,
        DeviceName::HueLivingroom1,
        DeviceName::HueLivingroom2,
        DeviceName::HueLivingroom3,
        DeviceName::HueLivingroom4,
        DeviceName::HueLivingroom5,
        DeviceName::HueLivingroom6,
        DeviceName::IkeaDonut,
        DeviceName::LightBulb,
        DeviceName::HueBedroom1,
        DeviceName::HueBedroom2,
        DeviceName::HueBedroom3,
    ]);
    assert forall|k: int| 0 <= k < s.len() implies idx(#[trigger] s[k]) == k by {
        if k < 9 {
            if k < 5 {
                if k == 0 {} else if k == 1 {} else if k == 2 {} else if k == 3 {} else {}
            } else {
                if k == 5 {} else if k == 6 {} else if k == 7 {} else {}
            }
        } else {
            if k < 13 {
                if k == 9 {} else if k == 10 {} else if k == 11 {} else {}
            } else {
                if k == 13 {} else if k == 14 {} else if k == 15 {} else {}
            }
        }
    }
    lemma_indexed_order(s, idx);
}

proof fn lemma_movie_order_each_light_once()
    ensures
        each_light_once(movie_order()),
{
    let s = movie_order();
    let idx = |d: DeviceName| movie_index(d);
    assert(s =~= seq![
        DeviceName::HueKitchen1,
        DeviceName::HueKitchen2,
        DeviceName::HueKitchen3,
        DeviceName::BallLight,
        DeviceName::IkeaMushroom,
        DeviceName::HueLivingroom1,
        DeviceName::HueLivingroom2,
        DeviceName::HueLivingroom3,
        DeviceName::HueLivingroom4,
        DeviceName::HueLivingroom5,
        DeviceName::HueLivingroom6,
        DeviceName::SofaLight,
        DeviceName::IkeaDonut,
        DeviceName::LightBulb,
        DeviceName::HueBedroom1,
        DeviceName::HueBedroom2,
        DeviceName::HueBedroom3,
    ]);
    assert forall|k: int| 0 <= k < s.len() implies idx(#[trigger] s[k]) == k by {
        if k < 9 {
            if k < 5 {
                if k == 0 {} else if k == 1 {} else if k == 2 {} else if k == 3 {} else {}
            } else {
                if k == 5 {} else if k == 6 {} else if k == 7 {} else {}
            }
        } else {
            if k < 13 {
                if k == 9 {} else if k == 10 {} else if k == 11 {} else {}
            } else {
                if k == 13 {} else if k == 14 {} else if k == 15 {} else {}
            }
        }
    }
    lemma_indexed_order(s, idx);
}

/// Every command of `p` satisfies `f`.
pub open spec fn all_commands(p: Seq<SceneStep>, f: spec_fn(DeviceCommand) -> bool) -> bool {
    forall|i: int|
        0 <= i < p.len() ==> match #[trigger] p[i] {
            SceneStep::Publish(_, c) => f(c),
            SceneStep::Sleep => true,
        }
}

proof fn lemma_eight_all(
    s1: Seq<SceneStep>,
    s2: Seq<SceneStep>,
    s3: Seq<SceneStep>,
    s4: Seq<SceneStep>,
    s5: Seq<SceneStep>,
    s6: Seq<SceneStep>,
    s7: Seq<SceneStep>,
    s8: Seq<SceneStep>,
    f: spec_fn(DeviceCommand) -> bool,
)
    requires
        all_commands(s1, f),
        all_commands(s2, f),
        all_commands(s3, f),
        all_commands(s4, f),
        all_commands(s5, f),
        all_commands(s6, f),
        all_commands(s7, f),
        all_commands(s8, f),
    ensures
        all_commands(s1 + s2 + s3 + s4 + s5 + s6 + s7 + s8, f),
{
    let p = s1 + s2 + s3 + s4 + s5 + s6 + s7 + s8;
    let l1 = s1.len();
    let l2 = l1 + s2.len();
    let l3 = l2 + s3.len();
    let l4 = l3 + s4.len();
    let l5 = l4 + s5.len();
    let l6 = l5 + s6.len();
    let l7 = l6 + s7.len();
    assert forall|i: int| 0 <= i < p.len() implies match #[trigger] p[i] {
        SceneStep::Publish(_, c) => f(c),
        SceneStep::Sleep => true,
    } by {
        if i < l1 {
            assert(p[i] == s1[i]);
        } else if i < l2 {
            assert(p[i] == s2[i - l1]);
        } else if i < l3 {
            assert(p[i] == s3[i - l2]);
        } else if i < l4 {
            assert(p[i] == s4[i - l3]);
        } else if i < l5 {
            assert(p[i] == s5[i - l4]);
        } else if i < l6 {
            assert(p[i] == s6[i - l5]);
        } else if i < l7 {
            assert(p[i] == s7[i - l6]);
        } else {
            assert(p[i] == s8[i - l7]);
        }
    }
}

proof fn lemma_each_all(devs: Seq<DeviceName>, c: DeviceCommand, f: spec_fn(DeviceCommand) -> bool)
    requires
        f(c),
    ensures
        all_commands(each_step(devs, c), f),
{
}

proof fn lemma_one_all(d: DeviceName, c: DeviceCommand, f: spec_fn(DeviceCommand) -> bool)
    requires
        f(c),
    ensures
        all_commands(one_step(d, c), f),
{
}

/// Every scene pauses before each command, and sends exactly one command to
/// each light of the house and none to the remote control, visiting the
/// kitchen first and the bedroom last; only the movie scene moves the sofa
/// light after the living room.
pub proof fn lemma_scene_commands_each_light_once(s: Scene)
    ensures
        paced(scene_plan(s)),
        each_light_once(commanded_devices(scene_plan(s))),
        commanded_devices(scene_plan(s)) == if s is Movie {
            movie_order()
        } else {
            house_order()
        },
{
    let off = DeviceCommand::TurnOff;
    let on = DeviceCommand::TurnOn;
    let k = kitchen_devices();
    let l = livingroom_devices();
    let b = bedroom_devices();
    lemma_house_order_each_light_once();
    lemma_movie_order_each_light_once();
    match s {
        Scene::AllOff => {
            lemma_each_paced(k, off);
            lemma_one_paced(DeviceName::BallLight, off);
            lemma_one_paced(DeviceName::IkeaMushroom, off);
            lemma_one_paced(DeviceName::SofaLight, off);
            lemma_each_paced(l, off);
            lemma_one_paced(DeviceName::IkeaDonut, off);
            lemma_one_paced(DeviceName::LightBulb, off);
            lemma_each_paced(b, off);
            lemma_eight_blocks(
                each_step(k, off),
                one_step(DeviceName::BallLight, off),
                one_step(DeviceName::IkeaMushroom, off),
                one_step(DeviceName::SofaLight, off),
                each_step(l, off),
                one_step(DeviceName::IkeaDonut, off),
                one_step(DeviceName::LightBulb, off),
                each_step(b, off),
            );
            assert(commanded_devices(all_off_plan()) =~= house_order());
        },
        Scene::AllOn(br, t) => {
            let hue = on_payload(br, t);
            lemma_each_paced(k, hue);
            lemma_one_paced(DeviceName::BallLight, on);
            lemma_one_paced(DeviceName::IkeaMushroom, on);
            lemma_one_paced(DeviceName::SofaLight, on);
            lemma_each_paced(l, hue);
            lemma_one_paced(DeviceName::IkeaDonut, on);
            lemma_one_paced(DeviceName::LightBulb, on);
            lemma_each_paced(b, hue);
            lemma_eight_blocks(
                each_step(k, hue),
                one_step(DeviceName::BallLight, on),
                one_step(DeviceName::IkeaMushroom, on),
                one_step(DeviceName::SofaLight, on),
                each_step(l, hue),
                one_step(DeviceName::IkeaDonut, on),
                one_step(DeviceName::LightBulb, on),
                each_step(b, hue),
            );
            assert(commanded_devices(all_on_plan(br, t)) =~= house_order());
        },
        Scene::Night => {
            let dim = on_payload(Brightness::Min, ColorTemp::Warm);
            lemma_each_paced(k, off);
            lemma_one_paced(DeviceName::BallLight, off);
            lemma_one_paced(DeviceName::IkeaMushroom, off);
            lemma_one_paced(DeviceName::SofaLight, off);
            lemma_each_paced(l, dim);
            lemma_one_paced(DeviceName::IkeaDonut, off);
            lemma_one_paced(DeviceName::LightBulb, off);
            lemma_each_paced(b, off);
            lemma_eight_blocks(
                each_step(k, off),
                one_step(DeviceName::BallLight, off),
                one_step(DeviceName::IkeaMushroom, off),
                one_step(DeviceName::SofaLight, off),
                each_step(l, dim),
                one_step(DeviceName::IkeaDonut, off),
                one_step(DeviceName::LightBulb, off),
                each_step(b, off),
            );
            assert(commanded_devices(night_plan()) =~= house_order());
        },
        Scene::Movie => {
            let dim = on_payload(Brightness::Min, ColorTemp::Warm);
            lemma_each_paced(k, off);
            lemma_one_paced(DeviceName::BallLight, off);
            lemma_one_paced(DeviceName::IkeaMushroom, off);
            lemma_each_paced(l, dim);
            lemma_one_paced(DeviceName::SofaLight, on);
            lemma_one_paced(DeviceName::IkeaDonut, on);
            lemma_one_paced(DeviceName::LightBulb, on);
            lemma_each_paced(b, off);
            lemma_eight_blocks(
                each_step(k, off),
                one_step(DeviceName::BallLight, off),
                one_step(DeviceName::IkeaMushroom, off),
                each_step(l, dim),
                one_step(DeviceName::SofaLight, on),
                one_step(DeviceName::IkeaDonut, on),
                one_step(DeviceName::LightBulb, on),
                each_step(b, off),
            );
            assert(commanded_devices(movie_plan()) =~= movie_order());
        },
        Scene::Party => {
            let low = on_payload(Brightness::Low, ColorTemp::Warm);
            let medium = on_payload(Brightness::Medium, ColorTemp::Warm);
            lemma_each_paced(k, low);
            lemma_one_paced(DeviceName::BallLight, off);
            lemma_one_paced(DeviceName::IkeaMushroom, medium);
            lemma_one_paced(DeviceName::SofaLight, on);
            lemma_each_paced(l, low);
            lemma_one_paced(DeviceName::IkeaDonut, on);
            lemma_one_paced(DeviceName::LightBulb, on);
            lemma_each_paced(b, low);
            lemma_eight_blocks(
                each_step(k, low),
                one_step(DeviceName::BallLight, off),
                one_step(DeviceName::IkeaMushroom, medium),
                one_step(DeviceName::SofaLight, on),
                each_step(l, low),
                one_step(DeviceName::IkeaDonut, on),
                one_step(DeviceName::LightBulb, on),
                each_step(b, low),
            );
            assert(commanded_devices(party_plan()) =~= house_order());
        },
    }
}

/// The all-off scene only ever switches lights off.
pub proof fn lemma_all_off_only_switches_off()
    ensures
        all_commands(all_off_plan(), |c: DeviceCommand| c == DeviceCommand::TurnOff),
{
    let f = |c: DeviceCommand| c == DeviceCommand::TurnOff;
    let off = DeviceCommand::TurnOff;
    let k = kitchen_devices();
    let l = livingroom_devices();
    let b = bedroom_devices();
    lemma_each_all(k, off, f);
    lemma_one_all(DeviceName::BallLight, off, f);
    lemma_one_all(DeviceName::IkeaMushroom, off, f);
    lemma_one_all(DeviceName::SofaLight, off, f);
    lemma_each_all(l, off, f);
    lemma_one_all(DeviceName::IkeaDonut, off, f);
    lemma_one_all(DeviceName::LightBulb, off, f);
    lemma_each_all(b, off, f);
    lemma_eight_all(
        each_step(k, off),
        one_step(DeviceName::BallLight, off),
        one_step(DeviceName::IkeaMushroom, off),
        one_step(DeviceName::SofaLight, off),
        each_step(l, off),
        one_step(DeviceName::IkeaDonut, off),
        one_step(DeviceName::LightBulb, off),
        each_step(b, off),
        f,
    );
}

/// The all-on scene only ever switches lights on, the Hue lights at the
/// requested level and temperature.
pub proof fn lemma_all_on_only_switches_on(br: Brightness, t: ColorTemp)
    ensures
        all_commands(
            all_on_plan(br, t),
            |c: DeviceCommand| c == DeviceCommand::TurnOn || c == on_payload(br, t),
        ),
{
    let f = |c: DeviceCommand| c == DeviceCommand::TurnOn || c == on_payload(br, t);
    let on = DeviceCommand::TurnOn;
    let hue = on_payload(br, t);
    let k = kitchen_devices();
    let l = livingroom_devices();
    let b = bedroom_devices();
    lemma_each_all(k, hue, f);
    lemma_one_all(DeviceName::BallLight, on, f);
    lemma_one_all(DeviceName::IkeaMushroom, on, f);
    lemma_one_all(DeviceName::SofaLight, on, f);
    lemma_each_all(l, hue, f);
    lemma_one_all(DeviceName::IkeaDonut, on, f);
    lemma_one_all(DeviceName::LightBulb, on, f);
    lemma_each_all(b, hue, f);
    lemma_eight_all(
        each_step(k, hue),
        one_step(DeviceName::BallLight, on),
        one_step(DeviceName::IkeaMushroom, on),
        one_step(DeviceName::SofaLight, on),
        each_step(l, hue),
        one_step(DeviceName::IkeaDonut, on),
        one_step(DeviceName::LightBulb, on),
        each_step(b, hue),
        f,
    );
}

spec fn name_key(s: Seq<char>) -> (int, char, char, char) {
    (s.len() as int, s[0], s[4], s[s.len() - 1])
}

spec fn device_of_key(k: (int, char, char, char)) -> DeviceName {
    if k == (12int, 'h', 'k', '1') {
        DeviceName::HueKitchen1
    } else     if k == (12int, 'h', 'k', '2') {
        DeviceName::HueKitchen2
    } else     if k == (12int, 'h', 'k', '3') {
        DeviceName::HueKitchen3
    } else     if k == (12int, 'h', 'b', '1') {
        DeviceName::HueBedroom1
    } else     if k == (12int, 'h', 'b', '2') {
        DeviceName::HueBedroom2
    } else     if k == (12int, 'h', 'b', '3') {
        DeviceName::HueBedroom3
    } else     if k == (15int, 'h', 'l', '1') {
        DeviceName::HueLivingroom1
    } else     if k == (15int, 'h', 'l', '2') {
        DeviceName::HueLivingroom2
    } else     if k == (15int, 'h', 'l', '3') {
        DeviceName::HueLivingroom3
    } else     if k == (15int, 'h', 'l', '4') {
        DeviceName::HueLivingroom4
    } else     if k == (15int, 'h', 'l', '5') {
        DeviceName::HueLivingroom5
    } else     if k == (15int, 'h', 'l', '6') {
        DeviceName::HueLivingroom6
    } else     if k == (13int, 'i', '_', 'm') {
        DeviceName::IkeaMushroom
    } else     if k == (10int, 'i', '_', 't') {
        DeviceName::IkeaDonut
    } else     if k == (10int, 'l', 't', 'b') {
        DeviceName::LightBulb
    } else     if k == (10int, 's', '_', 't') {
        DeviceName::SofaLight
    } else     if k == (10int, 'b', '_', 't') {
        DeviceName::BallLight
    } else     if k == (10int, 'c', 'r', 'r') {
        DeviceName::Controller
    } else {
        DeviceName::Controller
    }
}

proof fn lemma_key_identifies_device(d: DeviceName)
    ensures
        device_of_key(name_key(d.spec_name())) == d,
{
    match d {
        DeviceName::HueKitchen1 => {
            reveal_strlit("hue_kitchen1");
        },
        DeviceName::HueKitchen2 => {
            reveal_strlit("hue_kitchen2");
        },
        DeviceName::HueKitchen3 => {
            reveal_strlit("hue_kitchen3");
        },
        DeviceName::HueBedroom1 => {
            reveal_strlit("hue_bedroom1");
        },
        DeviceName::HueBedroom2 => {
            reveal_strlit("hue_bedroom2");
        },
        DeviceName::HueBedroom3 => {
            reveal_strlit("hue_bedroom3");
        },
        DeviceName::HueLivingroom1 => {
            reveal_strlit("hue_livingroom1");
        },
        DeviceName::HueLivingroom2 => {
            reveal_strlit("hue_livingroom2");
        },
        DeviceName::HueLivingroom3 => {
            reveal_strlit("hue_livingroom3");
        },
        DeviceName::HueLivingroom4 => {
            reveal_strlit("hue_livingroom4");
        },
        DeviceName::HueLivingroom5 => {
            reveal_strlit("hue_livingroom5");
        },
        DeviceName::HueLivingroom6 => {
            reveal_strlit("hue_livingroom6");
        },
        DeviceName::IkeaMushroom => {
            reveal_strlit("ikea_mushroom");
        },
        DeviceName::IkeaDonut => {
            reveal_strlit("ikea_donut");
        },
        DeviceName::LightBulb => {
            reveal_strlit("light_bulb");
        },
        DeviceName::SofaLight => {
            reveal_strlit("sofa_light");
        },
        DeviceName::BallLight => {
            reveal_strlit("ball_light");
        },
        DeviceName::Controller => {
            reveal_strlit("controller");
        },
    }
}

/// Distinct devices have distinct names, so distinct command topics: a
/// command never reaches another device than the one it names.
pub proof fn lemma_topics_are_distinct(a: DeviceName, b: DeviceName)
    requires
        a != b,
    ensures
        a.spec_name() != b.spec_name(),
        set_topic_of(a) != set_topic_of(b),
{
    lemma_key_identifies_device(a);
    lemma_key_identifies_device(b);
    if set_topic_of(a) == set_topic_of(b) {
        let p = "zigbee2mqtt/"@;
        let n = a.spec_name().len();
        assert(set_topic_of(a).len() == set_topic_of(b).len());
        assert(set_topic_of(a).subrange(p.len() as int, (p.len() + n) as int) =~= a.spec_name());
        assert(set_topic_of(b).subrange(p.len() as int, (p.len() + n) as int) =~= b.spec_name());
    }
}

} // verus!
