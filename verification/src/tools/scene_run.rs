//! Playing a scene plan against the broker. The broker and the clock are
//! outside: the caller performs each action and reports how the last publish
//! went; this state machine decides what comes next.

use vstd::prelude::*;
use crate::text::decimal;
use crate::tools::zigbee::{
    command_json, command_message, lemma_command_texts, set_topic_of, Brightness, ColorTemp,
    DeviceCommand, DevicePayload, LightState, MqttMessage, SceneStep,
};

verus! {

/// What the caller does next.
pub enum RunAction<E> {
    /// Wait this many milliseconds, then ask again with no result.
    Sleep(u64),
    /// Publish this message, then ask again with the broker's answer.
    Publish(MqttMessage),
    /// The run is over, with this outcome.
    Finished(Result<(), E>),
}

/// Where a run stands: the plan, the index of the next step, whether the run
/// is over, and the pause in milliseconds.
pub struct RunView {
    pub plan: Seq<SceneStep>,
    pub next: nat,
    pub done: bool,
    pub sleep_ms: u64,
}

/// How a run moves on when asked for its next action: a refused publish
/// ends it where it stands; otherwise it takes the next step of the plan,
/// or ends once the plan is exhausted.
pub open spec fn advance(v: RunView, refused: bool) -> RunView {
    if refused || v.next >= v.plan.len() {
        RunView { done: true, ..v }
    } else {
        RunView { next: v.next + 1, ..v }
    }
}

/// `a` is what step `s` asks of the caller.
pub open spec fn performs<E>(a: RunAction<E>, s: SceneStep, sleep_ms: u64) -> bool {
    match s {
        SceneStep::Sleep => a == RunAction::<E>::Sleep(sleep_ms),
        SceneStep::Publish(d, c) => match a {
            RunAction::Publish(m) => m.topic@ == set_topic_of(d) && m.payload@ == command_json(c),
            _ => false,
        },
    }
}

/// The action a run in state `v` returns when the last publish came back as
/// `last`.
pub open spec fn action_for<E>(v: RunView, last: Option<Result<(), E>>, a: RunAction<E>) -> bool {
    match last {
        Some(Err(e)) => a == RunAction::<E>::Finished(Err(e)),
        _ => if v.next < v.plan.len() {
            performs(a, v.plan[v.next as int], v.sleep_ms)
        } else {
            a == RunAction::<E>::Finished(Ok(()))
        },
    }
}

/// Whether the last publish was refused.
pub open spec fn is_refusal<E>(last: Option<Result<(), E>>) -> bool {
    match last {
        Some(Err(_)) => true,
        _ => false,
    }
}

/// A run of one scene plan.
pub struct SceneRun {
    plan: Vec<SceneStep>,
    next: usize,
    done: bool,
    sleep_ms: u64,
}

impl View for SceneRun {
    type V = RunView;

    closed spec fn view(&self) -> RunView {
        RunView { plan: self.plan@, next: self.next as nat, done: self.done, sleep_ms: self.sleep_ms }
    }
}

impl SceneRun {
    #[verifier::type_invariant]
    spec fn within_plan(self) -> bool {
        self.next <= self.plan@.len()
    }

    /// A run at the start of `plan`, pausing `sleep_ms` milliseconds where
    /// the plan says so.
    pub fn new(plan: Vec<SceneStep>, sleep_ms: u64) -> (r: Self)
        ensures
            r@ == (RunView { plan: plan@, next: 0, done: false, sleep_ms }),
    {
        SceneRun { plan, next: 0, done: false, sleep_ms }
    }

    /// Whether the run is over.
    pub fn is_done(&self) -> (b: bool)
        ensures
            b == self@.done,
    {
        self.done
    }

    /// The next action, given how the last publish went (`None` after a
    /// pause or at the start).
    pub fn next_action<E>(&mut self, last: Option<Result<(), E>>) -> (a: RunAction<E>)
        requires
            !old(self)@.done,
        ensures
            final(self)@ == advance(old(self)@, is_refusal(last)),
            action_for(old(self)@, last, a),
    {
        proof {
            use_type_invariant(&*self);
        }
        match last {
            Some(Err(e)) => {
                self.done = true;
                RunAction::Finished(Err(e))
            },
            _ => {
                if self.next < self.plan.len() {
                    let step = self.plan[self.next];
                    self.next = self.next + 1;
                    match step {
                        SceneStep::Sleep => RunAction::Sleep(self.sleep_ms),
                        SceneStep::Publish(d, c) => RunAction::Publish(command_message(d, c)),
                    }
                } else {
                    self.done = true;
                    RunAction::Finished(Ok(()))
                }
            },
        }
    }
}

/// `k` requests of a run in which no publish is refused.
pub open spec fn advance_accepted(v: RunView, k: nat) -> RunView
    decreases k,
{
    if k == 0 {
        v
    } else {
        advance(advance_accepted(v, (k - 1) as nat), false)
    }
}

/// A run whose publishes are all accepted takes the plan's steps one by one,
/// in order: after `k` requests (`k` at most the plan's length) it stands at
/// step `k` and is not over.
pub proof fn lemma_accepted_run_follows_plan(plan: Seq<SceneStep>, sleep_ms: u64, k: nat)
    requires
        k <= plan.len(),
    ensures
        advance_accepted(RunView { plan, next: 0, done: false, sleep_ms }, k) == (RunView {
            plan,
            next: k,
            done: false,
            sleep_ms,
        }),
    decreases k,
{
    if k > 0 {
        lemma_accepted_run_follows_plan(plan, sleep_ms, (k - 1) as nat);
    }
}

/// A run whose publishes are all accepted ends with the request that follows
/// the plan's last step, having taken every step.
pub proof fn lemma_accepted_run_ends_after_plan(plan: Seq<SceneStep>, sleep_ms: u64)
    ensures
        advance_accepted(RunView { plan, next: 0, done: false, sleep_ms }, plan.len() + 1) == (
        RunView { plan, next: plan.len(), done: true, sleep_ms }),
{
    lemma_accepted_run_follows_plan(plan, sleep_ms, plan.len());
}

/// A refused publish ends the run at once: it is over and no further step of
/// the plan is taken.
pub proof fn lemma_refusal_ends_run(v: RunView)
    ensures
        advance(v, true).done,
        advance(v, true).next == v.next,
        advance(v, true).plan == v.plan,
{
}

/// What a run asks for at each step of its plan: at a pause, to wait the
/// run's pause; at a command for device `d`, to publish on
/// `zigbee2mqtt/<name of d>/set` exactly the command's JSON text: for a full
/// state the state word, brightness and colour temperature of that state,
/// nothing dropped or changed.
pub proof fn lemma_run_publishes_commands<E>(a: RunAction<E>, step: SceneStep, sleep_ms: u64)
    requires
        performs(a, step, sleep_ms),
    ensures
        step is Sleep ==> a == RunAction::<E>::Sleep(sleep_ms),
        step matches SceneStep::Publish(d, c) ==> (a matches RunAction::Publish(m) && m.topic@
            == "zigbee2mqtt/"@ + d.spec_name() + "/set"@ && m.payload@ == match c {
            DeviceCommand::TurnOn => "{\"state\":\"ON\"}"@,
            DeviceCommand::TurnOff => "{\"state\":\"OFF\"}"@,
            DeviceCommand::Send(p) => "{\"state\":\""@ + (if p.state == LightState::On {
                "ON"@
            } else {
                "OFF"@
            }) + "\",\"brightness\":"@ + decimal(p.brightness.spec_value() as nat)
                + ",\"color_temp\":"@ + decimal(p.color_temp.spec_value() as nat) + "}"@,
        }),
{
    if let SceneStep::Publish(d, c) = step {
        match c {
            DeviceCommand::Send(p) => lemma_command_texts(p),
            _ => lemma_command_texts(
                DevicePayload {
                    state: LightState::On,
                    brightness: Brightness::Min,
                    color_temp: ColorTemp::Warm,
                },
            ),
        }
    }
}

/// In a run whose publishes are all accepted, the request after `k`
/// accepted ones asks for step `k` of the plan, the `k`-th pause or command
/// and no other.
pub proof fn lemma_request_takes_next_step<E>(
    plan: Seq<SceneStep>,
    sleep_ms: u64,
    k: nat,
    last: Option<Result<(), E>>,
    a: RunAction<E>,
)
    requires
        k < plan.len(),
        !is_refusal(last),
        action_for(advance_accepted(RunView { plan, next: 0, done: false, sleep_ms }, k), last, a),
    ensures
        performs(a, plan[k as int], sleep_ms),
{
    lemma_accepted_run_follows_plan(plan, sleep_ms, k);
}

} // verus!
