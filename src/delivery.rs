//! The paste-and-submit sequencer: resolve the target window, activate it,
//! let the focus change settle, inject the content, settle again, submit.
//!
//! The sequencer is a state machine. It names the next platform action;
//! the caller performs it and reports the outcome back. The first failure
//! ends the sequence with a descriptive error and nothing after it is
//! attempted; nothing is retried.

use crate::text::{decimal, push_decimal};
use vstd::prelude::*;

verus! {

/// Settle delay after activation, before any keystroke (milliseconds).
pub const ACTIVATION_SETTLE_MS: u64 = 150;

/// Settle delay after a paste chord, before the submit key (milliseconds).
pub const PASTE_SETTLE_MS: u64 = 100;

/// Settle delay after typed text, before the submit key (milliseconds).
pub const TYPED_SETTLE_MS: u64 = 50;

/// What is delivered.
#[derive(Clone, Copy, Debug, PartialEq, Eq, Structural)]
pub enum DeliveryMode {
    /// Paste the clipboard (control + V), then submit.
    Paste,
    /// Type the trigger prefix `//`, then submit.
    Trigger,
}

/// A key that the sequencer injects.
#[derive(Clone, Copy, Debug, PartialEq, Eq, Structural)]
pub enum InputKey {
    Control,
    V,
    Return,
}

/// One platform action.
#[derive(Clone, Copy, Debug, PartialEq, Eq, Structural)]
pub enum DeliveryAction {
    /// Resolve the process's first top-level window.
    FindWindow(u32),
    /// Bring the window to the foreground.
    Activate(isize),
    /// Wait this many milliseconds.
    Sleep(u64),
    /// Create the keystroke synthesizer.
    OpenInput,
    Press(InputKey),
    Click(InputKey),
    Release(InputKey),
    /// Type the trigger prefix `//`.
    TypeTrigger,
}

/// How an action went.
#[derive(Debug)]
pub enum StepOutcome {
    /// The action succeeded.
    Done,
    /// The window that a `FindWindow` resolved, if any.
    Window(Option<isize>),
    /// The action failed, with the platform's description.
    Failed(String),
}

/// Where a delivery stands.
#[derive(Debug)]
pub enum DeliveryStage {
    /// Waiting for the window of the terminal process.
    Locating(u32),
    /// Working through the plan for the target window; the index of the
    /// next action.
    Running(isize, usize),
    /// Over, with its result.
    Finished(Result<(), String>),
}

/// The stage as a mathematical value.
pub enum StageModel {
    Locating(u32),
    Running(isize, nat),
    Finished(Result<(), Seq<char>>),
}

/// The actions performed once the target window is known, in order.
pub open spec fn plan(mode: DeliveryMode, target: isize) -> Seq<DeliveryAction> {
    match mode {
        DeliveryMode::Paste => seq![
            DeliveryAction::Activate(target),
            DeliveryAction::Sleep(ACTIVATION_SETTLE_MS),
            DeliveryAction::OpenInput,
            DeliveryAction::Press(InputKey::Control),
            DeliveryAction::Click(InputKey::V),
            DeliveryAction::Release(InputKey::Control),
            DeliveryAction::Sleep(PASTE_SETTLE_MS),
            DeliveryAction::Click(InputKey::Return),
        ],
        DeliveryMode::Trigger => seq![
            DeliveryAction::Activate(target),
            DeliveryAction::Sleep(ACTIVATION_SETTLE_MS),
            DeliveryAction::OpenInput,
            DeliveryAction::TypeTrigger,
            DeliveryAction::Sleep(TYPED_SETTLE_MS),
            DeliveryAction::Click(InputKey::Return),
        ],
    }
}

/// Whether an action injects keyboard input.
pub open spec fn is_keystroke(a: DeliveryAction) -> bool {
    match a {
        DeliveryAction::Press(_) | DeliveryAction::Click(_) | DeliveryAction::Release(_)
        | DeliveryAction::TypeTrigger => true,
        _ => false,
    }
}

pub open spec fn no_terminal_message() -> Seq<char> {
    "Terminal process not found. Was init_terminal_tracking() called?"@
}

pub open spec fn window_missing_message(pid: u32) -> Seq<char> {
    "Could not find window for terminal PID "@ + decimal(pid as nat)
}

pub open spec fn activation_failed_message() -> Seq<char> {
    "Failed to set foreground window"@
}

pub open spec fn key_label(k: InputKey) -> Seq<char> {
    match k {
        InputKey::Control => "Ctrl"@,
        InputKey::V => "V"@,
        InputKey::Return => "Enter"@,
    }
}

/// The error that ends a delivery whose action `a` failed with `detail`.
pub open spec fn failure_message(a: DeliveryAction, detail: Seq<char>) -> Seq<char> {
    match a {
        DeliveryAction::Activate(_) => activation_failed_message(),
        DeliveryAction::FindWindow(pid) => window_missing_message(pid),
        DeliveryAction::Sleep(_) => "Settle delay failed: "@ + detail,
        DeliveryAction::OpenInput => "Failed to create input simulator: "@ + detail,
        DeliveryAction::Press(k) => "Failed to press "@ + key_label(k) + ": "@ + detail,
        DeliveryAction::Click(k) => "Failed to press "@ + key_label(k) + ": "@ + detail,
        DeliveryAction::Release(k) => "Failed to release "@ + key_label(k) + ": "@ + detail,
        DeliveryAction::TypeTrigger => "Failed to type text: "@ + detail,
    }
}

/// Where a delivery starts: an explicit target wins; else the recorded
/// terminal process's window is looked up; with neither, it fails at once.
pub open spec fn start_model(hwnd_override: Option<isize>, terminal_pid: Option<u32>) -> StageModel {
    match hwnd_override {
        Some(h) => StageModel::Running(h, 0),
        None => match terminal_pid {
            Some(pid) => StageModel::Locating(pid),
            None => StageModel::Finished(Err(no_terminal_message())),
        },
    }
}

/// The action that a stage asks for, if any.
pub open spec fn action_of(mode: DeliveryMode, s: StageModel) -> Option<DeliveryAction> {
    match s {
        StageModel::Locating(pid) => Some(DeliveryAction::FindWindow(pid)),
        StageModel::Running(t, i) => if i < plan(mode, t).len() {
            Some(plan(mode, t)[i as int])
        } else {
            None
        },
        StageModel::Finished(_) => None,
    }
}

/// The stage after the outcome of the stage's action.
pub open spec fn advance_model(mode: DeliveryMode, s: StageModel, o: StepOutcome) -> StageModel {
    match s {
        StageModel::Locating(pid) => match o {
            StepOutcome::Window(Some(h)) => StageModel::Running(h, 0),
            _ => StageModel::Finished(Err(window_missing_message(pid))),
        },
        StageModel::Running(t, i) => match o {
            StepOutcome::Failed(d) => StageModel::Finished(
                Err(failure_message(plan(mode, t)[i as int], d@)),
            ),
            _ => if i + 1 >= plan(mode, t).len() {
                StageModel::Finished(Ok(()))
            } else {
                StageModel::Running(t, i + 1)
            },
        },
        StageModel::Finished(r) => StageModel::Finished(r),
    }
}

/// The actions asked for while the outcomes are fed in one by one: each
/// stage's action, as long as there is one.
pub open spec fn trace(mode: DeliveryMode, s: StageModel, outcomes: Seq<StepOutcome>) -> Seq<
    DeliveryAction,
>
    decreases outcomes.len(),
{
    match action_of(mode, s) {
        None => seq![],
        Some(a) => if outcomes.len() == 0 {
            seq![a]
        } else {
            seq![a] + trace(mode, advance_model(mode, s, outcomes[0]), outcomes.drop_first())
        },
    }
}

/// The number of actions in the plan of `mode`.
pub fn plan_len(mode: DeliveryMode) -> (r: usize)
    ensures
        forall|t: isize| r == plan(mode, t).len(),
{
    match mode {
        DeliveryMode::Paste => 8,
        DeliveryMode::Trigger => 6,
    }
}

/// The `i`-th action of the plan of `mode` for `target`.
pub fn plan_step(mode: DeliveryMode, target: isize, i: usize) -> (r: DeliveryAction)
    requires
        i < plan(mode, target).len(),
    ensures
        r == plan(mode, target)[i as int],
{
    match mode {
        DeliveryMode::Paste => match i {
            0 => DeliveryAction::Activate(target),
            1 => DeliveryAction::Sleep(ACTIVATION_SETTLE_MS),
            2 => DeliveryAction::OpenInput,
            3 => DeliveryAction::Press(InputKey::Control),
            4 => DeliveryAction::Click(InputKey::V),
            5 => DeliveryAction::Release(InputKey::Control),
            6 => DeliveryAction::Sleep(PASTE_SETTLE_MS),
            _ => DeliveryAction::Click(InputKey::Return),
        },
        DeliveryMode::Trigger => match i {
            0 => DeliveryAction::Activate(target),
            1 => DeliveryAction::Sleep(ACTIVATION_SETTLE_MS),
            2 => DeliveryAction::OpenInput,
            3 => DeliveryAction::TypeTrigger,
            4 => DeliveryAction::Sleep(TYPED_SETTLE_MS),
            _ => DeliveryAction::Click(InputKey::Return),
        },
    }
}

fn label_of(k: InputKey) -> (r: &'static str)
    ensures
        r@ == key_label(k),
{
    match k {
        InputKey::Control => "Ctrl",
        InputKey::V => "V",
        InputKey::Return => "Enter",
    }
}

fn window_missing(pid: u32) -> (r: String)
    ensures
        r@ == window_missing_message(pid),
{
    let mut m = String::from_str("Could not find window for terminal PID ");
    push_decimal(&mut m, pid as u64);
    m
}

fn key_failure(verb: &str, k: InputKey, detail: &str) -> (r: String)
    ensures
        r@ == verb@ + key_label(k) + ": "@ + detail@,
{
    let mut m = String::from_str(verb);
    m.append(label_of(k));
    m.append(": ");
    m.append(detail);
    m
}

fn with_detail(prefix: &str, detail: &str) -> (r: String)
    ensures
        r@ == prefix@ + detail@,
{
    let mut m = String::from_str(prefix);
    m.append(detail);
    m
}

/// The error for action `a` failing with `detail`.
pub fn failure_text(a: DeliveryAction, detail: &str) -> (r: String)
    ensures
        r@ == failure_message(a, detail@),
{
    match a {
        DeliveryAction::Activate(_) => String::from_str("Failed to set foreground window"),
        DeliveryAction::FindWindow(pid) => window_missing(pid),
        DeliveryAction::Sleep(_) => with_detail("Settle delay failed: ", detail),
        DeliveryAction::OpenInput => with_detail("Failed to create input simulator: ", detail),
        DeliveryAction::Press(k) => key_failure("Failed to press ", k, detail),
        DeliveryAction::Click(k) => key_failure("Failed to press ", k, detail),
        DeliveryAction::Release(k) => key_failure("Failed to release ", k, detail),
        DeliveryAction::TypeTrigger => with_detail("Failed to type text: ", detail),
    }
}

/// One delivery in progress.
#[derive(Debug)]
pub struct Delivery {
    mode: DeliveryMode,
    stage: DeliveryStage,
}

impl Delivery {
    pub closed spec fn mode(&self) -> DeliveryMode {
        self.mode
    }

    /// The stage, as a mathematical value.
    pub closed spec fn model(&self) -> StageModel {
        match self.stage {
            DeliveryStage::Locating(pid) => StageModel::Locating(pid),
            DeliveryStage::Running(t, i) => StageModel::Running(t, i as nat),
            DeliveryStage::Finished(Ok(())) => StageModel::Finished(Ok(())),
            DeliveryStage::Finished(Err(e)) => StageModel::Finished(Err(e@)),
        }
    }

    /// Begin a delivery to `hwnd_override` if given, else to the window of
    /// the recorded terminal process `terminal_pid`.
    pub fn start(mode: DeliveryMode, hwnd_override: Option<isize>, terminal_pid: Option<u32>) -> (r:
        Delivery)
        ensures
            r.mode() == mode,
            r.model() == start_model(hwnd_override, terminal_pid),
    {
        let stage = match hwnd_override {
            Some(h) => DeliveryStage::Running(h, 0),
            None => match terminal_pid {
                Some(pid) => DeliveryStage::Locating(pid),
                None => DeliveryStage::Finished(
                    Err(
                        String::from_str(
                            "Terminal process not found. Was init_terminal_tracking() called?",
                        ),
                    ),
                ),
            },
        };
        Delivery { mode, stage }
    }

    /// The action to perform next; `None` once the delivery is over.
    pub fn next_action(&self) -> (r: Option<DeliveryAction>)
        ensures
            r == action_of(self.mode(), self.model()),
    {
        match &self.stage {
            DeliveryStage::Locating(pid) => Some(DeliveryAction::FindWindow(*pid)),
            DeliveryStage::Running(t, i) => {
                if *i < plan_len(self.mode) {
                    Some(plan_step(self.mode, *t, *i))
                } else {
                    None
                }
            },
            DeliveryStage::Finished(_) => None,
        }
    }

    /// Report how the action named by `next_action` went.
    pub fn advance(&mut self, outcome: StepOutcome)
        requires
            action_of(old(self).mode(), old(self).model()) is Some,
        ensures
            final(self).mode() == old(self).mode(),
            final(self).model() == advance_model(old(self).mode(), old(self).model(), outcome),
    {
        let next = match &self.stage {
            DeliveryStage::Locating(pid) => match &outcome {
                StepOutcome::Window(Some(h)) => DeliveryStage::Running(*h, 0),
                _ => DeliveryStage::Finished(Err(window_missing(*pid))),
            },
            DeliveryStage::Running(t, i) => match &outcome {
                StepOutcome::Failed(d) => DeliveryStage::Finished(
                    Err(failure_text(plan_step(self.mode, *t, *i), d.as_str())),
                ),
                _ => if *i + 1 >= plan_len(self.mode) {
                    DeliveryStage::Finished(Ok(()))
                } else {
                    DeliveryStage::Running(*t, *i + 1)
                },
            },
            DeliveryStage::Finished(_) => {
                return;
            },
        };
        self.stage = next;
    }

    /// Whether the delivery is over.
    pub fn is_finished(&self) -> (r: bool)
        ensures
            r == (self.model() is Finished),
    {
        match &self.stage {
            DeliveryStage::Finished(_) => true,
            _ => false,
        }
    }

    /// The result, once the delivery is over; `None` before.
    pub fn into_result(self) -> (r: Option<Result<(), String>>)
        ensures
            match self.model() {
                StageModel::Finished(Ok(())) => r == Some(Ok::<(), String>(())),
                StageModel::Finished(Err(e)) => r matches Some(Err(m)) && m@ == e,
                _ => r is None,
            },
    {
        match self.stage {
            DeliveryStage::Finished(Ok(())) => Some(Ok(())),
            DeliveryStage::Finished(Err(e)) => Some(Err(e)),
            _ => None,
        }
    }
}

proof fn lemma_trace_from(mode: DeliveryMode, t: isize, i: nat, outcomes: Seq<StepOutcome>)
    ensures
        i + trace(mode, StageModel::Running(t, i), outcomes).len() <= plan(mode, t).len()
            || i >= plan(mode, t).len(),
        i < plan(mode, t).len() ==> trace(mode, StageModel::Running(t, i), outcomes) == plan(
            mode,
            t,
        ).subrange(i as int, i + trace(mode, StageModel::Running(t, i), outcomes).len() as int),
    decreases outcomes.len(),
{
    let p = plan(mode, t);
    let s = StageModel::Running(t, i);
    if i < p.len() && outcomes.len() > 0 {
        let next = advance_model(mode, s, outcomes[0]);
        let rest = outcomes.drop_first();
        lemma_trace_from(mode, t, i + 1, rest);
        let tr = trace(mode, s, outcomes);
        match next {
            StageModel::Running(_, _) => {
                assert(tr == seq![p[i as int]] + trace(mode, StageModel::Running(t, i + 1), rest));
                assert(tr == p.subrange(i as int, i + tr.len() as int));
            },
            _ => {
                assert(trace(mode, next, rest) == Seq::<DeliveryAction>::empty());
                assert(tr == p.subrange(i as int, i + tr.len() as int));
            },
        }
    } else if i < p.len() {
        assert(trace(mode, s, outcomes) == p.subrange(i as int, i + 1 as int));
    }
}

/// Actions are asked for in the plan's order and never out of it: whatever
/// the outcomes, the actions of a delivery to a known window are a prefix of
/// activate, settle, (open input,) content keystrokes, settle, submit key.
pub proof fn lemma_delivery_follows_plan(mode: DeliveryMode, target: isize, outcomes: Seq<StepOutcome>)
    ensures
        trace(mode, StageModel::Running(target, 0), outcomes).len() <= plan(mode, target).len(),
        trace(mode, StageModel::Running(target, 0), outcomes) == plan(mode, target).subrange(
            0,
            trace(mode, StageModel::Running(target, 0), outcomes).len() as int,
        ),
{
    lemma_trace_from(mode, target, 0, outcomes);
}

/// When activation fails, the delivery ends with the activation error and
/// no keystroke is ever asked for.
pub proof fn lemma_activation_failure_aborts(
    mode: DeliveryMode,
    target: isize,
    detail: String,
    rest: Seq<StepOutcome>,
)
    ensures
        advance_model(mode, StageModel::Running(target, 0), StepOutcome::Failed(detail))
            == StageModel::Finished(Err(activation_failed_message())),
        trace(mode, StageModel::Running(target, 0), seq![StepOutcome::Failed(detail)] + rest)
            == seq![DeliveryAction::Activate(target)],
        forall|j: int|
            0 <= j < trace(mode, StageModel::Running(target, 0), seq![StepOutcome::Failed(detail)] + rest).len()
                ==> !is_keystroke(
                #[trigger] trace(mode, StageModel::Running(target, 0), seq![StepOutcome::Failed(detail)] + rest)[j],
            ),
{
    let os = seq![StepOutcome::Failed(detail)] + rest;
    assert(os[0] == StepOutcome::Failed(detail));
    assert(os.drop_first() == rest);
    let fin = advance_model(mode, StageModel::Running(target, 0), os[0]);
    assert(trace(mode, fin, rest) == Seq::<DeliveryAction>::empty());
    assert(trace(mode, StageModel::Running(target, 0), os) == seq![DeliveryAction::Activate(target)]);
}

/// When every action succeeds, the delivery asks for the whole plan.
pub proof fn lemma_success_runs_whole_plan(
    mode: DeliveryMode,
    target: isize,
    outcomes: Seq<StepOutcome>,
)
    requires
        outcomes.len() >= plan(mode, target).len(),
        forall|j: int| 0 <= j < outcomes.len() ==> !(#[trigger] outcomes[j] is Failed),
    ensures
        trace(mode, StageModel::Running(target, 0), outcomes) == plan(mode, target),
{
    lemma_success_from(mode, target, 0, outcomes);
}

proof fn lemma_success_from(mode: DeliveryMode, target: isize, i: nat, outcomes: Seq<StepOutcome>)
    requires
        i < plan(mode, target).len(),
        outcomes.len() + i >= plan(mode, target).len(),
        forall|j: int| 0 <= j < outcomes.len() ==> !(#[trigger] outcomes[j] is Failed),
    ensures
        trace(mode, StageModel::Running(target, i), outcomes) == plan(mode, target).subrange(
            i as int,
            plan(mode, target).len() as int,
        ),
    decreases plan(mode, target).len() - i,
{
    let p = plan(mode, target);
    let s = StageModel::Running(target, i);
    assert(!(outcomes[0] is Failed));
    let rest = outcomes.drop_first();
    if i + 1 < p.len() {
        assert forall|j: int| 0 <= j < rest.len() implies !(#[trigger] rest[j] is Failed) by {
            assert(rest[j] == outcomes[j + 1]);
        }
        lemma_success_from(mode, target, i + 1, rest);
        assert(advance_model(mode, s, outcomes[0]) == StageModel::Running(target, i + 1));
    } else {
        assert(advance_model(mode, s, outcomes[0]) == StageModel::Finished(Ok(())));
        assert(trace(mode, StageModel::Finished(Ok(())), rest) == Seq::<DeliveryAction>::empty());
    }
    assert(trace(mode, s, outcomes) == p.subrange(i as int, p.len() as int));
}

} // verus!
