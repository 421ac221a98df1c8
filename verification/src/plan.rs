//! Scenario plans as plain values: quantum-indexed steps, state captures, the
//! scene and the duration, with the library's rule for a well-formed plan.

use vstd::prelude::*;

use crate::payload::{is_stop_intent, Payload};
use crate::port::{PortKind, PortSignature};

verus! {

/// The simulator quantum the rover's scenarios are authored against, in microseconds.
pub const QUANTUM_MICROS: u32 = 2_000;

/// How long the intent of a setpoint stays in effect.
#[derive(Clone, Copy, Debug, PartialEq, Eq, Structural)]
pub enum Validity {
    /// Until replaced by another setpoint or withdrawn.
    Permanent,
    /// Until `valid_for_ms` milliseconds pass without renewal.
    Lease { valid_for_ms: u64 },
}

/// What a step does at its boundary.
pub enum Action {
    /// Replace the intent of the `target` instance's setpoint port.
    Setpoint { target: String, signature: PortSignature, payload: Payload, validity: Validity },
    /// Send a request to the `target` instance's command port and correlate the
    /// reply by `label`.
    Command {
        target: String,
        signature: PortSignature,
        request: Payload,
        label: String,
        simulated_deadline_micros: u64,
        host_deadline_micros: u64,
    },
}

/// One quantum-indexed action of a plan.
pub struct Step {
    pub label: String,
    /// Zero-based transition at which the action applies.
    pub boundary: u32,
    pub action: Action,
}

/// A state port that the run records under `name`.
pub struct Capture {
    pub name: String,
    pub signature: PortSignature,
}

/// One finite simulated experiment.
pub struct ScenarioPlan {
    pub scene: String,
    pub duration_micros: u64,
    pub steps: Vec<Step>,
    pub captures: Vec<Capture>,
}

impl Action {
    /// A setpoint action.
    pub fn setpoint(target: &str, signature: PortSignature, payload: Payload, validity: Validity) -> (a:
        Action)
        ensures
            a == (Action::Setpoint { target: a->Setpoint_target, signature, payload, validity }),
            a->Setpoint_target@ == target@,
    {
        Action::Setpoint { target: target.to_owned(), signature, payload, validity }
    }

    /// A command action.
    pub fn command(
        target: &str,
        signature: PortSignature,
        request: Payload,
        label: &str,
        simulated_deadline_micros: u64,
        host_deadline_micros: u64,
    ) -> (a: Action)
        ensures
            a == (Action::Command {
                target: a->Command_target,
                signature,
                request,
                label: a->Command_label,
                simulated_deadline_micros,
                host_deadline_micros,
            }),
            a->Command_target@ == target@,
            a->Command_label@ == label@,
    {
        Action::Command {
            target: target.to_owned(),
            signature,
            request,
            label: label.to_owned(),
            simulated_deadline_micros,
            host_deadline_micros,
        }
    }
}

impl Step {
    /// A step labelled `label` that applies `action` at `boundary`.
    pub fn new(label: &str, boundary: u32, action: Action) -> (s: Step)
        ensures
            s.label@ == label@,
            s.boundary == boundary,
            s.action == action,
    {
        Step { label: label.to_owned(), boundary, action }
    }
}

impl Capture {
    /// A capture of the state port `signature` under `name`.
    pub fn state(name: &str, signature: PortSignature) -> (c: Capture)
        ensures
            c.name@ == name@,
            c.signature == signature,
    {
        Capture { name: name.to_owned(), signature }
    }
}

/// The request a step carries.
pub open spec fn step_payload(s: Step) -> Payload {
    match s.action {
        Action::Setpoint { payload, .. } => payload,
        Action::Command { request, .. } => request,
    }
}

/// The port a step addresses.
pub open spec fn step_signature(s: Step) -> PortSignature {
    match s.action {
        Action::Setpoint { signature, .. } => signature,
        Action::Command { signature, .. } => signature,
    }
}

/// `s` is the step `label` at `boundary` that sets a permanent intent on the
/// instance `target`.
pub open spec fn setpoint_step_is(s: Step, label: Seq<char>, boundary: int, target: Seq<char>) -> bool {
    &&& s.label@ == label
    &&& s.boundary == boundary
    &&& s.action matches Action::Setpoint { target: t, validity, .. }
    &&& t@ == target
    &&& validity == Validity::Permanent
}

/// `s` is the step `label` at `boundary` that sets an intent on the instance
/// `target` under a lease of `valid_for_ms` milliseconds.
pub open spec fn leased_setpoint_step_is(
    s: Step,
    label: Seq<char>,
    boundary: int,
    target: Seq<char>,
    valid_for_ms: int,
) -> bool {
    &&& s.label@ == label
    &&& s.boundary == boundary
    &&& s.action matches Action::Setpoint { target: t, validity, .. }
    &&& t@ == target
    &&& validity == Validity::Lease { valid_for_ms: valid_for_ms as u64 }
}

/// `s` is the step `label` at `boundary` that sends a command correlated by
/// `command` to the instance `target`, with the given deadlines.
pub open spec fn command_step_is(
    s: Step,
    label: Seq<char>,
    boundary: int,
    target: Seq<char>,
    command: Seq<char>,
    simulated_deadline_micros: int,
    host_deadline_micros: int,
) -> bool {
    &&& s.label@ == label
    &&& s.boundary == boundary
    &&& s.action matches Action::Command { target: t, label: l, simulated_deadline_micros: sd, host_deadline_micros: hd, .. }
    &&& t@ == target
    &&& l@ == command
    &&& sd == simulated_deadline_micros
    &&& hd == host_deadline_micros
}

/// The last motion intent the plan sets commands zero velocity: some step
/// sets a stop intent and no later step sets any intent.
pub open spec fn ends_with_stop(p: ScenarioPlan) -> bool {
    exists|i: int|
        0 <= i < p.steps@.len() && is_stop_intent(step_payload(#[trigger] p.steps@[i])) && forall|
            j: int,
        |
            i < j < p.steps@.len() ==> !(step_payload(#[trigger] p.steps@[j]) is Intent)
}

/// The decimal digit `d` (0 to 9) as a character.
pub open spec fn decimal_digit(d: int) -> char {
    if d == 0 {
        '0'
    } else if d == 1 {
        '1'
    } else if d == 2 {
        '2'
    } else if d == 3 {
        '3'
    } else if d == 4 {
        '4'
    } else if d == 5 {
        '5'
    } else if d == 6 {
        '6'
    } else if d == 7 {
        '7'
    } else if d == 8 {
        '8'
    } else {
        '9'
    }
}

/// The conventional label of the step at `boundary`: `s` and the boundary as
/// eight zero-padded decimal digits.
pub open spec fn step_label(boundary: int) -> Seq<char> {
    seq![
        's',
        decimal_digit((boundary / 10000000) % 10),
        decimal_digit((boundary / 1000000) % 10),
        decimal_digit((boundary / 100000) % 10),
        decimal_digit((boundary / 10000) % 10),
        decimal_digit((boundary / 1000) % 10),
        decimal_digit((boundary / 100) % 10),
        decimal_digit((boundary / 10) % 10),
        decimal_digit(boundary % 10),
    ]
}

/// The correlation label of a command action.
pub open spec fn command_label(a: Action) -> Option<Seq<char>> {
    match a {
        Action::Command { label, .. } => Some(label@),
        _ => None,
    }
}

/// A well-formed action: a named target, a port of the matching kind, and,
/// for a command, a label and a nonzero host deadline.
pub open spec fn action_well_formed(a: Action) -> bool {
    match a {
        Action::Setpoint { target, signature, .. } => {
            &&& target@.len() > 0
            &&& signature.kind == PortKind::Setpoint
        },
        Action::Command { target, signature, label, host_deadline_micros, .. } => {
            &&& target@.len() > 0
            &&& signature.kind == PortKind::Commands
            &&& label@.len() > 0
            &&& host_deadline_micros > 0
        },
    }
}

impl ScenarioPlan {
    /// Number of transitions the experiment runs at `quantum` microseconds.
    pub open spec fn transition_count(self, quantum: int) -> int {
        (self.duration_micros as int) / quantum
    }

    /// The labels of the steps, in order.
    pub open spec fn step_labels(self) -> Seq<Seq<char>> {
        self.steps@.map_values(|s: Step| s.label@)
    }

    /// The names of the captures, in order.
    pub open spec fn capture_names(self) -> Seq<Seq<char>> {
        self.captures@.map_values(|c: Capture| c.name@)
    }

    /// The plan is well formed at `quantum` microseconds: a positive duration
    /// that is a whole number of quanta, every step inside it and already in
    /// boundary order, distinct step labels and command labels, well-formed
    /// actions, and distinct, named state captures. This is the library's own
    /// rule for its plans; it does not bound the size of encoded payloads.
    pub open spec fn well_formed(self, quantum: int) -> bool {
        &&& quantum > 0
        &&& self.duration_micros > 0
        &&& (self.duration_micros as int) % quantum == 0
        &&& forall|i: int|
            0 <= i < self.steps@.len() ==> (#[trigger] self.steps@[i]).boundary
                < self.transition_count(quantum)
        &&& forall|i: int, j: int|
            0 <= i < j < self.steps@.len() ==> (#[trigger] self.steps@[i]).boundary
                <= (#[trigger] self.steps@[j]).boundary
        &&& forall|i: int, j: int|
            0 <= i < j < self.steps@.len() ==> (#[trigger] self.steps@[i]).label@
                != (#[trigger] self.steps@[j]).label@
        &&& forall|i: int, j: int|
            0 <= i < j < self.steps@.len() && command_label((#[trigger] self.steps@[i]).action)
                is Some && command_label((#[trigger] self.steps@[j]).action) is Some
                ==> command_label(self.steps@[i].action) != command_label(self.steps@[j].action)
        &&& forall|i: int|
            0 <= i < self.steps@.len() ==> action_well_formed((#[trigger] self.steps@[i]).action)
        &&& forall|i: int|
            0 <= i < self.captures@.len() ==> {
                &&& (#[trigger] self.captures@[i]).signature.kind == PortKind::State
                &&& self.captures@[i].name@.len() > 0
            }
        &&& forall|i: int, j: int|
            0 <= i < j < self.captures@.len() ==> (#[trigger] self.captures@[i]).name@
                != (#[trigger] self.captures@[j]).name@
    }

    /// Every step carries the conventional label of its boundary.
    pub open spec fn labels_follow_boundaries(self) -> bool {
        forall|i: int|
            0 <= i < self.steps@.len() ==> (#[trigger] self.steps@[i]).label@ == step_label(
                self.steps@[i].boundary as int,
            )
    }

    /// Step `i` sits at boundary `i` and carries the conventional label, for
    /// every step, and there is one step per transition.
    pub open spec fn one_step_per_transition(self, quantum: int) -> bool {
        &&& self.steps@.len() == self.transition_count(quantum)
        &&& forall|i: int|
            0 <= i < self.steps@.len() ==> {
                &&& (#[trigger] self.steps@[i]).boundary == i
                &&& self.steps@[i].label@ == step_label(i)
            }
    }
}

/// A boundary below 10^8 is the sum of its eight decimal digits in place.
proof fn lemma_decimal_digits(a: int)
    requires
        0 <= a < 100000000,
    ensures
        a == a % 10 + 10 * ((a / 10) % 10) + 100 * ((a / 100) % 10) + 1000 * ((a / 1000) % 10)
            + 10000 * ((a / 10000) % 10) + 100000 * ((a / 100000) % 10) + 1000000 * ((a
            / 1000000) % 10) + 10000000 * ((a / 10000000) % 10),
{
    vstd::arithmetic::div_mod::lemma_div_denominator(a, 10, 10);
    vstd::arithmetic::div_mod::lemma_div_denominator(a, 100, 10);
    vstd::arithmetic::div_mod::lemma_div_denominator(a, 1000, 10);
    vstd::arithmetic::div_mod::lemma_div_denominator(a, 10000, 10);
    vstd::arithmetic::div_mod::lemma_div_denominator(a, 100000, 10);
    vstd::arithmetic::div_mod::lemma_div_denominator(a, 1000000, 10);
    vstd::arithmetic::div_mod::lemma_div_denominator(a, 10000000, 10);
    assert(a / 100000000 == 0);
}

/// Distinct digits are written with distinct characters.
proof fn lemma_decimal_digit_injective(x: int, y: int)
    requires
        0 <= x < 10,
        0 <= y < 10,
        decimal_digit(x) == decimal_digit(y),
    ensures
        x == y,
{
}

/// Distinct boundaries below 10^8 have distinct conventional labels.
pub proof fn lemma_step_label_injective(a: int, b: int)
    requires
        0 <= a < 100000000,
        0 <= b < 100000000,
        a != b,
    ensures
        step_label(a) != step_label(b),
{
    if step_label(a) == step_label(b) {
        assert(step_label(a)[1] == step_label(b)[1]);
        assert(step_label(a)[2] == step_label(b)[2]);
        assert(step_label(a)[3] == step_label(b)[3]);
        assert(step_label(a)[4] == step_label(b)[4]);
        assert(step_label(a)[5] == step_label(b)[5]);
        assert(step_label(a)[6] == step_label(b)[6]);
        assert(step_label(a)[7] == step_label(b)[7]);
        assert(step_label(a)[8] == step_label(b)[8]);
        lemma_decimal_digit_injective((a / 10000000) % 10, (b / 10000000) % 10);
        lemma_decimal_digit_injective((a / 1000000) % 10, (b / 1000000) % 10);
        lemma_decimal_digit_injective((a / 100000) % 10, (b / 100000) % 10);
        lemma_decimal_digit_injective((a / 10000) % 10, (b / 10000) % 10);
        lemma_decimal_digit_injective((a / 1000) % 10, (b / 1000) % 10);
        lemma_decimal_digit_injective((a / 100) % 10, (b / 100) % 10);
        lemma_decimal_digit_injective((a / 10) % 10, (b / 10) % 10);
        lemma_decimal_digit_injective(a % 10, b % 10);
        lemma_decimal_digits(a);
        lemma_decimal_digits(b);
    }
}


} // verus!
