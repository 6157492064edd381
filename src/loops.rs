use vstd::prelude::*;
use crate::dispatch::LoopKind;
use crate::hue::{light_hue, light_hue_units, HslColor, Hue};
use crate::steps::{angles_from, Angle, Steps};

verus! {

/// Steps in one cycle of a hue loop.
pub const CYCLE_STEPS: i8 = 24;

/// Saturation of every colour the hue loops send, in thousandths.
pub const SATURATION: u16 = 800;

/// Lightness of every colour the hue loops send, in thousandths.
pub const LIGHTNESS: u16 = 500;

/// Transition time of every command the hue loops send, in controller units.
pub const TRANSITION: u8 = 5;

/// Degrees between neighbouring lights in the solo hue loop.
pub const SOLO_SHIFT: u32 = 75;

/// Bounds of the shift drawn for each cycle of a random hue worker: `[min, max)`.
pub const SHIFT_MIN: u64 = 35;
pub const SHIFT_MAX: u64 = 140;

/// Bounds, in seconds, of the time a random hue worker holds each colour: `[min, max)`.
pub const HOLD_MIN: u64 = 4;
pub const HOLD_MAX: u64 = 16;

/// The colour of the light at position `index` of a roster at angle `step`,
/// each light being `shift` degrees ahead of the one before it.
pub open spec fn cycle_color(step: Angle, shift: int, index: int) -> HslColor {
    HslColor {
        hue: Hue {
            units: light_hue_units(step.index as int, step.steps as int, shift, index) as u32,
            per_degree: step.steps as u16,
        },
        saturation: SATURATION,
        lightness: LIGHTNESS,
    }
}

/// One command for the controller: move light `light` to `color` over
/// `duration` controller units, switching it on.
#[derive(Clone, Copy, Debug, PartialEq, Eq, Structural)]
pub struct Transition {
    pub light: u8,
    pub color: HslColor,
    pub duration: u8,
}

/// The colour of the light at position `index` at angle `step`.
fn color_at(step: Angle, shift: u32, index: usize) -> (r: HslColor)
    requires
        step.wf(),
    ensures
        r == cycle_color(step, shift as int, index as int),
        r.wf(),
{
    HslColor { hue: light_hue(step, shift, index), saturation: SATURATION, lightness: LIGHTNESS }
}

/// The roster of lights that the loops drive unless told otherwise.
pub fn default_roster() -> (r: Vec<u8>)
    ensures
        r@ == seq![2u8, 3u8, 4u8],
{
    vec![2u8, 3u8, 4u8]
}

/// A loop for trying out dispatch: it sends nothing.
#[derive(Clone, Copy, Debug, PartialEq, Eq, Structural)]
pub struct TestLoop;

impl TestLoop {
    pub fn name(&self) -> (r: &'static str)
        ensures
            r@ == LoopKind::Test.spec_name(),
    {
        LoopKind::Test.name()
    }
}

/// Where the solo hue loop stands: at angle `step` of a cycle, with the
/// lights before position `light` of the roster already sent.
#[derive(Clone, Copy, Debug, PartialEq, Eq, Structural)]
pub struct SoloCursor {
    pub step: i8,
    pub light: usize,
}

/// What the solo hue loop does next.
#[derive(Clone, Copy, Debug, PartialEq, Eq, Structural)]
pub enum SoloAction {
    /// Send this command to the controller.
    Send(Transition),
    /// Wait this many seconds before the next step.
    Pause(u8),
}

/// A rotating rainbow: at each step of a cycle every light of the roster gets
/// the step's hue moved on by 75 degrees per position, then the loop waits.
#[derive(Clone, Copy, Debug, PartialEq, Eq, Structural)]
pub struct SoloHueLoop;

impl SoloCursor {
    pub open spec fn wf(self) -> bool {
        0 <= self.step < CYCLE_STEPS
    }
}

impl SoloHueLoop {
    pub fn name(&self) -> (r: &'static str)
        ensures
            r@ == LoopKind::SoloHue.spec_name(),
    {
        LoopKind::SoloHue.name()
    }

    /// The commands of one step, one for each light of `roster` in order.
    pub fn step_commands(&self, roster: &Vec<u8>, step: Angle) -> (r: Vec<Transition>)
        requires
            step.wf(),
        ensures
            r@.len() == roster@.len(),
            forall|j: int|
                0 <= j < r@.len() ==> #[trigger] r@[j] == (Transition {
                    light: roster@[j],
                    color: cycle_color(step, SOLO_SHIFT as int, j),
                    duration: TRANSITION,
                }),
    {
        let mut out: Vec<Transition> = Vec::new();
        let mut j: usize = 0;
        while j < roster.len()
            invariant
                step.wf(),
                j <= roster@.len(),
                out@.len() == j,
                forall|k: int|
                    0 <= k < j ==> #[trigger] out@[k] == (Transition {
                        light: roster@[k],
                        color: cycle_color(step, SOLO_SHIFT as int, k),
                        duration: TRANSITION,
                    }),
            decreases roster@.len() - j,
        {
            let color = color_at(step, SOLO_SHIFT, j);
            out.push(Transition { light: roster[j], color, duration: TRANSITION });
            j = j + 1;
        }
        out
    }

    /// The start of a cycle.
    pub fn start(&self) -> (r: SoloCursor)
        ensures
            r == (SoloCursor { step: 0, light: 0 }),
    {
        SoloCursor { step: 0, light: 0 }
    }

    /// The next action of the loop over `roster`, and the cursor moved past
    /// it: each light of the step in turn, then a pause, then the next step,
    /// the last step being followed by the first.
    pub fn next_action(&self, roster: &Vec<u8>, cursor: &mut SoloCursor) -> (r: SoloAction)
        requires
            old(cursor).wf(),
        ensures
            final(cursor).wf(),
            old(cursor).light < roster@.len() ==> r == SoloAction::Send(
                Transition {
                    light: roster@[old(cursor).light as int],
                    color: cycle_color(
                        Angle { index: old(cursor).step, steps: CYCLE_STEPS },
                        SOLO_SHIFT as int,
                        old(cursor).light as int,
                    ),
                    duration: TRANSITION,
                },
            ) && *final(cursor) == (SoloCursor { step: old(cursor).step, light: (old(cursor).light + 1) as usize }),
            old(cursor).light >= roster@.len() ==> r == SoloAction::Pause(TRANSITION) && *final(cursor) == (
            SoloCursor { step: ((old(cursor).step + 1) % CYCLE_STEPS as int) as i8, light: 0 }),
    {
        if cursor.light < roster.len() {
            let step = Angle { index: cursor.step, steps: CYCLE_STEPS };
            let color = color_at(step, SOLO_SHIFT, cursor.light);
            let t = Transition { light: roster[cursor.light], color, duration: TRANSITION };
            cursor.light = cursor.light + 1;
            SoloAction::Send(t)
        } else {
            let next = if cursor.step + 1 < CYCLE_STEPS { cursor.step + 1 } else { 0 };
            cursor.step = next;
            cursor.light = 0;
            SoloAction::Pause(TRANSITION)
        }
    }
}

/// Relies on rand::Rng::gen_range with rand::thread_rng: a value drawn from
/// `[low, high)`; it panics when `low >= high`.
#[verifier::external_body]
fn random_in(low: u64, high: u64) -> (r: u64)
    requires
        low < high,
    ensures
        low <= r < high,
{
    rand::Rng::gen_range(&mut rand::thread_rng(), low, high)
}

/// What a worker of the random hue loop hands on: light `light` is to take
/// `color`, and the worker then waits `hold` seconds.
#[derive(Clone, Copy, Debug, PartialEq, Eq, Structural)]
pub struct Emission {
    pub light: u8,
    pub color: HslColor,
    pub hold: u64,
}

/// The state of the worker for the light at position `index` of the roster:
/// the shift of its current cycle and the steps of that cycle still to come.
#[derive(Clone, Copy, Debug)]
pub struct Producer {
    pub light: u8,
    pub index: usize,
    pub shift: u32,
    pub steps: Steps,
}

impl Producer {
    pub open spec fn wf(self) -> bool {
        self.steps.wf() && self.steps.num == CYCLE_STEPS
    }

    /// Whether the current cycle is over, so that the next step starts a new
    /// one with a new shift.
    pub open spec fn cycle_over(self) -> bool {
        self.steps.remaining().len() == 0
    }

    /// The shift of the step after this state, `fresh` where a cycle starts.
    pub open spec fn next_shift(self, fresh: int) -> int {
        if self.cycle_over() { fresh } else { self.shift as int }
    }

    /// The angle of the step after this state.
    pub open spec fn next_angle(self) -> Angle {
        if self.cycle_over() {
            Angle { index: 0, steps: CYCLE_STEPS }
        } else {
            self.steps.remaining()[0]
        }
    }

    /// A worker for the light `light` at position `index`, before its first cycle.
    pub fn new(light: u8, index: usize) -> (r: Self)
        ensures
            r.wf(),
            r.cycle_over(),
            r.light == light,
            r.index == index,
    {
        Producer { light, index, shift: 0, steps: Steps { num: CYCLE_STEPS, index: CYCLE_STEPS } }
    }

    pub fn is_cycle_over(&self) -> (r: bool)
        requires
            self.wf(),
        ensures
            r == self.cycle_over(),
    {
        self.steps.index >= self.steps.num
    }

    /// The next step of the worker: where its cycle is over a new one starts
    /// with shift `fresh_shift` (otherwise that value is not used), and the
    /// light gets the colour of the step, to be held for `hold` seconds.
    pub fn advance(&mut self, fresh_shift: u32, hold: u64) -> (r: Emission)
        requires
            old(self).wf(),
        ensures
            final(self).wf(),
            final(self).light == old(self).light,
            final(self).index == old(self).index,
            final(self).shift == old(self).next_shift(fresh_shift as int),
            final(self).steps.remaining() == angles_from(old(self).next_angle().index + 1, CYCLE_STEPS as int),
            r == (Emission {
                light: old(self).light,
                color: cycle_color(old(self).next_angle(), final(self).shift as int, old(self).index as int),
                hold,
            }),
    {
        if self.is_cycle_over() {
            self.shift = fresh_shift;
            self.steps = Steps::new(CYCLE_STEPS);
        }
        let step = match self.steps.next() {
            Some(a) => a,
            None => Angle { index: 0, steps: CYCLE_STEPS },
        };
        assert(self.steps.remaining() =~= angles_from(old(self).next_angle().index + 1, CYCLE_STEPS as int));
        let color = color_at(step, self.shift, self.index);
        Emission { light: self.light, color, hold }
    }

    /// The next step of the worker, with a shift drawn from `[35, 140)` where a
    /// cycle starts and a hold time drawn from `[4, 16)` seconds at every step.
    pub fn next_emission(&mut self) -> (r: Emission)
        requires
            old(self).wf(),
        ensures
            final(self).wf(),
            final(self).light == old(self).light,
            final(self).index == old(self).index,
            old(self).cycle_over() ==> SHIFT_MIN <= final(self).shift < SHIFT_MAX,
            !old(self).cycle_over() ==> final(self).shift == old(self).shift,
            final(self).steps.remaining() == angles_from(old(self).next_angle().index + 1, CYCLE_STEPS as int),
            r.light == old(self).light,
            r.color == cycle_color(old(self).next_angle(), final(self).shift as int, old(self).index as int),
            HOLD_MIN <= r.hold < HOLD_MAX,
    {
        let fresh: u32 = if self.is_cycle_over() {
            random_in(SHIFT_MIN, SHIFT_MAX) as u32
        } else {
            self.shift
        };
        let hold = random_in(HOLD_MIN, HOLD_MAX);
        self.advance(fresh, hold)
    }
}

/// The single consumer of the random hue loop: it turns each received colour
/// into one command, and takes no new one while a command is in flight.
#[derive(Clone, Copy, Debug, PartialEq, Eq, Structural)]
pub struct Consumer {
    pub handled: u64,
    pub in_flight: bool,
}

/// The command that the consumer sends for light `light` and `color`.
pub open spec fn transition_of(light: u8, color: HslColor) -> Transition {
    Transition { light, color, duration: TRANSITION }
}

/// The commands that the consumer sends for `received`, in order.
pub open spec fn commands_of(received: Seq<Emission>) -> Seq<Transition> {
    received.map_values(|e: Emission| transition_of(e.light, e.color))
}

/// However the workers' items were interleaved on arrival, the consumer sends
/// each light as many commands as items of that light arrived: every item is
/// handled exactly once.
pub proof fn law_each_item_once(received: Seq<Emission>, light: u8)
    ensures
        commands_of(received).filter(|t: Transition| t.light == light).len() == received.filter(
            |e: Emission| e.light == light,
        ).len(),
    decreases received.len(),
{
    reveal(Seq::filter);
    if received.len() > 0 {
        law_each_item_once(received.drop_last(), light);
        assert(commands_of(received).drop_last() =~= commands_of(received.drop_last()));
    }
}

impl Consumer {
    pub fn new() -> (r: Self)
        ensures
            r == (Consumer { handled: 0, in_flight: false }),
    {
        Consumer { handled: 0, in_flight: false }
    }

    /// Takes the next received item: its command, or `None`, with nothing
    /// changed, while the previous command is still in flight.
    pub fn take(&mut self, light: u8, color: HslColor) -> (r: Option<Transition>)
        ensures
            old(self).in_flight ==> r is None && *final(self) == *old(self),
            !old(self).in_flight ==> r == Some(transition_of(light, color)) && *final(self) == (
            Consumer { handled: old(self).handled, in_flight: true }),
    {
        if self.in_flight {
            None
        } else {
            self.in_flight = true;
            Some(Transition { light, color, duration: TRANSITION })
        }
    }

    /// Records that the command in flight has been carried out.
    pub fn done(&mut self)
        requires
            old(self).in_flight ==> old(self).handled < u64::MAX,
        ensures
            old(self).in_flight ==> *final(self) == (Consumer { handled: (old(self).handled + 1) as u64, in_flight: false }),
            !old(self).in_flight ==> *final(self) == *old(self),
    {
        if self.in_flight {
            self.handled = self.handled + 1;
            self.in_flight = false;
        }
    }

    /// Handles `received` in arrival order, one command at a time: the
    /// commands, each item's exactly once and in order; afterwards all of
    /// them count as handled and none is in flight.
    pub fn drain(&mut self, received: &Vec<Emission>) -> (r: Vec<Transition>)
        requires
            !old(self).in_flight,
            old(self).handled + received@.len() <= u64::MAX,
        ensures
            r@ == commands_of(received@),
            *final(self) == (Consumer { handled: (old(self).handled + received@.len()) as u64, in_flight: false }),
    {
        let mut out: Vec<Transition> = Vec::new();
        let mut i: usize = 0;
        while i < received.len()
            invariant
                i <= received@.len(),
                out@.len() == i,
                !self.in_flight,
                self.handled == old(self).handled + i,
                old(self).handled + received@.len() <= u64::MAX,
                forall|k: int|
                    0 <= k < i ==> #[trigger] out@[k] == transition_of(received@[k].light, received@[k].color),
            decreases received@.len() - i,
        {
            let item = received[i];
            match self.take(item.light, item.color) {
                Some(t) => out.push(t),
                None => {},
            }
            self.done();
            i = i + 1;
        }
        assert(out@ =~= commands_of(received@));
        out
    }
}

/// Every light of the roster runs its own cycle, with a shift per cycle and a
/// hold time per step drawn at random; one consumer sends the colours.
#[derive(Clone, Copy, Debug, PartialEq, Eq, Structural)]
pub struct RandomHueLoop;

impl RandomHueLoop {
    pub fn name(&self) -> (r: &'static str)
        ensures
            r@ == LoopKind::RandomHue.spec_name(),
    {
        LoopKind::RandomHue.name()
    }

    /// One worker for each light of `roster`, in order.
    pub fn producers(&self, roster: &Vec<u8>) -> (r: Vec<Producer>)
        ensures
            r@.len() == roster@.len(),
            forall|j: int|
                0 <= j < r@.len() ==> {
                    &&& (#[trigger] r@[j]).wf()
                    &&& r@[j].cycle_over()
                    &&& r@[j].light == roster@[j]
                    &&& r@[j].index == j
                },
    {
        let mut out: Vec<Producer> = Vec::new();
        let mut j: usize = 0;
        while j < roster.len()
            invariant
                j <= roster@.len(),
                out@.len() == j,
                forall|k: int|
                    0 <= k < j ==> {
                        &&& (#[trigger] out@[k]).wf()
                        &&& out@[k].cycle_over()
                        &&& out@[k].light == roster@[k]
                        &&& out@[k].index == k
                    },
            decreases roster@.len() - j,
        {
            out.push(Producer::new(roster[j], j));
            j = j + 1;
        }
        out
    }
}

} // verus!
