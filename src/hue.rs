use vstd::prelude::*;
use vstd::arithmetic::div_mod::{lemma_mod_multiples_vanish, lemma_mul_mod_noop, lemma_small_mod};
use crate::steps::Angle;

verus! {

/// A hue of `units / per_degree` degrees, always within one turn.
#[derive(Clone, Copy, Debug, PartialEq, Eq, Structural)]
pub struct Hue {
    pub units: u32,
    pub per_degree: u16,
}

/// `units` (counted in `1 / per_degree` of a degree) brought into one turn.
pub open spec fn wrap_units(units: int, per_degree: int) -> int {
    units % (360 * per_degree)
}

/// The hue, in `1 / steps` of a degree, of the light at position `index` of
/// a roster at step `step` of `steps`, when each light is `shift` degrees
/// ahead of the one before it: `360 * step / steps + shift * index` degrees,
/// taken modulo 360.
pub open spec fn light_hue_units(step: int, steps: int, shift: int, index: int) -> int {
    wrap_units(360 * step + shift * index * steps, steps)
}

impl Hue {
    pub open spec fn wf(self) -> bool {
        0 < self.per_degree && self.units < 360 * self.per_degree
    }

    /// The hue of `units / per_degree` degrees, brought into one turn.
    pub fn wrapped(units: u64, per_degree: u16) -> (r: Hue)
        requires
            per_degree > 0,
        ensures
            r.wf(),
            r.per_degree == per_degree,
            r.units == wrap_units(units as int, per_degree as int),
    {
        let turn = 360 * (per_degree as u64);
        Hue { units: (units % turn) as u32, per_degree }
    }
}

/// A colour as hue, saturation and lightness; saturation and lightness are
/// counted in thousandths.
#[derive(Clone, Copy, Debug, PartialEq, Eq, Structural)]
pub struct HslColor {
    pub hue: Hue,
    pub saturation: u16,
    pub lightness: u16,
}

impl HslColor {
    pub open spec fn wf(self) -> bool {
        self.hue.wf() && self.saturation <= 1000 && self.lightness <= 1000
    }
}

/// The hue of the light at position `index` of a roster at angle `step`, each
/// light being `shift` degrees ahead of the one before it.
pub fn light_hue(step: Angle, shift: u32, index: usize) -> (r: Hue)
    requires
        step.wf(),
    ensures
        r.wf(),
        r.per_degree == step.steps,
        r.units == light_hue_units(step.index as int, step.steps as int, shift as int, index as int),
{
    let i = step.index as u64;
    let n = step.steps as u64;
    let a = (shift % 360) as u64;
    let b = (index % 360) as u64;
    assert(a * b < 360 * 360) by (nonlinear_arith)
        requires
            a < 360,
            b < 360,
    ;
    let offset = (a * b) % 360;
    proof {
        lemma_mul_mod_noop(shift as int, index as int, 360);
        let si = shift as int * index as int;
        let m = 360 * n as int;
        let q = si / 360;
        assert(si == 360 * q + si % 360);
        assert(si * n as int == m * q + (si % 360) * n as int) by (nonlinear_arith)
            requires
                si == 360 * q + si % 360,
                m == 360 * n as int,
        ;
        assert(shift as int * index as int * n as int == si * n as int) by (nonlinear_arith)
            requires
                si == shift as int * index as int,
        ;
        lemma_mod_multiples_vanish(q, 360 * i as int + offset as int * n as int, m);
        assert(m * q + (360 * i as int + offset as int * n as int) == 360 * i as int + si * n as int);
    }
    assert(offset * n <= 360 * 127) by (nonlinear_arith)
        requires
            offset < 360,
            n <= 127,
    ;
    let units = 360 * i + offset * n;
    Hue::wrapped(units, step.steps as u16)
}

/// Adding a whole turn to a hue leaves it as it was.
pub proof fn law_hue_wrap(units: nat, per_degree: nat)
    requires
        per_degree > 0,
    ensures
        wrap_units(units + 360 * per_degree as int, per_degree as int) == wrap_units(units as int, per_degree as int),
{
    lemma_mod_multiples_vanish(1, units as int, 360 * per_degree as int);
}

/// At every step, the light at position `index` has the hue of the light at
/// position 0 moved on by `shift * index` degrees, modulo 360.
pub proof fn law_light_offsets(step: Angle, shift: nat, index: nat)
    requires
        step.wf(),
    ensures
        light_hue_units(step.index as int, step.steps as int, shift as int, index as int)
            == wrap_units(
            light_hue_units(step.index as int, step.steps as int, shift as int, 0) + shift * index
                * step.steps,
            step.steps as int,
        ),
{
    let i = step.index as int;
    let n = step.steps as int;
    assert(0 <= 360 * i < 360 * n) by (nonlinear_arith)
        requires
            0 <= i < n,
    ;
    lemma_small_mod((360 * i) as nat, (360 * n) as nat);
    assert(shift as int * 0 * n == 0);
}

} // verus!
