use vstd::prelude::*;

verus! {

/// The `index`-th of `steps` equal parts of a full turn: the angle
/// `index * 360 / steps` degrees.
#[derive(Clone, Copy, Debug, PartialEq, Eq, Structural)]
pub struct Angle {
    pub index: i8,
    pub steps: i8,
}

/// The nearest whole number of degrees to `360 * index / steps`, halves
/// rounded up: the largest `d` with `d <= 360 * index / steps + 1/2`.
pub open spec fn rounded_degrees_of(index: int, steps: int) -> int {
    (720 * index + steps) / (2 * steps)
}

impl Angle {
    pub open spec fn wf(self) -> bool {
        0 <= self.index < self.steps
    }

    /// The angle in whole degrees, rounded to the nearest one.
    pub fn rounded_degrees(&self) -> (r: u16)
        requires
            self.wf(),
        ensures
            r == rounded_degrees_of(self.index as int, self.steps as int),
    {
        let i = self.index as u32;
        let n = self.steps as u32;
        assert(720 * i + n <= 720 * 127 + 127) by (nonlinear_arith)
            requires
                i <= 127,
                n <= 127,
        ;
        let d = (720 * i + n) / (2 * n);
        assert(d <= 360) by (nonlinear_arith)
            requires
                d == (720 * i + n) / (2 * n),
                i < n,
                n > 0,
        {
            assert(720 * i + n < 2 * n * 361) by (nonlinear_arith)
                requires
                    i < n,
                    n > 0,
            ;
        }
        d as u16
    }
}

/// A finite sequence of evenly spaced angles around a full turn: the angles
/// `0, 1, ..., num - 1` of `num` parts, of which those from `index` on are
/// still to come. A new generator starts again from angle 0.
#[derive(Clone, Copy, Debug)]
pub struct Steps {
    pub num: i8,
    pub index: i8,
}

/// The angles still to come from a generator at `index` of `num` parts.
pub open spec fn angles_from(index: int, num: int) -> Seq<Angle>
    recommends
        0 <= index,
{
    Seq::new(
        if index < num { (num - index) as nat } else { 0 },
        |k: int| Angle { index: (index + k) as i8, steps: num as i8 },
    )
}

impl Steps {
    pub open spec fn wf(self) -> bool {
        0 <= self.index && (self.index <= self.num || self.index == 0)
    }

    /// The angles that the generator has still to give, in order.
    pub open spec fn remaining(self) -> Seq<Angle> {
        angles_from(self.index as int, self.num as int)
    }

    /// A generator at the start of `num` angles.
    pub open spec fn new_spec(num: i8) -> Self {
        Steps { num, index: 0 }
    }

    /// A generator of `num` angles; none when `num` is not positive.
    pub fn new(num: i8) -> (r: Self)
        ensures
            r == Self::new_spec(num),
            r.wf(),
            r.num == num,
            r.index == 0,
            r.remaining().len() == if num > 0 { num as int } else { 0 },
            forall|k: int|
                0 <= k < r.remaining().len() ==> #[trigger] r.remaining()[k] == (Angle {
                    index: k as i8,
                    steps: num,
                }),
    {
        Self { num, index: 0 }
    }

    /// Gives the next angle, or `None` once all of them have been given.
    pub fn next(&mut self) -> (r: Option<Angle>)
        requires
            old(self).wf(),
        ensures
            final(self).wf(),
            final(self).num == old(self).num,
            old(self).remaining().len() == 0 ==> r is None && *final(self) == *old(self),
            old(self).remaining().len() > 0 ==> r == Some(old(self).remaining()[0])
                && final(self).remaining() == old(self).remaining().drop_first(),
            r matches Some(a) ==> a.wf(),
    {
        if self.index < self.num {
            let a = Angle { index: self.index, steps: self.num };
            self.index = self.index + 1;
            assert(final(self).remaining() =~= old(self).remaining().drop_first());
            Some(a)
        } else {
            None
        }
    }

    /// Takes all the angles still to come, in order.
    pub fn collect_angles(&mut self) -> (r: Vec<Angle>)
        requires
            old(self).wf(),
        ensures
            r@ == old(self).remaining(),
            final(self).wf(),
            final(self).remaining().len() == 0,
            forall|k: int| 0 <= k < r@.len() ==> (#[trigger] r@[k]).wf(),
    {
        let mut out: Vec<Angle> = Vec::new();
        loop
            invariant
                self.wf(),
                self.num == old(self).num,
                out@ + self.remaining() == old(self).remaining(),
                forall|k: int| 0 <= k < out@.len() ==> (#[trigger] out@[k]).wf(),
            decreases self.remaining().len(),
        {
            match self.next() {
                Some(a) => {
                    out.push(a);
                    assert(out@ + self.remaining() =~= old(self).remaining());
                },
                None => {
                    return out;
                },
            }
        }
    }
}

/// A new generator of `n` angles gives exactly `n` of them when `n` is
/// positive and none otherwise, the `k`-th being `k` parts of `n`.
pub proof fn law_step_count(n: i8)
    ensures
        Steps::new_spec(n).remaining().len() == if n > 0 { n as int } else { 0 },
        forall|k: int|
            0 <= k < Steps::new_spec(n).remaining().len() ==> (#[trigger] Steps::new_spec(n).remaining()[k]
                == Angle { index: k as i8, steps: n } && Steps::new_spec(n).remaining()[k].wf()),
{
}

} // verus!
