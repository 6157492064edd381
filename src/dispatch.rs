use vstd::prelude::*;

verus! {

/// The variants of animation loop; each has a name of its own.
#[derive(Clone, Copy, Debug, PartialEq, Eq, Structural)]
pub enum LoopKind {
    Test,
    SoloHue,
    RandomHue,
}

/// Why a loop could not be found by name.
#[derive(Clone, Copy, Debug, PartialEq, Eq, Structural)]
pub enum DispatchError {
    /// No registered loop has the requested name.
    NotFound,
}

impl LoopKind {
    pub open spec fn spec_name(self) -> Seq<char> {
        match self {
            LoopKind::Test => "test"@,
            LoopKind::SoloHue => "solo-hue"@,
            LoopKind::RandomHue => "random-hue"@,
        }
    }

    /// The name by which the loop is looked up.
    pub fn name(&self) -> (r: &'static str)
        ensures
            r@ == self.spec_name(),
    {
        match self {
            LoopKind::Test => "test",
            LoopKind::SoloHue => "solo-hue",
            LoopKind::RandomHue => "random-hue",
        }
    }
}

/// No two variants share a name.
pub proof fn law_names_distinct(a: LoopKind, b: LoopKind)
    ensures
        a.spec_name() == b.spec_name() <==> a == b,
{
    reveal_strlit("test");
    reveal_strlit("solo-hue");
    reveal_strlit("random-hue");
    if a != b {
        assert(a.spec_name().len() != b.spec_name().len() || a.spec_name()[0] != b.spec_name()[0]);
    }
}

/// The loops that can be played, in the order they were registered.
#[derive(Clone, Debug)]
pub struct LoopRegistry {
    pub loops: Vec<LoopKind>,
}

/// Whether position `i` is the first of `loops` whose name is `name`.
pub open spec fn first_named(loops: Seq<LoopKind>, name: Seq<char>, i: int) -> bool {
    &&& 0 <= i < loops.len()
    &&& loops[i].spec_name() == name
    &&& forall|j: int| 0 <= j < i ==> (#[trigger] loops[j]).spec_name() != name
}

impl LoopRegistry {
    /// A registry with no loop.
    pub fn new() -> (r: Self)
        ensures
            r.loops@ == Seq::<LoopKind>::empty(),
    {
        LoopRegistry { loops: Vec::new() }
    }

    /// The registry with `kind` added after the loops it holds.
    pub fn add_loop(self, kind: LoopKind) -> (r: Self)
        ensures
            r.loops@ == self.loops@.push(kind),
    {
        let mut loops = self.loops;
        loops.push(kind);
        LoopRegistry { loops }
    }

    /// The first registered loop named `name`, or `NotFound` when there is none.
    pub fn find(&self, name: &str) -> (r: Result<LoopKind, DispatchError>)
        ensures
            match r {
                Ok(k) => exists|i: int| first_named(self.loops@, name@, i) && self.loops@[i] == k,
                Err(e) => e == DispatchError::NotFound && forall|i: int|
                    0 <= i < self.loops@.len() ==> (#[trigger] self.loops@[i]).spec_name() != name@,
            },
    {
        let wanted = name.to_owned();
        let mut i: usize = 0;
        while i < self.loops.len()
            invariant
                i <= self.loops@.len(),
                wanted@ == name@,
                forall|j: int| 0 <= j < i ==> (#[trigger] self.loops@[j]).spec_name() != name@,
            decreases self.loops@.len() - i,
        {
            let candidate = self.loops[i].name().to_owned();
            if candidate == wanted {
                assert(first_named(self.loops@, name@, i as int));
                return Ok(self.loops[i]);
            }
            i = i + 1;
        }
        Err(DispatchError::NotFound)
    }

    /// The names of the registered loops, in order.
    pub fn names(&self) -> (r: Vec<&'static str>)
        ensures
            r@.len() == self.loops@.len(),
            forall|i: int| 0 <= i < r@.len() ==> (#[trigger] r@[i])@ == self.loops@[i].spec_name(),
    {
        let mut out: Vec<&'static str> = Vec::new();
        let mut i: usize = 0;
        while i < self.loops.len()
            invariant
                i <= self.loops@.len(),
                out@.len() == i,
                forall|j: int| 0 <= j < i ==> (#[trigger] out@[j])@ == self.loops@[j].spec_name(),
            decreases self.loops@.len() - i,
        {
            out.push(self.loops[i].name());
            i = i + 1;
        }
        out
    }
}

} // verus!
