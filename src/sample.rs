use vstd::prelude::*;

verus! {

/// Two consecutive observations of one value.
#[derive(Clone, Copy, PartialEq, Eq, Structural, Debug)]
pub struct Pair<T> {
    pub previous: T,
    pub latest: T,
}

/// An edge-detecting sample: remembers the last two valid observations of a value.
///
/// A pair exists only while observations keep coming; a missing observation
/// clears it, and the next valid one starts a fresh pair whose two halves are
/// equal, so that no edge is reported across a gap.
#[derive(Clone, Copy, Debug)]
pub struct Sample<T> {
    pub pair: Option<Pair<T>>,
}

/// The sample that results from feeding `value` to `s`.
pub open spec fn updated<T>(s: Option<Pair<T>>, value: Option<T>) -> Option<Pair<T>> {
    match value {
        None => None,
        Some(v) => match s {
            None => Some(Pair { previous: v, latest: v }),
            Some(p) => Some(Pair { previous: p.latest, latest: v }),
        },
    }
}

/// The pair holds two different values.
pub open spec fn is_changed<T>(p: Option<Pair<T>>) -> bool {
    p is Some && p->0.previous != p->0.latest
}

/// The pair went from `a` to something else.
pub open spec fn is_changed_from<T>(p: Option<Pair<T>>, a: T) -> bool {
    is_changed(p) && p->0.previous == a
}

/// The pair went from something else to `b`.
pub open spec fn is_changed_to<T>(p: Option<Pair<T>>, b: T) -> bool {
    is_changed(p) && p->0.latest == b
}

/// The pair went from `a` to `b`, two different values.
pub open spec fn is_changed_from_to<T>(p: Option<Pair<T>>, a: T, b: T) -> bool {
    is_changed(p) && p->0.previous == a && p->0.latest == b
}

/// The pair's value went up.
pub open spec fn is_increased(p: Option<Pair<i32>>) -> bool {
    p is Some && p->0.previous < p->0.latest
}

/// The pair's value went down.
pub open spec fn is_decreased(p: Option<Pair<i32>>) -> bool {
    p is Some && p->0.previous > p->0.latest
}

impl<T: Copy> Sample<T> {
    /// A sample with no observation yet.
    pub fn new() -> (r: Self)
        ensures
            r.pair.is_none(),
    {
        Sample { pair: None }
    }

    /// Records a new observation; `None` marks a failed read.
    pub fn update(&mut self, value: Option<T>)
        ensures
            final(self).pair == updated(old(self).pair, value),
    {
        match value {
            None => {
                self.pair = None;
            },
            Some(v) => {
                match self.pair {
                    None => {
                        self.pair = Some(Pair { previous: v, latest: v });
                    },
                    Some(p) => {
                        self.pair = Some(Pair { previous: p.latest, latest: v });
                    },
                }
            },
        }
    }
}

impl Sample<i32> {
    pub fn changed(&self) -> (r: bool)
        ensures
            r == is_changed(self.pair),
    {
        match self.pair {
            Some(p) => p.previous != p.latest,
            None => false,
        }
    }

    pub fn changed_from(&self, a: i32) -> (r: bool)
        ensures
            r == is_changed_from(self.pair, a),
    {
        match self.pair {
            Some(p) => p.previous != p.latest && p.previous == a,
            None => false,
        }
    }

    pub fn changed_to(&self, b: i32) -> (r: bool)
        ensures
            r == is_changed_to(self.pair, b),
    {
        match self.pair {
            Some(p) => p.previous != p.latest && p.latest == b,
            None => false,
        }
    }

    pub fn changed_from_to(&self, a: i32, b: i32) -> (r: bool)
        ensures
            r == is_changed_from_to(self.pair, a, b),
    {
        match self.pair {
            Some(p) => p.previous != p.latest && p.previous == a && p.latest == b,
            None => false,
        }
    }

    pub fn increased(&self) -> (r: bool)
        ensures
            r == is_increased(self.pair),
    {
        match self.pair {
            Some(p) => p.previous < p.latest,
            None => false,
        }
    }

    pub fn decreased(&self) -> (r: bool)
        ensures
            r == is_decreased(self.pair),
    {
        match self.pair {
            Some(p) => p.previous > p.latest,
            None => false,
        }
    }
}

impl Sample<bool> {
    pub fn changed(&self) -> (r: bool)
        ensures
            r == is_changed(self.pair),
    {
        match self.pair {
            Some(p) => p.previous != p.latest,
            None => false,
        }
    }

    pub fn changed_to(&self, b: bool) -> (r: bool)
        ensures
            r == is_changed_to(self.pair, b),
    {
        match self.pair {
            Some(p) => p.previous != p.latest && p.latest == b,
            None => false,
        }
    }
}

/// Observing the same value twice in a row never reports a change, whatever
/// the sample held before.
pub proof fn lemma_repeat_is_unchanged<T>(s: Option<Pair<T>>, v: T)
    ensures
        updated(updated(s, Some(v)), Some(v)) == Some(Pair { previous: v, latest: v }),
        !is_changed(updated(updated(s, Some(v)), Some(v))),
{
}

/// Observing `a` and then a larger `b` reports a change, an increase and no
/// decrease, whatever the sample held before.
pub proof fn lemma_rise_is_increase(s: Option<Pair<i32>>, a: i32, b: i32)
    requires
        a < b,
    ensures
        is_changed(updated(updated(s, Some(a)), Some(b))),
        is_increased(updated(updated(s, Some(a)), Some(b))),
        !is_decreased(updated(updated(s, Some(a)), Some(b))),
{
}

/// After a missing observation, the first valid one is never reported as a
/// change: the gap suppresses the edge.
pub proof fn lemma_gap_suppresses_edge<T>(s: Option<Pair<T>>, v: T)
    ensures
        updated(updated(s, None), Some(v)) == Some(Pair { previous: v, latest: v }),
        !is_changed(updated(updated(s, None), Some(v))),
        updated(s, None) is None,
{
}

} // verus!
