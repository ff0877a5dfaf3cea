//! Control of one light path: how the depth budget, the scene query and the
//! material's scatter decision end the recursive colour evaluation.
//!
//! The caller traces the current ray, reports what it found, and multiplies
//! the attenuations of the scattered bounces into the colour of the end that
//! the path reaches.

use vstd::prelude::*;

verus! {

/// What the scene query found for the current ray.
#[derive(Clone, Copy, Debug, PartialEq, Eq, Structural)]
pub enum Found {
    /// No surface in the accepted distance range: the ray sees the sky.
    Miss,
    /// A surface was hit and its material absorbed the ray.
    Absorbed,
    /// A surface was hit and its material scattered the ray onwards.
    Scattered,
}

/// How a path ends.
#[derive(Clone, Copy, Debug, PartialEq, Eq, Structural)]
pub enum PathEnd {
    /// No light: the budget ran out or the ray was absorbed.
    Black,
    /// The sky gradient seen along the last ray.
    Background,
}

/// The state of a path under evaluation.
#[derive(Clone, Copy, Debug, PartialEq, Eq, Structural)]
pub enum PathStep {
    /// The current ray must be traced; `budget` bounces are left, counting
    /// this one.
    Trace { budget: i32 },
    /// The path has ended.
    Done(PathEnd),
}

/// The first step of a path evaluated with `depth_budget` bounces.
pub open spec fn start_spec(depth_budget: int) -> PathStep {
    if depth_budget <= 0 {
        PathStep::Done(PathEnd::Black)
    } else {
        PathStep::Trace { budget: depth_budget as i32 }
    }
}

/// The step after `s` once the current ray's query found `found`.
pub open spec fn after_spec(s: PathStep, found: Found) -> PathStep {
    match s {
        PathStep::Trace { budget } => match found {
            Found::Miss => PathStep::Done(PathEnd::Background),
            Found::Absorbed => PathStep::Done(PathEnd::Black),
            Found::Scattered => start_spec(budget - 1),
        },
        PathStep::Done(e) => PathStep::Done(e),
    }
}

/// The step reached from `s` when the successive queries find `found`, in
/// order, for as long as the path asks for them.
pub open spec fn run(s: PathStep, found: Seq<Found>) -> PathStep
    decreases found.len(),
{
    match s {
        PathStep::Trace { .. } => if found.len() == 0 {
            s
        } else {
            run(after_spec(s, found[0]), found.drop_first())
        },
        PathStep::Done(_) => s,
    }
}

/// How many scene queries a path in state `s` makes before it ends or
/// `found` runs out.
pub open spec fn queries(s: PathStep, found: Seq<Found>) -> nat
    decreases found.len(),
{
    match s {
        PathStep::Trace { .. } => if found.len() == 0 {
            0
        } else {
            1 + queries(after_spec(s, found[0]), found.drop_first())
        },
        PathStep::Done(_) => 0,
    }
}

/// A path whose depth budget is zero or less ends in black whatever the
/// scene would have found, and queries the scene not once.
pub proof fn lemma_exhausted_budget_is_black(depth_budget: i32, found: Seq<Found>)
    requires
        depth_budget <= 0,
    ensures
        run(start_spec(depth_budget as int), found) == PathStep::Done(PathEnd::Black),
        queries(start_spec(depth_budget as int), found) == 0,
{
}

/// A path traced with `budget` bounces left queries the scene at most
/// `budget` times.
proof fn lemma_trace_queries_bounded(budget: i32, found: Seq<Found>)
    requires
        budget > 0,
    ensures
        queries(PathStep::Trace { budget }, found) <= budget,
    decreases found.len(),
{
    if found.len() > 0 {
        let next = after_spec(PathStep::Trace { budget }, found[0]);
        if budget > 1 && found[0] == Found::Scattered {
            lemma_trace_queries_bounded((budget - 1) as i32, found.drop_first());
        } else {
            assert(next is Done);
            assert(queries(next, found.drop_first()) == 0);
        }
    }
}

/// The recursion is bounded by its budget: a path started with
/// `depth_budget` bounces queries the scene at most `depth_budget` times,
/// whatever the queries find.
pub proof fn lemma_queries_bounded(depth_budget: i32, found: Seq<Found>)
    ensures
        queries(start_spec(depth_budget as int), found) <= if depth_budget > 0 {
            depth_budget as int
        } else {
            0
        },
{
    if depth_budget > 0 {
        lemma_trace_queries_bounded(depth_budget, found);
    }
}

impl PathStep {
    /// Begins a path with `depth_budget` bounces. A budget of zero or less
    /// ends it at once in black, before any scene query.
    pub fn start(depth_budget: i32) -> (r: PathStep)
        ensures
            r == start_spec(depth_budget as int),
    {
        if depth_budget <= 0 {
            PathStep::Done(PathEnd::Black)
        } else {
            PathStep::Trace { budget: depth_budget }
        }
    }

    /// Advances the path by the result of the current ray's query: a miss
    /// ends it on the background, an absorption in black, and a scatter
    /// goes on with one bounce less. A finished path stays as it is.
    pub fn after(self, found: Found) -> (r: PathStep)
        ensures
            r == after_spec(self, found),
    {
        match self {
            PathStep::Trace { budget } => match found {
                Found::Miss => PathStep::Done(PathEnd::Background),
                Found::Absorbed => PathStep::Done(PathEnd::Black),
                Found::Scattered => if budget <= 1 {
                    PathStep::Done(PathEnd::Black)
                } else {
                    PathStep::Trace { budget: budget - 1 }
                },
            },
            PathStep::Done(e) => PathStep::Done(e),
        }
    }
}

} // verus!
