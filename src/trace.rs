//! Control of the path integrator.
//!
//! A path is traced as a state machine: while it is still tracing, the caller
//! casts the current ray into the scene, asks the hit's material to scatter,
//! and reports what happened; the machine then ends the path or lets it bounce
//! once more. The colour of a path is the product of the attenuations of its
//! bounces with the colour of its end: the sky gradient, or black.

use vstd::prelude::*;

verus! {

/// What casting the current ray found.
#[derive(Clone, Copy, Debug, PartialEq, Eq, Structural)]
pub enum Probe {
    /// No object lies along the ray (beyond the shadow-acne epsilon).
    Miss,
    /// The nearest hit's material scattered the ray, or absorbed it.
    Hit { scattered: bool },
}

/// Why a path ended.
#[derive(Clone, Copy, Debug, PartialEq, Eq, Structural)]
pub enum PathEnd {
    /// The bounce budget is spent: the path contributes black.
    Exhausted,
    /// The ray left the scene: the path takes the sky gradient.
    Sky,
    /// A material absorbed the ray: the path contributes black.
    Absorbed,
}

/// A path being traced, or a finished one; `bounces` counts the scatter
/// events so far.
#[derive(Clone, Copy, Debug, PartialEq, Eq, Structural)]
pub enum PathState {
    Tracing { depth: i32, bounces: u32 },
    Done { end: PathEnd, bounces: u32 },
}

/// The state of a path before its first probe.
pub open spec fn start_spec(max_depth: i32) -> PathState {
    if max_depth <= 0 {
        PathState::Done { end: PathEnd::Exhausted, bounces: 0 }
    } else {
        PathState::Tracing { depth: max_depth, bounces: 0 }
    }
}

/// One transition: a finished path stays as it is.
pub open spec fn advance_spec(s: PathState, p: Probe) -> PathState {
    match s {
        PathState::Done { .. } => s,
        PathState::Tracing { depth, bounces } => match p {
            Probe::Miss => PathState::Done { end: PathEnd::Sky, bounces },
            Probe::Hit { scattered: false } => PathState::Done { end: PathEnd::Absorbed, bounces },
            Probe::Hit { scattered: true } => if depth - 1 <= 0 {
                PathState::Done { end: PathEnd::Exhausted, bounces: (bounces + 1) as u32 }
            } else {
                PathState::Tracing { depth: (depth - 1) as i32, bounces: (bounces + 1) as u32 }
            },
        },
    }
}

/// The state after the probes `ps`, in order.
pub open spec fn run(s: PathState, ps: Seq<Probe>) -> PathState
    decreases ps.len(),
{
    if ps.len() == 0 {
        s
    } else {
        run(advance_spec(s, ps[0]), ps.drop_first())
    }
}

/// The bounce count of a state.
pub open spec fn bounces_of(s: PathState) -> nat {
    match s {
        PathState::Tracing { bounces, .. } => bounces as nat,
        PathState::Done { bounces, .. } => bounces as nat,
    }
}

/// The bounces a state may still make.
pub open spec fn budget(s: PathState) -> nat {
    match s {
        PathState::Tracing { depth, .. } => depth as nat,
        PathState::Done { .. } => 0,
    }
}

proof fn lemma_run(s: PathState, ps: Seq<Probe>)
    requires
        s.wf(),
    ensures
        ps.len() >= budget(s) ==> run(s, ps) is Done,
        bounces_of(run(s, ps)) <= bounces_of(s) + budget(s),
        run(s, ps).wf(),
    decreases ps.len(),
{
    if ps.len() > 0 {
        lemma_run(advance_spec(s, ps[0]), ps.drop_first());
    }
}

/// Every path ends: whatever the probes report, a path allowed `max_depth`
/// bounces is finished after at most `max_depth` probes, and never makes
/// more than `max_depth` bounces.
pub proof fn lemma_path_ends(max_depth: i32, ps: Seq<Probe>)
    ensures
        ps.len() >= max_depth ==> run(start_spec(max_depth), ps) is Done,
        bounces_of(run(start_spec(max_depth), ps)) <= if max_depth > 0 {
            max_depth as nat
        } else {
            0
        },
{
    lemma_run(start_spec(max_depth), ps);
}

impl PathState {
    /// A state that a path started with at most `i32::MAX` bounces can
    /// reach: the depth left and the bounces made add up to at most that.
    pub open spec fn wf(self) -> bool {
        match self {
            PathState::Tracing { depth, bounces } => depth >= 1 && depth + bounces <= i32::MAX,
            PathState::Done { bounces, .. } => bounces <= i32::MAX,
        }
    }

    /// A path allowed `max_depth` bounces; with none allowed it ends at once.
    pub fn start(max_depth: i32) -> (r: PathState)
        ensures
            r == start_spec(max_depth),
            r.wf(),
    {
        if max_depth <= 0 {
            PathState::Done { end: PathEnd::Exhausted, bounces: 0 }
        } else {
            PathState::Tracing { depth: max_depth, bounces: 0 }
        }
    }

    /// Whether the path is still being traced.
    pub fn is_tracing(&self) -> (r: bool)
        ensures
            r == self is Tracing,
    {
        match self {
            PathState::Tracing { .. } => true,
            PathState::Done { .. } => false,
        }
    }

    /// The next state after probe `p`: a miss ends the path in the sky, an
    /// absorption ends it black, and a scatter uses up one bounce, ending the
    /// path when none is left.
    pub fn advance(&self, p: Probe) -> (r: PathState)
        requires
            self.wf(),
        ensures
            r == advance_spec(*self, p),
            r.wf(),
    {
        match *self {
            PathState::Done { .. } => *self,
            PathState::Tracing { depth, bounces } => match p {
                Probe::Miss => PathState::Done { end: PathEnd::Sky, bounces },
                Probe::Hit { scattered } => {
                    if !scattered {
                        PathState::Done { end: PathEnd::Absorbed, bounces }
                    } else if depth - 1 <= 0 {
                        PathState::Done { end: PathEnd::Exhausted, bounces: bounces + 1 }
                    } else {
                        PathState::Tracing { depth: depth - 1, bounces: bounces + 1 }
                    }
                },
            },
        }
    }
}

} // verus!
