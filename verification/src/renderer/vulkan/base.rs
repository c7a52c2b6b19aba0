//! The order in which the graphics core is built up and taken down.

use vstd::prelude::*;
use crate::error_handler::{ERendering, EVlkApi};
use super::failure::VlkFailure;

verus! {

/// A step of the construction of the graphics core. Each step needs every step
/// before it.
#[derive(Debug, Clone, Copy, PartialEq, Eq, Structural)]
pub enum Stage {
    Instance,
    DebugMessenger,
    Surface,
    PhysicalDevice,
    LogicalDevice,
    Swapchain,
    Pipeline,
}

/// The number of steps.
pub const STAGE_COUNT: usize = 7;

/// The position of a step in the construction order.
pub open spec fn stage_position(stage: Stage) -> int {
    match stage {
        Stage::Instance => 0,
        Stage::DebugMessenger => 1,
        Stage::Surface => 2,
        Stage::PhysicalDevice => 3,
        Stage::LogicalDevice => 4,
        Stage::Swapchain => 5,
        Stage::Pipeline => 6,
    }
}

/// The step at a position of the construction order.
pub open spec fn stage_at(position: int) -> Stage {
    if position == 0 {
        Stage::Instance
    } else if position == 1 {
        Stage::DebugMessenger
    } else if position == 2 {
        Stage::Surface
    } else if position == 3 {
        Stage::PhysicalDevice
    } else if position == 4 {
        Stage::LogicalDevice
    } else if position == 5 {
        Stage::Swapchain
    } else {
        Stage::Pipeline
    }
}

/// The first `count` steps in the order they are released: the last built first.
pub open spec fn release_sequence(count: int) -> Seq<Stage> {
    Seq::new(count as nat, |i: int| stage_at(count - 1 - i))
}

/// What the caller does next.
#[derive(Debug)]
pub enum Action {
    /// Build this step.
    Build(Stage),
    /// Every step is built; the core is ready to render.
    Ready,
    /// A step failed. Release these steps in this order, then hand the failure on.
    Unwind(Vec<Stage>, VlkFailure),
}

/// The graphics core as far as it is built.
#[derive(Debug)]
pub struct VlkBase {
    built: usize,
}

impl VlkBase {
    #[verifier::type_invariant]
    pub closed spec fn wf(self) -> bool {
        self.built <= STAGE_COUNT
    }

    /// The number of steps that are built. They are the first steps of the
    /// construction order.
    pub closed spec fn built_count(self) -> int {
        self.built as int
    }

    /// The step is built.
    pub open spec fn has(self, stage: Stage) -> bool {
        stage_position(stage) < self.built_count()
    }

    /// Starts with nothing built.
    pub fn init() -> (r: Self)
        ensures
            r.built_count() == 0,
    {
        VlkBase { built: 0 }
    }

    /// The step to build next, or none when every step is built.
    pub fn next_stage(&self) -> (r: Option<Stage>)
        ensures
            0 <= self.built_count() <= STAGE_COUNT,
            r == if self.built_count() < STAGE_COUNT {
                Some(stage_at(self.built_count()))
            } else {
                None
            },
    {
        proof {
            use_type_invariant(self);
        }
        stage_of(self.built)
    }

    /// Tells whether a step is built.
    pub fn is_built(&self, stage: Stage) -> (r: bool)
        ensures
            r == self.has(stage),
    {
        position_of(stage) < self.built
    }

    /// Takes note of how the step that was due ended, and says what comes next.
    ///
    /// After a success the step counts as built, and the next one is due. After a
    /// failure nothing counts as built any more: every step that stood is to be
    /// released, the last built first, before the failure goes on to the caller.
    /// When nothing was due, nothing changes.
    pub fn advance(&mut self, outcome: Result<(), VlkFailure>) -> (r: Action)
        ensures
            old(self).built_count() == STAGE_COUNT ==> final(self).built_count() == STAGE_COUNT
                && r is Ready,
            old(self).built_count() < STAGE_COUNT ==> match outcome {
                Ok(()) => {
                    &&& final(self).built_count() == old(self).built_count() + 1
                    &&& final(self).built_count() < STAGE_COUNT ==> r == Action::Build(
                        stage_at(final(self).built_count()),
                    )
                    &&& final(self).built_count() == STAGE_COUNT ==> r is Ready
                },
                Err(failure) => {
                    &&& final(self).built_count() == 0
                    &&& r matches Action::Unwind(steps, f) && f == failure && steps@
                        == release_sequence(old(self).built_count())
                },
            },
    {
        proof {
            use_type_invariant(&*self);
        }
        if self.built >= STAGE_COUNT {
            return Action::Ready;
        }
        match outcome {
            Ok(()) => {
                self.built = self.built + 1;
                match stage_of(self.built) {
                    Some(stage) => Action::Build(stage),
                    None => Action::Ready,
                }
            },
            Err(failure) => {
                let steps = release_steps(self.built);
                self.built = 0;
                Action::Unwind(steps, failure)
            },
        }
    }

    /// Takes the core down. What is built is handed back in the order of release,
    /// the exact reverse of the order of construction; nothing is left built.
    pub fn teardown(&mut self) -> (steps: Vec<Stage>)
        ensures
            final(self).built_count() == 0,
            steps@ == release_sequence(old(self).built_count()),
    {
        proof {
            use_type_invariant(&*self);
        }
        let steps = release_steps(self.built);
        self.built = 0;
        steps
    }
}

/// The high-level error under which a failure of the graphics core reaches the
/// engine's start-up.
pub fn rendering_context(failure: &VlkFailure) -> (r: ERendering)
    ensures
        r == if failure.kind == EVlkApi::Surface {
            ERendering::Surface
        } else if failure.kind == EVlkApi::Library || failure.kind == EVlkApi::Instance {
            ERendering::System
        } else {
            ERendering::VulkanBase
        },
{
    match failure.kind {
        EVlkApi::Surface => ERendering::Surface,
        EVlkApi::Library => ERendering::System,
        EVlkApi::Instance => ERendering::System,
        _ => ERendering::VulkanBase,
    }
}

fn position_of(stage: Stage) -> (r: usize)
    ensures
        r == stage_position(stage),
{
    match stage {
        Stage::Instance => 0,
        Stage::DebugMessenger => 1,
        Stage::Surface => 2,
        Stage::PhysicalDevice => 3,
        Stage::LogicalDevice => 4,
        Stage::Swapchain => 5,
        Stage::Pipeline => 6,
    }
}

fn stage_of(position: usize) -> (r: Option<Stage>)
    ensures
        r == if position < STAGE_COUNT {
            Some(stage_at(position as int))
        } else {
            None
        },
{
    if position == 0 {
        Some(Stage::Instance)
    } else if position == 1 {
        Some(Stage::DebugMessenger)
    } else if position == 2 {
        Some(Stage::Surface)
    } else if position == 3 {
        Some(Stage::PhysicalDevice)
    } else if position == 4 {
        Some(Stage::LogicalDevice)
    } else if position == 5 {
        Some(Stage::Swapchain)
    } else if position == 6 {
        Some(Stage::Pipeline)
    } else {
        None
    }
}

fn release_steps(count: usize) -> (steps: Vec<Stage>)
    requires
        count <= STAGE_COUNT,
    ensures
        steps@ == release_sequence(count as int),
{
    let mut steps: Vec<Stage> = Vec::new();
    let mut left: usize = count;
    while left > 0
        invariant
            left <= count <= STAGE_COUNT,
            steps@ == Seq::new((count - left) as nat, |i: int| stage_at(count - 1 - i)),
        decreases left,
    {
        left = left - 1;
        match stage_of(left) {
            Some(stage) => {
                steps.push(stage);
            },
            None => {},
        }
        assert(steps@ =~= Seq::new((count - left) as nat, |i: int| stage_at(count - 1 - i)));
    }
    steps
}

/// The order of release is the exact reverse of the order of construction: the
/// step at position `i` of the release is the step that was built at position
/// `count - 1 - i`; every built step is released exactly once.
pub proof fn lemma_release_reverses_construction(count: int, i: int)
    requires
        0 <= i < count <= STAGE_COUNT,
    ensures
        release_sequence(count).len() == count,
        stage_position(release_sequence(count)[i]) == count - 1 - i,
{
}

/// Whatever is released, every step that depends on it was released before: along
/// the order of release the positions in the construction order fall strictly.
pub proof fn lemma_dependents_released_first(count: int, i: int, j: int)
    requires
        0 <= i < j < count <= STAGE_COUNT,
    ensures
        stage_position(release_sequence(count)[i]) > stage_position(release_sequence(count)[j]),
{
}

/// Position and step are two views of the same order.
pub proof fn lemma_stage_positions(stage: Stage)
    ensures
        0 <= stage_position(stage) < STAGE_COUNT,
        stage_at(stage_position(stage)) == stage,
{
}

} // verus!
