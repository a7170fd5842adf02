//! The physics driver and what it decides in each frame.
//!
//! A frame of one driver runs in two halves. First the driver is asked for
//! its plan, given the anchor that the rig could or could not supply and the
//! timestep. Where the plan is to integrate, the caller advances the model
//! numerically and maps the new state to an output vector. Then the driver
//! takes the frame as a whole and either commits the step that was taken
//! or keeps what it has.

use vstd::prelude::*;
use crate::props::SimplePhysicsProps;
use crate::scalar::{Scalar, Vector2, ZERO_BITS};
use crate::system::SimplePhysicsSystem;

verus! {

/// Identifier of the animation parameter that a driver writes to.
#[derive(Clone, Copy, Debug, PartialEq, Eq, Structural)]
pub struct ParamUuid(pub u32);

/// How the state of a model becomes a 2D output vector.
#[derive(Clone, Copy, Debug, PartialEq, Eq, PartialOrd, Ord, Structural)]
pub enum ParamMapMode {
    /// The state is an angle and a radial length, projected to Cartesian
    /// coordinates.
    AngleLength,
    /// The state is a Cartesian displacement, used as it is.
    XY,
}

/// A value to be written to an animation parameter.
#[derive(Clone, Copy, Debug, PartialEq, Eq, Structural)]
pub struct ParamWrite {
    pub param: ParamUuid,
    pub value: Vector2,
}

/// What a driver does in a frame.
#[derive(Clone, Copy, Debug, PartialEq, Eq, Structural)]
pub enum TickPlan {
    /// There is no anchor: the driver sits the frame out and writes nothing.
    Skip,
    /// The anchor or the timestep cannot be integrated over: the driver
    /// writes its held output again and its state stays as it is.
    Hold,
    /// The model is advanced by one step and the new output is written.
    Integrate,
}

/// What one integration step gave: the new state of the model, and the
/// output vector mapped from it.
#[derive(Clone, Copy, Debug, PartialEq, Eq, Structural)]
pub struct Step {
    pub system: SimplePhysicsSystem,
    pub output: Vector2,
}

/// One frame as a driver sees it: what the rig supplied, and what the
/// integration gave where a step was taken.
#[derive(Clone, Copy, Debug, PartialEq, Eq, Structural)]
pub struct Frame {
    /// The anchor, where the rig has one for this driver.
    pub anchor: Option<Vector2>,
    /// The timestep.
    pub dt: Scalar,
    /// The step that was integrated, if one was.
    pub step: Option<Step>,
}

/// A physics driver: one model, its parameters and the animation parameter
/// that it drives.
#[derive(Clone, Copy, Debug, PartialEq, Eq, Structural)]
pub struct SimplePhysics {
    pub param: ParamUuid,
    pub system: SimplePhysicsSystem,
    pub map_mode: ParamMapMode,
    pub props: SimplePhysicsProps,
    /// Whether physics system listens to local transform only.
    pub local_only: bool,
    /// The anchor of the last step that was integrated.
    pub anchor: Vector2,
    /// The output of the last step that was integrated.
    pub output: Vector2,
}

impl SimplePhysics {
    /// The plan for a frame with this anchor and timestep.
    pub open spec fn planned(self, anchor: Option<Vector2>, dt: Scalar) -> TickPlan {
        match anchor {
            None => TickPlan::Skip,
            Some(a) => if a.finite() && dt.timestep() {
                TickPlan::Integrate
            } else {
                TickPlan::Hold
            },
        }
    }

    /// The frame's step is committed: the plan is to integrate, a step was
    /// taken, and the state that it gave is of the driver's own model.
    pub open spec fn commits(self, frame: Frame) -> bool {
        &&& self.planned(frame.anchor, frame.dt) == TickPlan::Integrate
        &&& frame.step.is_some()
        &&& self.system.same_model(frame.step.unwrap().system)
    }

    /// The driver after the frame.
    pub open spec fn after(self, frame: Frame) -> SimplePhysics {
        if self.commits(frame) {
            SimplePhysics {
                system: frame.step.unwrap().system,
                anchor: frame.anchor.unwrap(),
                output: frame.step.unwrap().output,
                ..self
            }
        } else {
            self
        }
    }

    /// What the driver writes in the frame, if anything.
    pub open spec fn emits(self, frame: Frame) -> Option<ParamWrite> {
        if frame.anchor.is_none() {
            None
        } else {
            Some(ParamWrite { param: self.param, value: self.after(frame).output })
        }
    }

    /// The driver after a sequence of frames, first to last.
    pub open spec fn after_all(self, frames: Seq<Frame>) -> SimplePhysics
        decreases frames.len(),
    {
        if frames.len() == 0 {
            self
        } else {
            self.after_all(frames.drop_last()).after(frames.last())
        }
    }

    /// What the driver writes over a sequence of frames, one entry a frame.
    pub open spec fn emits_all(self, frames: Seq<Frame>) -> Seq<Option<ParamWrite>>
        decreases frames.len(),
    {
        if frames.len() == 0 {
            Seq::empty()
        } else {
            self.emits_all(frames.drop_last()).push(
                self.after_all(frames.drop_last()).emits(frames.last()),
            )
        }
    }

    /// A driver that has not integrated yet: anchor and output are
    /// `(0.0, 0.0)`.
    pub fn new(
        param: ParamUuid,
        system: SimplePhysicsSystem,
        map_mode: ParamMapMode,
        props: SimplePhysicsProps,
        local_only: bool,
    ) -> (r: SimplePhysics)
        ensures
            r == (SimplePhysics {
                param,
                system,
                map_mode,
                props,
                local_only,
                anchor: Vector2 { x: Scalar { bits: ZERO_BITS }, y: Scalar { bits: ZERO_BITS } },
                output: Vector2 { x: Scalar { bits: ZERO_BITS }, y: Scalar { bits: ZERO_BITS } },
            }),
    {
        SimplePhysics {
            param,
            system,
            map_mode,
            props,
            local_only,
            anchor: Vector2::new_zero(),
            output: Vector2::new_zero(),
        }
    }

    /// Decides what the driver does in a frame. Without an anchor it skips
    /// the frame. With an anchor that is not finite, or a timestep that is
    /// negative or not finite, it holds. Otherwise it integrates.
    pub fn plan(&self, anchor: Option<Vector2>, dt: Scalar) -> (r: TickPlan)
        ensures
            r == self.planned(anchor, dt),
            anchor.is_none() <==> r == TickPlan::Skip,
            r == TickPlan::Integrate <==> anchor.is_some() && anchor.unwrap().finite()
                && dt.timestep(),
    {
        match anchor {
            None => TickPlan::Skip,
            Some(a) => if a.is_finite() && dt.is_timestep() {
                TickPlan::Integrate
            } else {
                TickPlan::Hold
            },
        }
    }

    /// Takes one frame. Where the frame's step is committed, the driver
    /// takes over the integrated state, the anchor and the output, and writes
    /// the new output. Where the frame has an anchor but the step is not
    /// committed, the driver stays as it is and writes its held output.
    /// Without an anchor it stays as it is and writes nothing.
    pub fn tick(&mut self, frame: &Frame) -> (w: Option<ParamWrite>)
        ensures
            *final(self) == old(self).after(*frame),
            w == old(self).emits(*frame),
            !old(self).commits(*frame) ==> *final(self) == *old(self),
            frame.anchor.is_none() <==> w.is_none(),
            final(self).param == old(self).param,
            final(self).map_mode == old(self).map_mode,
            final(self).props == old(self).props,
            final(self).local_only == old(self).local_only,
            final(self).system.same_model(old(self).system),
    {
        match frame.anchor {
            None => None,
            Some(a) => {
                if a.is_finite() && frame.dt.is_timestep() {
                    match frame.step {
                        Some(step) => {
                            if self.system.tick(&step.system) {
                                self.anchor = a;
                                self.output = step.output;
                            }
                        },
                        None => {},
                    }
                }
                Some(ParamWrite { param: self.param, value: self.output })
            },
        }
    }

    /// Takes the frames one after another, first to last, and gives what
    /// the driver writes in each.
    pub fn replay(&mut self, frames: &Vec<Frame>) -> (writes: Vec<Option<ParamWrite>>)
        ensures
            *final(self) == old(self).after_all(frames@),
            writes@ == old(self).emits_all(frames@),
            writes@.len() == frames@.len(),
    {
        let ghost before = *self;
        let mut writes: Vec<Option<ParamWrite>> = Vec::new();
        let mut i: usize = 0;
        while i < frames.len()
            invariant
                i <= frames@.len(),
                *self == before.after_all(frames@.take(i as int)),
                writes@ == before.emits_all(frames@.take(i as int)),
                writes@.len() == i,
            decreases frames@.len() - i,
        {
            proof {
                let next = frames@.take(i + 1);
                assert(next.drop_last() == frames@.take(i as int));
                assert(next.last() == frames@[i as int]);
            }
            let w = self.tick(&frames[i]);
            writes.push(w);
            i = i + 1;
        }
        proof {
            assert(frames@.take(i as int) == frames@);
        }
        writes
    }
}

/// Replaying the same frames from the same state gives the same writes and
/// the same final state: a driver has no input but its state and its frames.
pub proof fn lemma_replay_is_deterministic(a: SimplePhysics, b: SimplePhysics, frames: Seq<Frame>)
    requires
        a == b,
    ensures
        a.after_all(frames) == b.after_all(frames),
        a.emits_all(frames) == b.emits_all(frames),
        a.emits_all(frames).len() == frames.len(),
    decreases frames.len(),
{
    if frames.len() > 0 {
        lemma_replay_is_deterministic(a, b, frames.drop_last());
    }
}

/// Over any sequence of frames a driver keeps what it was made with: its
/// parameter, mapping mode, parameters, flag and the kind of its model. It
/// writes once for each frame that has an anchor, always to its own
/// parameter, and never for a frame without one.
pub proof fn lemma_replay_keeps_configuration(a: SimplePhysics, frames: Seq<Frame>)
    ensures
        a.after_all(frames).param == a.param,
        a.after_all(frames).map_mode == a.map_mode,
        a.after_all(frames).props == a.props,
        a.after_all(frames).local_only == a.local_only,
        a.after_all(frames).system.same_model(a.system),
        a.emits_all(frames).len() == frames.len(),
        forall|i: int|
            0 <= i < frames.len() ==> (#[trigger] a.emits_all(frames)[i]).is_none()
                == frames[i].anchor.is_none(),
        forall|i: int|
            0 <= i < frames.len() && frames[i].anchor.is_some() ==> (#[trigger] a.emits_all(
                frames,
            )[i]).unwrap().param == a.param,
    decreases frames.len(),
{
    if frames.len() > 0 {
        let head = frames.drop_last();
        lemma_replay_keeps_configuration(a, head);
        assert forall|i: int| 0 <= i < frames.len() implies (#[trigger] a.emits_all(
            frames,
        )[i]).is_none() == frames[i].anchor.is_none() && (frames[i].anchor.is_some()
            ==> a.emits_all(frames)[i].unwrap().param == a.param) by {
            if i < head.len() {
                assert(a.emits_all(frames)[i] == a.emits_all(head)[i]);
                assert(head[i] == frames[i]);
            }
        }
    }
}

/// The mapping mode shapes the output that a step hands in and nothing
/// else: two drivers that differ in their mapping mode alone plan alike,
/// commit alike, and keep the same model state, anchor and parameters over
/// any frame, each with its own mapping mode unchanged.
pub proof fn lemma_map_mode_leaves_state(a: SimplePhysics, mode: ParamMapMode, frame: Frame)
    ensures
        (SimplePhysics { map_mode: mode, ..a }).planned(frame.anchor, frame.dt) == a.planned(
            frame.anchor,
            frame.dt,
        ),
        (SimplePhysics { map_mode: mode, ..a }).commits(frame) == a.commits(frame),
        (SimplePhysics { map_mode: mode, ..a }).after(frame) == (SimplePhysics {
            map_mode: mode,
            ..a.after(frame)
        }),
        a.after(frame).map_mode == a.map_mode,
{
}

/// A frame that is not committed changes nothing, however many of them
/// come: a driver none of whose frames is committed ends as it began.
pub proof fn lemma_uncommitted_frames_keep_state(a: SimplePhysics, frames: Seq<Frame>)
    requires
        forall|i: int| 0 <= i < frames.len() ==> !a.commits(#[trigger] frames[i]),
    ensures
        a.after_all(frames) == a,
    decreases frames.len(),
{
    if frames.len() > 0 {
        let head = frames.drop_last();
        assert forall|i: int| 0 <= i < head.len() implies !a.commits(#[trigger] head[i]) by {
            assert(head[i] == frames[i]);
        }
        lemma_uncommitted_frames_keep_state(a, head);
    }
}

} // verus!
