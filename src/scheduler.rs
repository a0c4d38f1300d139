//! The frame synchronization scheduler: which frame slot and which swapchain
//! image are in use, which fence must be waited on before an image is reused,
//! and when the swapchain has to be rebuilt.
//!
//! The program around it performs each step it asks for (waits on a fence,
//! acquires an image, submits, presents, rebuilds) and reports the outcome.
use vstd::prelude::*;
use crate::swapchain::Extent2D;

verus! {

/// Where the scheduler stands within one frame iteration.
#[derive(Clone, Copy, Debug, PartialEq, Eq, Structural)]
pub enum FramePhase {
    /// Between frames.
    Idle,
    /// The current slot's fence has been waited on; an image is to be acquired.
    SlotWaited,
    /// An image was claimed by the current slot; its work is to be submitted and presented.
    Drawing,
    /// All work is to be drained and the swapchain's dependent chain rebuilt.
    Rebuilding,
}

/// What acquiring the next presentable image gave.
#[derive(Clone, Copy, Debug, PartialEq, Eq, Structural)]
pub enum AcquireOutcome {
    /// An image index; `suboptimal` when the surface no longer matches exactly.
    Acquired { image: usize, suboptimal: bool },
    /// The surface changed and the swapchain can no longer present.
    OutOfDate,
    /// Any other failure.
    Failed,
}

/// What presenting an image gave.
#[derive(Clone, Copy, Debug, PartialEq, Eq, Structural)]
pub enum PresentOutcome {
    Presented,
    Suboptimal,
    OutOfDate,
    Failed,
}

#[derive(Clone, Copy, Debug, PartialEq, Eq, Structural)]
pub enum FrameError {
    /// A queue operation failed for a reason other than a stale surface.
    DeviceLost,
    /// The swapchain handed out an index beyond its images.
    ImageOutOfRange,
}

/// How a frame iteration starts.
#[derive(Clone, Copy, Debug, PartialEq, Eq, Structural)]
pub enum FrameStart {
    /// Wait on the fence of this frame slot, then acquire an image.
    WaitSlot(usize),
    /// The window has no area: draw nothing and rebuild nothing this tick.
    Defer,
    /// Wait for the device to go idle and rebuild the swapchain's dependent chain.
    Rebuild,
}

/// The work of one frame once an image is acquired.
#[derive(Clone, Copy, Debug, PartialEq, Eq, Structural)]
pub struct DrawPlan {
    /// The frame slot whose semaphores and fence the submission uses.
    pub slot: usize,
    /// The swapchain image drawn into.
    pub image: usize,
    /// The slot whose fence must be waited on before the image is touched.
    pub wait_on: Option<usize>,
}

/// What to do after an acquire.
#[derive(Clone, Copy, Debug, PartialEq, Eq, Structural)]
pub enum AcquireAction {
    Draw(DrawPlan),
    /// Start the iteration again without drawing.
    Restart,
}

/// The scheduler's state as plain mathematics.
pub ghost struct SchedulerView {
    pub slot_count: nat,
    pub current_slot: nat,
    /// For each swapchain image, the frame slot whose fence last claimed it.
    pub image_fences: Seq<Option<usize>>,
    /// For each frame slot, the image that its submitted, not yet waited-on work uses.
    pub slot_images: Seq<Option<usize>>,
    pub needs_rebuild: bool,
    pub phase: FramePhase,
}

/// The state invariant: the image-in-flight table names exactly the slots
/// whose work is in flight, each with the one image that work uses.
pub open spec fn scheduler_wf(v: SchedulerView) -> bool {
    &&& v.slot_count == v.slot_images.len()
    &&& v.slot_count > 0
    &&& v.image_fences.len() > 0
    &&& v.image_fences.len() <= usize::MAX
    &&& v.slot_count <= usize::MAX
    &&& v.current_slot < v.slot_count
    &&& forall|t: int|
        0 <= t < v.slot_images.len() ==> (#[trigger] v.slot_images[t] matches Some(j) ==> j
            < v.image_fences.len() && v.image_fences[j as int] == Some(t as usize))
    &&& forall|j: int|
        0 <= j < v.image_fences.len() ==> (#[trigger] v.image_fences[j] matches Some(t) ==> t
            < v.slot_images.len() && v.slot_images[t as int] == Some(j as usize))
    &&& v.phase == FramePhase::SlotWaited ==> v.slot_images[v.current_slot as int] is None
    &&& v.phase == FramePhase::Drawing ==> v.slot_images[v.current_slot as int] is Some
}

/// Slot `t`'s fence has been waited on: its work is no longer in flight.
pub open spec fn retire(v: SchedulerView, t: nat) -> SchedulerView {
    SchedulerView {
        image_fences: match v.slot_images[t as int] {
            Some(j) => v.image_fences.update(j as int, None),
            None => v.image_fences,
        },
        slot_images: v.slot_images.update(t as int, None),
        ..v
    }
}

/// The current slot claims `image`, after the slot that claimed it before has
/// been waited on.
pub open spec fn claim(v: SchedulerView, image: nat) -> SchedulerView {
    let w = match v.image_fences[image as int] {
        Some(t) => retire(v, t as nat),
        None => v,
    };
    SchedulerView {
        image_fences: w.image_fences.update(image as int, Some(v.current_slot as usize)),
        slot_images: w.slot_images.update(v.current_slot as int, Some(image as usize)),
        ..w
    }
}

pub open spec fn empty_table(n: nat) -> Seq<Option<usize>> {
    Seq::new(n, |i: int| None::<usize>)
}

pub open spec fn zero_extent(e: Extent2D) -> bool {
    e.width == 0 || e.height == 0
}

pub struct FrameScheduler {
    slot_count: usize,
    current_slot: usize,
    image_fences: Vec<Option<usize>>,
    slot_images: Vec<Option<usize>>,
    needs_rebuild: bool,
    phase: FramePhase,
}

impl View for FrameScheduler {
    type V = SchedulerView;

    closed spec fn view(&self) -> SchedulerView {
        SchedulerView {
            slot_count: self.slot_count as nat,
            current_slot: self.current_slot as nat,
            image_fences: self.image_fences@,
            slot_images: self.slot_images@,
            needs_rebuild: self.needs_rebuild,
            phase: self.phase,
        }
    }
}

fn empty_vec(n: usize) -> (r: Vec<Option<usize>>)
    ensures
        r@ == empty_table(n as nat),
{
    let mut v: Vec<Option<usize>> = Vec::new();
    let mut i: usize = 0;
    while i < n
        invariant
            i <= n,
            v@ == empty_table(i as nat),
        decreases n - i,
    {
        v.push(None);
        i = i + 1;
        proof {
            assert(v@ =~= empty_table(i as nat));
        }
    }
    v
}

impl FrameScheduler {
    pub open spec fn wf(&self) -> bool {
        scheduler_wf(self@)
    }

    /// A scheduler for `slot_count` frame slots and a swapchain of
    /// `image_count` images, with nothing in flight.
    pub fn new(slot_count: usize, image_count: usize) -> (r: Self)
        requires
            slot_count > 0,
            image_count > 0,
        ensures
            r.wf(),
            r@ == (SchedulerView {
                slot_count: slot_count as nat,
                current_slot: 0,
                image_fences: empty_table(image_count as nat),
                slot_images: empty_table(slot_count as nat),
                needs_rebuild: false,
                phase: FramePhase::Idle,
            }),
    {
        FrameScheduler {
            slot_count,
            current_slot: 0,
            image_fences: empty_vec(image_count),
            slot_images: empty_vec(slot_count),
            needs_rebuild: false,
            phase: FramePhase::Idle,
        }
    }

    pub fn slot_count(&self) -> (r: usize)
        ensures
            r == self@.slot_count,
    {
        self.slot_count
    }

    pub fn image_count(&self) -> (r: usize)
        ensures
            r == self@.image_fences.len(),
    {
        self.image_fences.len()
    }

    pub fn current_slot(&self) -> (r: usize)
        ensures
            r == self@.current_slot,
    {
        self.current_slot
    }

    pub fn needs_rebuild(&self) -> (r: bool)
        ensures
            r == self@.needs_rebuild,
    {
        self.needs_rebuild
    }

    pub fn phase(&self) -> (r: FramePhase)
        ensures
            r == self@.phase,
    {
        self.phase
    }

    /// The slot whose fence last claimed `image`, if that work is in flight.
    pub fn image_fence(&self, image: usize) -> (r: Option<usize>)
        requires
            image < self@.image_fences.len(),
        ensures
            r == self@.image_fences[image as int],
    {
        self.image_fences[image]
    }

    /// The image used by slot `slot`'s work in flight, if any.
    pub fn slot_image(&self, slot: usize) -> (r: Option<usize>)
        requires
            slot < self@.slot_images.len(),
        ensures
            r == self@.slot_images[slot as int],
    {
        self.slot_images[slot]
    }

    fn retire_slot(&mut self, t: usize)
        requires
            scheduler_wf(old(self)@),
            t < old(self)@.slot_count,
        ensures
            final(self)@ == retire(old(self)@, t as nat),
            final(self).slot_count == old(self).slot_count,
    {
        match self.slot_images[t] {
            Some(j) => {
                self.image_fences.set(j, None);
            },
            None => {},
        }
        self.slot_images.set(t, None);
    }

    /// The window was resized: the swapchain is rebuilt before a later frame.
    pub fn note_resized(&mut self)
        requires
            old(self).wf(),
        ensures
            final(self).wf(),
            final(self)@ == (SchedulerView { needs_rebuild: true, ..old(self)@ }),
    {
        self.needs_rebuild = true;
    }

    /// Starts a frame iteration for a window of the given size. A window
    /// without area defers all work; a pending rebuild comes before drawing;
    /// otherwise the current slot's fence is waited on, which retires its work.
    pub fn begin_frame(&mut self, window: Extent2D) -> (r: FrameStart)
        requires
            old(self).wf(),
            old(self)@.phase == FramePhase::Idle,
        ensures
            final(self).wf(),
            zero_extent(window) ==> r == FrameStart::Defer && final(self)@ == old(self)@,
            !zero_extent(window) && old(self)@.needs_rebuild ==> r == FrameStart::Rebuild
                && final(self)@ == (SchedulerView {
                phase: FramePhase::Rebuilding,
                ..old(self)@
            }),
            !zero_extent(window) && !old(self)@.needs_rebuild ==> r == FrameStart::WaitSlot(
                old(self)@.current_slot as usize,
            ) && final(self)@ == (SchedulerView {
                phase: FramePhase::SlotWaited,
                ..retire(old(self)@, old(self)@.current_slot)
            }),
    {
        if window.width == 0 || window.height == 0 {
            FrameStart::Defer
        } else if self.needs_rebuild {
            self.phase = FramePhase::Rebuilding;
            FrameStart::Rebuild
        } else {
            let slot = self.current_slot;
            self.retire_slot(slot);
            self.phase = FramePhase::SlotWaited;
            proof {
                let v = self@;
                assert forall|t: int| 0 <= t < v.slot_images.len() implies (
                #[trigger] v.slot_images[t] matches Some(j) ==> j < v.image_fences.len()
                    && v.image_fences[j as int] == Some(t as usize)) by {
                    if let Some(j) = v.slot_images[t] {
                        assert(old(self)@.slot_images[t] == Some(j));
                    }
                }
                assert forall|j: int| 0 <= j < v.image_fences.len() implies (
                #[trigger] v.image_fences[j] matches Some(t) ==> t < v.slot_images.len()
                    && v.slot_images[t as int] == Some(j as usize)) by {
                    if let Some(t) = v.image_fences[j] {
                        let o = old(self)@;
                        if t == slot {
                            assert(o.slot_images[slot as int] == Some(j as usize));
                        }
                        assert(o.image_fences[j] == Some(t));
                    }
                }
            }
            FrameStart::WaitSlot(slot)
        }
    }
    /// Acts on the result of acquiring an image. An acquired image is claimed
    /// by the current slot, and the slot that claimed it before, if its work
    /// is still in flight, is named to be waited on first. A stale surface
    /// asks for a rebuild and a new iteration without drawing.
    pub fn on_acquire(&mut self, outcome: AcquireOutcome) -> (r: Result<AcquireAction, FrameError>)
        requires
            old(self).wf(),
            old(self)@.phase == FramePhase::SlotWaited,
        ensures
            final(self).wf(),
            match outcome {
                AcquireOutcome::Acquired { image, suboptimal } => if image
                    < old(self)@.image_fences.len() {
                    &&& r == Ok::<AcquireAction, FrameError>(
                        AcquireAction::Draw(
                            DrawPlan {
                                slot: old(self)@.current_slot as usize,
                                image,
                                wait_on: old(self)@.image_fences[image as int],
                            },
                        ),
                    )
                    &&& final(self)@ == (SchedulerView {
                        needs_rebuild: old(self)@.needs_rebuild || suboptimal,
                        phase: FramePhase::Drawing,
                        ..claim(old(self)@, image as nat)
                    })
                } else {
                    r == Err::<AcquireAction, FrameError>(FrameError::ImageOutOfRange)
                        && final(self)@ == old(self)@
                },
                AcquireOutcome::OutOfDate => r == Ok::<AcquireAction, FrameError>(
                    AcquireAction::Restart,
                ) && final(self)@ == (SchedulerView {
                    needs_rebuild: true,
                    phase: FramePhase::Idle,
                    ..old(self)@
                }),
                AcquireOutcome::Failed => r == Err::<AcquireAction, FrameError>(
                    FrameError::DeviceLost,
                ) && final(self)@ == old(self)@,
            },
    {
        match outcome {
            AcquireOutcome::Acquired { image, suboptimal } => {
                if image >= self.image_fences.len() {
                    return Err(FrameError::ImageOutOfRange);
                }
                let slot = self.current_slot;
                let previous = self.image_fences[image];
                let ghost v0 = self@;
                match previous {
                    Some(t) => {
                        self.retire_slot(t);
                    },
                    None => {},
                }
                let ghost v1 = self@;
                proof {
                    lemma_retire_keeps_links(v0, previous, image as nat);
                }
                self.image_fences.set(image, Some(slot));
                self.slot_images.set(slot, Some(image));
                if suboptimal {
                    self.needs_rebuild = true;
                }
                self.phase = FramePhase::Drawing;
                proof {
                    let v = self@;
                    assert forall|t: int| 0 <= t < v.slot_images.len() implies (
                    #[trigger] v.slot_images[t] matches Some(j) ==> j < v.image_fences.len()
                        && v.image_fences[j as int] == Some(t as usize)) by {
                        if t != slot {
                            if let Some(j) = v.slot_images[t] {
                                assert(v1.slot_images[t] == Some(j));
                                assert(j != image);
                            }
                        }
                    }
                    assert forall|j: int| 0 <= j < v.image_fences.len() implies (
                    #[trigger] v.image_fences[j] matches Some(t) ==> t < v.slot_images.len()
                        && v.slot_images[t as int] == Some(j as usize)) by {
                        if j != image {
                            if let Some(t) = v.image_fences[j] {
                                assert(v1.image_fences[j] == Some(t));
                                assert(t != slot);
                            }
                        }
                    }
                }
                Ok(AcquireAction::Draw(DrawPlan { slot, image, wait_on: previous }))
            },
            AcquireOutcome::OutOfDate => {
                self.needs_rebuild = true;
                self.phase = FramePhase::Idle;
                Ok(AcquireAction::Restart)
            },
            AcquireOutcome::Failed => Err(FrameError::DeviceLost),
        }
    }

    /// Acts on the result of presenting: a stale or suboptimal surface asks
    /// for a rebuild before the next frame, and the next frame slot becomes
    /// current. Any other failure is fatal.
    pub fn frame_presented(&mut self, outcome: PresentOutcome) -> (r: Result<(), FrameError>)
        requires
            old(self).wf(),
            old(self)@.phase == FramePhase::Drawing,
        ensures
            final(self).wf(),
            outcome == PresentOutcome::Failed ==> r == Err::<(), FrameError>(FrameError::DeviceLost)
                && final(self)@ == old(self)@,
            outcome != PresentOutcome::Failed ==> r == Ok::<(), FrameError>(()) && final(self)@
                == (SchedulerView {
                current_slot: (old(self)@.current_slot + 1) % old(self)@.slot_count,
                needs_rebuild: old(self)@.needs_rebuild || outcome == PresentOutcome::Suboptimal
                    || outcome == PresentOutcome::OutOfDate,
                phase: FramePhase::Idle,
                ..old(self)@
            }),
    {
        match outcome {
            PresentOutcome::Failed => {
                return Err(FrameError::DeviceLost);
            },
            PresentOutcome::Suboptimal | PresentOutcome::OutOfDate => {
                self.needs_rebuild = true;
            },
            PresentOutcome::Presented => {},
        }
        self.current_slot = (self.current_slot + 1) % self.slot_count;
        self.phase = FramePhase::Idle;
        Ok(())
    }

    /// The device was drained and the swapchain rebuilt with `image_count`
    /// images: nothing is in flight and no image is claimed.
    pub fn swapchain_rebuilt(&mut self, image_count: usize)
        requires
            old(self).wf(),
            old(self)@.phase == FramePhase::Rebuilding,
            image_count > 0,
        ensures
            final(self).wf(),
            final(self)@ == (SchedulerView {
                image_fences: empty_table(image_count as nat),
                slot_images: empty_table(old(self)@.slot_count),
                needs_rebuild: false,
                phase: FramePhase::Idle,
                ..old(self)@
            }),
    {
        self.image_fences = empty_vec(image_count);
        self.slot_images = empty_vec(self.slot_count);
        self.needs_rebuild = false;
        self.phase = FramePhase::Idle;
    }
}

proof fn lemma_retire_keeps_links(v: SchedulerView, previous: Option<usize>, image: nat)
    requires
        scheduler_wf(v),
        v.phase == FramePhase::SlotWaited,
        image < v.image_fences.len(),
        previous == v.image_fences[image as int],
    ensures
        ({
            let w = match previous {
                Some(t) => retire(v, t as nat),
                None => v,
            };
            &&& w.image_fences[image as int] is None
            &&& w.slot_images[v.current_slot as int] is None
            &&& w.slot_images.len() == v.slot_images.len()
            &&& w.image_fences.len() == v.image_fences.len()
            &&& forall|t: int|
                0 <= t < w.slot_images.len() ==> (#[trigger] w.slot_images[t] matches Some(j) ==> j
                    < w.image_fences.len() && w.image_fences[j as int] == Some(t as usize))
            &&& forall|j: int|
                0 <= j < w.image_fences.len() ==> (#[trigger] w.image_fences[j] matches Some(t) ==> t
                    < w.slot_images.len() && w.slot_images[t as int] == Some(j as usize))
        }),
{
    if let Some(s) = previous {
        let w = retire(v, s as nat);
        assert(v.slot_images[s as int] == Some(image as usize));
        assert forall|t: int| 0 <= t < w.slot_images.len() implies (
        #[trigger] w.slot_images[t] matches Some(j) ==> j < w.image_fences.len()
            && w.image_fences[j as int] == Some(t as usize)) by {
            if let Some(j) = w.slot_images[t] {
                assert(v.slot_images[t] == Some(j));
                assert(j != image);
            }
        }
        assert forall|j: int| 0 <= j < w.image_fences.len() implies (
        #[trigger] w.image_fences[j] matches Some(t) ==> t < w.slot_images.len()
            && w.slot_images[t as int] == Some(j as usize)) by {
            if let Some(t) = w.image_fences[j] {
                assert(v.image_fences[j] == Some(t));
                assert(t != s);
            }
        }
    }
}

/// No two frame slots with work in flight use the same swapchain image.
pub proof fn lemma_in_flight_images_distinct(v: SchedulerView, t1: usize, t2: usize)
    requires
        scheduler_wf(v),
        t1 < v.slot_count,
        t2 < v.slot_count,
        t1 != t2,
        v.slot_images[t1 as int] is Some,
        v.slot_images[t2 as int] is Some,
    ensures
        v.slot_images[t1 as int] != v.slot_images[t2 as int],
{
    let j1 = v.slot_images[t1 as int].unwrap();
    let j2 = v.slot_images[t2 as int].unwrap();
    assert(v.image_fences[j1 as int] == Some(t1));
    assert(v.image_fences[j2 as int] == Some(t2));
}

/// Before the current slot may reuse an image that another slot's work still
/// uses, that slot's fence is waited on: the image-in-flight table names it,
/// and it is never the current slot itself.
pub proof fn lemma_reused_image_names_previous_fence(v: SchedulerView, t: usize, image: usize)
    requires
        scheduler_wf(v),
        v.phase == FramePhase::SlotWaited,
        t < v.slot_count,
        v.slot_images[t as int] == Some(image),
    ensures
        image < v.image_fences.len(),
        v.image_fences[image as int] == Some(t),
        t != v.current_slot,
{
}

/// The image-in-flight table holds no stale fence: an entry that names a
/// slot refers to that slot's work now in flight, so once a slot's fence is
/// reset for new work, only the image of that work names it.
pub proof fn lemma_table_names_only_in_flight_work(v: SchedulerView, image: usize, t: usize)
    requires
        scheduler_wf(v),
        image < v.image_fences.len(),
        v.image_fences[image as int] == Some(t),
    ensures
        t < v.slot_count,
        v.slot_images[t as int] == Some(image),
        forall|j: int|
            0 <= j < v.image_fences.len() && #[trigger] v.image_fences[j] == Some(t) ==> j
                == image,
{
    assert forall|j: int|
        0 <= j < v.image_fences.len() && #[trigger] v.image_fences[j] == Some(t) implies j == image by {
        assert(v.slot_images[t as int] == Some(j as usize));
    }
}

} // verus!
