use vstd::prelude::*;
use crate::display::VBE;
use crate::error::BootError;
use crate::memory::{pages_for, MemoryType};
use crate::path::firmware_path_spec;
use crate::sequence::{
    ActionView, EventView, HandoffRecord, LifecycleState, SequenceView, StageView,
};

verus! {

impl SequenceView {
    /// The display descriptor that the attempt holds, if it has acquired one.
    pub open spec fn display(self) -> Option<VBE> {
        match self.stage {
            StageView::AwaitingDisplay => None,
            StageView::AwaitingKernel { display } => Some(display),
            StageView::AwaitingPages { display, .. } => Some(display),
            StageView::AwaitingPlacement { display, .. } => Some(display),
            StageView::AwaitingExit { display, .. } => Some(display),
            StageView::HandedOff { record } => Some(record.display),
            StageView::Aborted { .. } => None,
        }
    }

    /// The state after a whole series of events, taken in order.
    pub open spec fn run(self, events: Seq<EventView>) -> SequenceView
        decreases events.len(),
    {
        if events.len() == 0 {
            self
        } else {
            self.run(events.drop_last()).next(events.last()).0
        }
    }
}

/// The events of an attempt that got as far as asking the firmware to end its
/// services: a graphics mode, the kernel's bytes, the pages at exactly the
/// requested address, the placement, and the answer to the request to end
/// services, in this order.
pub open spec fn completed_all_stages(start: SequenceView, events: Seq<EventView>) -> bool {
    &&& events.len() >= 5
    &&& events[0] is DisplayQueried
    &&& VBE::describe(events[0]->DisplayQueried_mode) is Ok
    &&& events[1] matches EventView::KernelRead { image: Ok(_) }
    &&& events[2] == EventView::PagesAllocated { address: Ok(start.kernel_base) }
    &&& events[3] == EventView::ImagePlaced
    &&& events[4] matches EventView::ServicesExited { .. }
}

/// An attempt begins in a well-formed state.
pub proof fn lemma_initial_wf(kernel_path: Seq<char>, kernel_base: u64, memory_type: MemoryType)
    ensures
        SequenceView::initial(kernel_path, kernel_base, memory_type).wf(),
{
}

/// Every transition keeps the state well formed and the configuration as it was.
pub proof fn lemma_next_preserves_wf(s: SequenceView, event: EventView)
    requires
        s.wf(),
    ensures
        s.next(event).0.wf(),
        s.next(event).0.kernel_path == s.kernel_path,
        s.next(event).0.kernel_base == s.kernel_base,
        s.next(event).0.memory_type == s.memory_type,
{
}

/// The lifecycle moves in one direction only: no event brings terminated
/// firmware services back.
pub proof fn lemma_lifecycle_monotonic(s: SequenceView, event: EventView)
    requires
        s.lifecycle is ServicesTerminated,
    ensures
        s.next(event).0.lifecycle is ServicesTerminated,
{
}

/// After firmware services are terminated every event is refused: the state
/// stays as it is and no action is handed out.
pub proof fn lemma_terminated_rejects(s: SequenceView, event: EventView)
    requires
        s.lifecycle is ServicesTerminated,
    ensures
        s.next(event) == (s, Err::<ActionView, BootError>(BootError::ServicesTerminated)),
{
}

/// An action that calls the firmware is handed out only while its services are
/// available, both before and after the transition that hands it out.
pub proof fn lemma_firmware_actions_need_active(s: SequenceView, event: EventView)
    requires
        s.next(event).1 is Ok,
        s.next(event).1->Ok_0.needs_firmware(),
    ensures
        s.lifecycle is Active,
        s.next(event).0.lifecycle is Active,
{
}

/// The display descriptor never changes once it is acquired: where a state and
/// its successor both hold one, it is the same, framebuffer address included.
pub proof fn lemma_display_never_changes(s: SequenceView, event: EventView)
    requires
        s.display() is Some,
        s.next(event).0.display() is Some,
    ensures
        s.next(event).0.display() == s.display(),
{
}

/// The transition that terminates firmware services keeps the display
/// descriptor: the record handed to the kernel carries the descriptor that the
/// attempt held just before, framebuffer address included.
pub proof fn lemma_display_survives_termination(s: SequenceView, event: EventView)
    requires
        s.lifecycle is Active,
        s.next(event).0.lifecycle is ServicesTerminated,
        s.next(event).1 is Ok,
    ensures
        s.display() is Some,
        s.next(event).0.display() == s.display(),
        s.next(event).0.display()->Some_0.framebuffer == s.display()->Some_0.framebuffer,
        s.next(event).1 == Ok::<ActionView, BootError>(
            ActionView::Transfer {
                record: HandoffRecord {
                    entry: s.stage->AwaitingExit_reservation.base,
                    display: s.display()->Some_0,
                },
            },
        ),
{
}

/// Control passes to the kernel only in the transition that terminates firmware
/// services: the jump is handed out in answer to the firmware's success in ending
/// them, and in the state that follows they are terminated.
pub proof fn lemma_transfer_follows_termination(s: SequenceView, event: EventView)
    requires
        s.next(event).1 is Ok,
        s.next(event).1->Ok_0 is Transfer,
    ensures
        s.lifecycle is Active,
        s.stage is AwaitingExit,
        event == (EventView::ServicesExited { ok: true }),
        s.next(event).0.lifecycle is ServicesTerminated,
        s.next(event).0.stage == (StageView::HandedOff {
            record: s.next(event).1->Ok_0->Transfer_record,
        }),
{
}

/// Pages are asked for at the configured address, in the number that the image
/// needs and under the configured classification.
pub proof fn lemma_allocation_request(s: SequenceView, event: EventView)
    requires
        s.next(event).1 is Ok,
        s.next(event).1->Ok_0 is AllocatePages,
    ensures
        event is KernelRead,
        event->KernelRead_image is Ok,
        s.next(event).1 == Ok::<ActionView, BootError>(
            ActionView::AllocatePages {
                base: s.kernel_base,
                page_count: pages_for(event->KernelRead_image->Ok_0.len()) as usize,
                memory_type: s.memory_type,
            },
        ),
{
}

/// The image is placed only in a reservation at exactly the configured address,
/// which the firmware granted, and what is placed is the image that was read.
/// The reservation is sized for that image, which is one that memory can hold.
pub proof fn lemma_placement_only_at_requested_base(s: SequenceView, event: EventView)
    requires
        s.next(event).1 is Ok,
        s.next(event).1->Ok_0 is PlaceImage,
        s.stage is AwaitingPages ==> s.stage->AwaitingPages_image.len() <= usize::MAX,
    ensures
        event == (EventView::PagesAllocated { address: Ok(s.kernel_base) }),
        s.next(event).1->Ok_0->PlaceImage_reservation.base == s.kernel_base,
        s.next(event).1->Ok_0->PlaceImage_reservation.memory_type == s.memory_type,
        s.next(event).1->Ok_0->PlaceImage_reservation.holds(s.stage->AwaitingPages_image.len()),
        s.next(event).1->Ok_0->PlaceImage_image == s.stage->AwaitingPages_image,
{
}

/// Where the firmware does not grant exactly the configured address, the attempt
/// ends and nothing is reserved: a refusal is a conflict that carries the
/// firmware's status code, and another address is never taken in its place.
pub proof fn lemma_allocation_conflict_aborts(s: SequenceView, address: Result<u64, usize>)
    requires
        s.lifecycle is Active,
        s.stage is AwaitingPages,
        address != Ok::<u64, usize>(s.kernel_base),
    ensures
        s.next(EventView::PagesAllocated { address }).1 is Err,
        s.next(EventView::PagesAllocated { address }).0.stage == (StageView::Aborted {
            error: s.next(EventView::PagesAllocated { address }).1->Err_0,
        }),
        address is Err ==> s.next(EventView::PagesAllocated { address }).1 == Err::<
            ActionView,
            BootError,
        >(BootError::AllocationConflict { status: address->Err_0 }),
        address is Ok ==> s.next(EventView::PagesAllocated { address }).1 == Err::<
            ActionView,
            BootError,
        >(BootError::AddressSubstituted { granted: address->Ok_0 }),
{
}

/// Where the firmware refuses to tell the graphics mode, the attempt ends with
/// the firmware's own status code, and nothing else is asked of the firmware.
pub proof fn lemma_display_refusal_aborts(s: SequenceView, status: usize)
    requires
        s.lifecycle is Active,
        s.stage is AwaitingDisplay,
    ensures
        s.next(EventView::DisplayQueried { mode: Err(status) }).1 == Err::<ActionView, BootError>(
            BootError::GraphicsUnavailable { status },
        ),
        s.next(EventView::DisplayQueried { mode: Err(status) }).0.stage == (StageView::Aborted {
            error: BootError::GraphicsUnavailable { status },
        }),
{
}

/// The firmware is asked to end its services under the classification under
/// which the kernel's memory was reserved.
pub proof fn lemma_exit_uses_reservation_type(s: SequenceView, event: EventView)
    requires
        s.wf(),
        s.next(event).1 is Ok,
        s.next(event).1->Ok_0 is ExitBootServices,
    ensures
        s.stage is AwaitingPlacement,
        s.next(event).1 == Ok::<ActionView, BootError>(
            ActionView::ExitBootServices {
                memory_type: s.stage->AwaitingPlacement_reservation.memory_type,
            },
        ),
        s.next(event).1 == Ok::<ActionView, BootError>(
            ActionView::ExitBootServices { memory_type: s.memory_type },
        ),
{
}

/// An aborted attempt stays aborted: every later event is answered with an
/// error, and no action is handed out again.
pub proof fn lemma_aborted_is_final(s: SequenceView, event: EventView)
    requires
        s.stage is Aborted,
    ensures
        s.next(event).0 == s,
        s.next(event).1 is Err,
{
}

/// Whatever events arrive, the state stays well formed and the configuration as
/// it was.
pub proof fn lemma_run_preserves_wf(s: SequenceView, events: Seq<EventView>)
    requires
        s.wf(),
    ensures
        s.run(events).wf(),
        s.run(events).kernel_path == s.kernel_path,
        s.run(events).kernel_base == s.kernel_base,
        s.run(events).memory_type == s.memory_type,
    decreases events.len(),
{
    if events.len() > 0 {
        lemma_run_preserves_wf(s, events.drop_last());
        lemma_next_preserves_wf(s.run(events.drop_last()), events.last());
    }
}

/// Once firmware services are terminated, no series of events changes the state.
pub proof fn lemma_run_after_termination(s: SequenceView, events: Seq<EventView>)
    requires
        s.lifecycle is ServicesTerminated,
    ensures
        s.run(events) == s,
    decreases events.len(),
{
    if events.len() > 0 {
        lemma_run_after_termination(s, events.drop_last());
    }
}

/// How the state after the first `k` events of an attempt hangs together with
/// those events.
pub open spec fn trace_inv(start: SequenceView, events: Seq<EventView>, k: int) -> bool {
    let s = start.run(events.take(k));
    match s.stage {
        StageView::AwaitingDisplay => k == 0 && s.lifecycle is Active,
        StageView::AwaitingKernel { display } => {
            &&& k == 1
            &&& s.lifecycle is Active
            &&& events[0] is DisplayQueried
            &&& VBE::describe(events[0]->DisplayQueried_mode) == Ok::<VBE, BootError>(display)
        },
        StageView::AwaitingPages { display, image } => {
            &&& k == 2
            &&& s.lifecycle is Active
            &&& events[0] is DisplayQueried
            &&& VBE::describe(events[0]->DisplayQueried_mode) == Ok::<VBE, BootError>(display)
            &&& events[1] == (EventView::KernelRead { image: Ok(image) })
        },
        StageView::AwaitingPlacement { display, reservation } => {
            &&& k == 3
            &&& s.lifecycle is Active
            &&& events[0] is DisplayQueried
            &&& VBE::describe(events[0]->DisplayQueried_mode) == Ok::<VBE, BootError>(display)
            &&& events[1] matches EventView::KernelRead { image: Ok(_) }
            &&& reservation.base == start.kernel_base
            &&& events[2] == (EventView::PagesAllocated { address: Ok(start.kernel_base) })
        },
        StageView::AwaitingExit { display, reservation } => {
            &&& k == 4
            &&& s.lifecycle is Active
            &&& events[0] is DisplayQueried
            &&& VBE::describe(events[0]->DisplayQueried_mode) == Ok::<VBE, BootError>(display)
            &&& events[1] matches EventView::KernelRead { image: Ok(_) }
            &&& reservation.base == start.kernel_base
            &&& events[2] == (EventView::PagesAllocated { address: Ok(start.kernel_base) })
            &&& events[3] == EventView::ImagePlaced
        },
        StageView::HandedOff { record } => {
            &&& k >= 5
            &&& s.lifecycle is ServicesTerminated
            &&& completed_all_stages(start, events)
            &&& events[4] == (EventView::ServicesExited { ok: true })
            &&& record.entry == start.kernel_base
            &&& events[0] is DisplayQueried
            &&& VBE::describe(events[0]->DisplayQueried_mode) == Ok::<VBE, BootError>(
                record.display,
            )
        },
        StageView::Aborted { error } => {
            if error is TerminationFailed {
                &&& k >= 5
                &&& s.lifecycle is ServicesTerminated
                &&& completed_all_stages(start, events)
                &&& events[4] == (EventView::ServicesExited { ok: false })
            } else {
                s.lifecycle is Active
            }
        },
    }
}

/// The state after any number of events of an attempt that began at the
/// beginning hangs together with those events as `trace_inv` says.
pub proof fn lemma_trace(start: SequenceView, events: Seq<EventView>, k: int)
    requires
        start.stage is AwaitingDisplay,
        start.lifecycle is Active,
        0 <= k <= events.len(),
    ensures
        trace_inv(start, events, k),
        start.run(events.take(k)).kernel_base == start.kernel_base,
    decreases k,
{
    if k == 0 {
        assert(events.take(0).len() == 0);
    } else {
        lemma_trace(start, events, k - 1);
        assert(events.take(k).drop_last() == events.take(k - 1));
        assert(events.take(k).last() == events[k - 1]);
        let before = start.run(events.take(k - 1));
        assert(start.run(events.take(k)) == before.next(events[k - 1]).0);
    }
}

/// Firmware services are terminated only at the end of the whole sequence: an
/// attempt that began at the beginning and finds its services terminated has
/// seen the display acquired, the kernel read, the pages granted at exactly the
/// configured address and the image placed, in this order, before the firmware
/// was asked to end its services.
pub proof fn lemma_termination_comes_last(start: SequenceView, events: Seq<EventView>)
    requires
        start.stage is AwaitingDisplay,
        start.lifecycle is Active,
        start.run(events).lifecycle is ServicesTerminated,
    ensures
        completed_all_stages(start, events),
{
    lemma_trace(start, events, events.len() as int);
    assert(events.take(events.len() as int) == events);
}

/// The kernel is entered only at the configured address and with the display
/// descriptor of the graphics mode that the firmware reported first: the
/// descriptor, its framebuffer address included, is the same before and after
/// firmware services end.
pub proof fn lemma_handoff_record(start: SequenceView, events: Seq<EventView>)
    requires
        start.stage is AwaitingDisplay,
        start.lifecycle is Active,
        start.run(events).stage is HandedOff,
    ensures
        completed_all_stages(start, events),
        events[4] == (EventView::ServicesExited { ok: true }),
        start.run(events).stage->HandedOff_record.entry == start.kernel_base,
        VBE::describe(events[0]->DisplayQueried_mode) == Ok::<VBE, BootError>(
            start.run(events).stage->HandedOff_record.display,
        ),
{
    lemma_trace(start, events, events.len() as int);
    assert(events.take(events.len() as int) == events);
}

/// An attempt in which every step succeeds ends with the jump to the kernel at
/// the configured address, with the descriptor of the reported graphics mode.
pub proof fn lemma_successful_attempt(
    start: SequenceView,
    mode: crate::display::GraphicsMode,
    image: Seq<u8>,
)
    requires
        start.stage is AwaitingDisplay,
        start.lifecycle is Active,
        firmware_path_spec(start.kernel_path) is Ok,
        VBE::describe(Ok(mode)) is Ok,
    ensures
        ({
            let display = VBE::describe(Ok(mode))->Ok_0;
            let s1 = start.next(EventView::DisplayQueried { mode: Ok(mode) });
            let s2 = s1.0.next(EventView::KernelRead { image: Ok(image) });
            let s3 = s2.0.next(EventView::PagesAllocated { address: Ok(start.kernel_base) });
            let s4 = s3.0.next(EventView::ImagePlaced);
            let s5 = s4.0.next(EventView::ServicesExited { ok: true });
            &&& s1.1 == Ok::<ActionView, BootError>(
                ActionView::ReadKernel { path: firmware_path_spec(start.kernel_path)->Ok_0 },
            )
            &&& s2.1 == Ok::<ActionView, BootError>(
                ActionView::AllocatePages {
                    base: start.kernel_base,
                    page_count: pages_for(image.len()) as usize,
                    memory_type: start.memory_type,
                },
            )
            &&& s3.1 matches Ok(ActionView::PlaceImage { image: placed, reservation })
            &&& placed == image
            &&& reservation.base == start.kernel_base
            &&& reservation.memory_type == start.memory_type
            &&& s4.1 == Ok::<ActionView, BootError>(
                ActionView::ExitBootServices { memory_type: start.memory_type },
            )
            &&& s5.1 == Ok::<ActionView, BootError>(
                ActionView::Transfer {
                    record: HandoffRecord { entry: start.kernel_base, display },
                },
            )
            &&& s4.0.lifecycle is Active
            &&& s5.0.lifecycle is ServicesTerminated
        }),
{
}

} // verus!
