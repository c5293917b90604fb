use vstd::prelude::*;
use crate::display::{GraphicsMode, VBE};
use crate::error::{BootError, ReadError};
use crate::memory::{page_count, pages_for, MemoryType, PhysicalReservation};
use crate::path::{firmware_path, firmware_path_spec};

verus! {

/// Whether the firmware's boot services can still be called.
#[derive(Clone, Copy, Debug, PartialEq, Eq, Structural)]
pub enum LifecycleState {
    /// Boot services are available.
    Active,
    /// Boot services have been given up; nothing may ask for them again.
    ServicesTerminated,
}

/// What a boot attempt is told before it starts.
#[derive(Clone, Copy, Debug, PartialEq, Eq)]
pub struct BootConfig {
    /// Path of the kernel image within the firmware's file system.
    pub kernel_path: &'static str,
    /// Physical address at which the kernel was linked to run.
    pub kernel_base: u64,
    /// Classification of the kernel's memory in the firmware's memory map.
    pub memory_type: MemoryType,
}

/// The two values that cross from the loader to the kernel.
#[derive(Clone, Copy, Debug, PartialEq, Eq, Structural)]
pub struct HandoffRecord {
    /// Address of the kernel's first instruction.
    pub entry: u64,
    /// The display descriptor, passed as the kernel's first argument.
    pub display: VBE,
}

/// What the caller reports back after it has carried out an action.
#[derive(Debug, PartialEq, Eq)]
pub enum BootEvent {
    /// The active graphics mode, or the status code with which the firmware
    /// refused to tell it.
    DisplayQueried { mode: Result<GraphicsMode, usize> },
    /// The bytes of the kernel file, or why it could not be read whole.
    KernelRead { image: Result<Vec<u8>, ReadError> },
    /// The address that the firmware granted, or the status code with which it
    /// refused.
    PagesAllocated { address: Result<u64, usize> },
    /// The image was copied to the reservation.
    ImagePlaced,
    /// The firmware was asked to end its boot services; `ok` tells whether it did.
    ServicesExited { ok: bool },
}

/// What the caller is to do next.
#[derive(Debug, PartialEq, Eq)]
pub enum BootAction {
    /// Ask the firmware for the active graphics mode.
    QueryDisplay,
    /// Read the whole file at this NUL-terminated UCS-2 path.
    ReadKernel { path: Vec<u16> },
    /// Ask the firmware for `page_count` pages at exactly `base`.
    AllocatePages { base: u64, page_count: usize, memory_type: MemoryType },
    /// Copy the image to the start of the reservation.
    PlaceImage { image: Vec<u8>, reservation: PhysicalReservation },
    /// Ask the firmware to end its boot services.
    ExitBootServices { memory_type: MemoryType },
    /// Jump to the kernel; this never returns.
    Transfer { record: HandoffRecord },
}

/// How far a boot attempt has come.
#[derive(Debug, PartialEq, Eq)]
pub enum BootStage {
    /// The display has been asked for.
    AwaitingDisplay,
    /// The display is known; the kernel file is being read.
    AwaitingKernel { display: VBE },
    /// The kernel is in memory; pages at the fixed address have been asked for.
    AwaitingPages { display: VBE, image: Vec<u8> },
    /// The pages are reserved; the image is being copied to them.
    AwaitingPlacement { display: VBE, reservation: PhysicalReservation },
    /// The image is in place; the firmware has been asked to end its services.
    AwaitingExit { display: VBE, reservation: PhysicalReservation },
    /// Firmware services have ended and control goes to the kernel.
    HandedOff { record: HandoffRecord },
    /// The attempt has ended with a fatal error.
    Aborted { error: BootError },
}

/// One boot attempt: its configuration, the state of the firmware's services and
/// the stage reached.
#[derive(Debug, PartialEq, Eq)]
pub struct BootSequence {
    pub config: BootConfig,
    pub lifecycle: LifecycleState,
    pub stage: BootStage,
}

/// A `BootEvent` with its bytes as a sequence.
pub enum EventView {
    DisplayQueried { mode: Result<GraphicsMode, usize> },
    KernelRead { image: Result<Seq<u8>, ReadError> },
    PagesAllocated { address: Result<u64, usize> },
    ImagePlaced,
    ServicesExited { ok: bool },
}

/// A `BootAction` with its path and bytes as sequences.
pub enum ActionView {
    QueryDisplay,
    ReadKernel { path: Seq<u16> },
    AllocatePages { base: u64, page_count: usize, memory_type: MemoryType },
    PlaceImage { image: Seq<u8>, reservation: PhysicalReservation },
    ExitBootServices { memory_type: MemoryType },
    Transfer { record: HandoffRecord },
}

/// A `BootStage` with its bytes as a sequence.
pub enum StageView {
    AwaitingDisplay,
    AwaitingKernel { display: VBE },
    AwaitingPages { display: VBE, image: Seq<u8> },
    AwaitingPlacement { display: VBE, reservation: PhysicalReservation },
    AwaitingExit { display: VBE, reservation: PhysicalReservation },
    HandedOff { record: HandoffRecord },
    Aborted { error: BootError },
}

/// A `BootSequence` as a mathematical value.
pub struct SequenceView {
    pub kernel_path: Seq<char>,
    pub kernel_base: u64,
    pub memory_type: MemoryType,
    pub lifecycle: LifecycleState,
    pub stage: StageView,
}

impl View for BootEvent {
    type V = EventView;

    open spec fn view(&self) -> EventView {
        match *self {
            BootEvent::DisplayQueried { mode } => EventView::DisplayQueried { mode },
            BootEvent::KernelRead { image: Ok(bytes) } => EventView::KernelRead {
                image: Ok(bytes@),
            },
            BootEvent::KernelRead { image: Err(error) } => EventView::KernelRead {
                image: Err(error),
            },
            BootEvent::PagesAllocated { address } => EventView::PagesAllocated { address },
            BootEvent::ImagePlaced => EventView::ImagePlaced,
            BootEvent::ServicesExited { ok } => EventView::ServicesExited { ok },
        }
    }
}

impl View for BootAction {
    type V = ActionView;

    open spec fn view(&self) -> ActionView {
        match *self {
            BootAction::QueryDisplay => ActionView::QueryDisplay,
            BootAction::ReadKernel { path } => ActionView::ReadKernel { path: path@ },
            BootAction::AllocatePages { base, page_count, memory_type } => {
                ActionView::AllocatePages { base, page_count, memory_type }
            },
            BootAction::PlaceImage { image, reservation } => ActionView::PlaceImage {
                image: image@,
                reservation,
            },
            BootAction::ExitBootServices { memory_type } => ActionView::ExitBootServices {
                memory_type,
            },
            BootAction::Transfer { record } => ActionView::Transfer { record },
        }
    }
}

impl View for BootStage {
    type V = StageView;

    open spec fn view(&self) -> StageView {
        match *self {
            BootStage::AwaitingDisplay => StageView::AwaitingDisplay,
            BootStage::AwaitingKernel { display } => StageView::AwaitingKernel { display },
            BootStage::AwaitingPages { display, image } => StageView::AwaitingPages {
                display,
                image: image@,
            },
            BootStage::AwaitingPlacement { display, reservation } => {
                StageView::AwaitingPlacement { display, reservation }
            },
            BootStage::AwaitingExit { display, reservation } => StageView::AwaitingExit {
                display,
                reservation,
            },
            BootStage::HandedOff { record } => StageView::HandedOff { record },
            BootStage::Aborted { error } => StageView::Aborted { error },
        }
    }
}

impl View for BootSequence {
    type V = SequenceView;

    open spec fn view(&self) -> SequenceView {
        SequenceView {
            kernel_path: self.config.kernel_path@,
            kernel_base: self.config.kernel_base,
            memory_type: self.config.memory_type,
            lifecycle: self.lifecycle,
            stage: self.stage@,
        }
    }
}

impl ActionView {
    /// Whether carrying out the action calls the firmware's boot services.
    pub open spec fn needs_firmware(self) -> bool {
        match self {
            ActionView::QueryDisplay => true,
            ActionView::ReadKernel { .. } => true,
            ActionView::AllocatePages { .. } => true,
            ActionView::ExitBootServices { .. } => true,
            ActionView::PlaceImage { .. } => false,
            ActionView::Transfer { .. } => false,
        }
    }
}

impl BootAction {
    /// Tells whether carrying out the action calls the firmware's boot services.
    pub fn needs_firmware(&self) -> (b: bool)
        ensures
            b == self@.needs_firmware(),
    {
        match self {
            BootAction::QueryDisplay => true,
            BootAction::ReadKernel { .. } => true,
            BootAction::AllocatePages { .. } => true,
            BootAction::ExitBootServices { .. } => true,
            BootAction::PlaceImage { .. } => false,
            BootAction::Transfer { .. } => false,
        }
    }
}

/// The view of what `step` hands out beside the new state.
pub open spec fn outcome_view(outcome: Result<BootAction, BootError>) -> Result<
    ActionView,
    BootError,
> {
    match outcome {
        Ok(action) => Ok(action@),
        Err(error) => Err(error),
    }
}

impl SequenceView {
    /// What holds of every state that a boot attempt can reach.
    ///
    /// Firmware services are terminated exactly in the two stages that follow the
    /// request to end them, and a reservation is always the one that the
    /// configuration asked for.
    pub open spec fn wf(self) -> bool {
        match self.stage {
            StageView::AwaitingDisplay => self.lifecycle is Active,
            StageView::AwaitingKernel { .. } => self.lifecycle is Active,
            StageView::AwaitingPages { .. } => self.lifecycle is Active,
            StageView::AwaitingPlacement { reservation, .. } => {
                &&& self.lifecycle is Active
                &&& reservation.base == self.kernel_base
                &&& reservation.memory_type == self.memory_type
            },
            StageView::AwaitingExit { reservation, .. } => {
                &&& self.lifecycle is Active
                &&& reservation.base == self.kernel_base
                &&& reservation.memory_type == self.memory_type
            },
            StageView::HandedOff { record } => {
                &&& self.lifecycle is ServicesTerminated
                &&& record.entry == self.kernel_base
            },
            StageView::Aborted { error } => {
                &&& error !is ServicesTerminated
                &&& self.lifecycle is ServicesTerminated <==> error is TerminationFailed
            },
        }
    }

    /// The state in which a boot attempt begins.
    pub open spec fn initial(
        kernel_path: Seq<char>,
        kernel_base: u64,
        memory_type: MemoryType,
    ) -> SequenceView {
        SequenceView {
            kernel_path,
            kernel_base,
            memory_type,
            lifecycle: LifecycleState::Active,
            stage: StageView::AwaitingDisplay,
        }
    }

    /// The attempt ends here with `error`; firmware services stay as they are.
    pub open spec fn abort(self, error: BootError) -> (
        SequenceView,
        Result<ActionView, BootError>,
    ) {
        (SequenceView { stage: StageView::Aborted { error }, ..self }, Err(error))
    }

    /// The attempt goes on to `stage`, and the caller is to carry out `action`.
    pub open spec fn advance(self, stage: StageView, action: ActionView) -> (
        SequenceView,
        Result<ActionView, BootError>,
    ) {
        (SequenceView { stage, ..self }, Ok(action))
    }

    /// The transition of the boot sequence: the state after `event`, and either
    /// the next action or the error with which the attempt ends.
    ///
    /// Once firmware services are terminated every event is refused and the state
    /// stays as it is. An aborted attempt repeats its error. An event that does
    /// not answer the pending action aborts the attempt.
    pub open spec fn next(self, event: EventView) -> (
        SequenceView,
        Result<ActionView, BootError>,
    ) {
        if self.lifecycle is ServicesTerminated {
            (self, Err(BootError::ServicesTerminated))
        } else {
            match (self.stage, event) {
                (StageView::Aborted { error }, _) => (self, Err(error)),
                (StageView::AwaitingDisplay, EventView::DisplayQueried { mode }) => {
                    match VBE::describe(mode) {
                        Err(error) => self.abort(error),
                        Ok(display) => match firmware_path_spec(self.kernel_path) {
                            Err(error) => self.abort(error),
                            Ok(path) => self.advance(
                                StageView::AwaitingKernel { display },
                                ActionView::ReadKernel { path },
                            ),
                        },
                    }
                },
                (StageView::AwaitingKernel { display }, EventView::KernelRead { image }) => {
                    match image {
                        Err(error) => self.abort(BootError::KernelUnreadable(error)),
                        Ok(bytes) => self.advance(
                            StageView::AwaitingPages { display, image: bytes },
                            ActionView::AllocatePages {
                                base: self.kernel_base,
                                page_count: pages_for(bytes.len()) as usize,
                                memory_type: self.memory_type,
                            },
                        ),
                    }
                },
                (
                    StageView::AwaitingPages { display, image },
                    EventView::PagesAllocated { address },
                ) => {
                    match PhysicalReservation::granted(
                        self.kernel_base,
                        image.len(),
                        self.memory_type,
                        address,
                    ) {
                        Err(error) => self.abort(error),
                        Ok(reservation) => self.advance(
                            StageView::AwaitingPlacement { display, reservation },
                            ActionView::PlaceImage { image, reservation },
                        ),
                    }
                },
                (
                    StageView::AwaitingPlacement { display, reservation },
                    EventView::ImagePlaced,
                ) => self.advance(
                    StageView::AwaitingExit { display, reservation },
                    ActionView::ExitBootServices { memory_type: reservation.memory_type },
                ),
                (
                    StageView::AwaitingExit { display, reservation },
                    EventView::ServicesExited { ok },
                ) => {
                    let ended = SequenceView {
                        lifecycle: LifecycleState::ServicesTerminated,
                        ..self
                    };
                    if ok {
                        let record = HandoffRecord { entry: reservation.base, display };
                        ended.advance(
                            StageView::HandedOff { record },
                            ActionView::Transfer { record },
                        )
                    } else {
                        ended.abort(BootError::TerminationFailed)
                    }
                },
                _ => self.abort(BootError::OutOfOrder),
            }
        }
    }
}

impl BootSequence {
    /// Begins a boot attempt. The first thing to do is to query the display.
    pub fn start(config: BootConfig) -> (r: (BootSequence, BootAction))
        ensures
            r.0.config == config,
            r.0@ == SequenceView::initial(
                config.kernel_path@,
                config.kernel_base,
                config.memory_type,
            ),
            r.0@.wf(),
            r.1@ == ActionView::QueryDisplay,
    {
        (
            BootSequence {
                config,
                lifecycle: LifecycleState::Active,
                stage: BootStage::AwaitingDisplay,
            },
            BootAction::QueryDisplay,
        )
    }

    /// Tells whether firmware services are still available.
    pub fn lifecycle(&self) -> (state: LifecycleState)
        ensures
            state == self@.lifecycle,
    {
        self.lifecycle
    }

    /// The guard in front of every call of the firmware: refuses with
    /// `ServicesTerminated` exactly when boot services have been terminated.
    pub fn firmware_guard(&self) -> (r: Result<(), BootError>)
        ensures
            self@.lifecycle is Active ==> r == Ok::<(), BootError>(()),
            self@.lifecycle is ServicesTerminated ==> r == Err::<(), BootError>(
                BootError::ServicesTerminated,
            ),
    {
        match self.lifecycle {
            LifecycleState::Active => Ok(()),
            LifecycleState::ServicesTerminated => Err(BootError::ServicesTerminated),
        }
    }

    fn abort(self, error: BootError) -> (r: (BootSequence, Result<BootAction, BootError>))
        ensures
            r.0.config == self.config,
            r.0@ == self@.abort(error).0,
            outcome_view(r.1) == self@.abort(error).1,
    {
        (
            BootSequence {
                config: self.config,
                lifecycle: self.lifecycle,
                stage: BootStage::Aborted { error },
            },
            Err(error),
        )
    }

    /// Takes the report of the action last handed out and decides what comes
    /// next: the new state, and the next action or the error that ends the
    /// attempt.
    pub fn step(self, event: BootEvent) -> (r: (BootSequence, Result<BootAction, BootError>))
        ensures
            r.0.config == self.config,
            r.0@ == self@.next(event@).0,
            outcome_view(r.1) == self@.next(event@).1,
            self@.wf() ==> r.0@.wf(),
    {
        let config = self.config;
        let lifecycle = self.lifecycle;
        match lifecycle {
            LifecycleState::ServicesTerminated => {
                return (self, Err(BootError::ServicesTerminated));
            },
            LifecycleState::Active => {},
        }
        match (self.stage, event) {
            (BootStage::Aborted { error }, _) => (
                BootSequence { config, lifecycle, stage: BootStage::Aborted { error } },
                Err(error),
            ),
            (BootStage::AwaitingDisplay, BootEvent::DisplayQueried { mode }) => {
                let waiting = BootSequence { config, lifecycle, stage: BootStage::AwaitingDisplay };
                match VBE::new(mode) {
                    Err(error) => waiting.abort(error),
                    Ok(display) => match firmware_path(config.kernel_path) {
                        Err(error) => waiting.abort(error),
                        Ok(path) => (
                            BootSequence {
                                config,
                                lifecycle,
                                stage: BootStage::AwaitingKernel { display },
                            },
                            Ok(BootAction::ReadKernel { path }),
                        ),
                    },
                }
            },
            (BootStage::AwaitingKernel { display }, BootEvent::KernelRead { image }) => {
                match image {
                    Err(error) => BootSequence {
                        config,
                        lifecycle,
                        stage: BootStage::AwaitingKernel { display },
                    }.abort(BootError::KernelUnreadable(error)),
                    Ok(bytes) => {
                        let pages: usize = page_count(bytes.len());
                        (
                            BootSequence {
                                config,
                                lifecycle,
                                stage: BootStage::AwaitingPages { display, image: bytes },
                            },
                            Ok(
                                BootAction::AllocatePages {
                                    base: config.kernel_base,
                                    page_count: pages,
                                    memory_type: config.memory_type,
                                },
                            ),
                        )
                    },
                }
            },
            (
                BootStage::AwaitingPages { display, image },
                BootEvent::PagesAllocated { address },
            ) => {
                match PhysicalReservation::reserve(
                    config.kernel_base,
                    image.len(),
                    config.memory_type,
                    address,
                ) {
                    Err(error) => BootSequence {
                        config,
                        lifecycle,
                        stage: BootStage::AwaitingPages { display, image },
                    }.abort(error),
                    Ok(reservation) => (
                        BootSequence {
                            config,
                            lifecycle,
                            stage: BootStage::AwaitingPlacement { display, reservation },
                        },
                        Ok(BootAction::PlaceImage { image, reservation }),
                    ),
                }
            },
            (BootStage::AwaitingPlacement { display, reservation }, BootEvent::ImagePlaced) => (
                BootSequence {
                    config,
                    lifecycle,
                    stage: BootStage::AwaitingExit { display, reservation },
                },
                Ok(BootAction::ExitBootServices { memory_type: reservation.memory_type }),
            ),
            (
                BootStage::AwaitingExit { display, reservation },
                BootEvent::ServicesExited { ok },
            ) => {
                if ok {
                    let record = HandoffRecord { entry: reservation.base, display };
                    (
                        BootSequence {
                            config,
                            lifecycle: LifecycleState::ServicesTerminated,
                            stage: BootStage::HandedOff { record },
                        },
                        Ok(BootAction::Transfer { record }),
                    )
                } else {
                    BootSequence {
                        config,
                        lifecycle: LifecycleState::ServicesTerminated,
                        stage: BootStage::AwaitingExit { display, reservation },
                    }.abort(BootError::TerminationFailed)
                }
            },
            (stage, _) => BootSequence { config, lifecycle, stage }.abort(BootError::OutOfOrder),
        }
    }
}

} // verus!
