//! The mapped register window's lifecycle, as a state machine: the caller
//! performs each command (open, map, unmap, close) and reports its outcome back
//! as an event.
use vstd::prelude::*;

use crate::page::PAGE_BYTES;
use crate::pin::GpioError;

verus! {

/// Address that the mapping primitive returns on failure.
pub const MAP_FAILED: usize = usize::MAX;

/// Physical offset of the GPIO block on the older chip revision (BCM2835).
pub const BCM2835_GPIO_OFFSET: u64 = 0x2020_0000;

/// Physical offset of the GPIO block on the newer chip revision (BCM2836, BCM2837).
pub const BCM2837_GPIO_OFFSET: u64 = 0x3F20_0000;

/// Chip-dependent parameters of the window.
#[derive(Clone, Copy, Debug, PartialEq, Eq, Structural)]
pub struct WindowConfig {
    /// Offset of the GPIO block within the device's address space.
    pub physical_offset: u64,
}

impl WindowConfig {
    pub fn new(physical_offset: u64) -> (r: WindowConfig)
        ensures
            r.physical_offset == physical_offset,
    {
        WindowConfig { physical_offset }
    }

    /// The older chip revision.
    pub fn bcm2835() -> (r: WindowConfig)
        ensures
            r.physical_offset == BCM2835_GPIO_OFFSET,
    {
        WindowConfig { physical_offset: BCM2835_GPIO_OFFSET }
    }

    /// The newer chip revision.
    pub fn bcm2837() -> (r: WindowConfig)
        ensures
            r.physical_offset == BCM2837_GPIO_OFFSET,
    {
        WindowConfig { physical_offset: BCM2837_GPIO_OFFSET }
    }
}

/// Where the window stands. A handle exists only in the states that carry one,
/// and a base address only while the mapping is in place.
#[derive(Clone, Copy, Debug, PartialEq, Eq)]
pub enum WindowState {
    Unopened,
    /// The device file is being opened.
    Opening,
    /// The device is open and its page is being mapped.
    Mapping { handle: i32 },
    Active { handle: i32, base: usize },
    /// The page is being unmapped.
    Unmapping { handle: i32, base: usize },
    /// The handle is being closed; `outcome` is what the whole operation reports.
    Closing { handle: i32, outcome: Result<(), GpioError> },
}

/// What the caller asks of the window, or reports back after a command.
#[derive(Clone, Copy, Debug, PartialEq, Eq)]
pub enum WindowEvent {
    Acquire,
    Opened(i32),
    OpenFailed,
    Mapped(usize),
    MapFailed,
    Release,
    Unmapped,
    UnmapFailed,
    Closed,
}

/// What the caller must do next.
#[derive(Clone, Copy, Debug, PartialEq, Eq)]
pub enum WindowCommand {
    /// Open the device file for synchronous read and write access.
    OpenDevice,
    /// Map `length` bytes of the device at `offset`, readable, writable and shared.
    MapPage { handle: i32, length: usize, offset: u64 },
    UnmapPage { base: usize, length: usize },
    CloseDevice { handle: i32 },
    /// The acquisition or release is over, with this outcome.
    Finish(Result<(), GpioError>),
    /// The event does not apply in the current state; nothing changed.
    Ignore,
}

/// The state and command that follow `event` in state `s`.
pub open spec fn transition(config: WindowConfig, s: WindowState, event: WindowEvent) -> (
    WindowState,
    WindowCommand,
) {
    match (s, event) {
        (WindowState::Unopened, WindowEvent::Acquire) => (WindowState::Opening, WindowCommand::OpenDevice),
        (WindowState::Unopened, WindowEvent::Release) => (
            WindowState::Unopened,
            WindowCommand::Finish(Ok(())),
        ),
        (WindowState::Opening, WindowEvent::Opened(handle)) => (
            WindowState::Mapping { handle },
            WindowCommand::MapPage { handle, length: PAGE_BYTES, offset: config.physical_offset },
        ),
        (WindowState::Opening, WindowEvent::OpenFailed) => (
            WindowState::Unopened,
            WindowCommand::Finish(Err(GpioError::OpenError)),
        ),
        (WindowState::Mapping { handle }, WindowEvent::Mapped(base)) => (
            WindowState::Active { handle, base },
            WindowCommand::Finish(Ok(())),
        ),
        (WindowState::Mapping { handle }, WindowEvent::MapFailed) => (
            WindowState::Closing { handle, outcome: Err(GpioError::MapError) },
            WindowCommand::CloseDevice { handle },
        ),
        (WindowState::Active { handle, base }, WindowEvent::Release) => (
            WindowState::Unmapping { handle, base },
            WindowCommand::UnmapPage { base, length: PAGE_BYTES },
        ),
        (WindowState::Unmapping { handle, .. }, WindowEvent::Unmapped) => (
            WindowState::Closing { handle, outcome: Ok(()) },
            WindowCommand::CloseDevice { handle },
        ),
        (WindowState::Unmapping { handle, .. }, WindowEvent::UnmapFailed) => (
            WindowState::Closing { handle, outcome: Err(GpioError::UnmapError) },
            WindowCommand::CloseDevice { handle },
        ),
        (WindowState::Closing { outcome, .. }, WindowEvent::Closed) => (
            WindowState::Unopened,
            WindowCommand::Finish(outcome),
        ),
        _ => (s, WindowCommand::Ignore),
    }
}

/// The device handle that state `s` holds, if any.
pub open spec fn held_handle(s: WindowState) -> Option<i32> {
    match s {
        WindowState::Unopened | WindowState::Opening => None,
        WindowState::Mapping { handle } => Some(handle),
        WindowState::Active { handle, .. } => Some(handle),
        WindowState::Unmapping { handle, .. } => Some(handle),
        WindowState::Closing { handle, .. } => Some(handle),
    }
}

/// The event that reports the result of opening the device: a negative
/// descriptor means failure.
pub fn open_event(fd: i32) -> (r: WindowEvent)
    ensures
        r == (if fd >= 0 { WindowEvent::Opened(fd) } else { WindowEvent::OpenFailed }),
{
    if fd >= 0 {
        WindowEvent::Opened(fd)
    } else {
        WindowEvent::OpenFailed
    }
}

/// The event that reports the result of mapping: only the dedicated failure
/// address means failure.
pub fn map_event(addr: usize) -> (r: WindowEvent)
    ensures
        r == (if addr == MAP_FAILED { WindowEvent::MapFailed } else { WindowEvent::Mapped(addr) }),
{
    if addr == MAP_FAILED {
        WindowEvent::MapFailed
    } else {
        WindowEvent::Mapped(addr)
    }
}

/// The event that reports the result of unmapping: a negative status means failure.
pub fn unmap_event(status: i32) -> (r: WindowEvent)
    ensures
        r == (if status < 0 { WindowEvent::UnmapFailed } else { WindowEvent::Unmapped }),
{
    if status < 0 {
        WindowEvent::UnmapFailed
    } else {
        WindowEvent::Unmapped
    }
}

/// The mapped register window: its configuration and where its lifecycle stands.
pub struct Window {
    config: WindowConfig,
    state: WindowState,
}

impl Window {
    pub closed spec fn config_spec(&self) -> WindowConfig {
        self.config
    }

    pub closed spec fn state_spec(&self) -> WindowState {
        self.state
    }

    /// An unopened window for the given chip.
    pub fn new(config: WindowConfig) -> (r: Window)
        ensures
            r.config_spec() == config,
            r.state_spec() == WindowState::Unopened,
    {
        Window { config, state: WindowState::Unopened }
    }

    pub fn config(&self) -> (r: WindowConfig)
        ensures
            r == self.config_spec(),
    {
        self.config
    }

    pub fn state(&self) -> (r: WindowState)
        ensures
            r == self.state_spec(),
    {
        self.state
    }

    /// Whether the page is mapped and usable.
    pub fn is_active(&self) -> (r: bool)
        ensures
            r == self.state_spec() is Active,
    {
        match self.state {
            WindowState::Active { .. } => true,
            _ => false,
        }
    }

    /// The base address of the mapped page, while it is mapped.
    pub fn base(&self) -> (r: Option<usize>)
        ensures
            r == (match self.state_spec() {
                WindowState::Active { base, .. } => Some(base),
                _ => None::<usize>,
            }),
    {
        match self.state {
            WindowState::Active { base, .. } => Some(base),
            _ => None,
        }
    }

    /// Takes `event` and returns the command that the caller must carry out next.
    pub fn step(&mut self, event: WindowEvent) -> (r: WindowCommand)
        ensures
            final(self).config_spec() == old(self).config_spec(),
            (final(self).state_spec(), r) == transition(
                old(self).config_spec(),
                old(self).state_spec(),
                event,
            ),
    {
        let (next, command) = match (self.state, event) {
            (WindowState::Unopened, WindowEvent::Acquire) => (WindowState::Opening, WindowCommand::OpenDevice),
            (WindowState::Unopened, WindowEvent::Release) => (
                WindowState::Unopened,
                WindowCommand::Finish(Ok(())),
            ),
            (WindowState::Opening, WindowEvent::Opened(handle)) => (
                WindowState::Mapping { handle },
                WindowCommand::MapPage {
                    handle,
                    length: PAGE_BYTES,
                    offset: self.config.physical_offset,
                },
            ),
            (WindowState::Opening, WindowEvent::OpenFailed) => (
                WindowState::Unopened,
                WindowCommand::Finish(Err(GpioError::OpenError)),
            ),
            (WindowState::Mapping { handle }, WindowEvent::Mapped(base)) => (
                WindowState::Active { handle, base },
                WindowCommand::Finish(Ok(())),
            ),
            (WindowState::Mapping { handle }, WindowEvent::MapFailed) => (
                WindowState::Closing { handle, outcome: Err(GpioError::MapError) },
                WindowCommand::CloseDevice { handle },
            ),
            (WindowState::Active { handle, base }, WindowEvent::Release) => (
                WindowState::Unmapping { handle, base },
                WindowCommand::UnmapPage { base, length: PAGE_BYTES },
            ),
            (WindowState::Unmapping { handle, .. }, WindowEvent::Unmapped) => (
                WindowState::Closing { handle, outcome: Ok(()) },
                WindowCommand::CloseDevice { handle },
            ),
            (WindowState::Unmapping { handle, .. }, WindowEvent::UnmapFailed) => (
                WindowState::Closing { handle, outcome: Err(GpioError::UnmapError) },
                WindowCommand::CloseDevice { handle },
            ),
            (WindowState::Closing { outcome, .. }, WindowEvent::Closed) => (
                WindowState::Unopened,
                WindowCommand::Finish(outcome),
            ),
            (s, _) => (s, WindowCommand::Ignore),
        };
        self.state = next;
        command
    }
}

/// Acquiring a window and releasing it at once, with every call succeeding,
/// opens, maps, unmaps and closes in that order, closes the very handle that was
/// opened, reports success twice and ends unopened; releasing once more is a
/// no-op that succeeds.
pub proof fn lemma_acquire_release_round_trip(config: WindowConfig, handle: i32, base: usize)
    ensures
        ({
            let (s1, c1) = transition(config, WindowState::Unopened, WindowEvent::Acquire);
            let (s2, c2) = transition(config, s1, WindowEvent::Opened(handle));
            let (s3, c3) = transition(config, s2, WindowEvent::Mapped(base));
            let (s4, c4) = transition(config, s3, WindowEvent::Release);
            let (s5, c5) = transition(config, s4, WindowEvent::Unmapped);
            let (s6, c6) = transition(config, s5, WindowEvent::Closed);
            let (s7, c7) = transition(config, s6, WindowEvent::Release);
            &&& c1 == WindowCommand::OpenDevice
            &&& c2 == WindowCommand::MapPage {
                handle,
                length: PAGE_BYTES,
                offset: config.physical_offset,
            }
            &&& s3 == WindowState::Active { handle, base }
            &&& c3 == WindowCommand::Finish(Ok(()))
            &&& c4 == WindowCommand::UnmapPage { base, length: PAGE_BYTES }
            &&& c5 == WindowCommand::CloseDevice { handle }
            &&& s6 == WindowState::Unopened
            &&& c6 == WindowCommand::Finish(Ok(()))
            &&& s7 == WindowState::Unopened
            &&& c7 == WindowCommand::Finish(Ok(()))
        }),
{
}

/// Failing to open the device reports `OpenError` and leaves the window
/// unopened, holding no handle.
pub proof fn lemma_open_failure(config: WindowConfig)
    ensures
        ({
            let (s1, c1) = transition(config, WindowState::Unopened, WindowEvent::Acquire);
            let (s2, c2) = transition(config, s1, WindowEvent::OpenFailed);
            &&& c1 == WindowCommand::OpenDevice
            &&& s2 == WindowState::Unopened
            &&& c2 == WindowCommand::Finish(Err(GpioError::OpenError))
        }),
{
}

/// A window becomes active only when the page of an open device has been
/// mapped; every other step leaves an active window as it was or starts its
/// release.
pub proof fn lemma_active_only_after_mapping(
    config: WindowConfig,
    s: WindowState,
    event: WindowEvent,
)
    ensures
        ({
            let (next, command) = transition(config, s, event);
            next is Active ==> (next == s && command == WindowCommand::Ignore) || (
            s is Mapping && event == WindowEvent::Mapped(next->Active_base) && next->Active_handle
                == s->Mapping_handle)
        }),
{
}

/// No handle is lost: a handle enters the state only from a successful open,
/// the step that starts closing it always issues the close of that handle, and
/// it leaves the state only once the close is reported done.
pub proof fn lemma_handle_always_closed(config: WindowConfig, s: WindowState, event: WindowEvent)
    ensures
        ({
            let (next, command) = transition(config, s, event);
            &&& held_handle(s) is None && held_handle(next) is Some ==> event == WindowEvent::Opened(
                held_handle(next)->0,
            )
            &&& next is Closing && !(s is Closing) ==> command == WindowCommand::CloseDevice {
                handle: next->Closing_handle,
            }
            &&& held_handle(s) is Some && held_handle(next) != held_handle(s) ==> s is Closing
                && event == WindowEvent::Closed && next == WindowState::Unopened
        }),
{
}

} // verus!
