//! The application bootstrap, as an explicit state machine.
//!
//! The shell owns the platform calls; this machine owns every decision the
//! bootstrap makes. It hands the shell one command at a time — register the
//! class, create the window, show it, retrieve the next event, dispatch a
//! delivered event, or exit — and advances on the outcome the shell reports.
//! Registration and creation failures are fatal: the platform's error code
//! becomes the process exit code. Once pumping, the machine exits only when
//! the quit signal is retrieved, and exits with its payload.

use vstd::prelude::*;

use crate::dispatch::EventKind;
use crate::message_loop::Retrieved;

verus! {

/// The show mode used when the platform supplies no hint, as when the
/// program is started from an interactive development entry: show normally.
pub const SHOW_MODE_DEFAULT: u32 = 10;

/// The stock resource id of the default application icon.
pub const STOCK_ICON_APPLICATION: u32 = 32512;

/// The stock resource id of the default arrow cursor.
pub const STOCK_CURSOR_ARROW: u32 = 32512;

/// The system color index of the standard window background.
pub const COLOR_INDEX_WINDOW: u32 = 5;

/// The registration record for the window class: what every window of the
/// class shares. The shell binds the window procedure to it and hands it to
/// the platform's class registry once, at startup.
#[derive(Clone, Copy, PartialEq, Eq, Debug)]
pub struct ClassDescriptor {
    /// Redraw the whole client area when the width changes.
    pub redraw_on_width_change: bool,
    /// Redraw the whole client area when the height changes.
    pub redraw_on_height_change: bool,
    /// Stock id of the class icon.
    pub icon_id: u32,
    /// Stock id of the class cursor.
    pub cursor_id: u32,
    /// System color index of the class background fill.
    pub background_color_index: u32,
    /// The class name later named by window creation.
    pub class_name: &'static str,
}

/// The class descriptor the bootstrap registers: redraw on resize along
/// both axes, default application icon, arrow cursor, standard window
/// background, and the fixed class name.
pub fn class_descriptor() -> (d: ClassDescriptor)
    ensures
        d.redraw_on_width_change,
        d.redraw_on_height_change,
        d.icon_id == STOCK_ICON_APPLICATION,
        d.cursor_id == STOCK_CURSOR_ARROW,
        d.background_color_index == COLOR_INDEX_WINDOW,
        d.class_name@ == "MyWindowClass"@,
{
    ClassDescriptor {
        redraw_on_width_change: true,
        redraw_on_height_change: true,
        icon_id: STOCK_ICON_APPLICATION,
        cursor_id: STOCK_CURSOR_ARROW,
        background_color_index: COLOR_INDEX_WINDOW,
        class_name: "MyWindowClass",
    }
}

/// How the single top-level window is created from the registered class.
#[derive(Clone, Copy, PartialEq, Eq, Debug)]
pub struct WindowParams {
    /// The window title.
    pub title: &'static str,
    /// Fixed initial width, in pixels.
    pub width: i32,
    /// Fixed initial height, in pixels.
    pub height: i32,
    /// Let the platform choose the initial position.
    pub platform_chooses_position: bool,
    /// Standard overlapped style: title bar, resizable border, and
    /// minimize, maximize and close controls.
    pub overlapped_style: bool,
    /// The window is top-level: it has no parent.
    pub has_parent: bool,
}

/// The creation parameters of the one window: overlapped style, platform
/// position, fixed 800 by 600 size, no parent, and the fixed title.
pub fn window_params() -> (p: WindowParams)
    ensures
        p.title@ == "Hello Windows sample"@,
        p.width == 800,
        p.height == 600,
        p.platform_chooses_position,
        p.overlapped_style,
        !p.has_parent,
{
    WindowParams {
        title: "Hello Windows sample",
        width: 800,
        height: 600,
        platform_chooses_position: true,
        overlapped_style: true,
        has_parent: false,
    }
}

/// Where the bootstrap stands.
#[derive(Clone, Copy, PartialEq, Eq, Structural, Debug)]
pub enum Phase {
    /// Nothing done yet; the class must be registered.
    Start,
    /// The class is registered; the window must be created.
    Registered,
    /// The window exists; it must be shown.
    Created,
    /// In the loop, waiting for the next retrieval.
    Pumping,
    /// In the loop, waiting for a delivered event to finish dispatching.
    Dispatching,
    /// The run is over; the process exits with this code.
    Done { exit: u32 },
}

/// What the shell reports back after performing a command.
#[derive(Clone, Copy, PartialEq, Eq, Structural, Debug)]
pub enum BootEvent {
    /// The class registry accepted the descriptor.
    RegisterSucceeded,
    /// The class registry rejected it; the platform's error code.
    RegisterFailed { err: u32 },
    /// The window was created.
    CreateSucceeded,
    /// Window creation failed; the platform's error code.
    CreateFailed { err: u32 },
    /// The window is on screen.
    WindowShown,
    /// A blocking retrieval completed with this item.
    EventRetrieved { item: Retrieved },
    /// The delivered event was translated and dispatched.
    Dispatched,
}

/// The next platform step the shell must perform.
#[derive(Clone, Copy, PartialEq, Eq, Structural, Debug)]
pub enum BootCommand {
    /// Register the window class of [`class_descriptor`], with the window
    /// procedure as its event handler.
    RegisterClass,
    /// Create the window of [`window_params`] from the registered class,
    /// attaching the menu of [`crate::menu::build_menu`].
    CreateWindow,
    /// Show the window with this mode.
    ShowWindow { mode: u32 },
    /// Block until the next queued event is retrieved.
    Retrieve,
    /// Translate the delivered event and dispatch it to the window
    /// procedure.
    DispatchEvent { event: EventKind },
    /// Leave the run; the process exits with this code.
    ExitProcess { code: u32 },
}

/// Which reports a phase can receive: the platform serializes the run, so
/// each phase waits for the outcome of exactly one command.
pub open spec fn accepts(phase: Phase, ev: BootEvent) -> bool {
    match ev {
        BootEvent::RegisterSucceeded | BootEvent::RegisterFailed { .. } => phase is Start,
        BootEvent::CreateSucceeded | BootEvent::CreateFailed { .. } => phase is Registered,
        BootEvent::WindowShown => phase is Created,
        BootEvent::EventRetrieved { .. } => phase is Pumping,
        BootEvent::Dispatched => phase is Dispatching,
    }
}

/// The whole transition table: the phase after a report, and the command
/// the shell performs next.
pub open spec fn transition(show: u32, ev: BootEvent) -> (Phase, BootCommand) {
    match ev {
        BootEvent::RegisterSucceeded => (Phase::Registered, BootCommand::CreateWindow),
        BootEvent::RegisterFailed { err } => (
            Phase::Done { exit: err },
            BootCommand::ExitProcess { code: err },
        ),
        BootEvent::CreateSucceeded => (Phase::Created, BootCommand::ShowWindow { mode: show }),
        BootEvent::CreateFailed { err } => (
            Phase::Done { exit: err },
            BootCommand::ExitProcess { code: err },
        ),
        BootEvent::WindowShown => (Phase::Pumping, BootCommand::Retrieve),
        BootEvent::EventRetrieved { item: Retrieved::Quit { payload } } => (
            Phase::Done { exit: payload },
            BootCommand::ExitProcess { code: payload },
        ),
        BootEvent::EventRetrieved { item: Retrieved::Deliver { event } } => (
            Phase::Dispatching,
            BootCommand::DispatchEvent { event },
        ),
        BootEvent::Dispatched => (Phase::Pumping, BootCommand::Retrieve),
    }
}

/// The bootstrap machine: its phase and the show mode it will use.
#[derive(Clone, Copy, PartialEq, Eq, Structural, Debug)]
pub struct Bootstrap {
    pub phase: Phase,
    pub show: u32,
}

impl Bootstrap {
    /// Start a run with the platform's show-mode hint, or with the default
    /// mode when the entry path supplies none.
    pub fn new(show_hint: Option<u32>) -> (b: Bootstrap)
        ensures
            b.phase is Start,
            (show_hint matches Some(m) ==> b.show == m),
            (show_hint is None ==> b.show == SHOW_MODE_DEFAULT),
    {
        let show: u32 = match show_hint {
            Some(m) => m,
            None => SHOW_MODE_DEFAULT,
        };
        Bootstrap { phase: Phase::Start, show }
    }

    /// The first command of every run: register the window class.
    pub fn initial_command(&self) -> (c: BootCommand)
        requires
            self.phase is Start,
        ensures
            c is RegisterClass,
    {
        BootCommand::RegisterClass
    }

    /// Advance on the shell's report and hand back the next command,
    /// exactly as the transition table says. The show mode never changes.
    pub fn step(&mut self, ev: BootEvent) -> (cmd: BootCommand)
        requires
            accepts(old(self).phase, ev),
        ensures
            final(self).show == old(self).show,
            final(self).phase == transition(old(self).show, ev).0,
            cmd == transition(old(self).show, ev).1,
    {
        match ev {
            BootEvent::RegisterSucceeded => {
                self.phase = Phase::Registered;
                BootCommand::CreateWindow
            },
            BootEvent::RegisterFailed { err } => {
                self.phase = Phase::Done { exit: err };
                BootCommand::ExitProcess { code: err }
            },
            BootEvent::CreateSucceeded => {
                self.phase = Phase::Created;
                BootCommand::ShowWindow { mode: self.show }
            },
            BootEvent::CreateFailed { err } => {
                self.phase = Phase::Done { exit: err };
                BootCommand::ExitProcess { code: err }
            },
            BootEvent::WindowShown => {
                self.phase = Phase::Pumping;
                BootCommand::Retrieve
            },
            BootEvent::EventRetrieved { item: Retrieved::Quit { payload } } => {
                self.phase = Phase::Done { exit: payload };
                BootCommand::ExitProcess { code: payload }
            },
            BootEvent::EventRetrieved { item: Retrieved::Deliver { event } } => {
                self.phase = Phase::Dispatching;
                BootCommand::DispatchEvent { event }
            },
            BootEvent::Dispatched => {
                self.phase = Phase::Pumping;
                BootCommand::Retrieve
            },
        }
    }
}

/// Law: once pumping, the machine leaves the loop exactly on the quit
/// signal, and then exits with the quit payload as the process exit code;
/// an ordinary delivered event keeps the machine in the loop, dispatching.
pub proof fn lemma_loop_exits_only_on_quit(show: u32, item: Retrieved)
    ensures
        (item matches Retrieved::Quit { payload } ==> transition(
            show,
            (BootEvent::EventRetrieved { item }),
        ) == ((Phase::Done { exit: payload }), (BootCommand::ExitProcess { code: payload }))),
        (item matches Retrieved::Deliver { event } ==> transition(
            show,
            (BootEvent::EventRetrieved { item }),
        ) == (Phase::Dispatching, (BootCommand::DispatchEvent { event }))),
{
}

/// Law: a fatal startup failure carries the platform's error code straight
/// to the process exit code, whether registration or creation failed.
pub proof fn lemma_fatal_failure_exits_with_platform_code(show: u32, err: u32)
    ensures
        transition(show, (BootEvent::RegisterFailed { err })) == (
            (Phase::Done { exit: err }),
            (BootCommand::ExitProcess { code: err }),
        ),
        transition(show, (BootEvent::CreateFailed { err })) == (
            (Phase::Done { exit: err }),
            (BootCommand::ExitProcess { code: err }),
        ),
{
}

} // verus!
