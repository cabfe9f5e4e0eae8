//! The windows that the tray's controller manages, the commands it issues for
//! them, and what a command does to them.

use vstd::prelude::*;
use crate::text::same_text;

verus! {

/// A window that the controller manages.
#[derive(Clone, Copy, Debug, PartialEq, Eq, Structural)]
pub enum WindowId {
    /// The window with the note editor.
    Main,
    /// The window with the settings, where the front end has one.
    Settings,
}

impl WindowId {
    /// The name under which the windowing system knows the window.
    pub open spec fn label_text(self) -> Seq<char> {
        match self {
            WindowId::Main => "main"@,
            WindowId::Settings => "settings"@,
        }
    }

    /// The window that the windowing system knows as `label`, if it is one of
    /// the managed ones.
    pub open spec fn with_label(label: Seq<char>) -> Option<WindowId> {
        if label == WindowId::Main.label_text() {
            Some(WindowId::Main)
        } else if label == WindowId::Settings.label_text() {
            Some(WindowId::Settings)
        } else {
            None
        }
    }

    /// The other managed window.
    pub open spec fn other(self) -> WindowId {
        match self {
            WindowId::Main => WindowId::Settings,
            WindowId::Settings => WindowId::Main,
        }
    }

    /// The name under which the windowing system knows the window.
    pub fn label(&self) -> (label: &'static str)
        ensures
            label@ == self.label_text(),
    {
        match self {
            WindowId::Main => "main",
            WindowId::Settings => "settings",
        }
    }

    /// Finds the managed window that the windowing system knows as `label`;
    /// `None` for any other name.
    pub fn from_label(label: &str) -> (window: Option<WindowId>)
        ensures
            window == WindowId::with_label(label@),
    {
        if same_text(label, "main") {
            Some(WindowId::Main)
        } else if same_text(label, "settings") {
            Some(WindowId::Settings)
        } else {
            None
        }
    }
}

/// What the front end is told.
#[derive(Clone, Copy, Debug, PartialEq, Eq, Structural)]
pub enum FrontEndEvent {
    /// Bring up the main surface.
    OpenMain,
    /// Open the form for a fresh note.
    NewNote,
    /// Open the settings panel.
    OpenSettings,
}

impl FrontEndEvent {
    /// The name under which the front end listens for the event.
    pub open spec fn name_text(self) -> Seq<char> {
        match self {
            FrontEndEvent::OpenMain => "open_main"@,
            FrontEndEvent::NewNote => "new_note"@,
            FrontEndEvent::OpenSettings => "open_settings"@,
        }
    }

    /// The name under which the front end listens for the event.
    pub fn name(&self) -> (name: &'static str)
        ensures
            name@ == self.name_text(),
    {
        match self {
            FrontEndEvent::OpenMain => "open_main",
            FrontEndEvent::NewNote => "new_note",
            FrontEndEvent::OpenSettings => "open_settings",
        }
    }
}

/// One thing that the controller asks of the windowing system, the front end
/// or the host.
#[derive(Clone, Copy, Debug, PartialEq, Eq, Structural)]
pub enum Command {
    /// Take the window from view and keep it alive.
    Hide(WindowId),
    /// Do not let the pending request to close the window destroy it.
    PreventClose(WindowId),
    /// Bring the window into view.
    Show(WindowId),
    /// Give the window the input focus.
    Focus(WindowId),
    /// Send the event to the window's front end.
    Notify(WindowId, FrontEndEvent),
    /// Open the project's homepage in the user's browser, without waiting
    /// for it.
    OpenHomepage,
    /// End the process with this exit code.
    Exit(i32),
}

/// Whether a window is in view, and whether it has the input focus.
#[derive(Clone, Copy, Debug, PartialEq, Eq, Structural)]
pub struct WindowState {
    pub visible: bool,
    pub focused: bool,
}

/// The windows as the windowing system holds them, and whether the process
/// still runs.
///
/// A window that the front end never created is absent, and a command for it
/// does nothing. Once the process has been told to exit no command does
/// anything.
#[derive(Clone, Copy, Debug, PartialEq, Eq, Structural)]
pub struct Desktop {
    /// The main window, `None` where the front end has not created it.
    pub main: Option<WindowState>,
    /// The settings window, `None` where the front end has not created it.
    pub settings: Option<WindowState>,
    /// The exit code that the process was told to end with, `None` while it
    /// runs.
    pub exit: Option<i32>,
}

impl Desktop {
    /// The state of `window`, `None` where the front end has not created it.
    pub open spec fn window(self, window: WindowId) -> Option<WindowState> {
        match window {
            WindowId::Main => self.main,
            WindowId::Settings => self.settings,
        }
    }

    /// The desktop with `state` as the state of `window`.
    pub open spec fn with_window(self, window: WindowId, state: WindowState) -> Desktop {
        match window {
            WindowId::Main => Desktop { main: Some(state), ..self },
            WindowId::Settings => Desktop { settings: Some(state), ..self },
        }
    }

    /// Whether `window` exists and is in view.
    pub open spec fn shows(self, window: WindowId) -> bool {
        self.window(window) matches Some(state) && state.visible
    }

    /// Whether `window` exists and has the input focus.
    pub open spec fn focuses(self, window: WindowId) -> bool {
        self.window(window) matches Some(state) && state.focused
    }

    /// A window that is out of view does not have the focus, and two windows
    /// do not have it at once.
    pub open spec fn wf(self) -> bool {
        &&& self.focuses(WindowId::Main) ==> self.shows(WindowId::Main)
        &&& self.focuses(WindowId::Settings) ==> self.shows(WindowId::Settings)
        &&& !(self.focuses(WindowId::Main) && self.focuses(WindowId::Settings))
    }

    /// The desktop after `command`.
    ///
    /// Hiding a window also takes the focus from it. Showing a window leaves
    /// the focus where it is. The focus goes to a window only while it is in
    /// view, and then leaves the other one. Suppressing a close, notifying
    /// the front end and opening the homepage change no window.
    pub open spec fn after(self, command: Command) -> Desktop {
        if self.exit is Some {
            self
        } else {
            match command {
                Command::Hide(w) => match self.window(w) {
                    Some(_) => self.with_window(w, WindowState { visible: false, focused: false }),
                    None => self,
                },
                Command::Show(w) => match self.window(w) {
                    Some(state) => self.with_window(
                        w,
                        WindowState { visible: true, focused: state.focused },
                    ),
                    None => self,
                },
                Command::Focus(w) => match self.window(w) {
                    Some(state) => if state.visible {
                        let here = self.with_window(w, WindowState { visible: true, focused: true });
                        match self.window(w.other()) {
                            Some(there) => here.with_window(
                                w.other(),
                                WindowState { visible: there.visible, focused: false },
                            ),
                            None => here,
                        }
                    } else {
                        self
                    },
                    None => self,
                },
                Command::Exit(code) => Desktop { exit: Some(code), ..self },
                Command::PreventClose(_) => self,
                Command::Notify(_, _) => self,
                Command::OpenHomepage => self,
            }
        }
    }

    /// The desktop after each of `commands` in turn.
    pub open spec fn after_all(self, commands: Seq<Command>) -> Desktop
        decreases commands.len(),
    {
        if commands.len() == 0 {
            self
        } else {
            self.after_all(commands.drop_last()).after(commands.last())
        }
    }

    /// The desktop at the start: each window that the front end created, in
    /// view or not as its flag says, none with the focus, the process
    /// running.
    pub open spec fn at_start(main: Option<bool>, settings: Option<bool>) -> Desktop {
        Desktop {
            main: match main {
                Some(visible) => Some(WindowState { visible, focused: false }),
                None => None,
            },
            settings: match settings {
                Some(visible) => Some(WindowState { visible, focused: false }),
                None => None,
            },
            exit: None,
        }
    }

    /// The desktop at the start: `main` and `settings` say, for each of the
    /// two windows, whether the front end created it (`Some`) and whether it
    /// is in view.
    pub fn new(main: Option<bool>, settings: Option<bool>) -> (desktop: Desktop)
        ensures
            desktop == Desktop::at_start(main, settings),
            desktop.wf(),
    {
        Desktop {
            main: match main {
                Some(visible) => Some(WindowState { visible, focused: false }),
                None => None,
            },
            settings: match settings {
                Some(visible) => Some(WindowState { visible, focused: false }),
                None => None,
            },
            exit: None,
        }
    }

    /// The state of `window`, `None` where the front end has not created it.
    pub fn state_of(&self, window: WindowId) -> (state: Option<WindowState>)
        ensures
            state == self.window(window),
    {
        match window {
            WindowId::Main => self.main,
            WindowId::Settings => self.settings,
        }
    }

    /// Whether `window` exists and is in view.
    pub fn is_visible(&self, window: WindowId) -> (visible: bool)
        ensures
            visible == self.shows(window),
    {
        match self.state_of(window) {
            Some(state) => state.visible,
            None => false,
        }
    }

    /// Whether `window` exists and has the input focus.
    pub fn is_focused(&self, window: WindowId) -> (focused: bool)
        ensures
            focused == self.focuses(window),
    {
        match self.state_of(window) {
            Some(state) => state.focused,
            None => false,
        }
    }

    /// Whether the process still runs.
    pub fn is_running(&self) -> (running: bool)
        ensures
            running == (self.exit is None),
    {
        self.exit.is_none()
    }

    fn set(&mut self, window: WindowId, state: WindowState)
        ensures
            *final(self) == old(self).with_window(window, state),
    {
        match window {
            WindowId::Main => {
                self.main = Some(state);
            },
            WindowId::Settings => {
                self.settings = Some(state);
            },
        }
    }

    /// Carries out `command` on the desktop.
    pub fn apply(&mut self, command: Command)
        ensures
            *final(self) == old(self).after(command),
            old(self).wf() ==> final(self).wf(),
    {
        if self.exit.is_some() {
            return ;
        }
        match command {
            Command::Hide(w) => {
                if self.state_of(w).is_some() {
                    self.set(w, WindowState { visible: false, focused: false });
                }
            },
            Command::Show(w) => {
                if let Some(state) = self.state_of(w) {
                    self.set(w, WindowState { visible: true, focused: state.focused });
                }
            },
            Command::Focus(w) => {
                if let Some(state) = self.state_of(w) {
                    if state.visible {
                        self.set(w, WindowState { visible: true, focused: true });
                        let other = match w {
                            WindowId::Main => WindowId::Settings,
                            WindowId::Settings => WindowId::Main,
                        };
                        if let Some(there) = self.state_of(other) {
                            self.set(other, WindowState { visible: there.visible, focused: false });
                        }
                    }
                }
            },
            Command::Exit(code) => {
                self.exit = Some(code);
            },
            Command::PreventClose(_) => {},
            Command::Notify(_, _) => {},
            Command::OpenHomepage => {},
        }
    }

    /// Carries out each of `commands` in turn.
    pub fn run(&mut self, commands: &Vec<Command>)
        ensures
            *final(self) == old(self).after_all(commands@),
            old(self).wf() ==> final(self).wf(),
    {
        let mut i: usize = 0;
        while i < commands.len()
            invariant
                i <= commands.len(),
                *self == old(self).after_all(commands@.take(i as int)),
                old(self).wf() ==> self.wf(),
            decreases commands.len() - i,
        {
            assert(commands@.take(i + 1).drop_last() =~= commands@.take(i as int));
            self.apply(commands[i]);
            i += 1;
        }
        assert(commands@.take(i as int) =~= commands@);
    }
}

/// Commands keep the desktop well formed: after any of them, and so after
/// any number of them, a window out of view still does not have the focus
/// and at most one window has it.
pub proof fn lemma_commands_keep_desktop_well_formed(desktop: Desktop, commands: Seq<Command>)
    requires
        desktop.wf(),
    ensures
        desktop.after_all(commands).wf(),
    decreases commands.len(),
{
    if commands.len() > 0 {
        lemma_commands_keep_desktop_well_formed(desktop, commands.drop_last());
    }
}

/// Only an exit ends the process: after commands that hold none, the process
/// runs exactly if it ran before.
pub proof fn lemma_only_exit_ends_process(desktop: Desktop, commands: Seq<Command>)
    requires
        forall|i: int| 0 <= i < commands.len() ==> !(#[trigger] commands[i] is Exit),
    ensures
        desktop.after_all(commands).exit == desktop.exit,
    decreases commands.len(),
{
    if commands.len() > 0 {
        lemma_only_exit_ends_process(desktop, commands.drop_last());
    }
}

/// Once the process has been told to exit, nothing changes any more.
pub proof fn lemma_nothing_happens_after_exit(desktop: Desktop, commands: Seq<Command>)
    requires
        desktop.exit is Some,
    ensures
        desktop.after_all(commands) == desktop,
    decreases commands.len(),
{
    if commands.len() > 0 {
        lemma_nothing_happens_after_exit(desktop, commands.drop_last());
    }
}

} // verus!
