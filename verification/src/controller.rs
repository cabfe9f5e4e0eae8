//! The tray's controller: which commands answer an event of a window or of
//! the tray.
//!
//! The controller holds no window and keeps no record of what the windows
//! look like. It turns one event into a list of commands; the caller carries
//! them out, in order, and skips a command whose window it cannot find.

use vstd::prelude::*;
use crate::menu::{lemma_id_names_its_action, MenuAction};
use crate::window::{lemma_only_exit_ends_process, Command, Desktop, FrontEndEvent, WindowId};

verus! {

/// How a tray action brings up a surface of the front end.
#[derive(Clone, Copy, Debug, PartialEq, Eq, Structural)]
pub enum Reveal {
    /// Tell the front end what is wanted and let it decide what to show.
    NotifyFrontEnd,
    /// Show the window and give it the focus.
    ShowAndFocus,
}

/// What the windowing system reports of a window.
#[derive(Clone, Copy, Debug, PartialEq, Eq, Structural)]
pub enum WindowEvent {
    /// The user asked to close the window.
    CloseRequested,
    /// The window got the focus (`true`) or lost it (`false`).
    FocusChanged(bool),
    /// Anything else.
    Other,
}

/// What the tray reports.
#[derive(Debug, PartialEq, Eq)]
pub enum TrayEvent {
    /// A left click on the tray's icon.
    IconLeftClick,
    /// A click on the menu item with this identifier.
    MenuItemClick(String),
    /// Anything else.
    Other,
}

/// The controller's settings. They are chosen once, at startup.
#[derive(Clone, Copy, Debug, PartialEq, Eq, Structural)]
pub struct Controller {
    /// How a tray action brings up a surface.
    pub reveal: Reveal,
    /// Whether a window that loses the focus is hidden.
    pub hide_on_focus_loss: bool,
    /// Whether the settings have a window of their own; where they have
    /// none, they are a panel of the main window.
    pub settings_window: bool,
}

/// The exit code of a process that ends because the user chose Quit.
pub const QUIT_EXIT_CODE: i32 = 0;

/// The exit code of a process that could not start.
pub const STARTUP_FAILURE_EXIT_CODE: i32 = 1;

impl Controller {
    /// The commands that bring up the main window's surface for `event`:
    /// the event alone where the front end decides, else the window shown
    /// and focused, and then the event if it is more than a request to open
    /// the main surface.
    pub open spec fn main_surface(self, event: FrontEndEvent) -> Seq<Command> {
        match self.reveal {
            Reveal::NotifyFrontEnd => seq![Command::Notify(WindowId::Main, event)],
            Reveal::ShowAndFocus => if event == FrontEndEvent::OpenMain {
                seq![Command::Show(WindowId::Main), Command::Focus(WindowId::Main)]
            } else {
                seq![
                    Command::Show(WindowId::Main),
                    Command::Focus(WindowId::Main),
                    Command::Notify(WindowId::Main, event),
                ]
            },
        }
    }

    /// The commands that bring up the settings: in their own window where
    /// there is one, else as a panel of the main window.
    pub open spec fn settings_surface(self) -> Seq<Command> {
        if self.settings_window {
            match self.reveal {
                Reveal::NotifyFrontEnd => seq![
                    Command::Notify(WindowId::Settings, FrontEndEvent::OpenSettings),
                ],
                Reveal::ShowAndFocus => seq![
                    Command::Show(WindowId::Settings),
                    Command::Focus(WindowId::Settings),
                ],
            }
        } else {
            self.main_surface(FrontEndEvent::OpenSettings)
        }
    }

    /// The commands that answer `event` of `window`.
    ///
    /// A request to close never closes: the window is hidden and the close
    /// is suppressed. A window that loses the focus is hidden where the
    /// controller is set to do so. Nothing else is answered.
    pub open spec fn window_reaction(self, window: WindowId, event: WindowEvent) -> Seq<Command> {
        match event {
            WindowEvent::CloseRequested => seq![
                Command::Hide(window),
                Command::PreventClose(window),
            ],
            WindowEvent::FocusChanged(focused) => if !focused && self.hide_on_focus_loss {
                seq![Command::Hide(window)]
            } else {
                Seq::empty()
            },
            WindowEvent::Other => Seq::empty(),
        }
    }

    /// The commands that carry out `action` of the tray's menu.
    pub open spec fn menu_reaction(self, action: MenuAction) -> Seq<Command> {
        match action {
            MenuAction::NewNote => self.main_surface(FrontEndEvent::NewNote),
            MenuAction::Settings => self.settings_surface(),
            MenuAction::About => seq![Command::OpenHomepage],
            MenuAction::Quit => seq![Command::Exit(QUIT_EXIT_CODE)],
        }
    }

    /// The commands that answer a click on the menu item with the
    /// identifier `id`: those of the item's action, and none where no item
    /// has that identifier.
    pub open spec fn click_reaction(self, id: Seq<char>) -> Seq<Command> {
        match MenuAction::with_id(id) {
            Some(action) => self.menu_reaction(action),
            None => Seq::empty(),
        }
    }

    /// The commands that answer `event` of the tray.
    pub open spec fn tray_reaction(self, event: TrayEvent) -> Seq<Command> {
        match event {
            TrayEvent::IconLeftClick => self.main_surface(FrontEndEvent::OpenMain),
            TrayEvent::MenuItemClick(id) => self.click_reaction(id@),
            TrayEvent::Other => Seq::empty(),
        }
    }

    /// A controller with these settings.
    pub fn new(reveal: Reveal, hide_on_focus_loss: bool, settings_window: bool) -> (controller:
        Controller)
        ensures
            controller == (Controller { reveal, hide_on_focus_loss, settings_window }),
    {
        Controller { reveal, hide_on_focus_loss, settings_window }
    }

    fn reveal_main(&self, event: FrontEndEvent) -> (commands: Vec<Command>)
        ensures
            commands@ == self.main_surface(event),
    {
        let mut commands: Vec<Command> = Vec::new();
        match self.reveal {
            Reveal::NotifyFrontEnd => {
                commands.push(Command::Notify(WindowId::Main, event));
            },
            Reveal::ShowAndFocus => {
                commands.push(Command::Show(WindowId::Main));
                commands.push(Command::Focus(WindowId::Main));
                if event != FrontEndEvent::OpenMain {
                    commands.push(Command::Notify(WindowId::Main, event));
                }
            },
        }
        assert(commands@ =~= self.main_surface(event));
        commands
    }

    fn reveal_settings(&self) -> (commands: Vec<Command>)
        ensures
            commands@ == self.settings_surface(),
    {
        if !self.settings_window {
            return self.reveal_main(FrontEndEvent::OpenSettings);
        }
        let mut commands: Vec<Command> = Vec::new();
        match self.reveal {
            Reveal::NotifyFrontEnd => {
                commands.push(Command::Notify(WindowId::Settings, FrontEndEvent::OpenSettings));
            },
            Reveal::ShowAndFocus => {
                commands.push(Command::Show(WindowId::Settings));
                commands.push(Command::Focus(WindowId::Settings));
            },
        }
        assert(commands@ =~= self.settings_surface());
        commands
    }

    /// Answers `event` of `window`.
    pub fn on_window_event(&self, window: WindowId, event: WindowEvent) -> (commands: Vec<
        Command,
    >)
        ensures
            commands@ == self.window_reaction(window, event),
    {
        let mut commands: Vec<Command> = Vec::new();
        match event {
            WindowEvent::CloseRequested => {
                commands.push(Command::Hide(window));
                commands.push(Command::PreventClose(window));
            },
            WindowEvent::FocusChanged(focused) => {
                if !focused && self.hide_on_focus_loss {
                    commands.push(Command::Hide(window));
                }
            },
            WindowEvent::Other => {},
        }
        assert(commands@ =~= self.window_reaction(window, event));
        commands
    }

    /// Carries out `action` of the tray's menu.
    pub fn on_menu_action(&self, action: MenuAction) -> (commands: Vec<Command>)
        ensures
            commands@ == self.menu_reaction(action),
    {
        match action {
            MenuAction::NewNote => self.reveal_main(FrontEndEvent::NewNote),
            MenuAction::Settings => self.reveal_settings(),
            MenuAction::About => {
                let mut commands: Vec<Command> = Vec::new();
                commands.push(Command::OpenHomepage);
                assert(commands@ =~= self.menu_reaction(action));
                commands
            },
            MenuAction::Quit => {
                let mut commands: Vec<Command> = Vec::new();
                commands.push(Command::Exit(QUIT_EXIT_CODE));
                assert(commands@ =~= self.menu_reaction(action));
                commands
            },
        }
    }

    /// Answers `event` of the tray.
    pub fn on_tray_event(&self, event: &TrayEvent) -> (commands: Vec<Command>)
        ensures
            commands@ == self.tray_reaction(*event),
    {
        match event {
            TrayEvent::IconLeftClick => self.reveal_main(FrontEndEvent::OpenMain),
            TrayEvent::MenuItemClick(id) => match MenuAction::from_id(id.as_str()) {
                Some(action) => self.on_menu_action(action),
                None => Vec::new(),
            },
            TrayEvent::Other => Vec::new(),
        }
    }
}

/// The address of the project's homepage, which About opens.
pub fn homepage() -> (url: &'static str)
    ensures
        url@ == "https://github.com/ltsbt/obsidian-quicknote"@,
{
    "https://github.com/ltsbt/obsidian-quicknote"
}

/// A request to close a window never ends the process and always hides the
/// window: whatever the controller's settings and whatever the windows
/// looked like, the answer suppresses the close, the process runs on exactly
/// if it ran before, and while it runs the window is out of view afterwards.
pub proof fn lemma_close_request_hides_window(
    controller: Controller,
    desktop: Desktop,
    window: WindowId,
)
    ensures
        controller.window_reaction(window, WindowEvent::CloseRequested).contains(
            Command::PreventClose(window),
        ),
        desktop.after_all(controller.window_reaction(window, WindowEvent::CloseRequested)).exit
            == desktop.exit,
        desktop.exit is None ==> !desktop.after_all(
            controller.window_reaction(window, WindowEvent::CloseRequested),
        ).shows(window),
{
    let commands = controller.window_reaction(window, WindowEvent::CloseRequested);
    assert(commands[1] == Command::PreventClose(window));
    lemma_after_two(desktop, Command::Hide(window), Command::PreventClose(window));
}

/// No event of a window ends the process: no answer to one holds an exit.
pub proof fn lemma_window_events_never_end_process(
    controller: Controller,
    desktop: Desktop,
    window: WindowId,
    event: WindowEvent,
)
    ensures
        forall|i: int|
            0 <= i < controller.window_reaction(window, event).len() ==> !(
            #[trigger] controller.window_reaction(window, event)[i] is Exit),
        desktop.after_all(controller.window_reaction(window, event)).exit == desktop.exit,
{
    lemma_only_exit_ends_process(desktop, controller.window_reaction(window, event));
}

/// Of the tray's events only a click on Quit ends the process: where the
/// process ran before an event of the tray and does not run after it, the
/// event was a click on the item with the identifier `quit`.
pub proof fn lemma_only_quit_ends_process(
    controller: Controller,
    desktop: Desktop,
    event: TrayEvent,
)
    ensures
        desktop.exit is None && desktop.after_all(controller.tray_reaction(event)).exit is Some
            ==> (event matches TrayEvent::MenuItemClick(id) && id@ == "quit"@),
{
    let commands = controller.tray_reaction(event);
    let by_quit = event matches TrayEvent::MenuItemClick(id) && MenuAction::with_id(id@) == Some(
        MenuAction::Quit,
    );
    if !by_quit {
        assert forall|i: int| 0 <= i < commands.len() implies !(#[trigger] commands[i] is Exit) by {
        }
        lemma_only_exit_ends_process(desktop, commands);
    }
}

/// Quit always ends the process with exit code 0: whatever the controller's
/// settings and whatever the windows look like, a click on the item with the
/// identifier `quit` is answered by the exit alone, and a process that was
/// running has exit code 0 afterwards, with every window as it was.
pub proof fn lemma_quit_exits_with_code_zero(controller: Controller, desktop: Desktop, id: String)
    requires
        id@ == "quit"@,
    ensures
        controller.tray_reaction(TrayEvent::MenuItemClick(id)) == seq![Command::Exit(0)],
        desktop.exit is None ==> desktop.after_all(
            controller.tray_reaction(TrayEvent::MenuItemClick(id)),
        ) == (Desktop { exit: Some(0i32), ..desktop }),
{
    lemma_id_names_its_action(MenuAction::Quit, "quit"@);
    lemma_after_one(desktop, Command::Exit(0));
}

/// A click on a menu item that the menu does not have is ignored: it is
/// answered by no command, so every window, and the process, is as before.
pub proof fn lemma_unknown_menu_id_is_ignored(
    controller: Controller,
    desktop: Desktop,
    id: String,
)
    requires
        forall|action: MenuAction| id@ != #[trigger] action.id_text(),
    ensures
        controller.tray_reaction(TrayEvent::MenuItemClick(id)) == Seq::<Command>::empty(),
        desktop.after_all(controller.tray_reaction(TrayEvent::MenuItemClick(id))) == desktop,
{
    assert(id@ != MenuAction::NewNote.id_text());
    assert(id@ != MenuAction::Settings.id_text());
    assert(id@ != MenuAction::About.id_text());
    assert(id@ != MenuAction::Quit.id_text());
}

/// A window that loses the focus is hidden where the controller is set to
/// do so, and left alone where it is not.
pub proof fn lemma_focus_loss_hides_window_if_set(
    controller: Controller,
    desktop: Desktop,
    window: WindowId,
)
    ensures
        controller.hide_on_focus_loss && desktop.exit is None ==> !desktop.after_all(
            controller.window_reaction(window, WindowEvent::FocusChanged(false)),
        ).shows(window),
        !controller.hide_on_focus_loss ==> desktop.after_all(
            controller.window_reaction(window, WindowEvent::FocusChanged(false)),
        ) == desktop,
{
    if controller.hide_on_focus_loss {
        lemma_after_one(desktop, Command::Hide(window));
    }
}

/// Where the controller shows windows itself, a left click on the tray's
/// icon and the New Note item both leave the main window in view and with
/// the focus, if the front end created it and the process runs.
pub proof fn lemma_tray_brings_main_window_up(
    controller: Controller,
    desktop: Desktop,
    event: FrontEndEvent,
)
    requires
        controller.reveal == Reveal::ShowAndFocus,
        desktop.window(WindowId::Main) is Some,
        desktop.exit is None,
    ensures
        desktop.after_all(controller.main_surface(event)).shows(WindowId::Main),
        desktop.after_all(controller.main_surface(event)).focuses(WindowId::Main),
{
    let show = Command::Show(WindowId::Main);
    let focus = Command::Focus(WindowId::Main);
    if event == FrontEndEvent::OpenMain {
        lemma_after_two(desktop, show, focus);
    } else {
        let commands = controller.main_surface(event);
        assert(commands.drop_last() =~= seq![show, focus]);
        lemma_after_two(desktop, show, focus);
    }
}

/// Where the controller only notifies the front end, a left click on the
/// tray's icon changes no window, and neither does any menu item but Quit:
/// the front end decides what comes into view.
pub proof fn lemma_notifying_changes_no_window(
    controller: Controller,
    desktop: Desktop,
    action: MenuAction,
)
    requires
        controller.reveal == Reveal::NotifyFrontEnd,
        action != MenuAction::Quit,
    ensures
        desktop.after_all(controller.main_surface(FrontEndEvent::OpenMain)) == desktop,
        desktop.after_all(controller.menu_reaction(action)) == desktop,
{
    lemma_after_one(desktop, Command::Notify(WindowId::Main, FrontEndEvent::OpenMain));
    lemma_after_one(desktop, Command::Notify(WindowId::Main, FrontEndEvent::NewNote));
    lemma_after_one(desktop, Command::Notify(WindowId::Main, FrontEndEvent::OpenSettings));
    lemma_after_one(desktop, Command::Notify(WindowId::Settings, FrontEndEvent::OpenSettings));
    lemma_after_one(desktop, Command::OpenHomepage);
}

proof fn lemma_after_one(desktop: Desktop, only: Command)
    ensures
        desktop.after_all(seq![only]) == desktop.after(only),
{
    assert(seq![only].drop_last() =~= Seq::<Command>::empty());
    assert(desktop.after_all(Seq::<Command>::empty()) == desktop);
}

proof fn lemma_after_two(desktop: Desktop, first: Command, second: Command)
    ensures
        desktop.after_all(seq![first, second]) == desktop.after(first).after(second),
{
    assert(seq![first, second].drop_last() =~= seq![first]);
    lemma_after_one(desktop, first);
}

} // verus!
