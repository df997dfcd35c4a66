use vstd::prelude::*;

verus! {

/// The system-wide key combination that toggles the overlay window.
pub const HOTKEY: &'static str = "Alt+Space";

/// The event sent to the front-end when toggling is left to it.
pub const TOGGLE_EVENT: &'static str = "toggle-window";

/// Where the overlay window stands.
#[derive(Clone, Copy, Debug, PartialEq, Eq, Structural)]
pub enum Visibility {
    Hidden,
    VisibleUnfocused,
    VisibleFocused,
}

/// What the application shell must ask of the platform.
#[derive(Clone, Copy, Debug, PartialEq, Eq, Structural)]
pub enum WindowAction {
    /// Hide the window.
    Hide,
    /// Show the window and give it input focus.
    ShowAndFocus,
    /// Send the toggle event to the front-end, which decides for itself.
    EmitToggleEvent,
}

/// Who toggles the window on a hotkey activation.
#[derive(Clone, Copy, Debug, PartialEq, Eq, Structural)]
pub enum ToggleMode {
    /// The controller hides or shows the window itself.
    Direct,
    /// The controller only tells the front-end.
    Event,
}

/// The state a hotkey activation leads to: a focused window hides, any other
/// (hidden, or visible but not focused) is shown and focused.
pub open spec fn toggled(state: Visibility) -> Visibility {
    if state == Visibility::VisibleFocused {
        Visibility::Hidden
    } else {
        Visibility::VisibleFocused
    }
}

/// The state that the platform's two flags describe.
pub open spec fn observed(visible: bool, focused: bool) -> Visibility {
    if !visible {
        Visibility::Hidden
    } else if focused {
        Visibility::VisibleFocused
    } else {
        Visibility::VisibleUnfocused
    }
}

/// The action a hotkey activation asks for.
pub open spec fn action_for(mode: ToggleMode, state: Visibility) -> WindowAction {
    match mode {
        ToggleMode::Event => WindowAction::EmitToggleEvent,
        ToggleMode::Direct => if state == Visibility::VisibleFocused {
            WindowAction::Hide
        } else {
            WindowAction::ShowAndFocus
        },
    }
}

/// The state once the platform has carried out an action.
pub open spec fn after_action(state: Visibility, action: WindowAction) -> Visibility {
    match action {
        WindowAction::Hide => Visibility::Hidden,
        WindowAction::ShowAndFocus => Visibility::VisibleFocused,
        WindowAction::EmitToggleEvent => state,
    }
}

/// The state after the platform reports that the window gained or lost focus;
/// a hidden window stays hidden.
pub open spec fn after_focus_change(state: Visibility, focused: bool) -> Visibility {
    match state {
        Visibility::Hidden => Visibility::Hidden,
        _ => if focused {
            Visibility::VisibleFocused
        } else {
            Visibility::VisibleUnfocused
        },
    }
}

/// Reads the window's state from the platform's visibility and focus flags.
pub fn observe_visibility(visible: bool, focused: bool) -> (r: Visibility)
    ensures
        r == observed(visible, focused),
{
    if !visible {
        Visibility::Hidden
    } else if focused {
        Visibility::VisibleFocused
    } else {
        Visibility::VisibleUnfocused
    }
}

/// The state that a hotkey activation leads to under direct control.
pub fn toggle_target(state: Visibility) -> (r: Visibility)
    ensures
        r == toggled(state),
{
    match state {
        Visibility::VisibleFocused => Visibility::Hidden,
        _ => Visibility::VisibleFocused,
    }
}

/// The window-visibility state machine behind the global hotkey.
/// The shell asks it what to do, performs that, and reports back.
#[derive(Clone, Copy, Debug)]
pub struct HotkeyController {
    pub mode: ToggleMode,
    pub state: Visibility,
}

impl HotkeyController {
    /// A controller at startup: the window is hidden.
    pub fn new(mode: ToggleMode) -> (r: HotkeyController)
        ensures
            r.mode == mode,
            r.state == Visibility::Hidden,
    {
        HotkeyController { mode, state: Visibility::Hidden }
    }

    /// The action that a hotkey activation asks of the platform now.
    pub fn on_hotkey(&self) -> (r: WindowAction)
        ensures
            r == action_for(self.mode, self.state),
    {
        match self.mode {
            ToggleMode::Event => WindowAction::EmitToggleEvent,
            ToggleMode::Direct => match self.state {
                Visibility::VisibleFocused => WindowAction::Hide,
                _ => WindowAction::ShowAndFocus,
            },
        }
    }

    /// Handles one hotkey activation, given the platform's visibility and focus
    /// flags, or `None` when they could not be read. Under direct control the
    /// state is first taken from the flags, and unreadable flags abort the
    /// activation with the state kept; under event control the flags are not used.
    pub fn activate(&mut self, flags: Option<(bool, bool)>) -> (r: Option<WindowAction>)
        ensures
            final(self).mode == old(self).mode,
            old(self).mode == ToggleMode::Event ==> (r == Some(WindowAction::EmitToggleEvent)
                && final(self).state == old(self).state),
            old(self).mode == ToggleMode::Direct ==> (match flags {
                None => r is None && final(self).state == old(self).state,
                Some((visible, focused)) => final(self).state == observed(visible, focused)
                    && r == Some(action_for(ToggleMode::Direct, observed(visible, focused))),
            }),
    {
        match self.mode {
            ToggleMode::Event => Some(WindowAction::EmitToggleEvent),
            ToggleMode::Direct => match flags {
                None => None,
                Some((visible, focused)) => {
                    self.resync(visible, focused);
                    Some(self.on_hotkey())
                },
            },
        }
    }

    /// Records the outcome of an action: on success the state follows it; when
    /// a platform call failed the transition is dropped and the state is kept.
    pub fn complete(&mut self, action: WindowAction, succeeded: bool)
        ensures
            final(self).mode == old(self).mode,
            final(self).state == (if succeeded {
                after_action(old(self).state, action)
            } else {
                old(self).state
            }),
    {
        if succeeded {
            match action {
                WindowAction::Hide => {
                    self.state = Visibility::Hidden;
                },
                WindowAction::ShowAndFocus => {
                    self.state = Visibility::VisibleFocused;
                },
                WindowAction::EmitToggleEvent => {},
            }
        }
    }

    /// Follows a focus change that the platform reports.
    pub fn on_focus_changed(&mut self, focused: bool)
        ensures
            final(self).mode == old(self).mode,
            final(self).state == after_focus_change(old(self).state, focused),
    {
        match self.state {
            Visibility::Hidden => {},
            _ => {
                self.state = if focused {
                    Visibility::VisibleFocused
                } else {
                    Visibility::VisibleUnfocused
                };
            },
        }
    }

    /// Takes the state from what the platform reports of the window.
    pub fn resync(&mut self, visible: bool, focused: bool)
        ensures
            final(self).mode == old(self).mode,
            final(self).state == observed(visible, focused),
    {
        self.state = observe_visibility(visible, focused);
    }
}

/// Under direct control, a hotkey activation whose action succeeds toggles the
/// window: a focused window is hidden, a hidden one or one visible but not
/// focused is shown and focused, and only a focused window is ever hidden.
pub proof fn lemma_direct_toggle(state: Visibility)
    ensures
        after_action(state, action_for(ToggleMode::Direct, state)) == toggled(state),
        state == Visibility::Hidden ==> (action_for(ToggleMode::Direct, state)
            == WindowAction::ShowAndFocus && toggled(state) == Visibility::VisibleFocused),
        state == Visibility::VisibleFocused ==> (action_for(ToggleMode::Direct, state)
            == WindowAction::Hide && toggled(state) == Visibility::Hidden),
        state == Visibility::VisibleUnfocused ==> (action_for(ToggleMode::Direct, state)
            == WindowAction::ShowAndFocus && toggled(state) == Visibility::VisibleFocused),
        (action_for(ToggleMode::Direct, state) == WindowAction::Hide) == (state
            == Visibility::VisibleFocused),
{
}

/// Under event control the controller never moves the window itself: the
/// state after a hotkey activation is the state before it.
pub proof fn lemma_event_mode_keeps_state(state: Visibility)
    ensures
        after_action(state, action_for(ToggleMode::Event, state)) == state,
{
}

} // verus!
