use vstd::prelude::*;

verus! {

/// What a held mouse button is doing on the page.
#[derive(Debug, Clone, Copy, PartialEq, Eq, Structural)]
pub enum MouseInteraction {
    /// No button that drags is held.
    Idle,
    /// The page follows the mouse.
    Panning,
    /// A rectangle of text is being selected.
    Selecting,
}

/// What a mouse button is bound to.
#[derive(Debug, Clone, Copy, PartialEq, Eq, Structural)]
pub enum MouseAction {
    Panning,
    Selection,
    NextPage,
    PreviousPage,
    ZoomIn,
    ZoomOut,
    MoveUp,
    MoveDown,
    MoveLeft,
    MoveRight,
}

/// A message that a mouse binding sends on to the viewer.
#[derive(Debug, Clone, Copy, PartialEq, Eq, Structural)]
pub enum ViewerCommand {
    PageDown,
    PageUp,
    ZoomIn,
    ZoomOut,
    /// Move the view by one step in the given direction.
    MoveUp,
    MoveDown,
    MoveLeft,
    MoveRight,
}

/// What the viewer does when a bound mouse button goes down or up.
#[derive(Debug, Clone, Copy, PartialEq, Eq, Structural)]
pub enum ButtonReaction {
    /// Nothing beyond the change of interaction.
    Nothing,
    /// Remember the current mouse position as the place where the drag began.
    Grab,
    /// Send the command to the viewer.
    Send(ViewerCommand),
}

/// What the viewer does when the mouse moves.
#[derive(Debug, Clone, Copy, PartialEq, Eq, Structural)]
pub enum MoveReaction {
    /// Only the mouse position is recorded.
    Nothing,
    /// The view is moved by the distance the mouse travelled, in document units.
    Pan,
}

impl MouseAction {
    /// The action starts a drag (panning or selecting) while its button is held.
    pub open spec fn drags(self) -> bool {
        self == MouseAction::Panning || self == MouseAction::Selection
    }

    /// The command that a press of a button bound to a non-dragging action sends.
    pub open spec fn command(self) -> ViewerCommand {
        match self {
            MouseAction::NextPage => ViewerCommand::PageDown,
            MouseAction::PreviousPage => ViewerCommand::PageUp,
            MouseAction::ZoomIn => ViewerCommand::ZoomIn,
            MouseAction::ZoomOut => ViewerCommand::ZoomOut,
            MouseAction::MoveUp => ViewerCommand::MoveUp,
            MouseAction::MoveDown => ViewerCommand::MoveDown,
            MouseAction::MoveLeft => ViewerCommand::MoveLeft,
            _ => ViewerCommand::MoveRight,
        }
    }
}

impl MouseInteraction {
    /// The interaction after the button bound to `action` goes down (`pressed`) or up.
    pub open spec fn after_button(self, action: MouseAction, pressed: bool) -> MouseInteraction {
        if !pressed {
            MouseInteraction::Idle
        } else if action == MouseAction::Panning {
            MouseInteraction::Panning
        } else if action == MouseAction::Selection {
            MouseInteraction::Selecting
        } else {
            self
        }
    }

    /// What the viewer does when the button bound to `action` goes down or up.
    pub open spec fn button_reaction(self, action: MouseAction, pressed: bool) -> ButtonReaction {
        if !pressed {
            ButtonReaction::Nothing
        } else if action.drags() {
            ButtonReaction::Grab
        } else {
            ButtonReaction::Send(action.command())
        }
    }

    /// A button bound to `action` went down (`pressed`) or up: the next interaction
    /// and what the viewer does about it.
    ///
    /// Pressing a panning or selection button starts that drag at the current mouse
    /// position; pressing any other bound button sends its command and leaves the
    /// interaction as it is; releasing any button ends the interaction.
    pub fn on_button(&self, action: MouseAction, pressed: bool) -> (res: (
        MouseInteraction,
        ButtonReaction,
    ))
        ensures
            res.0 == self.after_button(action, pressed),
            res.1 == self.button_reaction(action, pressed),
    {
        if pressed {
            match action {
                MouseAction::Panning => (MouseInteraction::Panning, ButtonReaction::Grab),
                MouseAction::Selection => (MouseInteraction::Selecting, ButtonReaction::Grab),
                MouseAction::NextPage => (*self, ButtonReaction::Send(ViewerCommand::PageDown)),
                MouseAction::PreviousPage => (*self, ButtonReaction::Send(ViewerCommand::PageUp)),
                MouseAction::ZoomIn => (*self, ButtonReaction::Send(ViewerCommand::ZoomIn)),
                MouseAction::ZoomOut => (*self, ButtonReaction::Send(ViewerCommand::ZoomOut)),
                MouseAction::MoveUp => (*self, ButtonReaction::Send(ViewerCommand::MoveUp)),
                MouseAction::MoveDown => (*self, ButtonReaction::Send(ViewerCommand::MoveDown)),
                MouseAction::MoveLeft => (*self, ButtonReaction::Send(ViewerCommand::MoveLeft)),
                MouseAction::MoveRight => (*self, ButtonReaction::Send(ViewerCommand::MoveRight)),
            }
        } else {
            (MouseInteraction::Idle, ButtonReaction::Nothing)
        }
    }

    /// The mouse moved: while panning the view follows it, otherwise only the mouse
    /// position is recorded. Moving while selecting is not handled by the viewer.
    pub fn on_move(&self) -> (reaction: MoveReaction)
        requires
            *self != MouseInteraction::Selecting,
        ensures
            reaction == (if *self == MouseInteraction::Panning {
                MoveReaction::Pan
            } else {
                MoveReaction::Nothing
            }),
    {
        match self {
            MouseInteraction::Panning => MoveReaction::Pan,
            _ => MoveReaction::Nothing,
        }
    }
}

/// Whether a request to show page `idx` of a document with `page_count` pages is
/// carried out. The first page is never jumped to this way.
pub fn page_jump_allowed(idx: usize, page_count: usize) -> (allowed: bool)
    ensures
        allowed == (0 < idx < page_count),
{
    idx < page_count && idx > 0 && page_count > 0
}

/// Releasing a button always ends the interaction, whatever was going on and
/// whatever the button is bound to, and does nothing else.
pub proof fn lemma_release_ends_interaction(state: MouseInteraction, action: MouseAction)
    ensures
        state.after_button(action, false) == MouseInteraction::Idle,
        state.button_reaction(action, false) == ButtonReaction::Nothing,
{
}

/// A drag started by a press lasts until a release: pressing buttons bound to other
/// commands in the meantime neither ends nor changes it.
pub proof fn lemma_drag_survives_commands(state: MouseInteraction, action: MouseAction)
    requires
        !action.drags(),
    ensures
        state.after_button(action, true) == state,
{
}

/// Pressing a panning button and then moving the mouse pans the view; after the
/// button is released, moving the mouse no longer does.
pub proof fn lemma_pan_while_held(state: MouseInteraction, release_action: MouseAction)
    ensures
        state.after_button(MouseAction::Panning, true) == MouseInteraction::Panning,
        state.button_reaction(MouseAction::Panning, true) == ButtonReaction::Grab,
        MouseInteraction::Panning.after_button(release_action, false) == MouseInteraction::Idle,
{
}

/// Each command button sends its own command when pressed, whatever is going on:
/// next page pages down, previous page pages up, zoom and move buttons zoom and move
/// the same way.
pub proof fn lemma_buttons_send_their_commands(state: MouseInteraction)
    ensures
        state.button_reaction(MouseAction::NextPage, true) == ButtonReaction::Send(ViewerCommand::PageDown),
        state.button_reaction(MouseAction::PreviousPage, true) == ButtonReaction::Send(ViewerCommand::PageUp),
        state.button_reaction(MouseAction::ZoomIn, true) == ButtonReaction::Send(ViewerCommand::ZoomIn),
        state.button_reaction(MouseAction::ZoomOut, true) == ButtonReaction::Send(ViewerCommand::ZoomOut),
        state.button_reaction(MouseAction::MoveUp, true) == ButtonReaction::Send(ViewerCommand::MoveUp),
        state.button_reaction(MouseAction::MoveDown, true) == ButtonReaction::Send(ViewerCommand::MoveDown),
        state.button_reaction(MouseAction::MoveLeft, true) == ButtonReaction::Send(ViewerCommand::MoveLeft),
        state.button_reaction(MouseAction::MoveRight, true) == ButtonReaction::Send(ViewerCommand::MoveRight),
        state.button_reaction(MouseAction::Selection, true) == ButtonReaction::Grab,
        state.after_button(MouseAction::Selection, true) == MouseInteraction::Selecting,
{
}

} // verus!
