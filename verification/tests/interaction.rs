use pdf_viewer::{
    page_jump_allowed, ButtonReaction, MouseAction, MouseInteraction, MoveReaction,
    ViewerCommand,
};

const STATES: [MouseInteraction; 3] =
    [MouseInteraction::Idle, MouseInteraction::Panning, MouseInteraction::Selecting];

const ACTIONS: [MouseAction; 10] = [
    MouseAction::Panning,
    MouseAction::Selection,
    MouseAction::NextPage,
    MouseAction::PreviousPage,
    MouseAction::ZoomIn,
    MouseAction::ZoomOut,
    MouseAction::MoveUp,
    MouseAction::MoveDown,
    MouseAction::MoveLeft,
    MouseAction::MoveRight,
];

#[test]
fn pressing_pan_starts_panning() {
    for state in STATES {
        assert_eq!(
            state.on_button(MouseAction::Panning, true),
            (MouseInteraction::Panning, ButtonReaction::Grab)
        );
    }
}

#[test]
fn pressing_selection_starts_selecting() {
    assert_eq!(
        MouseInteraction::Idle.on_button(MouseAction::Selection, true),
        (MouseInteraction::Selecting, ButtonReaction::Grab)
    );
}

#[test]
fn pressing_command_buttons_sends_commands() {
    let expected = [
        (MouseAction::NextPage, ViewerCommand::PageDown),
        (MouseAction::PreviousPage, ViewerCommand::PageUp),
        (MouseAction::ZoomIn, ViewerCommand::ZoomIn),
        (MouseAction::ZoomOut, ViewerCommand::ZoomOut),
        (MouseAction::MoveUp, ViewerCommand::MoveUp),
        (MouseAction::MoveDown, ViewerCommand::MoveDown),
        (MouseAction::MoveLeft, ViewerCommand::MoveLeft),
        (MouseAction::MoveRight, ViewerCommand::MoveRight),
    ];
    for (action, command) in expected {
        for state in STATES {
            assert_eq!(state.on_button(action, true), (state, ButtonReaction::Send(command)));
        }
    }
}

#[test]
fn releasing_any_button_ends_the_interaction() {
    for state in STATES {
        for action in ACTIONS {
            assert_eq!(
                state.on_button(action, false),
                (MouseInteraction::Idle, ButtonReaction::Nothing)
            );
        }
    }
}

#[test]
fn moving_pans_only_while_panning() {
    assert_eq!(MouseInteraction::Panning.on_move(), MoveReaction::Pan);
    assert_eq!(MouseInteraction::Idle.on_move(), MoveReaction::Nothing);
}

#[test]
fn pan_press_move_release_move() {
    let (state, reaction) = MouseInteraction::Idle.on_button(MouseAction::Panning, true);
    assert_eq!(reaction, ButtonReaction::Grab);
    assert_eq!(state.on_move(), MoveReaction::Pan);
    let (state, _) = state.on_button(MouseAction::Panning, false);
    assert_eq!(state.on_move(), MoveReaction::Nothing);
}

#[test]
fn page_jumps_within_the_document() {
    assert!(page_jump_allowed(3, 10));
    assert!(page_jump_allowed(9, 10));
    assert!(!page_jump_allowed(10, 10));
    assert!(!page_jump_allowed(0, 10));
    assert!(!page_jump_allowed(0, 0));
}
