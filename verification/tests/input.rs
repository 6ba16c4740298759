use k_launcher::error::AppError;
use k_launcher::input::InputAction;
use k_launcher::kernel::Plugin;
use k_launcher::launcher_state::Action;

struct NoPlugin;

impl Plugin for NoPlugin {
    fn name(&self) -> &str {
        "none"
    }
}

#[test]
fn escape_wins_over_other_keys() {
    assert_eq!(InputAction::from_keys(true, true, true, true), InputAction::Close);
    assert_eq!(InputAction::from_keys(false, true, true, false), InputAction::LaunchSelected);
    assert_eq!(InputAction::from_keys(false, false, true, true), InputAction::MoveDown);
    assert_eq!(InputAction::from_keys(false, false, false, true), InputAction::MoveUp);
    assert_eq!(InputAction::from_keys(false, false, false, false), InputAction::Nothing);
}

#[test]
fn input_maps_to_actions() {
    assert!(matches!(InputAction::Close.action::<NoPlugin>(), Some(Action::Exit)));
    assert!(matches!(InputAction::LaunchSelected.action::<NoPlugin>(), Some(Action::LaunchSelected)));
    assert!(matches!(InputAction::MoveDown.action::<NoPlugin>(), Some(Action::MoveDown)));
    assert!(matches!(InputAction::MoveUp.action::<NoPlugin>(), Some(Action::MoveUp)));
    assert!(InputAction::Nothing.action::<NoPlugin>().is_none());
}

#[test]
fn app_error_message() {
    assert_eq!(AppError::Ui("no display".to_string()).message(), "UI error: no display");
}
