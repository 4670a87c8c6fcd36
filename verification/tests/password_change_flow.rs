use learning::authentication::AuthError;
use learning::routes::admin_password::{
    change_password, ChangePasswordAction, ChangePasswordEvent, ChangePasswordReply,
    ChangePasswordStage,
};

const USER: u128 = 42;

fn submitted(new_password: &str, check: &str) -> ChangePasswordEvent {
    ChangePasswordEvent::FormSubmitted {
        user_id: USER,
        current_password: "current".to_string(),
        new_password: new_password.to_string(),
        new_password_check: check.to_string(),
    }
}

/// Feeds the events one after the other, as a caller would, and returns the
/// actions taken and the stage reached.
fn drive(events: Vec<ChangePasswordEvent>) -> (Vec<ChangePasswordAction>, ChangePasswordStage) {
    let mut stage = ChangePasswordStage::AwaitingForm;
    let mut actions = Vec::new();
    for event in events {
        assert!(stage.accepts(&event));
        let (next, action) = change_password(stage, event);
        stage = next;
        actions.push(action);
    }
    (actions, stage)
}

fn assert_redirect(action: &ChangePasswordAction, notice: &str) {
    match action {
        ChangePasswordAction::Respond(ChangePasswordReply::SeeOther { location, error_flash }) => {
            assert_eq!(location, "/admin/password");
            assert_eq!(error_flash, notice);
        }
        other => panic!("expected a redirect, got {:?}", other),
    }
}

fn assert_internal_error(action: &ChangePasswordAction) {
    assert!(matches!(
        action,
        ChangePasswordAction::Respond(ChangePasswordReply::InternalServerError)
    ));
}

#[test]
fn different_new_passwords_are_refused_at_once() {
    let (actions, stage) = drive(vec![submitted("new-one", "new-two")]);
    assert!(stage.is_finished());
    assert_eq!(actions.len(), 1);
    assert_redirect(
        &actions[0],
        "You entered two different new passwords - the field values must match.",
    );
}

#[test]
fn matching_passwords_lead_to_username_lookup() {
    let (next, action) = change_password(ChangePasswordStage::AwaitingForm, submitted("pw", "pw"));
    match next {
        ChangePasswordStage::AwaitingUsername { user_id, current_password, new_password } => {
            assert_eq!(user_id, USER);
            assert_eq!(current_password, "current");
            assert_eq!(new_password, "pw");
        }
        other => panic!("expected the name lookup stage, got {:?}", other),
    }
    assert!(matches!(action, ChangePasswordAction::FetchUsername { user_id: USER }));
}

#[test]
fn successful_change_takes_four_steps() {
    let (actions, stage) = drive(vec![
        submitted("pw", "pw"),
        ChangePasswordEvent::UsernameFetched(Some("admin".to_string())),
        ChangePasswordEvent::CredentialsChecked(Ok(())),
        ChangePasswordEvent::PasswordUpdated(true),
    ]);
    assert!(stage.is_finished());
    assert_eq!(actions.len(), 4);
    assert!(matches!(actions[0], ChangePasswordAction::FetchUsername { user_id: USER }));
    match &actions[1] {
        ChangePasswordAction::ValidateCredentials { username, password } => {
            assert_eq!(username, "admin");
            assert_eq!(password, "current");
        }
        other => panic!("expected a credential check, got {:?}", other),
    }
    match &actions[2] {
        ChangePasswordAction::UpdatePassword { user_id, new_password } => {
            assert_eq!(*user_id, USER);
            assert_eq!(new_password, "pw");
        }
        other => panic!("expected an update, got {:?}", other),
    }
    assert_redirect(&actions[3], "Your password has been changed.");
}

#[test]
fn wrong_current_password_is_reported() {
    let (actions, stage) = drive(vec![
        submitted("pw", "pw"),
        ChangePasswordEvent::UsernameFetched(Some("admin".to_string())),
        ChangePasswordEvent::CredentialsChecked(Err(AuthError::InvalidCredentials)),
    ]);
    assert!(stage.is_finished());
    assert_eq!(actions.len(), 3);
    assert_redirect(&actions[2], "The current password is incorrect.");
}

#[test]
fn failed_credential_check_is_an_internal_error() {
    let (actions, stage) = drive(vec![
        submitted("pw", "pw"),
        ChangePasswordEvent::UsernameFetched(Some("admin".to_string())),
        ChangePasswordEvent::CredentialsChecked(Err(AuthError::UnexpectedError)),
    ]);
    assert!(stage.is_finished());
    assert_internal_error(&actions[2]);
}

#[test]
fn failed_username_lookup_is_an_internal_error() {
    let (actions, stage) = drive(vec![
        submitted("pw", "pw"),
        ChangePasswordEvent::UsernameFetched(None),
    ]);
    assert!(stage.is_finished());
    assert_eq!(actions.len(), 2);
    assert_internal_error(&actions[1]);
}

#[test]
fn failed_update_is_an_internal_error() {
    let (actions, stage) = drive(vec![
        submitted("pw", "pw"),
        ChangePasswordEvent::UsernameFetched(Some("admin".to_string())),
        ChangePasswordEvent::CredentialsChecked(Ok(())),
        ChangePasswordEvent::PasswordUpdated(false),
    ]);
    assert!(stage.is_finished());
    assert_internal_error(&actions[3]);
}

#[test]
fn each_stage_waits_for_one_kind_of_event() {
    let form = submitted("a", "a");
    let name = ChangePasswordEvent::UsernameFetched(None);
    let check = ChangePasswordEvent::CredentialsChecked(Ok(()));
    let update = ChangePasswordEvent::PasswordUpdated(true);
    let stages = [
        ChangePasswordStage::AwaitingForm,
        ChangePasswordStage::AwaitingUsername {
            user_id: USER,
            current_password: "c".to_string(),
            new_password: "n".to_string(),
        },
        ChangePasswordStage::AwaitingValidation { user_id: USER, new_password: "n".to_string() },
        ChangePasswordStage::AwaitingUpdate,
    ];
    let events = [&form, &name, &check, &update];
    for (i, stage) in stages.iter().enumerate() {
        for (j, event) in events.iter().enumerate() {
            assert_eq!(stage.accepts(event), i == j);
        }
    }
    for event in events.iter() {
        assert!(!ChangePasswordStage::Finished.accepts(event));
    }
}

#[test]
fn answer_comes_last_and_only_once() {
    let runs = vec![
        vec![submitted("a", "b")],
        vec![submitted("a", "a"), ChangePasswordEvent::UsernameFetched(None)],
        vec![
            submitted("a", "a"),
            ChangePasswordEvent::UsernameFetched(Some("u".to_string())),
            ChangePasswordEvent::CredentialsChecked(Err(AuthError::InvalidCredentials)),
        ],
        vec![
            submitted("a", "a"),
            ChangePasswordEvent::UsernameFetched(Some("u".to_string())),
            ChangePasswordEvent::CredentialsChecked(Ok(())),
            ChangePasswordEvent::PasswordUpdated(true),
        ],
    ];
    for events in runs {
        let n = events.len();
        let (actions, stage) = drive(events);
        assert!(n <= 4);
        assert_eq!(actions.len(), n);
        assert!(stage.is_finished());
        for (i, action) in actions.iter().enumerate() {
            assert_eq!(matches!(action, ChangePasswordAction::Respond(_)), i == n - 1);
        }
    }
}

#[test]
fn password_is_stored_only_after_both_checks() {
    let refused = vec![
        vec![submitted("a", "b")],
        vec![
            submitted("a", "a"),
            ChangePasswordEvent::UsernameFetched(Some("u".to_string())),
            ChangePasswordEvent::CredentialsChecked(Err(AuthError::InvalidCredentials)),
        ],
        vec![
            submitted("a", "a"),
            ChangePasswordEvent::UsernameFetched(Some("u".to_string())),
            ChangePasswordEvent::CredentialsChecked(Err(AuthError::UnexpectedError)),
        ],
    ];
    for events in refused {
        let (actions, _) = drive(events);
        assert!(actions
            .iter()
            .all(|a| !matches!(a, ChangePasswordAction::UpdatePassword { .. })));
    }
}
