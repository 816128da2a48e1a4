use ilo_toki::auth::{
    AuthAction, AuthFieldValue, AuthFormFieldType, AuthInput, AuthState, AuthStep,
};
use ilo_toki::event::Key;

fn chars(s: &str) -> Vec<char> {
    s.chars().collect()
}

fn form_step(fields: &[(&str, &str)]) -> AuthStep {
    AuthStep::Form {
        title: chars("log-in"),
        fields: fields.iter().map(|&(n, t)| (chars(n), chars(t))).collect(),
    }
}

fn type_text(s: &mut AuthState, text: &str) {
    for c in text.chars() {
        s.handle_key(Key::Char(c));
    }
}

#[test]
fn default_state_is_initial() {
    let s = AuthState::default();
    assert!(!s.can_go_back);
    assert!(matches!(s.input, AuthInput::Initial));
    assert!(s.title.is_empty());
}

#[test]
fn choice_step_folds_dashes_to_spaces() {
    let mut s = AuthState::default();
    s.apply_step(
        true,
        Some(AuthStep::Choice {
            title: chars("auth-method"),
            options: vec![chars("log-in"), chars("register")],
        }),
    );
    assert!(s.can_go_back);
    assert_eq!(s.title, chars("auth method"));
    match &s.input {
        AuthInput::Choice { choices, current_choice } => {
            assert_eq!(choices, &vec![chars("log in"), chars("register")]);
            assert_eq!(*current_choice, None);
        },
        _ => panic!("expected a choice surface"),
    }
}

#[test]
fn choice_submit_folds_spaces_back_to_dashes() {
    let mut s = AuthState::default();
    s.apply_step(
        false,
        Some(AuthStep::Choice {
            title: chars("auth-method"),
            options: vec![chars("log-in"), chars("register")],
        }),
    );
    // No selection yet: submitting does nothing.
    assert!(s.handle_key(Key::Enter).is_none());
    s.handle_key(Key::Char('j'));
    let r = s.handle_key(Key::Enter);
    match r {
        Some(AuthAction::Choice(opt)) => assert_eq!(opt, chars("log-in")),
        _ => panic!("expected a choice submission"),
    }
}

#[test]
fn choice_selection_is_bounded() {
    let mut s = AuthState::default();
    s.apply_step(
        false,
        Some(AuthStep::Choice { title: chars("t"), options: vec![chars("a"), chars("b")] }),
    );
    s.handle_key(Key::Down);
    s.handle_key(Key::Down);
    s.handle_key(Key::Down);
    match &s.input {
        AuthInput::Choice { current_choice, .. } => assert_eq!(*current_choice, Some(1)),
        _ => panic!("expected a choice surface"),
    }
    s.handle_key(Key::Up);
    s.handle_key(Key::Up);
    s.handle_key(Key::Up);
    match &s.input {
        AuthInput::Choice { current_choice, .. } => assert_eq!(*current_choice, Some(0)),
        _ => panic!("expected a choice surface"),
    }
}

#[test]
fn form_step_maps_field_kinds() {
    let mut s = AuthState::default();
    s.apply_step(
        true,
        Some(form_step(&[
            ("user-name", "text"),
            ("email", "email"),
            ("age", "number"),
            ("password", "password"),
            ("new-password", "new-password"),
            ("mystery", "hologram"),
        ])),
    );
    match &s.input {
        AuthInput::Form { fields, selected, selected_second, editing } => {
            assert_eq!(fields.len(), 6);
            assert_eq!(fields[0].name, chars("user name"));
            assert!(matches!(fields[0].ftype, AuthFormFieldType::Text));
            assert!(matches!(fields[1].ftype, AuthFormFieldType::Email));
            assert!(matches!(fields[2].ftype, AuthFormFieldType::Number));
            assert!(matches!(fields[3].ftype, AuthFormFieldType::Password));
            assert!(matches!(fields[4].ftype, AuthFormFieldType::NewPassword));
            assert!(fields[4].input2.is_some());
            assert!(matches!(fields[5].ftype, AuthFormFieldType::Text));
            assert!(fields[5].input2.is_none());
            assert_eq!(*selected, None);
            assert!(!*selected_second);
            assert!(!*editing);
        },
        _ => panic!("expected a form surface"),
    }
}

#[test]
fn waiting_step_keeps_title_and_offers_back() {
    let mut s = AuthState::default();
    s.apply_step(true, Some(AuthStep::Waiting { description: chars("check your mail") }));
    assert!(matches!(&s.input, AuthInput::Waiting(d) if *d == chars("check your mail")));
    let r = s.handle_key(Key::Right);
    assert!(matches!(r, Some(AuthAction::Back)));
}

#[test]
fn back_is_gated_by_the_flag() {
    let mut s = AuthState::default();
    assert!(s.handle_key(Key::Right).is_none());
    assert!(s.handle_key(Key::Char('h')).is_none());
    s.apply_step(true, None);
    assert!(matches!(s.handle_key(Key::Right), Some(AuthAction::Back)));
    assert!(matches!(s.handle_key(Key::Char('q')), Some(AuthAction::Quit)));
}

#[test]
fn form_typing_fills_selected_field() {
    let mut s = AuthState::default();
    s.apply_step(false, Some(form_step(&[("user", "text"), ("pass", "password")])));
    s.handle_key(Key::Tab);
    s.handle_key(Key::Char('i'));
    type_text(&mut s, "ana");
    s.handle_key(Key::Esc);
    s.handle_key(Key::Tab);
    s.handle_key(Key::Char('i'));
    type_text(&mut s, "hunter2");
    s.handle_key(Key::Backspace);
    let r = s.handle_key(Key::Enter);
    match r {
        Some(AuthAction::Form(values)) => {
            assert_eq!(values.len(), 2);
            match &values[0] {
                AuthFieldValue::Str(v) => assert_eq!(v, &chars("ana")),
                _ => panic!("expected a string value"),
            }
            match &values[1] {
                AuthFieldValue::Password(v) => assert_eq!(v, &chars("hunter")),
                _ => panic!("expected a password value"),
            }
        },
        _ => panic!("expected a form submission"),
    }
}

#[test]
fn mismatched_new_password_blocks_submission() {
    // A form with a password and a new-password field: submitting with a
    // mismatched confirmation produces no outbound submission at all.
    let mut s = AuthState::default();
    s.apply_step(false, Some(form_step(&[("password", "password"), ("new-password", "new-password")])));
    s.handle_key(Key::Tab);
    s.handle_key(Key::Char('i'));
    type_text(&mut s, "old");
    s.handle_key(Key::Esc);
    s.handle_key(Key::Tab);
    s.handle_key(Key::Char('i'));
    type_text(&mut s, "newpass");
    // The confirmation buffer stays empty: it differs from "newpass".
    let r = s.handle_key(Key::Enter);
    assert!(r.is_none());
}

#[test]
fn matching_new_password_submits() {
    // With both the text and its confirmation empty, they match.
    let mut s = AuthState::default();
    s.apply_step(false, Some(form_step(&[("new-password", "new-password")])));
    let r = s.handle_key(Key::Enter);
    match r {
        Some(AuthAction::Form(values)) => {
            assert_eq!(values.len(), 1);
            assert!(matches!(&values[0], AuthFieldValue::Password(v) if v.is_empty()));
        },
        _ => panic!("expected a form submission"),
    }
}

#[test]
fn non_numeric_number_field_blocks_submission() {
    let mut s = AuthState::default();
    s.apply_step(false, Some(form_step(&[("age", "number")])));
    s.handle_key(Key::Tab);
    s.handle_key(Key::Char('i'));
    type_text(&mut s, "12x");
    assert!(s.handle_key(Key::Enter).is_none());
    s.handle_key(Key::Backspace);
    let r = s.handle_key(Key::Enter);
    match r {
        Some(AuthAction::Form(values)) => {
            assert!(matches!(values[0], AuthFieldValue::Number(12)));
        },
        _ => panic!("expected a form submission"),
    }
}

#[test]
fn form_quit_is_blocked_while_editing() {
    let mut s = AuthState::default();
    s.apply_step(false, Some(form_step(&[("user", "text")])));
    s.handle_key(Key::Tab);
    s.handle_key(Key::Char('i'));
    // While editing, the letter q is text, not a quit.
    assert!(s.handle_key(Key::Char('q')).is_none());
    s.handle_key(Key::Esc);
    assert!(matches!(s.handle_key(Key::Char('q')), Some(AuthAction::Quit)));
}

#[test]
fn form_selection_is_bounded() {
    let mut s = AuthState::default();
    s.apply_step(false, Some(form_step(&[("a", "text"), ("b", "text")])));
    s.handle_key(Key::Tab);
    s.handle_key(Key::Tab);
    s.handle_key(Key::Tab);
    match &s.input {
        AuthInput::Form { selected, .. } => assert_eq!(*selected, Some(1)),
        _ => panic!("expected a form surface"),
    }
    s.handle_key(Key::BackTab);
    s.handle_key(Key::BackTab);
    s.handle_key(Key::BackTab);
    match &s.input {
        AuthInput::Form { selected, .. } => assert_eq!(*selected, Some(0)),
        _ => panic!("expected a form surface"),
    }
}

#[test]
fn session_step_only_updates_the_flag() {
    let mut s = AuthState::default();
    s.apply_step(
        false,
        Some(AuthStep::Choice { title: chars("t"), options: vec![chars("a")] }),
    );
    s.apply_step(true, Some(AuthStep::Other));
    assert!(s.can_go_back);
    assert!(matches!(s.input, AuthInput::Choice { .. }));
}
