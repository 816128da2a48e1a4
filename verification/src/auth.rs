//! The auth negotiator: a short-lived state machine that walks the login
//! protocol's step sequence (choice, form, wait), independent of the main
//! chat session.
//!
//! Each step response from the server replaces the current state; user
//! actions produce go-back, choice-submit or form-submit responses.  A
//! form is validated locally before submission: a numeric field must hold
//! a number, and a new password must equal its confirmation.

use vstd::prelude::*;
use crate::event::Key;
use crate::mode::{sel_next, sel_prev};
use crate::text::{
    chars_eq, clone_chars, i64_str_val, is_i64_str, parse_i64_chars, replace_char, replaced,
};

verus! {

/// The kind of a form field, as dictated by the server's step.
#[derive(Copy, Clone, Debug, PartialEq, Eq)]
pub enum AuthFormFieldType {
    Text,
    Email,
    Number,
    Password,
    NewPassword,
}

/// One field of a login form: its label, kind, text, and — for a
/// new-password field — the confirmation text.
pub struct AuthFormField {
    /// The display label of the field.
    pub name: Vec<char>,
    /// The kind of the field.
    pub ftype: AuthFormFieldType,
    /// The text the user typed.
    pub input: Vec<char>,
    /// The confirmation text; present exactly for new-password fields.
    pub input2: Option<Vec<char>>,
}

/// The interactive surface of the current auth step.
pub enum AuthInput {
    /// No step received yet.
    Initial,
    /// A list of labeled options with an optional highlighted index.
    Choice { choices: Vec<Vec<char>>, current_choice: Option<usize> },
    /// An ordered list of typed fields with a selection and editing flag.
    Form {
        fields: Vec<AuthFormField>,
        selected: Option<usize>,
        selected_second: bool,
        editing: bool,
    },
    /// A read-only description while the server works.
    Waiting(Vec<char>),
}

impl Default for AuthInput {
    fn default() -> (r: Self)
        ensures
            r is Initial,
    {
        Self::Initial
    }
}

/// The negotiator's state: whether going back is offered, the step title,
/// and the interactive surface.
pub struct AuthState {
    /// Whether the server offers going back from this step.
    pub can_go_back: bool,
    /// The title of the current step.
    pub title: Vec<char>,
    /// The interactive surface of the current step.
    pub input: AuthInput,
}

impl Default for AuthState {
    fn default() -> (r: Self)
        ensures
            r.wf(),
            !r.can_go_back,
            r.title@ == Seq::<char>::empty(),
            r.input is Initial,
    {
        AuthState { can_go_back: false, title: Vec::new(), input: AuthInput::Initial }
    }
}

/// A login step as dictated by the server, reduced to plain values.
pub enum AuthStep {
    /// A choice among labeled options.
    Choice { title: Vec<char>, options: Vec<Vec<char>> },
    /// A form of typed fields, each a `(label, kind string)` pair.
    Form { title: Vec<char>, fields: Vec<(Vec<char>, Vec<char>)> },
    /// A wait with a description.
    Waiting { description: Vec<char> },
    /// Any step kind this client does not present.
    Other,
}

/// The typed value of a submitted form field.  A text or email field
/// submits its text as a string, a password field submits its text as
/// bytes (encoded at the transport boundary), and a number field submits
/// its parsed value.
pub enum AuthFieldValue {
    Str(Vec<char>),
    Password(Vec<char>),
    Number(i64),
}

/// A user action on the current step, to be sent to the server.
pub enum AuthAction {
    /// Re-request the previous step.
    Back,
    /// Abort the negotiation.
    Quit,
    /// Submit the selected option, with spaces folded back to dashes.
    Choice(Vec<char>),
    /// Submit the form's typed values, in field order.
    Form(Vec<AuthFieldValue>),
}

pub open spec fn password_str() -> Seq<char> {
    seq!['p', 'a', 's', 's', 'w', 'o', 'r', 'd']
}

pub open spec fn new_password_str() -> Seq<char> {
    seq!['n', 'e', 'w', '-', 'p', 'a', 's', 's', 'w', 'o', 'r', 'd']
}

pub open spec fn email_str() -> Seq<char> {
    seq!['e', 'm', 'a', 'i', 'l']
}

pub open spec fn number_str() -> Seq<char> {
    seq!['n', 'u', 'm', 'b', 'e', 'r']
}

/// The field kind a server-side kind string denotes; anything unknown is
/// plain text.
pub open spec fn spec_field_type(s: Seq<char>) -> AuthFormFieldType {
    if s == password_str() {
        AuthFormFieldType::Password
    } else if s == new_password_str() {
        AuthFormFieldType::NewPassword
    } else if s == email_str() {
        AuthFormFieldType::Email
    } else if s == number_str() {
        AuthFormFieldType::Number
    } else {
        AuthFormFieldType::Text
    }
}

/// Maps a server-side kind string to the field kind.
pub fn field_type_of(s: &Vec<char>) -> (r: AuthFormFieldType)
    ensures
        r == spec_field_type(s@),
{
    if s.len() == 8 && s[0] == 'p' && s[1] == 'a' && s[2] == 's' && s[3] == 's' && s[4] == 'w'
        && s[5] == 'o' && s[6] == 'r' && s[7] == 'd' {
        proof {
            assert(s@ =~= password_str());
        }
        return AuthFormFieldType::Password;
    }
    if s.len() == 12 && s[0] == 'n' && s[1] == 'e' && s[2] == 'w' && s[3] == '-' && s[4] == 'p'
        && s[5] == 'a' && s[6] == 's' && s[7] == 's' && s[8] == 'w' && s[9] == 'o' && s[10] == 'r'
        && s[11] == 'd' {
        proof {
            assert(s@ =~= new_password_str());
        }
        return AuthFormFieldType::NewPassword;
    }
    if s.len() == 5 && s[0] == 'e' && s[1] == 'm' && s[2] == 'a' && s[3] == 'i' && s[4] == 'l' {
        proof {
            assert(s@ =~= email_str());
        }
        return AuthFormFieldType::Email;
    }
    if s.len() == 6 && s[0] == 'n' && s[1] == 'u' && s[2] == 'm' && s[3] == 'b' && s[4] == 'e'
        && s[5] == 'r' {
        proof {
            assert(s@ =~= number_str());
        }
        return AuthFormFieldType::Number;
    }
    proof {
        if s@ == password_str() {
            assert(s@.len() == 8 && s@[0] == 'p' && s@[1] == 'a' && s@[2] == 's' && s@[3] == 's'
                && s@[4] == 'w' && s@[5] == 'o' && s@[6] == 'r' && s@[7] == 'd');
        }
        if s@ == new_password_str() {
            assert(s@.len() == 12 && s@[0] == 'n' && s@[1] == 'e' && s@[2] == 'w' && s@[3] == '-'
                && s@[4] == 'p' && s@[5] == 'a' && s@[6] == 's' && s@[7] == 's' && s@[8] == 'w'
                && s@[9] == 'o' && s@[10] == 'r' && s@[11] == 'd');
        }
        if s@ == email_str() {
            assert(s@.len() == 5 && s@[0] == 'e' && s@[1] == 'm' && s@[2] == 'a' && s@[3] == 'i'
                && s@[4] == 'l');
        }
        if s@ == number_str() {
            assert(s@.len() == 6 && s@[0] == 'n' && s@[1] == 'u' && s@[2] == 'm' && s@[3] == 'b'
                && s@[4] == 'e' && s@[5] == 'r');
        }
    }
    AuthFormFieldType::Text
}

impl AuthState {
    /// Selections sit inside their lists, and a field carries a
    /// confirmation buffer exactly when it is a new-password field.
    pub open spec fn wf(&self) -> bool {
        match self.input {
            AuthInput::Initial => true,
            AuthInput::Waiting(_) => true,
            AuthInput::Choice { choices, current_choice } => match current_choice {
                Some(j) => j < choices@.len(),
                None => true,
            },
            AuthInput::Form { fields, selected, .. } => {
                &&& match selected {
                    Some(j) => j < fields@.len(),
                    None => true,
                }
                &&& forall|i: int| 0 <= i < fields@.len() ==> ((#[trigger] fields@[i]).input2
                    is Some <==> fields@[i].ftype == AuthFormFieldType::NewPassword)
            },
        }
    }

    /// Replaces the current state with a step response: the go-back flag
    /// always follows the response; a choice or form step installs a new
    /// surface with dashes in labels folded to spaces and nothing selected;
    /// a waiting step installs its description; an absent or unpresented
    /// step leaves the surface as it was.
    pub fn apply_step(&mut self, can_go_back: bool, step: Option<AuthStep>)
        requires
            old(self).wf(),
        ensures
            final(self).wf(),
            final(self).can_go_back == can_go_back,
            match step {
                None => final(self).input == old(self).input && final(self).title == old(
                    self,
                ).title,
                Some(AuthStep::Choice { title, options }) => {
                    &&& final(self).title@ == replaced(title@, '-', ' ')
                    &&& final(self).input matches AuthInput::Choice { choices, current_choice }
                        && choices@.len() == options@.len() && (forall|i: int|
                        0 <= i < options@.len() ==> (#[trigger] choices@[i])@ == replaced(
                            options@[i]@,
                            '-',
                            ' ',
                        )) && current_choice is None
                },
                Some(AuthStep::Form { title, fields }) => {
                    &&& final(self).title@ == replaced(title@, '-', ' ')
                    &&& final(self).input matches AuthInput::Form {
                        fields: fs,
                        selected,
                        selected_second,
                        editing,
                    } && fs@.len() == fields@.len() && (forall|i: int|
                        0 <= i < fields@.len() ==> {
                            let f = #[trigger] fs@[i];
                            &&& f.name@ == replaced(fields@[i].0@, '-', ' ')
                            &&& f.ftype == spec_field_type(fields@[i].1@)
                            &&& f.input@ == Seq::<char>::empty()
                            &&& (f.ftype == AuthFormFieldType::NewPassword ==> f.input2 is Some
                                && f.input2.unwrap()@ == Seq::<char>::empty())
                            &&& (f.ftype != AuthFormFieldType::NewPassword ==> f.input2 is None)
                        }) && selected is None && !selected_second && !editing
                },
                Some(AuthStep::Waiting { description }) => {
                    &&& final(self).title == old(self).title
                    &&& final(self).input matches AuthInput::Waiting(d) && d@ == description@
                },
                Some(AuthStep::Other) => final(self).input == old(self).input && final(self).title
                    == old(self).title,
            },
    {
        self.can_go_back = can_go_back;
        match step {
            None => {},
            Some(AuthStep::Choice { title, options }) => {
                self.title = replace_char(&title, '-', ' ');
                let mut choices: Vec<Vec<char>> = Vec::new();
                let mut i: usize = 0;
                while i < options.len()
                    invariant
                        0 <= i <= options@.len(),
                        choices@.len() == i,
                        forall|k: int| 0 <= k < i ==> (#[trigger] choices@[k])@ == replaced(
                            options@[k]@,
                            '-',
                            ' ',
                        ),
                    decreases options@.len() - i,
                {
                    choices.push(replace_char(&options[i], '-', ' '));
                    i = i + 1;
                }
                self.input = AuthInput::Choice { choices, current_choice: None };
            },
            Some(AuthStep::Form { title, fields }) => {
                self.title = replace_char(&title, '-', ' ');
                let mut fs: Vec<AuthFormField> = Vec::new();
                let mut i: usize = 0;
                while i < fields.len()
                    invariant
                        0 <= i <= fields@.len(),
                        fs@.len() == i,
                        forall|k: int| 0 <= k < i ==> {
                            let f = #[trigger] fs@[k];
                            &&& f.name@ == replaced(fields@[k].0@, '-', ' ')
                            &&& f.ftype == spec_field_type(fields@[k].1@)
                            &&& f.input@ == Seq::<char>::empty()
                            &&& (f.ftype == AuthFormFieldType::NewPassword ==> f.input2 is Some
                                && f.input2.unwrap()@ == Seq::<char>::empty())
                            &&& (f.ftype != AuthFormFieldType::NewPassword ==> f.input2 is None)
                        },
                    decreases fields@.len() - i,
                {
                    let name = replace_char(&fields[i].0, '-', ' ');
                    let ftype = field_type_of(&fields[i].1);
                    let input2: Option<Vec<char>> = match ftype {
                        AuthFormFieldType::NewPassword => Some(Vec::new()),
                        _ => None,
                    };
                    fs.push(AuthFormField { name, ftype, input: Vec::new(), input2 });
                    i = i + 1;
                }
                self.input = AuthInput::Form {
                    fields: fs,
                    selected: None,
                    selected_second: false,
                    editing: false,
                };
            },
            Some(AuthStep::Waiting { description }) => {
                self.input = AuthInput::Waiting(description);
            },
            Some(AuthStep::Other) => {},
        }
    }
}

/// Whether a field passes local validation: a number field must hold a
/// number in range, and a new-password field must equal its confirmation.
pub open spec fn field_ok(f: AuthFormField) -> bool {
    match f.ftype {
        AuthFormFieldType::Number => is_i64_str(f.input@),
        AuthFormFieldType::NewPassword => f.input2 is Some && f.input@ == f.input2.unwrap()@,
        _ => true,
    }
}

/// Whether `v` is the submitted value of field `f`.
pub open spec fn value_matches(v: AuthFieldValue, f: AuthFormField) -> bool {
    match f.ftype {
        AuthFormFieldType::Text => v is Str && v->Str_0@ == f.input@,
        AuthFormFieldType::Email => v is Str && v->Str_0@ == f.input@,
        AuthFormFieldType::Number => v is Number && v->Number_0 == i64_str_val(f.input@),
        AuthFormFieldType::Password => v is Password && v->Password_0@ == f.input@,
        AuthFormFieldType::NewPassword => v is Password && v->Password_0@ == f.input@,
    }
}

/// Converts every field to its typed value, exactly when every field
/// passes local validation; otherwise nothing is produced and no
/// submission happens.
pub fn build_form_values(fields: &Vec<AuthFormField>) -> (r: Option<Vec<AuthFieldValue>>)
    ensures
        r is Some <==> (forall|i: int| 0 <= i < fields@.len() ==> field_ok(#[trigger] fields@[i])),
        r is Some ==> {
            let vs = r.unwrap();
            vs@.len() == fields@.len() && forall|i: int|
                0 <= i < fields@.len() ==> value_matches(#[trigger] vs@[i], fields@[i])
        },
{
    let mut out: Vec<AuthFieldValue> = Vec::new();
    let mut i: usize = 0;
    while i < fields.len()
        invariant
            0 <= i <= fields@.len(),
            out@.len() == i,
            forall|k: int| 0 <= k < i ==> field_ok(#[trigger] fields@[k]),
            forall|k: int| 0 <= k < i ==> value_matches(#[trigger] out@[k], fields@[k]),
        decreases fields@.len() - i,
    {
        let f = &fields[i];
        match f.ftype {
            AuthFormFieldType::Text => {
                out.push(AuthFieldValue::Str(clone_chars(&f.input)));
            },
            AuthFormFieldType::Email => {
                out.push(AuthFieldValue::Str(clone_chars(&f.input)));
            },
            AuthFormFieldType::Number => {
                match parse_i64_chars(&f.input) {
                    Some(v) => {
                        out.push(AuthFieldValue::Number(v));
                    },
                    None => {
                        return None;
                    },
                }
            },
            AuthFormFieldType::Password => {
                out.push(AuthFieldValue::Password(clone_chars(&f.input)));
            },
            AuthFormFieldType::NewPassword => {
                match &f.input2 {
                    None => {
                        return None;
                    },
                    Some(confirmation) => {
                        if chars_eq(&f.input, confirmation.as_slice()) {
                            out.push(AuthFieldValue::Password(clone_chars(&f.input)));
                        } else {
                            return None;
                        }
                    },
                }
            },
        }
        i = i + 1;
    }
    Some(out)
}

/// The action a navigation key produces on a step with no editable
/// surface: go back where offered, or quit.
pub open spec fn simple_nav_action(can_go_back: bool, key: Key) -> Option<AuthAction> {
    match key {
        Key::Right => if can_go_back {
            Some(AuthAction::Back)
        } else {
            None
        },
        Key::Char(c) => if c == 'h' && can_go_back {
            Some(AuthAction::Back)
        } else if c == 'q' {
            Some(AuthAction::Quit)
        } else {
            None
        },
        _ => None,
    }
}

/// The state `pre` with its choice selection replaced.
pub open spec fn with_choice_selection(
    pre: AuthState,
    choices: Vec<Vec<char>>,
    sel: Option<usize>,
) -> AuthState {
    AuthState { input: AuthInput::Choice { choices, current_choice: sel }, ..pre }
}

/// How a key acts on a choice step.
pub open spec fn choice_key_applied(
    pre: AuthState,
    post: AuthState,
    key: Key,
    r: Option<AuthAction>,
) -> bool {
    let choices = pre.input->Choice_choices;
    let sel = pre.input->Choice_current_choice;
    match key {
        Key::Right => post == pre && r == simple_nav_action(pre.can_go_back, key),
        Key::Down | Key::Tab => post == with_choice_selection(
            pre,
            choices,
            sel_next(sel, choices@.len()),
        ) && r is None,
        Key::Up | Key::BackTab => post == with_choice_selection(
            pre,
            choices,
            sel_prev(sel, choices@.len()),
        ) && r is None,
        Key::Enter => post == pre && match sel {
            Some(j) => r is Some && r.unwrap() is Choice && r.unwrap()->Choice_0@ == replaced(
                choices@[j as int]@,
                ' ',
                '-',
            ),
            None => r is None,
        },
        Key::Char(c) => if c == 'j' {
            post == with_choice_selection(pre, choices, sel_next(sel, choices@.len())) && r
                is None
        } else if c == 'k' {
            post == with_choice_selection(pre, choices, sel_prev(sel, choices@.len())) && r
                is None
        } else {
            post == pre && r == simple_nav_action(pre.can_go_back, key)
        },
        _ => post == pre && r is None,
    }
}

/// The state `pre` with its form surface replaced.
pub open spec fn with_form(
    pre: AuthState,
    fields: Vec<AuthFormField>,
    selected: Option<usize>,
    selected_second: bool,
    editing: bool,
) -> AuthState {
    AuthState {
        input: AuthInput::Form { fields, selected, selected_second, editing },
        ..pre
    }
}

/// `f1` is `f0` with `c` appended to its text (or, when the confirmation
/// buffer is selected, to the confirmation text; absent one, unchanged).
pub open spec fn field_text_pushed(
    f0: AuthFormField,
    f1: AuthFormField,
    second: bool,
    c: char,
) -> bool {
    &&& f1.name == f0.name
    &&& f1.ftype == f0.ftype
    &&& if second {
        match f0.input2 {
            Some(t) => f1.input == f0.input && f1.input2 is Some && f1.input2.unwrap()@ == t@.push(
                c,
            ),
            None => f1 == f0,
        }
    } else {
        f1.input@ == f0.input@.push(c) && f1.input2 == f0.input2
    }
}

/// `f1` is `f0` with the last character of its text removed (or of the
/// confirmation text; an empty text stays empty).
pub open spec fn field_text_popped(f0: AuthFormField, f1: AuthFormField, second: bool) -> bool {
    &&& f1.name == f0.name
    &&& f1.ftype == f0.ftype
    &&& if second {
        match f0.input2 {
            Some(t) => f1.input == f0.input && f1.input2 is Some && f1.input2.unwrap()@ == (
            if t@.len() > 0 {
                t@.drop_last()
            } else {
                t@
            }),
            None => f1 == f0,
        }
    } else {
        f1.input@ == (if f0.input@.len() > 0 {
            f0.input@.drop_last()
        } else {
            f0.input@
        }) && f1.input2 == f0.input2
    }
}

/// Submitting a form produces its typed values exactly when every field
/// passes local validation; otherwise nothing is sent.
pub open spec fn form_submit_result(fields: Seq<AuthFormField>, r: Option<AuthAction>) -> bool {
    if forall|i: int| 0 <= i < fields.len() ==> field_ok(#[trigger] fields[i]) {
        &&& r is Some
        &&& r.unwrap() is Form
        &&& r.unwrap()->Form_0@.len() == fields.len()
        &&& forall|i: int| 0 <= i < fields.len() ==> value_matches(
            #[trigger] r.unwrap()->Form_0@[i],
            fields[i],
        )
    } else {
        r is None
    }
}

/// How a key acts on a form step.
pub open spec fn form_key_applied(
    pre: AuthState,
    post: AuthState,
    key: Key,
    r: Option<AuthAction>,
) -> bool {
    let fields = pre.input->Form_fields;
    let sel = pre.input->Form_selected;
    let second = pre.input->Form_selected_second;
    let editing = pre.input->Form_editing;
    match key {
        Key::Esc => post == with_form(pre, fields, sel, second, false) && r is None,
        Key::Tab => post == with_form(pre, fields, sel_next(sel, fields@.len()), second, editing)
            && r is None,
        Key::BackTab => post == with_form(
            pre,
            fields,
            sel_prev(sel, fields@.len()),
            second,
            editing,
        ) && r is None,
        Key::Right => post == pre && r == (if pre.can_go_back && !editing {
            Some(AuthAction::Back)
        } else {
            None::<AuthAction>
        }),
        Key::Down => if !editing {
            post == with_form(pre, fields, sel_next(sel, fields@.len()), second, editing) && r
                is None
        } else {
            post == pre && r is None
        },
        Key::Up => if !editing {
            post == with_form(pre, fields, sel_prev(sel, fields@.len()), second, editing) && r
                is None
        } else {
            post == pre && r is None
        },
        Key::Enter => post == pre && form_submit_result(fields@, r),
        Key::Backspace => if editing {
            match sel {
                Some(j) => {
                    &&& post.can_go_back == pre.can_go_back
                    &&& post.title == pre.title
                    &&& post.input matches AuthInput::Form {
                        fields: f1,
                        selected,
                        selected_second,
                        editing: e1,
                    } && f1@.len() == fields@.len() && f1@ == fields@.update(j as int, f1@[j as int])
                        && field_text_popped(fields@[j as int], f1@[j as int], second) && selected
                        == sel && selected_second == second && e1 == editing
                    &&& r is None
                },
                None => post == pre && r is None,
            }
        } else {
            post == pre && r is None
        },
        Key::Char(c) => if editing {
            match sel {
                Some(j) => {
                    &&& post.can_go_back == pre.can_go_back
                    &&& post.title == pre.title
                    &&& post.input matches AuthInput::Form {
                        fields: f1,
                        selected,
                        selected_second,
                        editing: e1,
                    } && f1@.len() == fields@.len() && f1@ == fields@.update(j as int, f1@[j as int])
                        && field_text_pushed(fields@[j as int], f1@[j as int], second, c)
                        && selected == sel && selected_second == second && e1 == editing
                    &&& r is None
                },
                None => post == pre && r is None,
            }
        } else if c == 'h' {
            post == pre && r == (if pre.can_go_back {
                Some(AuthAction::Back)
            } else {
                None::<AuthAction>
            })
        } else if c == 'q' {
            post == pre && r == Some(AuthAction::Quit)
        } else if c == 'i' {
            if sel is Some {
                post == with_form(pre, fields, sel, second, true) && r is None
            } else {
                post == pre && r is None
            }
        } else if c == 'j' {
            post == with_form(pre, fields, sel_next(sel, fields@.len()), second, editing) && r
                is None
        } else if c == 'k' {
            post == with_form(pre, fields, sel_prev(sel, fields@.len()), second, editing) && r
                is None
        } else {
            post == pre && r is None
        },
        _ => post == pre && r is None,
    }
}

/// How a key acts on the current step.
pub open spec fn auth_key_applied(
    pre: AuthState,
    post: AuthState,
    key: Key,
    r: Option<AuthAction>,
) -> bool {
    match pre.input {
        AuthInput::Initial => post == pre && r == simple_nav_action(pre.can_go_back, key),
        AuthInput::Waiting(_) => post == pre && r == simple_nav_action(pre.can_go_back, key),
        AuthInput::Choice { .. } => choice_key_applied(pre, post, key, r),
        AuthInput::Form { .. } => form_key_applied(pre, post, key, r),
    }
}

impl AuthState {
    /// Turns one key press into a local mutation of the step surface or
    /// an outbound action, evaluated against the current step kind.
    pub fn handle_key(&mut self, key: Key) -> (r: Option<AuthAction>)
        requires
            old(self).wf(),
        ensures
            final(self).wf(),
            auth_key_applied(*old(self), *final(self), key, r),
    {
        let cgb = self.can_go_back;
        match &mut self.input {
            AuthInput::Initial => {
                match key {
                    Key::Right => if cgb {
                        Some(AuthAction::Back)
                    } else {
                        None
                    },
                    Key::Char(c) => if c == 'h' && cgb {
                        Some(AuthAction::Back)
                    } else if c == 'q' {
                        Some(AuthAction::Quit)
                    } else {
                        None
                    },
                    _ => None,
                }
            },
            AuthInput::Waiting(_) => {
                match key {
                    Key::Right => if cgb {
                        Some(AuthAction::Back)
                    } else {
                        None
                    },
                    Key::Char(c) => if c == 'h' && cgb {
                        Some(AuthAction::Back)
                    } else if c == 'q' {
                        Some(AuthAction::Quit)
                    } else {
                        None
                    },
                    _ => None,
                }
            },
            AuthInput::Choice { choices, current_choice } => {
                match key {
                    Key::Right => if cgb {
                        Some(AuthAction::Back)
                    } else {
                        None
                    },
                    Key::Down | Key::Tab => {
                        let len = choices.len();
                        *current_choice = match *current_choice {
                            Some(j) => if j + 1 < len {
                                Some(j + 1)
                            } else {
                                Some(j)
                            },
                            None => if len > 0 {
                                Some(0)
                            } else {
                                None
                            },
                        };
                        None
                    },
                    Key::Up | Key::BackTab => {
                        let len = choices.len();
                        *current_choice = match *current_choice {
                            Some(j) => if j > 0 {
                                Some(j - 1)
                            } else {
                                Some(j)
                            },
                            None => if len > 0 {
                                Some(len - 1)
                            } else {
                                None
                            },
                        };
                        None
                    },
                    Key::Enter => {
                        match *current_choice {
                            Some(j) => Some(
                                AuthAction::Choice(replace_char(&choices[j], ' ', '-')),
                            ),
                            None => None,
                        }
                    },
                    Key::Char(c) => {
                        if c == 'j' {
                            let len = choices.len();
                            *current_choice = match *current_choice {
                                Some(j) => if j + 1 < len {
                                    Some(j + 1)
                                } else {
                                    Some(j)
                                },
                                None => if len > 0 {
                                    Some(0)
                                } else {
                                    None
                                },
                            };
                            None
                        } else if c == 'k' {
                            let len = choices.len();
                            *current_choice = match *current_choice {
                                Some(j) => if j > 0 {
                                    Some(j - 1)
                                } else {
                                    Some(j)
                                },
                                None => if len > 0 {
                                    Some(len - 1)
                                } else {
                                    None
                                },
                            };
                            None
                        } else if c == 'h' && cgb {
                            Some(AuthAction::Back)
                        } else if c == 'q' {
                            Some(AuthAction::Quit)
                        } else {
                            None
                        }
                    },
                    _ => None,
                }
            },
            AuthInput::Form { fields, selected, selected_second, editing } => {
                match key {
                    Key::Esc => {
                        *editing = false;
                        None
                    },
                    Key::Tab => {
                        let len = fields.len();
                        *selected = match *selected {
                            Some(j) => if j + 1 < len {
                                Some(j + 1)
                            } else {
                                Some(j)
                            },
                            None => if len > 0 {
                                Some(0)
                            } else {
                                None
                            },
                        };
                        None
                    },
                    Key::BackTab => {
                        let len = fields.len();
                        *selected = match *selected {
                            Some(j) => if j > 0 {
                                Some(j - 1)
                            } else {
                                Some(j)
                            },
                            None => if len > 0 {
                                Some(len - 1)
                            } else {
                                None
                            },
                        };
                        None
                    },
                    Key::Right => if cgb && !*editing {
                        Some(AuthAction::Back)
                    } else {
                        None
                    },
                    Key::Down => {
                        if !*editing {
                            let len = fields.len();
                            *selected = match *selected {
                                Some(j) => if j + 1 < len {
                                    Some(j + 1)
                                } else {
                                    Some(j)
                                },
                                None => if len > 0 {
                                    Some(0)
                                } else {
                                    None
                                },
                            };
                        }
                        None
                    },
                    Key::Up => {
                        if !*editing {
                            let len = fields.len();
                            *selected = match *selected {
                                Some(j) => if j > 0 {
                                    Some(j - 1)
                                } else {
                                    Some(j)
                                },
                                None => if len > 0 {
                                    Some(len - 1)
                                } else {
                                    None
                                },
                            };
                        }
                        None
                    },
                    Key::Enter => {
                        match build_form_values(fields) {
                            Some(values) => Some(AuthAction::Form(values)),
                            None => None,
                        }
                    },
                    Key::Backspace => {
                        if *editing {
                            match *selected {
                                Some(j) => {
                                    let f = &mut fields[j];
                                    if *selected_second {
                                        match &mut f.input2 {
                                            Some(t) => {
                                                t.pop();
                                            },
                                            None => {},
                                        }
                                    } else {
                                        f.input.pop();
                                    }
                                },
                                None => {},
                            }
                        }
                        None
                    },
                    Key::Char(c) => {
                        if *editing {
                            match *selected {
                                Some(j) => {
                                    let f = &mut fields[j];
                                    if *selected_second {
                                        match &mut f.input2 {
                                            Some(t) => {
                                                t.push(c);
                                            },
                                            None => {},
                                        }
                                    } else {
                                        f.input.push(c);
                                    }
                                },
                                None => {},
                            }
                            None
                        } else if c == 'h' && cgb {
                            Some(AuthAction::Back)
                        } else if c == 'q' {
                            Some(AuthAction::Quit)
                        } else if c == 'i' {
                            if selected.is_some() {
                                *editing = true;
                            }
                            None
                        } else if c == 'j' {
                            let len = fields.len();
                            *selected = match *selected {
                                Some(j) => if j + 1 < len {
                                    Some(j + 1)
                                } else {
                                    Some(j)
                                },
                                None => if len > 0 {
                                    Some(0)
                                } else {
                                    None
                                },
                            };
                            None
                        } else if c == 'k' {
                            let len = fields.len();
                            *selected = match *selected {
                                Some(j) => if j > 0 {
                                    Some(j - 1)
                                } else {
                                    Some(j)
                                },
                                None => if len > 0 {
                                    Some(len - 1)
                                } else {
                                    None
                                },
                            };
                            None
                        } else {
                            None
                        }
                    },
                    _ => None,
                }
            },
        }
    }
}

} // verus!
