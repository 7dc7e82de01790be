//! User accounts: the user list's badges, the user form's starting values
//! and checks, the session limit input, and whether a new user needs a
//! policy update after creation.

use vstd::prelude::*;
use crate::ids::{uuid_text, uuid_text_spec};
use crate::text::{str_eq, string_of};
use crate::num::{fmt_int, i64_to_string, parse_i64, parse_i64_spec};

verus! {

/// Is the listed user the signed-in one? Its id, as text, equals the stored
/// user id.
pub fn is_self(user_id: u128, self_id: &str) -> (b: bool)
    ensures
        b == (uuid_text_spec(user_id) == self_id@),
{
    let t = uuid_text(user_id);
    str_eq(t.as_str(), self_id)
}

/// Why the user form cannot be saved.
#[derive(Clone, Copy, PartialEq, Eq, Structural, Debug)]
pub enum PasswordError {
    /// `Passwords do not match`
    Mismatch,
    /// `Password is required`
    Required,
}

/// The message of a password error.
pub fn password_error_text(e: PasswordError) -> (r: &'static str)
    ensures
        r@ == match e {
            PasswordError::Mismatch => "Passwords do not match"@,
            PasswordError::Required => "Password is required"@,
        },
{
    match e {
        PasswordError::Mismatch => "Passwords do not match",
        PasswordError::Required => "Password is required",
    }
}

/// Checks the passwords of the user form: a typed password must be
/// confirmed, and a new user must have one. Editing with no password keeps
/// the current one.
pub fn check_passwords(is_edit: bool, password: &str, confirm: &str) -> (r: Result<(), PasswordError>)
    ensures
        match r {
            Err(PasswordError::Mismatch) => password@.len() > 0 && password@ != confirm@,
            Err(PasswordError::Required) => !(password@.len() > 0 && password@ != confirm@)
                && !is_edit && password@.len() == 0,
            Ok(()) => !(password@.len() > 0 && password@ != confirm@) && !(!is_edit
                && password@.len() == 0),
        },
{
    if !password.is_empty() && !str_eq(password, confirm) {
        return Err(PasswordError::Mismatch);
    }
    if !is_edit && password.is_empty() {
        return Err(PasswordError::Required);
    }
    Ok(())
}

/// Is the confirmation field shown? For a new user always, when editing
/// once a new password is typed.
pub fn shows_confirm(is_edit: bool, password: &str) -> (b: bool)
    ensures
        b == (password@.len() > 0 || !is_edit),
{
    !password.is_empty() || !is_edit
}

/// Does a newly created user need its policy set? Only when something
/// differs from a fresh user's policy: administrator, library or stream
/// filters, remote search turned off, or a session limit.
pub fn needs_policy_update(
    admin: bool,
    has_library_filter: bool,
    has_stream_filter: bool,
    remote_search: bool,
    max_sessions: i64,
) -> (b: bool)
    ensures
        b == (admin || has_library_filter || has_stream_filter || !remote_search || max_sessions
            > 0),
{
    admin || has_library_filter || has_stream_filter || !remote_search || max_sessions > 0
}

/// The session limit a typed text sets: at least one when it reads as an
/// integer, zero (unlimited) otherwise.
pub open spec fn max_sessions_of(text: Seq<char>) -> i64 {
    match parse_i64_spec(text) {
        Some(n) => if n < 1 {
            1
        } else {
            n
        },
        None => 0,
    }
}

/// The session limit a typed text sets.
pub fn max_sessions_input(text: &str) -> (n: i64)
    ensures
        n == max_sessions_of(text@),
{
    match parse_i64(text) {
        Some(n) => if n < 1 {
            1
        } else {
            n
        },
        None => 0,
    }
}

/// The text the session limit input shows: the limit, or empty when
/// unlimited (zero or less).
pub fn max_sessions_text(n: i64) -> (r: String)
    ensures
        r@ == if n > 0 {
            fmt_int(n as int)
        } else {
            Seq::<char>::empty()
        },
{
    if n > 0 {
        i64_to_string(n)
    } else {
        string_of(&Vec::new())
    }
}

/// The user form's starting values for the remote-search toggle and the
/// session limit: a new user may search remotely and has no limit.
pub fn initial_policy_fields(existing: Option<(bool, i64)>) -> (r: (bool, i64))
    ensures
        r == match existing {
            Some(p) => p,
            None => (true, 0i64),
        },
{
    match existing {
        Some(p) => p,
        None => (true, 0),
    }
}

/// The limit shown in the form, typed back in, gives the same limit.
pub proof fn law_max_sessions_roundtrip(n: i64)
    requires
        n > 0,
    ensures
        max_sessions_of(fmt_int(n as int)) == n,
{
    crate::num::lemma_parse_fmt_i64(n);
}

/// What the user form is open for: a new user, or the user with this id.
#[derive(Clone, Copy, PartialEq, Eq, Structural, Debug)]
pub enum UserFormMode {
    Create,
    Edit(u128),
}

/// Are two user form modes the same? Both for a new user, or both for the
/// same user.
pub fn same_user_form_mode(a: UserFormMode, b: UserFormMode) -> (r: bool)
    ensures
        r == match (a, b) {
            (UserFormMode::Create, UserFormMode::Create) => true,
            (UserFormMode::Edit(x), UserFormMode::Edit(y)) => x == y,
            _ => false,
        },
{
    match (a, b) {
        (UserFormMode::Create, UserFormMode::Create) => true,
        (UserFormMode::Edit(x), UserFormMode::Edit(y)) => x == y,
        _ => false,
    }
}

/// Can an API key be created? Not while one is being created, and not for
/// a blank application name.
pub fn can_create_api_key(creating: bool, app_name: &str) -> (b: bool)
    ensures
        b == (!creating && crate::text::trim(app_name@).len() > 0),
{
    !creating && !crate::text::is_blank(app_name)
}

/// The request that creates an API key: the trimmed application name; none
/// (nothing is sent) when it is blank.
pub fn api_key_request(app_name: &str) -> (r: Option<String>)
    ensures
        match r {
            None => crate::text::trim(app_name@).len() == 0,
            Some(name) => name@.len() > 0 && name@ == crate::text::trim(app_name@),
        },
{
    let name = crate::text::trim_str(app_name);
    if name.as_str().is_empty() {
        None
    } else {
        Some(name)
    }
}

/// The error shown when the server refuses to create a key:
/// `Failed to create key: {error}`.
pub fn api_key_error_text(error: &str) -> (r: String)
    ensures
        r@ == "Failed to create key: "@ + error@,
{
    let mut out: Vec<char> = Vec::new();
    crate::text::push_str(&mut out, "Failed to create key: ");
    crate::text::push_str(&mut out, error);
    string_of(&out)
}

/// Where saving the user form stands: the request to send next, or the end.
#[derive(Clone, Copy, PartialEq, Eq, Structural, Debug)]
pub enum UserSaveStep {
    /// Create the new user with its name and password.
    CreateUser,
    /// Rename the edited user.
    UpdateUser,
    /// Set the user's policy from the form.
    UpdatePolicy,
    /// Set the edited user's new password.
    SetPassword,
    /// Everything was saved; the form closes.
    Done,
    /// A request failed; its message is shown and nothing more is sent.
    Failed,
}

/// The first request of a save: rename when editing, create otherwise.
pub open spec fn first_save_step_spec(is_edit: bool) -> UserSaveStep {
    if is_edit {
        UserSaveStep::UpdateUser
    } else {
        UserSaveStep::CreateUser
    }
}

/// What follows a request of a save. A failure ends the save. When editing,
/// the rename is followed by the policy, and the policy by the password
/// when one was typed. A new user gets its policy only when it needs one
/// (see [`needs_policy_update`]).
pub open spec fn next_save_step_spec(
    step: UserSaveStep,
    succeeded: bool,
    is_edit: bool,
    password_typed: bool,
    policy_needed: bool,
) -> UserSaveStep {
    match step {
        UserSaveStep::Done => UserSaveStep::Done,
        UserSaveStep::Failed => UserSaveStep::Failed,
        _ => if !succeeded {
            UserSaveStep::Failed
        } else {
            match step {
                UserSaveStep::CreateUser => if policy_needed {
                    UserSaveStep::UpdatePolicy
                } else {
                    UserSaveStep::Done
                },
                UserSaveStep::UpdateUser => UserSaveStep::UpdatePolicy,
                UserSaveStep::UpdatePolicy => if is_edit && password_typed {
                    UserSaveStep::SetPassword
                } else {
                    UserSaveStep::Done
                },
                _ => UserSaveStep::Done,
            }
        },
    }
}

/// The first request of a save.
pub fn first_save_step(is_edit: bool) -> (r: UserSaveStep)
    ensures
        r == first_save_step_spec(is_edit),
{
    if is_edit {
        UserSaveStep::UpdateUser
    } else {
        UserSaveStep::CreateUser
    }
}

/// What follows a request of a save, given whether it succeeded.
pub fn next_save_step(
    step: UserSaveStep,
    succeeded: bool,
    is_edit: bool,
    password_typed: bool,
    policy_needed: bool,
) -> (r: UserSaveStep)
    ensures
        r == next_save_step_spec(step, succeeded, is_edit, password_typed, policy_needed),
{
    match step {
        UserSaveStep::Done => UserSaveStep::Done,
        UserSaveStep::Failed => UserSaveStep::Failed,
        _ => if !succeeded {
            UserSaveStep::Failed
        } else {
            match step {
                UserSaveStep::CreateUser => if policy_needed {
                    UserSaveStep::UpdatePolicy
                } else {
                    UserSaveStep::Done
                },
                UserSaveStep::UpdateUser => UserSaveStep::UpdatePolicy,
                UserSaveStep::UpdatePolicy => if is_edit && password_typed {
                    UserSaveStep::SetPassword
                } else {
                    UserSaveStep::Done
                },
                _ => UserSaveStep::Done,
            }
        },
    }
}

/// The requests a save sends when all of them succeed, in order.
pub open spec fn save_requests(is_edit: bool, password_typed: bool, policy_needed: bool) -> Seq<
    UserSaveStep,
> {
    if is_edit {
        if password_typed {
            seq![UserSaveStep::UpdateUser, UserSaveStep::UpdatePolicy, UserSaveStep::SetPassword]
        } else {
            seq![UserSaveStep::UpdateUser, UserSaveStep::UpdatePolicy]
        }
    } else if policy_needed {
        seq![UserSaveStep::CreateUser, UserSaveStep::UpdatePolicy]
    } else {
        seq![UserSaveStep::CreateUser]
    }
}

/// When every request succeeds, a save sends exactly its requests, in
/// order, and then is done: an edit renames, sets the policy, and sets the
/// password only when one was typed; a creation sets the policy only when
/// the new user needs one. The password is never sent on its own when
/// editing without typing one.
pub proof fn law_save_sequence(is_edit: bool, password_typed: bool, policy_needed: bool)
    ensures
        ({
            let plan = save_requests(is_edit, password_typed, policy_needed);
            &&& plan.len() > 0
            &&& plan[0] == first_save_step_spec(is_edit)
            &&& forall|i: int|
                0 <= i < plan.len() - 1 ==> next_save_step_spec(
                    #[trigger] plan[i],
                    true,
                    is_edit,
                    password_typed,
                    policy_needed,
                ) == plan[i + 1]
            &&& next_save_step_spec(
                plan.last(),
                true,
                is_edit,
                password_typed,
                policy_needed,
            ) == UserSaveStep::Done
            &&& (is_edit && !password_typed) ==> !plan.contains(UserSaveStep::SetPassword)
        }),
{
    let plan = save_requests(is_edit, password_typed, policy_needed);
    if is_edit && !password_typed {
        assert(plan[0] != UserSaveStep::SetPassword);
        assert(plan[1] != UserSaveStep::SetPassword);
    }
}

/// A failed request ends the save: nothing follows a failure, whatever is
/// reported afterwards.
pub proof fn law_save_stops_at_failure(
    step: UserSaveStep,
    succeeded: bool,
    is_edit: bool,
    password_typed: bool,
    policy_needed: bool,
)
    requires
        step != UserSaveStep::Done,
    ensures
        next_save_step_spec(step, false, is_edit, password_typed, policy_needed)
            == UserSaveStep::Failed,
        next_save_step_spec(UserSaveStep::Failed, succeeded, is_edit, password_typed, policy_needed)
            == UserSaveStep::Failed,
{
}

} // verus!
