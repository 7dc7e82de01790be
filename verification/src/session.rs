//! Signing in and first-run setup: which screen the app shows, the server
//! address a login goes to, what a login reply leads to, the setup wizard's
//! steps and pre-filled values, and the labels of an active session.

use vstd::prelude::*;
use crate::text::{chars_of, string_of, push_str, str_eq, trim, trim_str};

verus! {

/// The screen the app shows.
#[derive(Clone, Copy, PartialEq, Eq, Structural, Debug)]
pub enum Screen {
    /// Still asking the server whether setup is finished.
    Starting,
    /// The first-run setup wizard.
    Wizard,
    /// The sign-in form.
    Login,
    /// The dashboard.
    Dashboard,
}

/// Does the server still need its first-run setup? Only when it answered
/// and said its wizard is not completed.
pub fn wizard_needed(wizard_completed: Option<bool>) -> (b: bool)
    ensures
        b == (wizard_completed == Some(false)),
{
    match wizard_completed {
        Some(done) => !done,
        None => false,
    }
}

/// The screen for the setup state (unknown while the server is asked) and
/// whether credentials are stored.
pub fn app_screen(wizard: Option<bool>, logged_in: bool) -> (s: Screen)
    ensures
        s == match wizard {
            None => Screen::Starting,
            Some(true) => Screen::Wizard,
            Some(false) => if logged_in {
                Screen::Dashboard
            } else {
                Screen::Login
            },
        },
{
    match wizard {
        None => Screen::Starting,
        Some(true) => Screen::Wizard,
        Some(false) => if logged_in {
            Screen::Dashboard
        } else {
            Screen::Login
        },
    }
}

/// Why a sign-in cannot start.
#[derive(Clone, Copy, PartialEq, Eq, Structural, Debug)]
pub enum LoginError {
    /// `Please enter the server URL`
    MissingServerUrl,
}

/// The server a sign-in goes to: the page's own origin when it answered
/// the probe, else the typed address, trimmed, which must not be blank.
pub fn login_server_url(probed: Option<&str>, typed: &str) -> (r: Result<String, LoginError>)
    ensures
        match r {
            Ok(u) => match probed {
                Some(p) if p@.len() > 0 => u@ == p@,
                _ => trim(typed@).len() > 0 && u@ == trim(typed@),
            },
            Err(LoginError::MissingServerUrl) => match probed {
                Some(p) => p@.len() == 0 && trim(typed@).len() == 0,
                None => trim(typed@).len() == 0,
            },
        },
{
    match probed {
        Some(p) => {
            if !p.is_empty() {
                return Ok(string_of(&chars_of(p)));
            }
        },
        None => {},
    }
    let h = trim_str(typed);
    if h.as_str().is_empty() {
        Err(LoginError::MissingServerUrl)
    } else {
        Ok(h)
    }
}

/// The message of a sign-in error.
pub fn login_error_text(e: LoginError) -> (r: &'static str)
    ensures
        r@ == "Please enter the server URL"@,
{
    match e {
        LoginError::MissingServerUrl => "Please enter the server URL",
    }
}

/// The server's answer to a sign-in.
pub enum LoginReply {
    /// Authenticated; the token and the user's id, when the server sent them.
    Authenticated { server_id: String, access_token: Option<String>, user_id: Option<String> },
    /// Wrong user name or password.
    Unauthorized,
    /// Any other failure, with its message.
    Failed(String),
}

/// The server entry stored after a successful sign-in.
pub struct StoredServer {
    pub id: String,
    pub name: String,
    pub manual_address: String,
    pub access_token: String,
    pub user_id: String,
}

/// Do two app states belong to the same server? Their stored server ids
/// are equal.
pub fn same_server(a: &StoredServer, b: &StoredServer) -> (r: bool)
    ensures
        r == (a.id@ == b.id@),
{
    str_eq(a.id.as_str(), b.id.as_str())
}

/// What a sign-in leads to.
pub enum LoginOutcome {
    /// Store these credentials and open the dashboard.
    Store(StoredServer),
    /// Show this error.
    Error(String),
}

/// What the reply to a sign-in at `url` leads to: with a token and a user
/// the server is stored under the name `Remux`; without them, `Login failed:
/// no token in response`; a refusal says `Invalid username or password`;
/// any other failure `Login failed: {e}`.
pub fn login_outcome(url: &str, reply: LoginReply) -> (r: LoginOutcome)
    ensures
        match reply {
            LoginReply::Authenticated { server_id, access_token, user_id } => match (
                access_token,
                user_id,
            ) {
                (Some(t), Some(u)) => match r {
                    LoginOutcome::Store(s) => s.id@ == server_id@ && s.name@ == "Remux"@
                        && s.manual_address@ == url@ && s.access_token@ == t@ && s.user_id@
                        == u@,
                    LoginOutcome::Error(_) => false,
                },
                _ => match r {
                    LoginOutcome::Error(m) => m@ == "Login failed: no token in response"@,
                    LoginOutcome::Store(_) => false,
                },
            },
            LoginReply::Unauthorized => match r {
                LoginOutcome::Error(m) => m@ == "Invalid username or password"@,
                LoginOutcome::Store(_) => false,
            },
            LoginReply::Failed(e) => match r {
                LoginOutcome::Error(m) => m@ == "Login failed: "@ + e@,
                LoginOutcome::Store(_) => false,
            },
        },
{
    match reply {
        LoginReply::Authenticated { server_id, access_token, user_id } => match (
            access_token,
            user_id,
        ) {
            (Some(t), Some(u)) => LoginOutcome::Store(
                StoredServer {
                    id: server_id,
                    name: string_of(&chars_of("Remux")),
                    manual_address: string_of(&chars_of(url)),
                    access_token: t,
                    user_id: u,
                },
            ),
            _ => LoginOutcome::Error(string_of(&chars_of("Login failed: no token in response"))),
        },
        LoginReply::Unauthorized => LoginOutcome::Error(
            string_of(&chars_of("Invalid username or password")),
        ),
        LoginReply::Failed(e) => {
            let mut out: Vec<char> = Vec::new();
            push_str(&mut out, "Login failed: ");
            push_str(&mut out, e.as_str());
            LoginOutcome::Error(string_of(&out))
        },
    }
}

/// The title of a setup wizard step (zero-based).
pub fn wizard_title(step: u8) -> (r: &'static str)
    ensures
        r@ == if step == 0 {
            "Server Configuration"@
        } else if step == 1 {
            "Create Admin Account"@
        } else {
            "Setup Complete"@
        },
{
    if step == 0 {
        "Server Configuration"
    } else if step == 1 {
        "Create Admin Account"
    } else {
        "Setup Complete"
    }
}

/// How the step marker `marker` (zero-based) of the wizard looks while the
/// wizard is on `step`: (active, done). The last marker, the third, is
/// never done.
pub fn wizard_marker(marker: u8, step: u8) -> (r: (bool, bool))
    ensures
        r == (step == marker, marker < 2 && step > marker),
{
    (step == marker, marker < 2 && step > marker)
}

/// The value a setup field starts with: the stored one when it is not
/// empty, else `fallback`.
pub fn prefill(stored: Option<&str>, fallback: &str) -> (r: String)
    ensures
        r@ == match stored {
            Some(s) if s@.len() > 0 => s@,
            _ => fallback@,
        },
{
    match stored {
        Some(s) => if !s.is_empty() {
            string_of(&chars_of(s))
        } else {
            string_of(&chars_of(fallback))
        },
        None => string_of(&chars_of(fallback)),
    }
}

/// The origin the log links use: the browser's own origin, or the stored
/// server address when the page has none.
pub fn log_origin(browser_origin: &str, stored_address: &str) -> (r: String)
    ensures
        r@ == if browser_origin@.len() == 0 {
            stored_address@
        } else {
            browser_origin@
        },
{
    if browser_origin.is_empty() {
        string_of(&chars_of(stored_address))
    } else {
        string_of(&chars_of(browser_origin))
    }
}

/// What an active session's row shows.
pub struct SessionLabels {
    pub device: String,
    /// `▶ {item}` when something is playing.
    pub playing: Option<String>,
    pub user: String,
    /// `{client}` or `{client} {version}`, when the client is known.
    pub client: Option<String>,
}

fn or_default(s: Option<&str>, d: &str) -> (r: String)
    ensures
        r@ == match s {
            Some(x) => x@,
            None => d@,
        },
{
    match s {
        Some(x) => string_of(&chars_of(x)),
        None => string_of(&chars_of(d)),
    }
}

/// The labels of an active session: unknown names read `Unknown device` /
/// `Unknown`, a playing item shows as `▶ {name}`, and the client badge adds
/// the version after a space.
pub fn session_labels(
    device: Option<&str>,
    now_playing: Option<Option<&str>>,
    user: Option<&str>,
    client: Option<&str>,
    version: Option<&str>,
) -> (r: SessionLabels)
    ensures
        r.device@ == match device {
            Some(d) => d@,
            None => "Unknown device"@,
        },
        match now_playing {
            Some(item) => match r.playing {
                Some(p) => p@ == "\u{25b6} "@ + match item {
                    Some(n) => n@,
                    None => "Unknown"@,
                },
                None => false,
            },
            None => r.playing is None,
        },
        r.user@ == match user {
            Some(u) => u@,
            None => "Unknown"@,
        },
        match client {
            Some(c) => match r.client {
                Some(b) => b@ == c@ + match version {
                    Some(v) => " "@ + v@,
                    None => Seq::<char>::empty(),
                },
                None => false,
            },
            None => r.client is None,
        },
{
    let playing = match now_playing {
        Some(item) => {
            let mut out: Vec<char> = Vec::new();
            push_str(&mut out, "\u{25b6} ");
            match item {
                Some(n) => push_str(&mut out, n),
                None => push_str(&mut out, "Unknown"),
            }
            Some(string_of(&out))
        },
        None => None,
    };
    let badge = match client {
        Some(c) => {
            let mut out: Vec<char> = Vec::new();
            push_str(&mut out, c);
            match version {
                Some(v) => {
                    push_str(&mut out, " ");
                    push_str(&mut out, v);
                },
                None => {},
            }
            Some(string_of(&out))
        },
        None => None,
    };
    SessionLabels {
        device: or_default(device, "Unknown device"),
        playing,
        user: or_default(user, "Unknown"),
        client: badge,
    }
}

/// Do the two typed passwords agree (setup wizard)?
pub fn passwords_match(a: &str, b: &str) -> (r: bool)
    ensures
        r == (a@ == b@),
{
    str_eq(a, b)
}

/// What the setup wizard shows: its step (zero-based) and the error above
/// the form, if any.
pub struct WizardState {
    pub step: u8,
    pub error: Option<String>,
}

/// What happens to the setup wizard.
pub enum WizardEvent {
    /// The server took the step's form.
    Saved,
    /// The server refused the step's form with this message.
    ServerError(String),
    /// No client could be made for the server, for this reason.
    ClientError(String),
    /// The server's user-name rules refuse the typed name; nothing is sent.
    InvalidUsername,
    /// The typed passwords of the account step differ; nothing is sent.
    PasswordMismatch,
    /// Back to the server step.
    Back,
}

/// The message shown for a user name the server's rules refuse.
pub open spec fn invalid_username_text() -> Seq<char> {
    "Invalid username: must contain only letters, digits, spaces, and -'._@+, and be at most 255 characters"@
}

/// The wizard after an event: a saved step moves on to the next one (the
/// last stays) and clears the error; a refusal stays on the step and shows
/// the server's message, a client failure `Client error: {reason}`, a
/// refused user name [`invalid_username_text`], a password mismatch
/// `Passwords do not match`; going back returns to the first step with no
/// error.
pub open spec fn wizard_after_spec(step: u8, error: Option<Seq<char>>, event: WizardEvent) -> (
    u8,
    Option<Seq<char>>,
) {
    match event {
        WizardEvent::Saved => (if step < 2 {
            (step + 1) as u8
        } else {
            step
        }, None),
        WizardEvent::ServerError(e) => (step, Some(e@)),
        WizardEvent::ClientError(e) => (step, Some("Client error: "@ + e@)),
        WizardEvent::InvalidUsername => (step, Some(invalid_username_text())),
        WizardEvent::PasswordMismatch => (step, Some("Passwords do not match"@)),
        WizardEvent::Back => (0u8, None),
    }
}

/// The view of a wizard state as (step, error text).
pub open spec fn wizard_view(w: WizardState) -> (u8, Option<Seq<char>>) {
    (
        w.step,
        match w.error {
            Some(e) => Some(e@),
            None => None,
        },
    )
}

/// The wizard after an event.
pub fn wizard_after(w: WizardState, event: WizardEvent) -> (r: WizardState)
    ensures
        wizard_view(r) == wizard_after_spec(w.step, wizard_view(w).1, event),
        event is Saved ==> r.error is None && r.step == if w.step < 2 {
            w.step + 1
        } else {
            w.step as int
        },
        event is Back ==> r.step == 0 && r.error is None,
        !(event is Saved || event is Back) ==> r.step == w.step && r.error is Some,
{
    match event {
        WizardEvent::Saved => WizardState {
            step: if w.step < 2 {
                w.step + 1
            } else {
                w.step
            },
            error: None,
        },
        WizardEvent::ServerError(e) => WizardState { step: w.step, error: Some(e) },
        WizardEvent::ClientError(e) => {
            let mut out: Vec<char> = Vec::new();
            push_str(&mut out, "Client error: ");
            push_str(&mut out, e.as_str());
            WizardState { step: w.step, error: Some(string_of(&out)) }
        },
        WizardEvent::InvalidUsername => WizardState {
            step: w.step,
            error: Some(
                string_of(
                    &chars_of(
                        "Invalid username: must contain only letters, digits, spaces, and -'._@+, and be at most 255 characters",
                    ),
                ),
            ),
        },
        WizardEvent::PasswordMismatch => WizardState {
            step: w.step,
            error: Some(string_of(&chars_of("Passwords do not match"))),
        },
        WizardEvent::Back => WizardState { step: 0, error: None },
    }
}

/// The account step's checks before anything is sent, in order: the user
/// name must pass the server's user-name rules (`username_valid`, what the
/// server SDK's user-name constructor answered for the typed name), then the
/// passwords must agree. The account is sent only when both hold.
pub fn account_step_check(username_valid: bool, password: &str, confirm: &str) -> (r: Option<
    WizardEvent,
>)
    ensures
        match r {
            None => username_valid && password@ == confirm@,
            Some(e) => if !username_valid {
                e is InvalidUsername
            } else {
                password@ != confirm@ && e is PasswordMismatch
            },
        },
{
    if !username_valid {
        Some(WizardEvent::InvalidUsername)
    } else if passwords_match(password, confirm) {
        None
    } else {
        Some(WizardEvent::PasswordMismatch)
    }
}

} // verus!
