use vstd::prelude::*;

verus! {

/// The `success` field of a login reply.
#[derive(Clone, Copy, Debug, PartialEq, Eq, Structural)]
pub enum LoginResult {
    Success,
    Delayed,
    Partial,
    Failure,
}

impl LoginResult {
    pub fn is_success(&self) -> (r: bool)
        ensures
            r == (*self is Success),
    {
        if let Self::Success = self {
            true
        } else {
            false
        }
    }

    pub fn is_delayed(&self) -> (r: bool)
        ensures
            r == (*self is Delayed),
    {
        if let Self::Delayed = self {
            true
        } else {
            false
        }
    }

    pub fn is_partial(&self) -> (r: bool)
        ensures
            r == (*self is Partial),
    {
        if let Self::Partial = self {
            true
        } else {
            false
        }
    }

    pub fn is_failure(&self) -> (r: bool)
        ensures
            r == (*self is Failure),
    {
        if let Self::Failure = self {
            true
        } else {
            false
        }
    }
}

/// The game server and play cookie handed to the launched engine.
#[derive(Debug)]
pub struct LoginToken {
    pub server: String,
    pub cookie: String,
}

/// A reply of the login endpoint.
pub struct LoginResponse {
    pub success: LoginResult,
    pub banner: Option<String>,
    pub response_token: Option<String>,
    pub gameserver: Option<String>,
    pub cookie: Option<String>,
    pub eta: Option<String>,
    pub position: Option<String>,
    pub queue_token: Option<String>,
}

/// Which request the reply answers.
#[derive(Clone, Copy, Debug, PartialEq, Eq, Structural)]
pub enum LoginStage {
    /// The first request, with username and password.
    Credentials,
    /// A request carrying a two-factor code.
    TwoFactor,
    /// A request asking for the position in the login queue.
    Queue,
}

/// What the login client does next.
#[derive(Debug)]
pub enum LoginStep {
    /// Logged in.
    LoggedIn(LoginToken),
    /// The server refused the login.
    Rejected,
    /// Ask the user for a two-factor code and send it with this token.
    AskTotp { token: String },
    /// Wait `eta` seconds, then ask again with this queue token.
    Queued { token: String, eta: u32, position: u32 },
    /// The reply lacks a field its kind requires, or holds a number that
    /// does not parse.
    Malformed,
}

/// The value of a string of decimal digits.
pub open spec fn digits_value(s: Seq<char>) -> nat
    decreases s.len(),
{
    if s.len() == 0 {
        0
    } else {
        digits_value(s.drop_last()) * 10 + ((s.last() as nat) - ('0' as nat)) as nat
    }
}

/// The digits of an unsigned decimal: an optional `+`, then the digits.
pub open spec fn unsigned_digits(s: Seq<char>) -> Seq<char> {
    if s.len() > 0 && s[0] == '+' {
        s.drop_first()
    } else {
        s
    }
}

/// The `u32` that a string spells in decimal, if any.
pub open spec fn decimal_u32(s: Seq<char>) -> Option<u32> {
    let d = unsigned_digits(s);
    if d.len() > 0 && (forall|i: int| 0 <= i < d.len() ==> '0' <= #[trigger] d[i] <= '9')
        && digits_value(d) <= u32::MAX {
        Some(digits_value(d) as u32)
    } else {
        None
    }
}

/// Relies on `u32::from_str`: it accepts an optional `+` followed by one or
/// more decimal digits whose value fits in `u32`, and nothing else.
#[verifier::external_body]
fn parse_u32(s: &String) -> (r: Option<u32>)
    ensures
        r == decimal_u32(s@),
{
    s.parse::<u32>().ok()
}

/// The step for a reply that names a queue position.
pub open spec fn queued_spec(r: LoginResponse) -> LoginStep {
    if r.eta is Some && r.position is Some && r.queue_token is Some && decimal_u32(
        r.eta->Some_0@,
    ) is Some && decimal_u32(r.position->Some_0@) is Some {
        LoginStep::Queued {
            token: r.queue_token->Some_0,
            eta: decimal_u32(r.eta->Some_0@)->Some_0,
            position: decimal_u32(r.position->Some_0@)->Some_0,
        }
    } else {
        LoginStep::Malformed
    }
}

/// The step for a successful reply.
pub open spec fn logged_in_spec(r: LoginResponse) -> LoginStep {
    if r.gameserver is Some && r.cookie is Some {
        LoginStep::LoggedIn(LoginToken { server: r.gameserver->Some_0, cookie: r.cookie->Some_0 })
    } else {
        LoginStep::Malformed
    }
}

/// The next step of the login protocol after a reply to a request of `stage`.
pub open spec fn login_step_spec(r: LoginResponse, stage: LoginStage) -> LoginStep {
    match stage {
        LoginStage::Queue => if r.success is Success {
            logged_in_spec(r)
        } else {
            queued_spec(r)
        },
        _ => match r.success {
            LoginResult::Partial => match r.response_token {
                Some(t) => LoginStep::AskTotp { token: t },
                None => LoginStep::Malformed,
            },
            LoginResult::Success => logged_in_spec(r),
            LoginResult::Failure => LoginStep::Rejected,
            LoginResult::Delayed => queued_spec(r),
        },
    }
}

fn queued(r: LoginResponse) -> (s: LoginStep)
    ensures
        s == queued_spec(r),
{
    match (&r.eta, &r.position) {
        (Some(eta), Some(position)) => match (parse_u32(eta), parse_u32(position)) {
            (Some(eta), Some(position)) => match r.queue_token {
                Some(token) => LoginStep::Queued { token, eta, position },
                None => LoginStep::Malformed,
            },
            _ => LoginStep::Malformed,
        },
        _ => LoginStep::Malformed,
    }
}

fn logged_in(r: LoginResponse) -> (s: LoginStep)
    ensures
        s == logged_in_spec(r),
{
    match (r.gameserver, r.cookie) {
        (Some(server), Some(cookie)) => LoginStep::LoggedIn(LoginToken { server, cookie }),
        _ => LoginStep::Malformed,
    }
}

/// Decides the next step of the login protocol from a reply to a request of
/// `stage`: a two-factor challenge, a place in the queue, a token, or a refusal.
pub fn login_step(response: LoginResponse, stage: LoginStage) -> (s: LoginStep)
    ensures
        s == login_step_spec(response, stage),
{
    match stage {
        LoginStage::Queue => {
            if response.success.is_success() {
                logged_in(response)
            } else {
                queued(response)
            }
        },
        _ => match response.success {
            LoginResult::Partial => match response.response_token {
                Some(t) => LoginStep::AskTotp { token: t },
                None => LoginStep::Malformed,
            },
            LoginResult::Success => logged_in(response),
            LoginResult::Failure => LoginStep::Rejected,
            LoginResult::Delayed => queued(response),
        },
    }
}

} // verus!
