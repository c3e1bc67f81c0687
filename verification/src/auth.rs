//! The authentication gate: every request passes it before any handler runs.
//!
//! The auth gate keeps no session. It is handed the bearer token a request
//! presented, if any, asks a validator about it, and either lets the request
//! through unchanged or rejects it. A missing token, a token the validator
//! turns down and a validator that fails are rejected alike.

use vstd::prelude::*;

verus! {

/// The status of every rejection.
pub const UNAUTHORIZED: u16 = 401;

/// What the auth gate puts into the bearer challenge of a rejection.
#[derive(Debug, Clone, PartialEq, Eq)]
pub struct Challenge {
    pub realm: Option<String>,
    pub scope: Option<String>,
}

impl Challenge {
    /// The challenge of an auth gate that was given none: no realm, no scope.
    pub open spec fn bare() -> Challenge {
        Challenge { realm: None, scope: None }
    }
}

impl Default for Challenge {
    fn default() -> (challenge: Challenge)
        ensures
            challenge == Challenge::bare(),
    {
        Challenge { realm: None, scope: None }
    }
}

/// The challenge an auth gate configured with `config` answers with.
pub open spec fn challenge_of(config: Option<Challenge>) -> Challenge {
    match config {
        Some(challenge) => challenge,
        None => Challenge::bare(),
    }
}

/// A refusal to let a request through.
#[derive(Debug, Clone, PartialEq, Eq)]
pub struct Rejection {
    pub status: u16,
    pub challenge: Challenge,
}

/// The one rejection an auth gate configured with `config` ever gives.
pub open spec fn rejection_of(config: Option<Challenge>) -> Rejection {
    Rejection { status: UNAUTHORIZED, challenge: challenge_of(config) }
}

/// Whether a validator's answer lets the request through: only a plain yes
/// does.
pub open spec fn admits<E>(validation: Result<bool, E>) -> bool {
    validation matches Ok(valid) && valid
}

/// Whether the auth gate lets a request through: it presented a token, and
/// the validator's answer about that token admits it.
pub open spec fn admitted<E>(token: Option<&str>, validation: Result<bool, E>) -> bool {
    token is Some && admits(validation)
}

/// Decides on a request whose token the validator has been asked about.
/// The request comes back untouched when the validator said yes; otherwise
/// the auth gate's rejection does.
pub fn validator<R, E>(req: R, config: Option<Challenge>, validation: Result<bool, E>) -> (decision:
    Result<R, Rejection>)
    ensures
        admits(validation) ==> decision == Ok::<R, Rejection>(req),
        !admits(validation) ==> decision == Err::<R, Rejection>(rejection_of(config)),
{
    match validation {
        Ok(true) => Ok(req),
        _ => Err(reject(config)),
    }
}

/// The rejection of an auth gate configured with `config`.
pub fn reject(config: Option<Challenge>) -> (rejection: Rejection)
    ensures
        rejection == rejection_of(config),
{
    let challenge = match config {
        Some(challenge) => challenge,
        None => Challenge::default(),
    };
    Rejection { status: UNAUTHORIZED, challenge }
}

/// Whether `validate`, asked about `token`, may have given `validation`.
pub open spec fn answered<E, V: Fn(&str) -> Result<bool, E>>(
    validate: V,
    token: &str,
    validation: Result<bool, E>,
) -> bool {
    call_ensures(validate, (token,), validation)
}

/// The whole auth gate. Without a token the request is rejected and the
/// validator is not consulted. With one, the validator is asked once, and its
/// answer decides as in [`validator`].
pub fn gate<R, E, V: Fn(&str) -> Result<bool, E>>(
    req: R,
    config: Option<Challenge>,
    token: Option<&str>,
    validate: &V,
) -> (decision: Result<R, Rejection>)
    requires
        token matches Some(t) ==> call_requires(*validate, (t,)),
    ensures
        decision matches Ok(passed) ==> passed == req,
        decision matches Err(rejection) ==> rejection == rejection_of(config),
        token is None ==> decision is Err,
        token matches Some(t) ==> exists|validation: Result<bool, E>|
            #[trigger] answered(*validate, t, validation) && (decision is Ok <==> admits(
                validation,
            )),
{
    match token {
        None => Err(reject(config)),
        Some(t) => {
            let validation = validate(t);
            assert(answered(*validate, t, validation));
            validator(req, config, validation)
        },
    }
}

} // verus!
