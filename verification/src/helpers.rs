//! Username and password validation: the reserved-name list, the
//! allowed character set, and the password-strength gate used when a
//! user account is created.

use vstd::prelude::*;
use vstd::string::StrSliceExecFns;
use vstd::string::StringSliceAdditionalSpecFns;

use crate::error::UserCreationError;

verus! {

/// The longest accepted username, in bytes.
pub const MAX_USERNAME_BYTES: usize = 20;

/// The longest accepted password, in bytes.
pub const MAX_PASSWORD_BYTES: usize = 32;

/// The lowest password strength score accepted at account creation.
pub const MIN_PASSWORD_SCORE: u8 = 3;

/// Whether two strings hold the same characters.
fn str_eq(a: &str, b: &str) -> (r: bool)
    ensures
        r == (a@ == b@),
{
    let n = a.unicode_len();
    if n != b.unicode_len() {
        return false;
    }
    let mut i: usize = 0;
    while i < n
        invariant
            i <= n,
            n == a@.len(),
            n == b@.len(),
            forall|j: int| 0 <= j < i ==> a@[j] == b@[j],
        decreases n - i,
    {
        if a.get_char(i) != b.get_char(i) {
            return false;
        }
        i = i + 1;
    }
    proof {
        assert(a@ =~= b@);
    }
    true
}

/// The usernames the platform keeps for itself.
pub open spec fn is_reserved(s: Seq<char>) -> bool {
    ||| s == "admin"@
    ||| s == "administrator"@
    ||| s == "moderator"@
    ||| s == "mod"@
    ||| s == "system"@
}

/// Whether the username is one of the reserved names.
pub fn check_reserved_username(username: &str) -> (r: bool)
    ensures
        r == is_reserved(username@),
{
    str_eq(username, "admin") || str_eq(username, "administrator") || str_eq(
        username,
        "moderator",
    ) || str_eq(username, "mod") || str_eq(username, "system")
}

/// The characters a username may hold: lowercase ascii letters,
/// digits and the underscore.
pub open spec fn allowed_username_char(c: char) -> bool {
    ||| ('a' as u32 <= c as u32 && c as u32 <= 'z' as u32)
    ||| ('0' as u32 <= c as u32 && c as u32 <= '9' as u32)
    ||| c == '_'
}

/// Whether every character of the username is allowed.
pub fn check_valid_uservane(username: &str) -> (r: bool)
    ensures
        r == forall|i: int| 0 <= i < username@.len() ==> allowed_username_char(#[trigger] username@[i]),
{
    let n = username.unicode_len();
    let mut i: usize = 0;
    while i < n
        invariant
            i <= n,
            n == username@.len(),
            forall|j: int| 0 <= j < i ==> allowed_username_char(#[trigger] username@[j]),
        decreases n - i,
    {
        let c = username.get_char(i);
        let code = c as u32;
        let ok = (code >= 'a' as u32 && code <= 'z' as u32) || (code >= '0' as u32 && code <= '9'
            as u32) || c == '_';
        if !ok {
            return false;
        }
        i = i + 1;
    }
    true
}

/// Why the strength check itself could not run.
#[derive(Debug, Clone, Copy, PartialEq, Eq, Structural)]
pub enum StrengthCheckError {
    /// The password was empty; an empty password has no strength.
    BlankPassword,
    /// The system clock could not time the calculation.
    ClockUnavailable,
}

/// Relies on zxcvbn::zxcvbn: a blank password is refused outright,
/// any other failure comes from reading the system clock, and a
/// returned score lies between 0 and 4.  Nothing ties the score to
/// the inputs alone: the estimator matches years and dates against a
/// reference year it reads from the clock once per process, so the
/// same password can score differently under different clocks.  The
/// call can also abort if the clock steps backwards while it runs.
#[verifier::external_body]
pub fn calculate_password_strength(password: &str, username: &str) -> (r: Result<u8, StrengthCheckError>)
    ensures
        r is Err <== password@.len() == 0,
        r matches Err(e) ==> (if password@.len() == 0 {
            e is BlankPassword
        } else {
            e is ClockUnavailable
        }),
        r matches Ok(s) ==> password@.len() > 0 && s <= 4,
{
    match zxcvbn::zxcvbn(password, &[username]) {
        Ok(entropy) => Ok(entropy.score()),
        Err(zxcvbn::ZxcvbnError::BlankPassword) => Err(StrengthCheckError::BlankPassword),
        Err(zxcvbn::ZxcvbnError::DurationOutOfRange) => Err(StrengthCheckError::ClockUnavailable),
    }
}

/// A username the platform accepts: not reserved, at most
/// `MAX_USERNAME_BYTES` bytes, and of allowed characters only.
pub open spec fn spec_username_ok(username: &str) -> bool {
    &&& !is_reserved(username@)
    &&& username.spec_bytes().len() <= MAX_USERNAME_BYTES
    &&& forall|i: int| 0 <= i < username@.len() ==> allowed_username_char(#[trigger] username@[i])
}

/// Validates a requested username: refused when it is reserved,
/// longer than `MAX_USERNAME_BYTES` bytes, or holds a character
/// outside the allowed set — in that order.
pub fn validate_username(username: &str) -> (r: Result<(), UserCreationError<'static>>)
    ensures
        r is Ok <==> spec_username_ok(username),
        (r matches Err(e) && e is ReservedUsername) <==> is_reserved(username@),
        (r matches Err(e) && e is InvalidUsername) <==> (!is_reserved(username@)
            && !spec_username_ok(username)),
        r matches Err(e) ==> (e is ReservedUsername || e is InvalidUsername),
    {
    if check_reserved_username(username) {
        return Err(UserCreationError::ReservedUsername("This username is reserved"));
    }
    if username.as_bytes().len() > MAX_USERNAME_BYTES {
        return Err(
            UserCreationError::InvalidUsername("Usernames can be atmost 20 characters"),
        );
    }
    if !check_valid_uservane(username) {
        return Err(
            UserCreationError::InvalidUsername(
                "Username can only be lowercase, alphanumeric and seperated by _",
            ),
        );
    }
    Ok(())
}

/// Validates a password against its strength score: refused when the
/// score is under `MIN_PASSWORD_SCORE` or the password is longer
/// than `MAX_PASSWORD_BYTES` bytes — in that order.
pub fn validate_password(password: &str, score: u8) -> (r: Result<(), UserCreationError<'static>>)
    ensures
        r is Ok <==> (score >= MIN_PASSWORD_SCORE && password.spec_bytes().len()
            <= MAX_PASSWORD_BYTES),
        (r matches Err(e) && e is LowPasswordStrength) <==> score < MIN_PASSWORD_SCORE,
        (r matches Err(e) && e is PasswordTooLong) <==> (score >= MIN_PASSWORD_SCORE
            && password.spec_bytes().len() > MAX_PASSWORD_BYTES),
        r matches Err(e) ==> (e is LowPasswordStrength || e is PasswordTooLong),
{
    if score < MIN_PASSWORD_SCORE {
        return Err(UserCreationError::LowPasswordStrength("Password is too weak"));
    }
    if password.as_bytes().len() > MAX_PASSWORD_BYTES {
        return Err(
            UserCreationError::PasswordTooLong("Password can be atmost 32 characters"),
        );
    }
    Ok(())
}

/// The full account-creation gate: username checks first, then the
/// strength estimate, then the length cap.  Each error variant comes
/// on exactly its own condition, except that the strength verdict is
/// the estimator's: `validate_password` pins the outcome for every
/// possible score, and this function promises of the estimate only
/// what the estimator's contract gives.
pub fn validate_new_user(username: &str, password: &str) -> (r: Result<
    (),
    UserCreationError<'static>,
>)
    ensures
        r is Ok ==> {
            &&& spec_username_ok(username)
            &&& password@.len() > 0
            &&& password.spec_bytes().len() <= MAX_PASSWORD_BYTES
        },
        (r matches Err(e) && e is ReservedUsername) <==> is_reserved(username@),
        (r matches Err(e) && e is InvalidUsername) <==> (!is_reserved(username@)
            && !spec_username_ok(username)),
        (r matches Err(e) && e is PasswordTooShort) <==> (spec_username_ok(username)
            && password@.len() == 0),
        (r matches Err(e) && e is LowPasswordStrength) ==> (spec_username_ok(username)
            && password@.len() > 0),
        (r matches Err(e) && e is PasswordTooLong) ==> (spec_username_ok(username)
            && password@.len() > 0 && password.spec_bytes().len() > MAX_PASSWORD_BYTES),
        (r matches Err(e) && e is InternalError) ==> (spec_username_ok(username)
            && password@.len() > 0),
        r matches Err(e) ==> {
            ||| e is ReservedUsername
            ||| e is InvalidUsername
            ||| e is PasswordTooShort
            ||| e is LowPasswordStrength
            ||| e is PasswordTooLong
            ||| e is InternalError
        },
{
    match validate_username(username) {
        Err(e) => {
            return Err(e);
        },
        Ok(()) => {},
    }
    match calculate_password_strength(password, username) {
        Ok(score) => validate_password(password, score),
        Err(StrengthCheckError::BlankPassword) => Err(
            UserCreationError::PasswordTooShort("Password cannot be empty"),
        ),
        Err(StrengthCheckError::ClockUnavailable) => Err(
            UserCreationError::InternalError("Password strength check unavailable"),
        ),
    }
}

} // verus!
