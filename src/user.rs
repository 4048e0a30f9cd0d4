//! The user at the login boundary: identity and provider-service
//! resolution, and the optional second factor.
use vstd::prelude::*;

use crate::text::{chars_of, decimal, decimal_chars, same_text};

verus! {

/// The second factor a user must give after the password.
#[derive(PartialEq, Eq, Structural, Debug, Clone, Copy)]
pub enum TwoFactorMethod {
    /// A code derived from the secret and the current 30-second step.
    TOTP,
    /// A code derived from the secret and this counter, which advances on
    /// each accepted code.
    HOTP { counter: u64 },
    /// No second factor: an explicit opt-out.
    Disabled,
}

/// Where a user name can come from when none is given, in order of
/// precedence: the `USER` and `LOGNAME` variables, then the account of the
/// effective user id.
pub struct IdentitySources {
    pub user_var: Option<String>,
    pub logname_var: Option<String>,
    pub account: Option<String>,
}

/// A user at the login boundary.
#[derive(Debug)]
pub struct User {
    pub username: String,
    pub pam_service: String,
    pub twofactor_method: TwoFactorMethod,
    pub twofactor_secret: Option<String>,
}

/// Why an authentication attempt failed.
#[derive(PartialEq, Eq, Structural, Debug, Clone, Copy)]
pub enum AuthError {
    /// The credential provider could not be set up.
    ProviderInit,
    /// The provider rejected the credentials.
    Rejected,
}

/// What the credential provider answered.
#[derive(PartialEq, Eq, Structural, Debug, Clone, Copy)]
pub enum ProviderOutcome {
    /// It could not be set up.
    InitFailed,
    /// It accepted the credentials.
    Accepted,
    /// It rejected them.
    Rejected,
}

/// The service used when the given one is empty or a placeholder.
pub open spec fn fallback_service() -> Seq<char> {
    "system-login"@
}

/// A user name that stands for "detect it".
pub open spec fn is_placeholder_user(u: Seq<char>) -> bool {
    u.len() == 0 || u == "user"@
}

/// A provider-service name that stands for "use the default".
pub open spec fn is_placeholder_service(p: Seq<char>) -> bool {
    p.len() == 0 || p == "login"@ || p == "login_service"@ || p == "default"@
}

/// The name detected from the sources: a non-empty `USER`, else a
/// non-empty `LOGNAME`, else the account name, else `unknown`.
pub open spec fn detected_name(
    user_var: Option<Seq<char>>,
    logname_var: Option<Seq<char>>,
    account: Option<Seq<char>>,
) -> Seq<char> {
    if user_var is Some && user_var->0.len() > 0 {
        user_var->0
    } else if logname_var is Some && logname_var->0.len() > 0 {
        logname_var->0
    } else if account is Some {
        account->0
    } else {
        "unknown"@
    }
}

/// The user name: the explicit one, unless it is a placeholder.
pub open spec fn resolved_username(explicit: Seq<char>, src: IdentitySources) -> Seq<char> {
    if is_placeholder_user(explicit) {
        detected_name(
            src.user_var.deep_view(),
            src.logname_var.deep_view(),
            src.account.deep_view(),
        )
    } else {
        explicit
    }
}

/// The provider service: the given one, unless it is a placeholder.
pub open spec fn resolved_service(p: Seq<char>) -> Seq<char> {
    if is_placeholder_service(p) {
        fallback_service()
    } else {
        p
    }
}

/// The code that `otpauth`'s counter-based generator gives for a secret
/// and a counter.
pub uninterp spec fn hotp_value(secret: Seq<char>, counter: u64) -> u32;

/// The step of the time-based code, in seconds.
pub const TOTP_PERIOD: u64 = 30;

/// Relies on `otpauth::HOTP::generate`, on the key that `HOTP::new` makes
/// of the secret: the code depends on the secret and the counter alone,
/// and is below one million.
#[verifier::external_body]
fn hotp_generate(secret: &str, counter: u64) -> (r: u32)
    ensures
        r == hotp_value(secret@, counter),
        r < 1_000_000,
{
    otpauth::HOTP::new(secret).generate(counter)
}

/// Relies on `otpauth::TOTP::generate`, on the key that `TOTP::new` makes
/// of the secret: it is the counter-based code at `timestamp / period`.
#[verifier::external_body]
fn totp_generate(secret: &str, period: u64, timestamp: u64) -> (r: u32)
    requires
        period > 0,
    ensures
        r == hotp_value(secret@, timestamp / period),
{
    otpauth::TOTP::new(secret).generate(period, timestamp)
}

/// Whether the supplied code is the expected one written in decimal.
pub fn code_matches(code: &str, expected: u32) -> (r: bool)
    ensures
        r == (code@ == decimal(expected as nat)),
{
    let digits = decimal_chars(expected);
    let given = chars_of(code);
    if given.len() != digits.len() {
        return false;
    }
    let mut i: usize = 0;
    while i < digits.len()
        invariant
            given@ == code@,
            digits@ == decimal(expected as nat),
            given@.len() == digits@.len(),
            i <= digits@.len(),
            forall|j: int| 0 <= j < i ==> given@[j] == digits@[j],
        decreases digits@.len() - i,
    {
        if given[i] != digits[i] {
            return false;
        }
        i = i + 1;
    }
    assert(given@ =~= digits@);
    true
}

/// Whether a code is right, and the method afterwards: a time-based code
/// is checked against the current 30-second step; a counter-based code
/// against the counter, which advances by one on a match and only then;
/// without a secret no code is right; without a method every code is.
pub open spec fn second_factor_step(
    method: TwoFactorMethod,
    secret: Option<Seq<char>>,
    code: Seq<char>,
    now: u64,
) -> (bool, TwoFactorMethod) {
    match method {
        TwoFactorMethod::TOTP => (
            secret is Some && code == decimal(
                hotp_value(secret->0, now / TOTP_PERIOD) as nat,
            ),
            method,
        ),
        TwoFactorMethod::HOTP { counter } => {
            let ok = secret is Some && code == decimal(hotp_value(secret->0, counter) as nat);
            (
                ok,
                TwoFactorMethod::HOTP {
                    counter: if ok {
                        (counter + 1) as u64
                    } else {
                        counter
                    },
                },
            )
        },
        TwoFactorMethod::Disabled => (true, method),
    }
}

/// The result of an authentication attempt, given what the provider
/// answered: only an acceptance succeeds, so that a provider that could
/// not be set up fails the attempt.
pub fn authentication_result(outcome: ProviderOutcome) -> (r: Result<(), AuthError>)
    ensures
        r is Ok <==> outcome is Accepted,
        outcome is InitFailed ==> r == Err::<(), AuthError>(AuthError::ProviderInit),
        outcome is Rejected ==> r == Err::<(), AuthError>(AuthError::Rejected),
{
    match outcome {
        ProviderOutcome::InitFailed => Err(AuthError::ProviderInit),
        ProviderOutcome::Accepted => Ok(()),
        ProviderOutcome::Rejected => Err(AuthError::Rejected),
    }
}

/// The text of an optional value that is present and not empty.
fn nonempty(v: &Option<String>) -> (r: Option<&str>)
    ensures
        r is Some <==> (v.deep_view() is Some && v.deep_view()->0.len() > 0),
        r matches Some(t) ==> t@ == v.deep_view()->0,
{
    match v {
        Some(t) => if t.as_str().is_empty() {
            None
        } else {
            Some(t.as_str())
        },
        None => None,
    }
}

impl User {
    /// The name detected from the sources: a non-empty `USER`, else a
    /// non-empty `LOGNAME`, else the account name, else `unknown`.
    pub fn detect_system_username(src: &IdentitySources) -> (r: String)
        ensures
            r@ == detected_name(
                src.user_var.deep_view(),
                src.logname_var.deep_view(),
                src.account.deep_view(),
            ),
    {
        if let Some(u) = nonempty(&src.user_var) {
            return String::from_str(u);
        }
        if let Some(u) = nonempty(&src.logname_var) {
            return String::from_str(u);
        }
        match &src.account {
            Some(a) => a.clone(),
            None => String::from_str("unknown"),
        }
    }

    /// A user: an empty or placeholder name is replaced by the detected
    /// one, and an empty or placeholder provider service by the fallback
    /// service.
    pub fn new(
        username: &str,
        pam_service: &str,
        method: TwoFactorMethod,
        secret: Option<String>,
        src: &IdentitySources,
    ) -> (r: User)
        ensures
            r.username@ == resolved_username(username@, *src),
            r.pam_service@ == resolved_service(pam_service@),
            r.twofactor_method == method,
            r.twofactor_secret == secret,
    {
        let uname = if username.is_empty() || same_text(username, "user") {
            User::detect_system_username(src)
        } else {
            String::from_str(username)
        };
        let pam = if pam_service.is_empty() || same_text(pam_service, "login") || same_text(
            pam_service,
            "login_service",
        ) || same_text(pam_service, "default") {
            String::from_str("system-login")
        } else {
            String::from_str(pam_service)
        };
        User { username: uname, pam_service: pam, twofactor_method: method, twofactor_secret: secret }
    }

    /// Checks a second-factor code at `now`, in seconds since the epoch;
    /// a counter-based method advances its counter on a match only.
    pub fn verify_2fa(&mut self, code: &str, now: u64) -> (r: bool)
        requires
            old(self).twofactor_method matches TwoFactorMethod::HOTP { counter } ==> counter
                < u64::MAX,
        ensures
            (r, final(self).twofactor_method) == second_factor_step(
                old(self).twofactor_method,
                old(self).twofactor_secret.deep_view(),
                code@,
                now,
            ),
            final(self).username == old(self).username,
            final(self).pam_service == old(self).pam_service,
            final(self).twofactor_secret == old(self).twofactor_secret,
    {
        match self.twofactor_method {
            TwoFactorMethod::TOTP => match &self.twofactor_secret {
                Some(secret) => code_matches(code, totp_generate(secret.as_str(), TOTP_PERIOD, now)),
                None => false,
            },
            TwoFactorMethod::HOTP { counter } => match &self.twofactor_secret {
                Some(secret) => {
                    if code_matches(code, hotp_generate(secret.as_str(), counter)) {
                        self.twofactor_method = TwoFactorMethod::HOTP { counter: counter + 1 };
                        true
                    } else {
                        false
                    }
                },
                None => false,
            },
            TwoFactorMethod::Disabled => true,
        }
    }
}

/// A counter-based check with the right code for counter `n` accepts it
/// and moves the counter to `n + 1`; any other code is refused and leaves
/// the counter at `n`.
pub proof fn lemma_counter_advances_on_match(secret: Seq<char>, n: u64, code: Seq<char>, now: u64)
    requires
        n < u64::MAX,
    ensures
        code == decimal(hotp_value(secret, n) as nat) ==> second_factor_step(
            TwoFactorMethod::HOTP { counter: n },
            Some(secret),
            code,
            now,
        ) == (true, TwoFactorMethod::HOTP { counter: (n + 1) as u64 }),
        code != decimal(hotp_value(secret, n) as nat) ==> second_factor_step(
            TwoFactorMethod::HOTP { counter: n },
            Some(secret),
            code,
            now,
        ) == (false, TwoFactorMethod::HOTP { counter: n }),
{
}

} // verus!
