use vstd::prelude::*;
use vstd::std_specs::iter::IteratorSpec;
use crate::error::{AppError, AppResult};

verus! {

broadcast use vstd::string::group_string_axioms;

/// Fewest characters a password may have.
pub const MIN_PASSWORD_CHARS: usize = 8;

/// Most characters a password may have.
pub const MAX_PASSWORD_CHARS: usize = 128;

/// Whether `char::is_uppercase` holds of `c` (Unicode's Uppercase property).
pub uninterp spec fn uppercase_char(c: char) -> bool;

/// Whether `char::is_lowercase` holds of `c` (Unicode's Lowercase property).
pub uninterp spec fn lowercase_char(c: char) -> bool;

/// Relies on `char::is_uppercase`: reports Unicode's Uppercase property of `c`.
#[verifier::external_body]
fn char_is_uppercase(c: char) -> (r: bool)
    ensures
        r == uppercase_char(c),
{
    c.is_uppercase()
}

/// Relies on `char::is_lowercase`: reports Unicode's Lowercase property of `c`.
#[verifier::external_body]
fn char_is_lowercase(c: char) -> (r: bool)
    ensures
        r == lowercase_char(c),
{
    c.is_lowercase()
}

/// An ASCII decimal digit, `'0'` to `'9'`.
pub open spec fn decimal_digit(c: char) -> bool {
    '0' <= c && c <= '9'
}

/// The classes of characters that a password must draw from.
#[derive(Debug, Clone, Copy, PartialEq, Eq, Structural)]
pub enum CharClass {
    Uppercase,
    Lowercase,
    Digit,
}

impl CharClass {
    pub open spec fn holds(self, c: char) -> bool {
        match self {
            CharClass::Uppercase => uppercase_char(c),
            CharClass::Lowercase => lowercase_char(c),
            CharClass::Digit => decimal_digit(c),
        }
    }

    /// Whether `c` belongs to this class.
    pub fn contains(self, c: char) -> (r: bool)
        ensures
            r == self.holds(c),
    {
        match self {
            CharClass::Uppercase => char_is_uppercase(c),
            CharClass::Lowercase => char_is_lowercase(c),
            CharClass::Digit => '0' <= c && c <= '9',
        }
    }
}

/// Some character of `s` belongs to `class`.
pub open spec fn has_class(s: Seq<char>, class: CharClass) -> bool {
    exists|i: int| 0 <= i < s.len() && #[trigger] class.holds(s[i])
}

/// Whether some character of `s` belongs to `class`.
pub fn contains_class(s: &str, class: CharClass) -> (r: bool)
    ensures
        r == has_class(s@, class),
{
    let mut it = s.chars();
    let ghost all = s@;
    let ghost mut seen: int = 0;
    loop
        invariant
            all == s@,
            0 <= seen <= all.len(),
            it.remaining() == all.skip(seen),
            forall|j: int| 0 <= j < seen ==> !#[trigger] class.holds(all[j]),
        decreases all.len() - seen,
    {
        match it.next() {
            None => {
                return false;
            },
            Some(c) => {
                if class.contains(c) {
                    return true;
                }
                proof {
                    seen = seen + 1;
                }
            },
        }
    }
}


/// The message that refuses a password for its length, if it is refused.
pub open spec fn length_problem(p: Seq<char>) -> Option<Seq<char>> {
    if p.len() == 0 {
        Some("Password cannot be empty"@)
    } else if p.len() < MIN_PASSWORD_CHARS {
        Some("Password must be at least 8 characters long"@)
    } else if p.len() > MAX_PASSWORD_CHARS {
        Some("Password is too long"@)
    } else {
        None
    }
}

/// The message that refuses a password lacking a character of `class`.
pub open spec fn missing_class_message(class: CharClass) -> Seq<char> {
    match class {
        CharClass::Uppercase => "Password must contain at least one uppercase letter"@,
        CharClass::Lowercase => "Password must contain at least one lowercase letter"@,
        CharClass::Digit => "Password must contain at least one digit"@,
    }
}

/// The message that refuses a password for lacking a character of `class`, if
/// it is refused.
pub open spec fn class_problem(p: Seq<char>, class: CharClass) -> Option<Seq<char>> {
    if has_class(p, class) {
        None
    } else {
        Some(missing_class_message(class))
    }
}

/// The first rule of the password policy that `p` breaks, as the message that
/// reports it; the rules are checked in the order length, uppercase,
/// lowercase, digit.
pub open spec fn policy_problem(p: Seq<char>) -> Option<Seq<char>> {
    if length_problem(p) is Some {
        length_problem(p)
    } else if class_problem(p, CharClass::Uppercase) is Some {
        class_problem(p, CharClass::Uppercase)
    } else if class_problem(p, CharClass::Lowercase) is Some {
        class_problem(p, CharClass::Lowercase)
    } else {
        class_problem(p, CharClass::Digit)
    }
}

/// A password that the policy accepts.
pub open spec fn acceptable_password(p: Seq<char>) -> bool {
    policy_problem(p) is None
}

/// `r` is the verdict that `problem` calls for: success where there is no
/// problem, else a bad-request error carrying the problem's message.
pub open spec fn verdict_for(r: AppResult<()>, problem: Option<Seq<char>>) -> bool {
    match problem {
        None => r is Ok,
        Some(m) => r matches Err(AppError::BadRequest(s)) && s@ == m,
    }
}

fn refuse(message: &str) -> (r: AppResult<()>)
    ensures
        r matches Err(AppError::BadRequest(s)) && s@ == message@,
{
    Err(AppError::BadRequest(String::from_str(message)))
}

/// Checks that the password has between 8 and 128 characters.
pub fn validate_password_length(password: &str) -> (r: AppResult<()>)
    ensures
        verdict_for(r, length_problem(password@)),
{
    let len = password.unicode_len();
    if len == 0 {
        refuse("Password cannot be empty")
    } else if len < MIN_PASSWORD_CHARS {
        refuse("Password must be at least 8 characters long")
    } else if len > MAX_PASSWORD_CHARS {
        refuse("Password is too long")
    } else {
        Ok(())
    }
}

/// Checks that the password holds an uppercase letter.
pub fn validate_password_uppercase(password: &str) -> (r: AppResult<()>)
    ensures
        verdict_for(r, class_problem(password@, CharClass::Uppercase)),
{
    if contains_class(password, CharClass::Uppercase) {
        Ok(())
    } else {
        refuse("Password must contain at least one uppercase letter")
    }
}

/// Checks that the password holds a lowercase letter.
pub fn validate_password_lowercase(password: &str) -> (r: AppResult<()>)
    ensures
        verdict_for(r, class_problem(password@, CharClass::Lowercase)),
{
    if contains_class(password, CharClass::Lowercase) {
        Ok(())
    } else {
        refuse("Password must contain at least one lowercase letter")
    }
}

/// Checks that the password holds a decimal digit.
pub fn validate_password_digit(password: &str) -> (r: AppResult<()>)
    ensures
        verdict_for(r, class_problem(password@, CharClass::Digit)),
{
    if contains_class(password, CharClass::Digit) {
        Ok(())
    } else {
        refuse("Password must contain at least one digit")
    }
}

/// Applies the password policy, reporting the first rule that the password
/// breaks.
pub fn validate_password(password: &str) -> (r: AppResult<()>)
    ensures
        verdict_for(r, policy_problem(password@)),
        r is Ok <==> acceptable_password(password@),
{
    validate_password_length(password)?;
    validate_password_uppercase(password)?;
    validate_password_lowercase(password)?;
    validate_password_digit(password)
}

} // verus!
