use vstd::prelude::*;

use crate::text::{contains_char, lowercase_of, to_lowercase, trim, trimmed};

verus! {

/// What a person enters to register.
#[derive(Debug)]
pub struct RegisterForm {
    pub name: String,
    pub email: String,
    pub password: String,
    pub password_confirmation: String,
}

/// The account data that a valid registration yields.
#[derive(Debug)]
pub struct Registration {
    pub name: String,
    pub email: String,
}

/// Why a registration was refused.
#[derive(Debug, Clone, Copy, PartialEq, Eq, Structural)]
pub enum RegistrationError {
    NameRequired,
    InvalidEmail,
    PasswordTooShort,
    PasswordMismatch,
    /// Somebody already registered with this e-mail address.
    EmailTaken,
}

/// The shortest password accepted, in characters.
pub const MIN_PASSWORD_CHARS: usize = 8;

impl RegistrationError {
    /// The text shown for the refusal.
    pub fn message(&self) -> (m: &'static str)
        ensures
            m@ == match *self {
                RegistrationError::NameRequired => "Ime je obvezno."@,
                RegistrationError::InvalidEmail => "Vnesi veljaven e-poštni naslov."@,
                RegistrationError::PasswordTooShort => "Geslo mora vsebovati najmanj 8 znakov."@,
                RegistrationError::PasswordMismatch => "Gesli se ne ujemata."@,
                RegistrationError::EmailTaken =>
                    "Uporabnik s tem e-poštnim naslovom že obstaja."@,
            },
    {
        match self {
            RegistrationError::NameRequired => "Ime je obvezno.",
            RegistrationError::InvalidEmail => "Vnesi veljaven e-poštni naslov.",
            RegistrationError::PasswordTooShort => "Geslo mora vsebovati najmanj 8 znakov.",
            RegistrationError::PasswordMismatch => "Gesli se ne ujemata.",
            RegistrationError::EmailTaken => "Uporabnik s tem e-poštnim naslovom že obstaja.",
        }
    }

    /// The HTTP status of the refusal: a conflict for a taken address, a bad
    /// request otherwise.
    pub fn status_code(&self) -> (c: u16)
        ensures
            c == (if *self == RegistrationError::EmailTaken {
                409u16
            } else {
                400u16
            }),
    {
        match self {
            RegistrationError::EmailTaken => 409,
            _ => 400,
        }
    }
}

/// The name a registration keeps: the entered name without surrounding white
/// space.
pub open spec fn registered_name(form: RegisterForm) -> Seq<char> {
    trimmed(form.name@)
}

/// The e-mail address a registration keeps: trimmed and in lower case.
pub open spec fn registered_email(form: RegisterForm) -> Seq<char> {
    lowercase_of(trimmed(form.email@))
}

/// The first rule that the form breaks, if any, in the order they are checked.
pub open spec fn registration_problem(form: RegisterForm) -> Option<RegistrationError> {
    if registered_name(form).len() == 0 {
        Some(RegistrationError::NameRequired)
    } else if !registered_email(form).contains('@') {
        Some(RegistrationError::InvalidEmail)
    } else if form.password@.len() < 8 {
        Some(RegistrationError::PasswordTooShort)
    } else if form.password@ != form.password_confirmation@ {
        Some(RegistrationError::PasswordMismatch)
    } else {
        None
    }
}

/// Checks a registration form: the name must not be blank, the address must
/// contain `@`, the password must have at least eight characters and match
/// its confirmation. Whether the address is taken is checked afterwards,
/// against the stored accounts.
pub fn validate_registration(form: &RegisterForm) -> (r: Result<Registration, RegistrationError>)
    ensures
        match registration_problem(*form) {
            Some(p) => r == Err::<Registration, RegistrationError>(p),
            None => r matches Ok(reg) && reg.name@ == registered_name(*form) && reg.email@
                == registered_email(*form),
        },
        trimmed(form.name@).len() == 0 ==> r == Err::<Registration, RegistrationError>(
            RegistrationError::NameRequired,
        ),
        trimmed(form.name@).len() > 0 && !lowercase_of(trimmed(form.email@)).contains('@') ==> r
            == Err::<Registration, RegistrationError>(RegistrationError::InvalidEmail),
        trimmed(form.name@).len() > 0 && lowercase_of(trimmed(form.email@)).contains('@')
            && form.password@.len() < 8 ==> r == Err::<Registration, RegistrationError>(
            RegistrationError::PasswordTooShort,
        ),
        trimmed(form.name@).len() > 0 && lowercase_of(trimmed(form.email@)).contains('@')
            && form.password@.len() >= 8 && form.password@ != form.password_confirmation@ ==> r
            == Err::<Registration, RegistrationError>(RegistrationError::PasswordMismatch),
        r is Ok ==> {
            &&& trimmed(form.name@).len() > 0
            &&& lowercase_of(trimmed(form.email@)).contains('@')
            &&& form.password@.len() >= 8
            &&& form.password@ == form.password_confirmation@
        },
        r matches Ok(reg) ==> reg.name@ == trimmed(form.name@) && reg.email@ == lowercase_of(
            trimmed(form.email@),
        ),
{
    let name = trim(form.name.as_str());
    let email = to_lowercase(trim(form.email.as_str()));
    if name.is_empty() {
        return Err(RegistrationError::NameRequired);
    }
    if !contains_char(email.as_str(), '@') {
        return Err(RegistrationError::InvalidEmail);
    }
    if form.password.as_str().unicode_len() < MIN_PASSWORD_CHARS {
        return Err(RegistrationError::PasswordTooShort);
    }
    if !(form.password == form.password_confirmation) {
        return Err(RegistrationError::PasswordMismatch);
    }
    Ok(Registration { name: name.to_owned(), email })
}

/// Completes a checked registration once it is known whether an account
/// with its e-mail address exists: such an address is refused.
pub fn accept_registration(reg: Registration, email_taken: bool) -> (r: Result<
    Registration,
    RegistrationError,
>)
    ensures
        email_taken ==> r == Err::<Registration, RegistrationError>(
            RegistrationError::EmailTaken,
        ),
        !email_taken ==> r == Ok::<Registration, RegistrationError>(reg),
{
    if email_taken {
        return Err(RegistrationError::EmailTaken);
    }
    Ok(reg)
}

/// The HTTP status of the answer to a registration: created, or the status
/// of the refusal.
pub fn registration_status(r: &Result<Registration, RegistrationError>) -> (c: u16)
    ensures
        c == match *r {
            Ok(_) => 201u16,
            Err(RegistrationError::EmailTaken) => 409u16,
            Err(_) => 400u16,
        },
{
    match r {
        Ok(_) => 201,
        Err(e) => e.status_code(),
    }
}

} // verus!
