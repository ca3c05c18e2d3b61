//! Signup: raw input is validated into a `Signup`, which together with the
//! hash of its password becomes a `NewUser`.
use vstd::prelude::*;
use vstd::string::StringExecFns;
use crate::passwords::HashedPassword;
use crate::users::EmailAddress;

verus! {

/// The first signup rule that an input breaks.
#[derive(Debug, PartialEq, Eq)]
pub enum SignupValidationError {
    PasswordMismatch,
    EmptyFullName,
    EmptyPassword,
}

impl SignupValidationError {
    /// The human-readable text of the error.
    pub fn message(&self) -> (r: String)
        ensures
            r@ == match self {
                SignupValidationError::PasswordMismatch => "Password mismatch"@,
                SignupValidationError::EmptyFullName => "Empty full name"@,
                SignupValidationError::EmptyPassword => "Empty password"@,
            },
    {
        match self {
            SignupValidationError::PasswordMismatch => String::from_str("Password mismatch"),
            SignupValidationError::EmptyFullName => String::from_str("Empty full name"),
            SignupValidationError::EmptyPassword => String::from_str("Empty password"),
        }
    }
}

/// The rule broken by a signup with these fields, checked in order: full
/// name, then password, then confirmation; `None` when all hold.
pub open spec fn signup_error(full_name: Seq<char>, password: Seq<char>, password_confirm: Seq<
    char,
>) -> Option<SignupValidationError> {
    if full_name.len() == 0 {
        Some(SignupValidationError::EmptyFullName)
    } else if password.len() == 0 {
        Some(SignupValidationError::EmptyPassword)
    } else if password != password_confirm {
        Some(SignupValidationError::PasswordMismatch)
    } else {
        None
    }
}

/// Signup input as received, not yet validated.
#[derive(Debug)]
pub struct TempSignup {
    pub email_address: EmailAddress,
    pub full_name: String,
    pub password: String,
    pub password_confirm: String,
}

impl TempSignup {
    pub fn new(
        email_address: EmailAddress,
        full_name: String,
        password: String,
        password_confirm: String,
    ) -> (r: TempSignup)
        ensures
            r.email_address == email_address,
            r.full_name == full_name,
            r.password == password,
            r.password_confirm == password_confirm,
    {
        TempSignup { email_address, full_name, password, password_confirm }
    }
}

pub struct SignupView {
    pub email_address: Seq<char>,
    pub full_name: Seq<char>,
    pub password: Seq<char>,
}

/// A validated signup: non-empty full name, non-empty password that equals
/// its confirmation. Only `Signup::try_from` makes one.
pub struct Signup {
    email_address: EmailAddress,
    full_name: String,
    password: String,
}

impl View for Signup {
    type V = SignupView;

    closed spec fn view(&self) -> SignupView {
        SignupView {
            email_address: self.email_address@,
            full_name: self.full_name@,
            password: self.password@,
        }
    }
}

/// How a signup with this email address and full name is shown; the
/// password never appears.
pub open spec fn signup_rendering(email_address: Seq<char>, full_name: Seq<char>) -> Seq<char> {
    "Signup { email_address: "@ + email_address + ", full_name: "@ + full_name
        + ", password: [~password~redacted~] }"@
}

impl Signup {
    pub closed spec fn wf(&self) -> bool {
        signup_error(self.full_name@, self.password@, self.password@) is None
    }

    /// Validates raw input, reporting the first rule it breaks.
    pub fn try_from(value: TempSignup) -> (r: Result<Signup, SignupValidationError>)
        ensures
            match r {
                Ok(s) => signup_error(value.full_name@, value.password@, value.password_confirm@)
                    is None && s.wf() && s@ == (SignupView {
                    email_address: value.email_address@,
                    full_name: value.full_name@,
                    password: value.password@,
                }),
                Err(e) => signup_error(value.full_name@, value.password@, value.password_confirm@)
                    == Some(e),
            },
    {
        if value.full_name.as_str().is_empty() {
            return Err(SignupValidationError::EmptyFullName);
        }
        if value.password.as_str().is_empty() {
            return Err(SignupValidationError::EmptyPassword);
        }
        if !(value.password == value.password_confirm) {
            return Err(SignupValidationError::PasswordMismatch);
        }
        Ok(Signup {
            email_address: value.email_address,
            full_name: value.full_name,
            password: value.password,
        })
    }

    pub fn email_address(&self) -> (r: &EmailAddress)
        ensures
            r@ == self@.email_address,
    {
        &self.email_address
    }

    pub fn full_name(&self) -> (r: &str)
        ensures
            r@ == self@.full_name,
    {
        self.full_name.as_str()
    }

    /// The plaintext password, to be hashed.
    pub fn password(&self) -> (r: &str)
        ensures
            r@ == self@.password,
    {
        self.password.as_str()
    }

    /// A readable rendering with the password redacted.
    pub fn redacted(&self) -> (r: String)
        ensures
            r@ == signup_rendering(self@.email_address, self@.full_name),
    {
        let mut text = String::from_str("Signup { email_address: ");
        text.append(self.email_address.to_str());
        text.append(", full_name: ");
        text.append(self.full_name.as_str());
        text.append(", password: [~password~redacted~] }");
        text
    }
}

pub struct NewUserView {
    pub email_address: Seq<char>,
    pub full_name: Seq<char>,
    pub hashed_password: Seq<char>,
}

/// A user ready to be stored: the plaintext password is gone, only its hash
/// is kept.
#[derive(Debug)]
pub struct NewUser {
    email_address: EmailAddress,
    full_name: String,
    hashed_password: HashedPassword,
}

impl View for NewUser {
    type V = NewUserView;

    closed spec fn view(&self) -> NewUserView {
        NewUserView {
            email_address: self.email_address@,
            full_name: self.full_name@,
            hashed_password: self.hashed_password@,
        }
    }
}

impl NewUser {
    pub fn new(email_address: &EmailAddress, full_name: &str, hashed_password: HashedPassword) -> (r:
        NewUser)
        ensures
            r@ == (NewUserView {
                email_address: email_address@,
                full_name: full_name@,
                hashed_password: hashed_password@,
            }),
    {
        NewUser {
            email_address: email_address.duplicate(),
            full_name: full_name.to_owned(),
            hashed_password,
        }
    }

    /// Completes a validated signup with the hash of its password; the
    /// plaintext is dropped here.
    pub fn try_from(value: Signup, hashed_password: HashedPassword) -> (r: NewUser)
        ensures
            r@ == (NewUserView {
                email_address: value@.email_address,
                full_name: value@.full_name,
                hashed_password: hashed_password@,
            }),
    {
        NewUser {
            email_address: value.email_address,
            full_name: value.full_name,
            hashed_password,
        }
    }

    pub fn email_address(&self) -> (r: &EmailAddress)
        ensures
            r@ == self@.email_address,
    {
        &self.email_address
    }

    pub fn full_name(&self) -> (r: &str)
        ensures
            r@ == self@.full_name,
    {
        self.full_name.as_str()
    }

    pub fn hashed_password(&self) -> (r: &HashedPassword)
        ensures
            r@ == self@.hashed_password,
    {
        &self.hashed_password
    }
}

} // verus!
