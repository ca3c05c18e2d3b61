//! User-facing records: email addresses, login credentials, public profiles.
use vstd::prelude::*;
use vstd::string::StringExecFns;
use crate::passwords::HashedPassword;
use crate::signup::NewUser;

verus! {

/// An email address. Parsing accepts every string.
#[derive(Debug, Clone, PartialEq, Eq)]
pub struct EmailAddress(String);

impl View for EmailAddress {
    type V = Seq<char>;

    closed spec fn view(&self) -> Seq<char> {
        self.0@
    }
}

impl EmailAddress {
    pub fn to_str(&self) -> (r: &str)
        ensures
            r@ == self@,
    {
        self.0.as_str()
    }

    pub fn from_str(s: &str) -> (r: Result<EmailAddress, &'static str>)
        ensures
            r matches Ok(e) && e@ == s@,
    {
        Ok(EmailAddress(s.to_owned()))
    }

    /// A copy with the same text.
    pub(crate) fn duplicate(&self) -> (r: EmailAddress)
        ensures
            r@ == self@,
    {
        EmailAddress(self.0.clone())
    }
}

/// Credentials used to log in.
#[derive(Debug)]
pub struct Credentials {
    email: String,
    password: String,
}

impl Credentials {
    pub closed spec fn spec_email(&self) -> Seq<char> {
        self.email@
    }

    pub closed spec fn spec_password(&self) -> Seq<char> {
        self.password@
    }

    pub fn new(email: String, password: String) -> (r: Credentials)
        ensures
            r.spec_email() == email@,
            r.spec_password() == password@,
    {
        Credentials { email, password }
    }
}

/// What is shown of a user to others: the id (a UUID as its 128-bit value)
/// and the email address, never password material.
#[derive(Debug, Clone, PartialEq, Eq)]
pub struct UserProfile {
    pub id: u128,
    pub email_address: EmailAddress,
}

impl UserProfile {
    /// A profile that is never stored, for trying things out.
    pub fn fake_new_for_testing() -> (r: UserProfile)
        ensures
            r.id == 0,
            r.email_address@ == "some@email.address"@,
    {
        UserProfile { id: 0, email_address: EmailAddress(String::from_str("some@email.address")) }
    }
}

pub struct UserView {
    pub id: u128,
    pub email_address: Seq<char>,
    pub full_name: Seq<char>,
    pub hashed_password: Seq<char>,
}

/// A stored user, with its id (a UUID as its 128-bit value).
#[derive(Debug)]
pub struct User {
    id: u128,
    email_address: EmailAddress,
    full_name: String,
    hashed_password: HashedPassword,
}

impl View for User {
    type V = UserView;

    closed spec fn view(&self) -> UserView {
        UserView {
            id: self.id,
            email_address: self.email_address@,
            full_name: self.full_name@,
            hashed_password: self.hashed_password@,
        }
    }
}

impl User {
    /// Decodes a stored row into a user.
    pub fn from_row(id: u128, email_address: &str, full_name: String, hashed_password: &str) -> (r:
        Result<User, String>)
        ensures
            r matches Ok(u) && u@ == (UserView {
                id,
                email_address: email_address@,
                full_name: full_name@,
                hashed_password: hashed_password@,
            }),
    {
        let email = match EmailAddress::from_str(email_address) {
            Ok(email) => email,
            Err(_) => {
                let mut text = String::from_str("Error decoding `");
                text.append(email_address);
                text.append("` as EmailAddress");
                return Err(text);
            },
        };
        let hashed = match HashedPassword::from_str(hashed_password) {
            Ok(hashed) => hashed,
            Err(_) => {
                let mut text = String::from_str("Error decoding hashed password for user `");
                text.append(email_address);
                text.append("`");
                return Err(text);
            },
        };
        Ok(User { id, email_address: email, full_name, hashed_password: hashed })
    }

    /// The user that storing `new_user` under `id` gives.
    pub fn from_new_user(id: u128, new_user: &NewUser) -> (r: User)
        ensures
            r@ == (UserView {
                id,
                email_address: new_user@.email_address,
                full_name: new_user@.full_name,
                hashed_password: new_user@.hashed_password,
            }),
    {
        User {
            id,
            email_address: new_user.email_address().duplicate(),
            full_name: new_user.full_name().to_owned(),
            hashed_password: HashedPassword::from_str(new_user.hashed_password().as_str()).unwrap(),
        }
    }

    /// What others may see of this user: id and email address only.
    pub fn get_profile(&self) -> (r: UserProfile)
        ensures
            r.id == self@.id,
            r.email_address@ == self@.email_address,
    {
        UserProfile { id: self.id, email_address: self.email_address.duplicate() }
    }
}

} // verus!
