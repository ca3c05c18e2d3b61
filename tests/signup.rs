use weft_auth::passwords::HashedPassword;
use weft_auth::signup::{NewUser, Signup, SignupValidationError, TempSignup};
use weft_auth::users::EmailAddress;

fn temp(email: &str, full_name: &str, password: &str, confirm: &str) -> TempSignup {
    TempSignup::new(
        EmailAddress::from_str(email).unwrap(),
        full_name.to_string(),
        password.to_string(),
        confirm.to_string(),
    )
}

fn failure(value: TempSignup) -> SignupValidationError {
    match Signup::try_from(value) {
        Ok(_) => panic!("signup unexpectedly accepted"),
        Err(e) => e,
    }
}

#[test]
fn signup_empty_full_name() {
    assert_eq!(failure(temp("a@b.com", "", "x", "x")), SignupValidationError::EmptyFullName);
}

#[test]
fn signup_empty_password() {
    assert_eq!(failure(temp("a@b.com", "A", "", "")), SignupValidationError::EmptyPassword);
}

#[test]
fn signup_password_mismatch() {
    assert_eq!(failure(temp("a@b.com", "A", "x", "y")), SignupValidationError::PasswordMismatch);
}

#[test]
fn signup_reports_first_broken_rule() {
    assert_eq!(failure(temp("a@b.com", "", "", "y")), SignupValidationError::EmptyFullName);
    assert_eq!(failure(temp("a@b.com", "A", "", "y")), SignupValidationError::EmptyPassword);
    assert_eq!(failure(temp("a@b.com", "", "x", "y")), SignupValidationError::EmptyFullName);
}

#[test]
fn signup_valid_input_is_kept() {
    let signup = Signup::try_from(temp("a@b.com", "A", "secret123", "secret123")).unwrap();
    assert_eq!(signup.email_address().to_str(), "a@b.com");
    assert_eq!(signup.full_name(), "A");
    assert_eq!(signup.password(), "secret123");
}

#[test]
fn signup_rendering_redacts_password() {
    let signup = Signup::try_from(temp("a@b.com", "A", "secret123", "secret123")).unwrap();
    let text = signup.redacted();
    assert_eq!(
        text,
        "Signup { email_address: a@b.com, full_name: A, password: [~password~redacted~] }"
    );
    assert!(!text.contains("secret123"));
}

#[test]
fn signup_becomes_new_user_with_hash() {
    let signup = Signup::try_from(temp("a@b.com", "A", "secret123", "secret123")).unwrap();
    let hashed = HashedPassword::from_str("$argon2id$v=19$m=4096,t=192,p=4$c2FsdA$ZGlnZXN0").unwrap();
    let user = NewUser::try_from(signup, hashed);
    assert_eq!(user.email_address().to_str(), "a@b.com");
    assert_eq!(user.full_name(), "A");
    assert_eq!(user.hashed_password().as_str(), "$argon2id$v=19$m=4096,t=192,p=4$c2FsdA$ZGlnZXN0");
}

#[test]
fn new_user_from_parts() {
    let email = EmailAddress::from_str("c@d.org").unwrap();
    let hashed = HashedPassword::from_str("h").unwrap();
    let user = NewUser::new(&email, "Someone", hashed);
    assert_eq!(user.email_address(), &email);
    assert_eq!(user.full_name(), "Someone");
    assert_eq!(user.hashed_password().as_str(), "h");
}

#[test]
fn signup_error_messages() {
    assert_eq!(SignupValidationError::PasswordMismatch.message(), "Password mismatch");
    assert_eq!(SignupValidationError::EmptyFullName.message(), "Empty full name");
    assert_eq!(SignupValidationError::EmptyPassword.message(), "Empty password");
}
