//! Validation errors: why a value offered by a client was not accepted.

use crate::text::{decimal, u64_to_decimal};
use vstd::prelude::*;
use vstd::string::*;

verus! {

/// Fewest characters of a user name.
pub const USER_NAME_MIN_LEN: usize = 2;

/// Most characters of a user name.
pub const USER_NAME_MAX_LEN: usize = 40;

/// Fewest bytes of a password.
pub const RAW_PASSWORD_MIN_LEN: usize = 8;

/// A value was rejected by a domain rule.
#[derive(Debug)]
pub enum ValidationError {
    /// The text is not a UUID.
    EntityId,
    /// The text, kept here, is not an e-mail address.
    EmailAddress(String),
    /// The user name is shorter or longer than allowed.
    UserNameLength,
    /// The password has fewer than `RAW_PASSWORD_MIN_LEN` bytes.
    PasswordTooShort,
    /// The password has no ASCII letter.
    PasswordWithoutAlphabet,
    /// The password has no lower-case ASCII letter.
    PasswordWithoutLowercase,
    /// The password has no upper-case ASCII letter.
    PasswordWithoutUppercase,
    /// The password has no ASCII digit.
    PasswordWithoutDigit,
    /// The password has no sign character.
    PasswordWithoutSign,
}

/// A validation error with its text as a character sequence.
pub enum ValidationFault {
    EntityId,
    EmailAddress(Seq<char>),
    UserNameLength,
    PasswordTooShort,
    PasswordWithoutAlphabet,
    PasswordWithoutLowercase,
    PasswordWithoutUppercase,
    PasswordWithoutDigit,
    PasswordWithoutSign,
}

impl View for ValidationError {
    type V = ValidationFault;

    open spec fn view(&self) -> ValidationFault {
        match self {
            ValidationError::EntityId => ValidationFault::EntityId,
            ValidationError::EmailAddress(value) => ValidationFault::EmailAddress(value@),
            ValidationError::UserNameLength => ValidationFault::UserNameLength,
            ValidationError::PasswordTooShort => ValidationFault::PasswordTooShort,
            ValidationError::PasswordWithoutAlphabet => ValidationFault::PasswordWithoutAlphabet,
            ValidationError::PasswordWithoutLowercase => ValidationFault::PasswordWithoutLowercase,
            ValidationError::PasswordWithoutUppercase => ValidationFault::PasswordWithoutUppercase,
            ValidationError::PasswordWithoutDigit => ValidationFault::PasswordWithoutDigit,
            ValidationError::PasswordWithoutSign => ValidationFault::PasswordWithoutSign,
        }
    }
}

impl ValidationFault {
    /// The message that goes with the fault.
    pub open spec fn message_text(self) -> Seq<char> {
        match self {
            ValidationFault::EntityId => "エンティティIDがUUIDとして不正です。"@,
            ValidationFault::EmailAddress(value) => "Eメールアドレス("@ + value + ")が不正です。"@,
            ValidationFault::UserNameLength => "ユーザー名は"@ + decimal(USER_NAME_MIN_LEN as nat)
                + "文字から"@ + decimal(USER_NAME_MAX_LEN as nat) + "文字です。"@,
            ValidationFault::PasswordTooShort => "パスワードは"@ + decimal(
                RAW_PASSWORD_MIN_LEN as nat,
            ) + "文字以上の文字列で指定してください。"@,
            ValidationFault::PasswordWithoutAlphabet => "パスワードにアルファベットが含まれていません。"@,
            ValidationFault::PasswordWithoutLowercase => "パスワードに小文字のアルファベットが含まれていません。"@,
            ValidationFault::PasswordWithoutUppercase => "パスワードに大文字のアルファベットが含まれていません。"@,
            ValidationFault::PasswordWithoutDigit => "パスワードに数字が含まれていません。"@,
            ValidationFault::PasswordWithoutSign => "パスワードに記号が含まれていません。"@,
        }
    }
}

impl ValidationError {
    /// The message shown to a caller.
    pub fn message(&self) -> (text: String)
        ensures
            text@ == self@.message_text(),
    {
        match self {
            ValidationError::EntityId => "エンティティIDがUUIDとして不正です。".to_owned(),
            ValidationError::EmailAddress(value) => {
                let text = "Eメールアドレス(".to_owned().concat(value.as_str()).concat(
                    ")が不正です。",
                );
                assert(text@ =~= self@.message_text());
                text
            },
            ValidationError::UserNameLength => {
                let min = u64_to_decimal(USER_NAME_MIN_LEN as u64);
                let max = u64_to_decimal(USER_NAME_MAX_LEN as u64);
                let text = "ユーザー名は".to_owned().concat(min.as_str()).concat("文字から").concat(
                    max.as_str(),
                ).concat("文字です。");
                assert(text@ =~= self@.message_text());
                text
            },
            ValidationError::PasswordTooShort => {
                let min = u64_to_decimal(RAW_PASSWORD_MIN_LEN as u64);
                let text = "パスワードは".to_owned().concat(min.as_str()).concat(
                    "文字以上の文字列で指定してください。",
                );
                assert(text@ =~= self@.message_text());
                text
            },
            ValidationError::PasswordWithoutAlphabet => "パスワードにアルファベットが含まれていません。".to_owned(),
            ValidationError::PasswordWithoutLowercase => "パスワードに小文字のアルファベットが含まれていません。".to_owned(),
            ValidationError::PasswordWithoutUppercase => "パスワードに大文字のアルファベットが含まれていません。".to_owned(),
            ValidationError::PasswordWithoutDigit => "パスワードに数字が含まれていません。".to_owned(),
            ValidationError::PasswordWithoutSign => "パスワードに記号が含まれていません。".to_owned(),
        }
    }
}

} // verus!
