//! Users and the values a user is made of: name, passwords, identifier.

use crate::email_address::EmailAddress;
use crate::entity_id::EntityId;
use crate::password::{
    compute_hashed_password, phc_header, verification_of, AuthError, HASH_MEMORY_COST,
    HASH_PARALLELISM, HASH_TIME_COST,
};
use crate::text::contains_char;
use crate::validation::{
    ValidationError, ValidationFault, RAW_PASSWORD_MIN_LEN, USER_NAME_MAX_LEN, USER_NAME_MIN_LEN,
};
use vstd::prelude::*;
use vstd::string::*;
use vstd::utf8::encode_utf8;

verus! {

/// `time::OffsetDateTime`, carried through untouched.
#[verifier::external_type_specification]
#[verifier::external_body]
pub struct ExOffsetDateTime(time::OffsetDateTime);

/// The characters that count as signs in a password.
pub const RAW_PASSWORD_SIGNS: &'static str = r##" !"#$%&'()*+,-./:;<=>?@[\]^_`{|}~"##;

/// Whether a text has between `min` and `max` characters, as
/// `validator::validate_length` counts them for a string: by `char`.
#[verifier::external_body]
fn length_is_within(value: &str, min: u64, max: u64) -> (within: bool)
    ensures
        within == (min <= value@.len() <= max),
{
    validator::validate_length(value, Some(min), Some(max), None)
}

/// A user's display name: between `USER_NAME_MIN_LEN` and
/// `USER_NAME_MAX_LEN` characters.
#[derive(Debug)]
pub struct UserName {
    value: String,
}

impl View for UserName {
    type V = Seq<char>;

    closed spec fn view(&self) -> Seq<char> {
        self.value@
    }
}

impl Clone for UserName {
    fn clone(&self) -> (copy: Self)
        ensures
            copy@ == self@,
    {
        proof {
            use_type_invariant(self);
        }
        UserName { value: self.value.clone() }
    }
}

impl UserName {
    /// The length rule of user names.
    pub open spec fn length_allowed(value: Seq<char>) -> bool {
        USER_NAME_MIN_LEN <= value.len() <= USER_NAME_MAX_LEN
    }

    #[verifier::type_invariant]
    spec fn has_allowed_length(&self) -> bool {
        Self::length_allowed(self.value@)
    }

    /// Makes a user name of a text of allowed length. Any other text is a
    /// validation error.
    pub fn new(value: &str) -> (name: Result<Self, ValidationError>)
        ensures
            name matches Ok(n) ==> Self::length_allowed(value@) && n@ == value@,
            name matches Err(e) ==> !Self::length_allowed(value@) && e@
                == ValidationFault::UserNameLength,
    {
        if length_is_within(value, USER_NAME_MIN_LEN as u64, USER_NAME_MAX_LEN as u64) {
            Ok(UserName { value: value.to_owned() })
        } else {
            Err(ValidationError::UserNameLength)
        }
    }

    /// The name as text. Every name has an allowed length.
    pub fn value(&self) -> (text: &str)
        ensures
            text@ == self@,
            Self::length_allowed(text@),
    {
        proof {
            use_type_invariant(self);
        }
        self.value.as_str()
    }
}

/// The classes of characters that a password must draw from.
#[derive(Debug, Clone, Copy, PartialEq, Eq, Structural)]
pub enum CharClass {
    /// `a..=z` and `A..=Z`.
    Alphabet,
    /// `a..=z`.
    Lowercase,
    /// `A..=Z`.
    Uppercase,
    /// `0..=9`.
    Digit,
    /// One of `RAW_PASSWORD_SIGNS`.
    Sign,
}

/// Whether a character belongs to a class.
pub open spec fn in_class(c: char, class: CharClass) -> bool {
    match class {
        CharClass::Alphabet => ('a' <= c && c <= 'z') || ('A' <= c && c <= 'Z'),
        CharClass::Lowercase => 'a' <= c && c <= 'z',
        CharClass::Uppercase => 'A' <= c && c <= 'Z',
        CharClass::Digit => '0' <= c && c <= '9',
        CharClass::Sign => RAW_PASSWORD_SIGNS@.contains(c),
    }
}

/// Whether some character of the text belongs to the class.
pub open spec fn has_class(text: Seq<char>, class: CharClass) -> bool {
    exists|i: int| 0 <= i < text.len() && in_class(#[trigger] text[i], class)
}

/// What is wrong with a password, if anything. The rules are tried in this
/// order and the first that fails decides: at least `RAW_PASSWORD_MIN_LEN`
/// bytes in UTF-8; an ASCII letter; a lower-case one; an upper-case one; a
/// digit; a sign.
pub open spec fn password_fault(value: Seq<char>) -> Option<ValidationFault> {
    if encode_utf8(value).len() < RAW_PASSWORD_MIN_LEN {
        Some(ValidationFault::PasswordTooShort)
    } else if !has_class(value, CharClass::Alphabet) {
        Some(ValidationFault::PasswordWithoutAlphabet)
    } else if !has_class(value, CharClass::Lowercase) {
        Some(ValidationFault::PasswordWithoutLowercase)
    } else if !has_class(value, CharClass::Uppercase) {
        Some(ValidationFault::PasswordWithoutUppercase)
    } else if !has_class(value, CharClass::Digit) {
        Some(ValidationFault::PasswordWithoutDigit)
    } else if !has_class(value, CharClass::Sign) {
        Some(ValidationFault::PasswordWithoutSign)
    } else {
        None
    }
}

/// Whether a character belongs to a class.
pub fn char_in_class(c: char, class: CharClass) -> (belongs: bool)
    ensures
        belongs == in_class(c, class),
{
    match class {
        CharClass::Alphabet => (c >= 'a' && c <= 'z') || (c >= 'A' && c <= 'Z'),
        CharClass::Lowercase => c >= 'a' && c <= 'z',
        CharClass::Uppercase => c >= 'A' && c <= 'Z',
        CharClass::Digit => c >= '0' && c <= '9',
        CharClass::Sign => contains_char(RAW_PASSWORD_SIGNS, c),
    }
}

/// Whether some character of the text belongs to the class.
pub fn text_has_class(text: &str, class: CharClass) -> (found: bool)
    ensures
        found == has_class(text@, class),
{
    let n = text.unicode_len();
    let mut i: usize = 0;
    while i < n
        invariant
            n == text@.len(),
            i <= n,
            forall|j: int| 0 <= j < i ==> !in_class(#[trigger] text@[j], class),
        decreases n - i,
    {
        if char_in_class(text.get_char(i), class) {
            return true;
        }
        i += 1;
    }
    false
}

/// A password as the user typed it, known to satisfy the password rules.
pub struct RawPassword {
    value: String,
}

impl View for RawPassword {
    type V = Seq<char>;

    closed spec fn view(&self) -> Seq<char> {
        self.value@
    }
}

impl Clone for RawPassword {
    fn clone(&self) -> (copy: Self)
        ensures
            copy@ == self@,
    {
        proof {
            use_type_invariant(self);
        }
        RawPassword { value: self.value.clone() }
    }
}

impl RawPassword {
    #[verifier::type_invariant]
    spec fn satisfies_rules(&self) -> bool {
        password_fault(self.value@) is None
    }

    /// Accepts a password that satisfies every rule; otherwise reports the
    /// first rule that it breaks.
    pub fn new(value: &str) -> (password: Result<Self, ValidationError>)
        ensures
            password matches Ok(p) ==> password_fault(value@) is None && p@ == value@,
            password matches Err(e) ==> password_fault(value@) == Some(e@),
    {
        if value.as_bytes().len() < RAW_PASSWORD_MIN_LEN {
            return Err(ValidationError::PasswordTooShort);
        }
        if !text_has_class(value, CharClass::Alphabet) {
            return Err(ValidationError::PasswordWithoutAlphabet);
        }
        if !text_has_class(value, CharClass::Lowercase) {
            return Err(ValidationError::PasswordWithoutLowercase);
        }
        if !text_has_class(value, CharClass::Uppercase) {
            return Err(ValidationError::PasswordWithoutUppercase);
        }
        if !text_has_class(value, CharClass::Digit) {
            return Err(ValidationError::PasswordWithoutDigit);
        }
        if !text_has_class(value, CharClass::Sign) {
            return Err(ValidationError::PasswordWithoutSign);
        }
        Ok(RawPassword { value: value.to_owned() })
    }

    /// The password as text. Every password satisfies the rules.
    pub fn value(&self) -> (text: &str)
        ensures
            text@ == self@,
            password_fault(text@) is None,
    {
        proof {
            use_type_invariant(self);
        }
        self.value.as_str()
    }
}

/// A password hash as a PHC string.
pub struct HashedPassword {
    value: String,
}

impl View for HashedPassword {
    type V = Seq<char>;

    closed spec fn view(&self) -> Seq<char> {
        self.value@
    }
}

impl Clone for HashedPassword {
    fn clone(&self) -> (copy: Self)
        ensures
            copy@ == self@,
    {
        HashedPassword { value: self.value.clone() }
    }
}

impl HashedPassword {
    /// Hashes a password under a fresh random salt: an Argon2id hash of
    /// version 19 with the configured costs, which verification accepts for
    /// the password. The only error is `UnexpectedError`.
    pub fn new(password: &RawPassword) -> (hashed: Result<Self, AuthError>)
        ensures
            hashed matches Ok(h) ==> phc_header(
                HASH_MEMORY_COST,
                HASH_TIME_COST,
                HASH_PARALLELISM,
            ).is_prefix_of(h@),
            hashed matches Ok(h) ==> verification_of(h@, password@) is Ok,
            hashed matches Err(e) ==> e == AuthError::UnexpectedError,
    {
        match compute_hashed_password(password.value()) {
            Ok(value) => Ok(HashedPassword { value }),
            Err(e) => Err(e),
        }
    }

    /// Takes a text for a hash without looking at it.
    pub fn new_unchecked(hashed_password: &str) -> (hashed: Self)
        ensures
            hashed@ == hashed_password@,
    {
        HashedPassword { value: hashed_password.to_owned() }
    }

    /// The hash as a PHC string.
    pub fn value(&self) -> (text: &str)
        ensures
            text@ == self@,
    {
        self.value.as_str()
    }
}

/// Tag of the identifiers of users. An identifier cannot be tagged with
/// `User` itself, which holds one.
#[derive(Debug, Clone, Copy, PartialEq, Eq, Structural)]
pub struct UserTag;

/// Identifier of a user.
pub type UserId = EntityId<UserTag>;

/// A registered user.
pub struct User {
    id: UserId,
    user_name: UserName,
    email_address: EmailAddress,
    hashed_password: HashedPassword,
    is_active: bool,
    last_logged_in: Option<time::OffsetDateTime>,
    created_at: Option<time::OffsetDateTime>,
    updated_at: Option<time::OffsetDateTime>,
}

/// A user as a mathematical value.
pub struct UserView {
    pub id: u128,
    pub user_name: Seq<char>,
    pub email_address: Seq<char>,
    pub hashed_password: Seq<char>,
    pub is_active: bool,
    pub last_logged_in: Option<time::OffsetDateTime>,
    pub created_at: Option<time::OffsetDateTime>,
    pub updated_at: Option<time::OffsetDateTime>,
}

impl View for User {
    type V = UserView;

    closed spec fn view(&self) -> UserView {
        UserView {
            id: self.id@,
            user_name: self.user_name@,
            email_address: self.email_address@,
            hashed_password: self.hashed_password@,
            is_active: self.is_active,
            last_logged_in: self.last_logged_in,
            created_at: self.created_at,
            updated_at: self.updated_at,
        }
    }
}

impl Clone for User {
    fn clone(&self) -> (copy: Self)
        ensures
            copy@ == self@,
    {
        User {
            id: self.id.clone(),
            user_name: self.user_name.clone(),
            email_address: self.email_address.clone(),
            hashed_password: self.hashed_password.clone(),
            is_active: self.is_active,
            last_logged_in: self.last_logged_in,
            created_at: self.created_at,
            updated_at: self.updated_at,
        }
    }
}

impl User {
    /// Puts a user together from its parts.
    pub fn new(
        id: UserId,
        user_name: UserName,
        email_address: EmailAddress,
        hashed_password: HashedPassword,
        is_active: bool,
        last_logged_in: Option<time::OffsetDateTime>,
        created_at: Option<time::OffsetDateTime>,
        updated_at: Option<time::OffsetDateTime>,
    ) -> (user: Self)
        ensures
            user@ == (UserView {
                id: id@,
                user_name: user_name@,
                email_address: email_address@,
                hashed_password: hashed_password@,
                is_active,
                last_logged_in,
                created_at,
                updated_at,
            }),
    {
        User {
            id,
            user_name,
            email_address,
            hashed_password,
            is_active,
            last_logged_in,
            created_at,
            updated_at,
        }
    }

    /// The user's identifier.
    pub fn id(&self) -> (id: UserId)
        ensures
            id@ == self@.id,
    {
        self.id.clone()
    }

    /// The user's name.
    pub fn user_name(&self) -> (name: &UserName)
        ensures
            name@ == self@.user_name,
    {
        &self.user_name
    }

    /// The user's e-mail address.
    pub fn email_address(&self) -> (address: &EmailAddress)
        ensures
            address@ == self@.email_address,
    {
        &self.email_address
    }

    /// The hash of the user's password.
    pub fn hashed_password(&self) -> (hashed: &HashedPassword)
        ensures
            hashed@ == self@.hashed_password,
    {
        &self.hashed_password
    }

    /// Whether the user may log in.
    pub fn is_active(&self) -> (active: bool)
        ensures
            active == self@.is_active,
    {
        self.is_active
    }

    /// When the user last logged in, if ever.
    pub fn last_logged_in(&self) -> (instant: &Option<time::OffsetDateTime>)
        ensures
            *instant == self@.last_logged_in,
    {
        &self.last_logged_in
    }

    /// When the user was stored, once it has been.
    pub fn created_at(&self) -> (instant: &Option<time::OffsetDateTime>)
        ensures
            *instant == self@.created_at,
    {
        &self.created_at
    }

    /// When the user was last changed, once it has been stored.
    pub fn updated_at(&self) -> (instant: &Option<time::OffsetDateTime>)
        ensures
            *instant == self@.updated_at,
    {
        &self.updated_at
    }
}

} // verus!
