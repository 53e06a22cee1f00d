use vstd::prelude::*;

verus! {

/// A field of a profile update that is validated before it is applied.
#[derive(Clone, Copy, Debug, PartialEq, Eq, Structural)]
pub enum ProfileField {
    Name,
    Email,
    Password,
    IconUrl,
    OpenaiKey,
}

/// Why a user-supplied field was rejected: one group of variants per field.
#[derive(Clone, Copy, Debug, PartialEq, Eq, Structural)]
pub enum ErrorCode {
    UserNameIsEmpty,
    UserNameTooLong,
    UserNameContainForbiddenCharacters,
    EmailFormatInvalid,
    PasswordIsEmpty,
    PasswordTooLong,
    PasswordContainsForbidCharacters,
    PasswordFormatInvalid,
    UserIconInvalid,
    OpenaiKeyInvalid,
}

impl ErrorCode {
    pub open spec fn spec_field(self) -> ProfileField {
        match self {
            ErrorCode::UserNameIsEmpty => ProfileField::Name,
            ErrorCode::UserNameTooLong => ProfileField::Name,
            ErrorCode::UserNameContainForbiddenCharacters => ProfileField::Name,
            ErrorCode::EmailFormatInvalid => ProfileField::Email,
            ErrorCode::PasswordIsEmpty => ProfileField::Password,
            ErrorCode::PasswordTooLong => ProfileField::Password,
            ErrorCode::PasswordContainsForbidCharacters => ProfileField::Password,
            ErrorCode::PasswordFormatInvalid => ProfileField::Password,
            ErrorCode::UserIconInvalid => ProfileField::IconUrl,
            ErrorCode::OpenaiKeyInvalid => ProfileField::OpenaiKey,
        }
    }

    /// The field whose validation failed.
    pub fn field(self) -> (r: ProfileField)
        ensures
            r == self.spec_field(),
    {
        match self {
            ErrorCode::UserNameIsEmpty => ProfileField::Name,
            ErrorCode::UserNameTooLong => ProfileField::Name,
            ErrorCode::UserNameContainForbiddenCharacters => ProfileField::Name,
            ErrorCode::EmailFormatInvalid => ProfileField::Email,
            ErrorCode::PasswordIsEmpty => ProfileField::Password,
            ErrorCode::PasswordTooLong => ProfileField::Password,
            ErrorCode::PasswordContainsForbidCharacters => ProfileField::Password,
            ErrorCode::PasswordFormatInvalid => ProfileField::Password,
            ErrorCode::UserIconInvalid => ProfileField::IconUrl,
            ErrorCode::OpenaiKeyInvalid => ProfileField::OpenaiKey,
        }
    }
}

} // verus!
