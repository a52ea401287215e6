//! Error types for user, forum and post creation and for
//! authentication.  Each variant carries the message shown to the
//! caller.

use vstd::prelude::*;

verus! {

/// Why creating a user was refused.
#[non_exhaustive]
#[derive(Debug)]
pub enum UserCreationError<'a> {
    InvalidUsername(&'a str),
    UsernameAlreadyExists(&'a str),
    ReservedUsername(&'a str),
    PasswordTooShort(&'a str),
    PasswordTooLong(&'a str),
    LowPasswordStrength(&'a str),
    InternalError(&'a str),
}

impl<'a> UserCreationError<'a> {
    /// The message carried by the variant.
    pub fn message(&self) -> (r: &'a str)
        ensures
            r == self.spec_message(),
    {
        match *self {
            Self::InvalidUsername(m) => m,
            Self::UsernameAlreadyExists(m) => m,
            Self::ReservedUsername(m) => m,
            Self::PasswordTooShort(m) => m,
            Self::PasswordTooLong(m) => m,
            Self::LowPasswordStrength(m) => m,
            Self::InternalError(m) => m,
        }
    }

    /// The message carried by the variant.
    pub open spec fn spec_message(self) -> &'a str {
        match self {
            Self::InvalidUsername(m) => m,
            Self::UsernameAlreadyExists(m) => m,
            Self::ReservedUsername(m) => m,
            Self::PasswordTooShort(m) => m,
            Self::PasswordTooLong(m) => m,
            Self::LowPasswordStrength(m) => m,
            Self::InternalError(m) => m,
        }
    }
}

/// Why a login attempt failed.
#[non_exhaustive]
#[derive(Debug)]
pub enum UserAuthError<'a> {
    InvalidUsernameOrPassword(&'a str),
    UserNotFound(&'a str),
    InternalError(&'a str),
}

impl<'a> UserAuthError<'a> {
    /// The message carried by the variant.
    pub fn message(&self) -> (r: &'a str)
        ensures
            r == self.spec_message(),
    {
        match *self {
            Self::InvalidUsernameOrPassword(m) => m,
            Self::UserNotFound(m) => m,
            Self::InternalError(m) => m,
        }
    }

    /// The message carried by the variant.
    pub open spec fn spec_message(self) -> &'a str {
        match self {
            Self::InvalidUsernameOrPassword(m) => m,
            Self::UserNotFound(m) => m,
            Self::InternalError(m) => m,
        }
    }
}

/// Why creating a forum was refused.
#[non_exhaustive]
#[derive(Debug)]
pub enum ForumCreationError<'a> {
    InvalidName(&'a str),
    ForumAlreadyExists(&'a str),
    ReservedName(&'a str),
    InternalError(&'a str),
}

impl<'a> ForumCreationError<'a> {
    /// The message carried by the variant.
    pub fn message(&self) -> (r: &'a str)
        ensures
            r == self.spec_message(),
    {
        match *self {
            Self::InvalidName(m) => m,
            Self::ForumAlreadyExists(m) => m,
            Self::ReservedName(m) => m,
            Self::InternalError(m) => m,
        }
    }

    /// The message carried by the variant.
    pub open spec fn spec_message(self) -> &'a str {
        match self {
            Self::InvalidName(m) => m,
            Self::ForumAlreadyExists(m) => m,
            Self::ReservedName(m) => m,
            Self::InternalError(m) => m,
        }
    }
}

/// Why creating a post was refused.
#[non_exhaustive]
#[derive(Debug)]
pub enum PostCreationError<'a> {
    InternalError(&'a str),
    ForumNotFound(&'a str),
}

impl<'a> PostCreationError<'a> {
    /// The message carried by the variant.
    pub fn message(&self) -> (r: &'a str)
        ensures
            r == self.spec_message(),
    {
        match *self {
            Self::InternalError(m) => m,
            Self::ForumNotFound(m) => m,
        }
    }

    /// The message carried by the variant.
    pub open spec fn spec_message(self) -> &'a str {
        match self {
            Self::InternalError(m) => m,
            Self::ForumNotFound(m) => m,
        }
    }
}

} // verus!
