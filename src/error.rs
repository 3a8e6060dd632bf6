use vstd::prelude::*;

use crate::color::ColorCheck;

verus! {

/// A failed platform call: its result code and the platform's text for it.
#[derive(Debug)]
pub struct PlatformError {
    pub code: i32,
    pub message: String,
}

/// A verification mismatch, together with the texture that produced it so that
/// the caller can export it for inspection.
#[derive(Debug)]
pub struct TextureError<T> {
    pub message: String,
    pub texture: T,
}

/// Failure of a harness step: a platform failure, or a mismatch carrying its texture.
#[derive(Debug)]
pub enum TestError<T> {
    General(PlatformError),
    Texture(TextureError<T>),
}

impl<T> TestError<T> {
    /// Wraps a platform failure.
    pub fn from_platform(error: PlatformError) -> (r: TestError<T>)
        ensures
            r == TestError::<T>::General(error),
    {
        TestError::General(error)
    }

    /// The error as a failed result.
    pub fn ok(self) -> (r: Result<(), TestError<T>>)
        ensures
            r == Err::<(), TestError<T>>(self),
    {
        Err(self)
    }

    /// The human-readable text of the error.
    pub fn message(&self) -> (r: String)
        ensures
            r@ == match self {
                TestError::General(e) => e.message@,
                TestError::Texture(e) => e.message@,
            },
    {
        match self {
            TestError::General(e) => e.message.clone(),
            TestError::Texture(e) => e.message.clone(),
        }
    }

    /// Whether the error carries a texture for diagnostic export.
    pub fn texture(&self) -> (r: Option<&T>)
        ensures
            r == match self {
                TestError::General(_) => None::<&T>,
                TestError::Texture(e) => Some(&e.texture),
            },
    {
        match self {
            TestError::General(_) => None,
            TestError::Texture(e) => Some(&e.texture),
        }
    }
}

impl ColorCheck {
    /// Resolves a comparison: success passes through, a mismatch becomes a
    /// texture-carrying error with the mismatch text.
    pub fn ok<T>(self, texture: T) -> (r: Result<(), TestError<T>>)
        ensures
            self is Success ==> r is Ok,
            self matches ColorCheck::Different(m) ==> r matches Err(TestError::Texture(e)) && e.message
                == m && e.texture == texture,
    {
        match self {
            ColorCheck::Success => Ok(()),
            ColorCheck::Different(message) => TestError::Texture(TextureError { message, texture }).ok(),
        }
    }
}

} // verus!
