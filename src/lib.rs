use vstd::prelude::*;

pub mod error;
pub mod native;
pub mod mobile;
pub mod commands;
pub mod desktop;

pub use error::{Error, ErrorView};
pub use native::{Command, NativeValue};
pub use mobile::Fcm;

verus! {

/// Token received from the push service, with the platform that issued it.
#[derive(Debug, Clone, PartialEq, Eq)]
pub struct FcmToken {
    pub token: String,
    pub platform: String,
}

} // verus!
