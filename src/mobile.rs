use vstd::prelude::*;

use crate::error::{Error, ErrorView};
use crate::native::{
    command_name, decode_granted, decode_token, granted_of, opt_text_view, token_of, Command,
    NativeValue,
};

verus! {

/// The bridge to the native notification subsystem: a handle to it where
/// the platform has one, none where it does not. It never changes after
/// construction.
pub struct Fcm<H> {
    handle: Option<H>,
}

pub open spec fn error_result_view<T>(r: Result<T, Error>) -> Result<T, ErrorView> {
    match r {
        Ok(t) => Ok(t),
        Err(e) => Err(e@),
    }
}

pub open spec fn token_result_view(r: Result<Option<String>, Error>) -> Result<
    Option<Seq<char>>,
    ErrorView,
> {
    match r {
        Ok(t) => Ok(opt_text_view(t)),
        Err(e) => Err(e@),
    }
}

/// What a `getToken` round-trip settles to: a transport failure or an
/// undecodable reply becomes a plugin error carrying its diagnostic.
pub open spec fn token_settled(rt: Result<NativeValue, String>) -> Result<
    Option<Seq<char>>,
    ErrorView,
> {
    match rt {
        Err(d) => Err(ErrorView::PluginInvoke(d@)),
        Ok(v) => match token_of(v) {
            Ok(t) => Ok(t),
            Err(m) => Err(ErrorView::PluginInvoke(m)),
        },
    }
}

/// What a permission round-trip settles to.
pub open spec fn granted_settled(rt: Result<NativeValue, String>) -> Result<bool, ErrorView> {
    match rt {
        Err(d) => Err(ErrorView::PluginInvoke(d@)),
        Ok(v) => match granted_of(v) {
            Ok(b) => Ok(b),
            Err(m) => Err(ErrorView::PluginInvoke(m)),
        },
    }
}

/// Result of the token operation, given whether the native side is present
/// and the round-trip made to it, if any. Without a native side there is no
/// token.
pub open spec fn token_outcome(present: bool, rt: Option<Result<NativeValue, String>>) -> Result<
    Option<Seq<char>>,
    ErrorView,
> {
    match rt {
        Some(r) if present => token_settled(r),
        _ => Ok(None),
    }
}

/// Result of either permission operation. Without a native side the
/// permission counts as granted.
pub open spec fn granted_outcome(present: bool, rt: Option<Result<NativeValue, String>>) -> Result<
    bool,
    ErrorView,
> {
    match rt {
        Some(r) if present => granted_settled(r),
        _ => Ok(true),
    }
}

/// Settles the reply of a `getToken` round-trip.
pub fn settle_token(rt: Result<NativeValue, String>) -> (r: Result<Option<String>, Error>)
    ensures
        token_result_view(r) == token_settled(rt),
{
    match rt {
        Err(d) => Err(Error::PluginInvoke(d)),
        Ok(v) => match decode_token(&v) {
            Ok(t) => Ok(t),
            Err(m) => Err(Error::PluginInvoke(m)),
        },
    }
}

/// Settles the reply of a `requestPermission` or `isPermissionGranted`
/// round-trip.
pub fn settle_granted(rt: Result<NativeValue, String>) -> (r: Result<bool, Error>)
    ensures
        error_result_view(r) == granted_settled(rt),
{
    match rt {
        Err(d) => Err(Error::PluginInvoke(d)),
        Ok(v) => match decode_granted(&v) {
            Ok(b) => Ok(b),
            Err(m) => Err(Error::PluginInvoke(m)),
        },
    }
}

impl<H> Fcm<H> {
    /// The handle to the native side, if the platform has one.
    pub closed spec fn native(&self) -> Option<H> {
        self.handle
    }

    /// Whether a native side is present.
    pub open spec fn present(&self) -> bool {
        self.native() is Some
    }

    pub fn new(handle: Option<H>) -> (r: Self)
        ensures
            r.native() == handle,
    {
        Fcm { handle }
    }

    /// The bridge of a platform without a native side.
    pub fn absent() -> (r: Self)
        ensures
            r.native() is None,
    {
        Fcm { handle: None }
    }

    pub fn is_present(&self) -> (r: bool)
        ensures
            r == self.present(),
    {
        self.handle.is_some()
    }

    pub fn handle(&self) -> (r: Option<&H>)
        ensures
            r is Some == self.present(),
            r is Some ==> *r->Some_0 == self.native()->Some_0,
    {
        match &self.handle {
            Some(h) => Some(h),
            None => None,
        }
    }

    /// The native call that a command needs: its identifier where a native
    /// side is present, none where the answer is the platform default.
    pub fn plan(&self, cmd: Command) -> (r: Option<&'static str>)
        ensures
            self.present() ==> r is Some && r->Some_0@ == command_name(cmd),
            !self.present() ==> r is None,
    {
        match &self.handle {
            Some(_) => Some(cmd.name()),
            None => None,
        }
    }

    /// The current push token, if any. `round_trip` is the reply of the
    /// `getToken` call that `plan` asked for; it is not read without a
    /// native side.
    pub fn get_token(&self, round_trip: Option<Result<NativeValue, String>>) -> (r: Result<
        Option<String>,
        Error,
    >)
        requires
            self.present() ==> round_trip is Some,
        ensures
            token_result_view(r) == token_outcome(self.present(), round_trip),
    {
        match (&self.handle, round_trip) {
            (Some(_), Some(rt)) => settle_token(rt),
            _ => Ok(None),
        }
    }

    /// Asks for notification permission; `round_trip` is the reply of the
    /// `requestPermission` call.
    pub fn request_permission(&self, round_trip: Option<Result<NativeValue, String>>) -> (r: Result<
        bool,
        Error,
    >)
        requires
            self.present() ==> round_trip is Some,
        ensures
            error_result_view(r) == granted_outcome(self.present(), round_trip),
    {
        match (&self.handle, round_trip) {
            (Some(_), Some(rt)) => settle_granted(rt),
            _ => Ok(true),
        }
    }

    /// Whether notification permission is granted; `round_trip` is the reply
    /// of the `isPermissionGranted` call.
    pub fn is_permission_granted(&self, round_trip: Option<Result<NativeValue, String>>) -> (r:
        Result<bool, Error>)
        requires
            self.present() ==> round_trip is Some,
        ensures
            error_result_view(r) == granted_outcome(self.present(), round_trip),
    {
        match (&self.handle, round_trip) {
            (Some(_), Some(rt)) => settle_granted(rt),
            _ => Ok(true),
        }
    }
}

} // verus!
