use vstd::prelude::*;
use vstd::string::StringExecFns;

verus! {

/// Failures of the notification bridge.
#[derive(Debug, Clone, PartialEq, Eq)]
pub enum Error {
    /// The bridge exists but the capability is unsupported.
    NotAvailable,
    /// The user refused notifications.
    PermissionDenied,
    /// The native side failed to produce a token.
    TokenError(String),
    /// A native round-trip failed in transport or could not be decoded.
    PluginInvoke(String),
}

/// Mathematical view of an [`Error`].
pub enum ErrorView {
    NotAvailable,
    PermissionDenied,
    TokenError(Seq<char>),
    PluginInvoke(Seq<char>),
}

impl View for Error {
    type V = ErrorView;

    open spec fn view(&self) -> ErrorView {
        match self {
            Error::NotAvailable => ErrorView::NotAvailable,
            Error::PermissionDenied => ErrorView::PermissionDenied,
            Error::TokenError(d) => ErrorView::TokenError(d@),
            Error::PluginInvoke(d) => ErrorView::PluginInvoke(d@),
        }
    }
}

/// The human-readable text of an error.
pub open spec fn message_of(e: ErrorView) -> Seq<char> {
    match e {
        ErrorView::NotAvailable => "FCM not available on this platform"@,
        ErrorView::PermissionDenied => "Notification permission denied"@,
        ErrorView::TokenError(d) => "Failed to get FCM token: "@ + d,
        ErrorView::PluginInvoke(d) => "Plugin error: "@ + d,
    }
}

impl Error {
    /// The text that crosses the application boundary in place of the error.
    pub fn message(&self) -> (r: String)
        ensures
            r@ == message_of(self@),
    {
        match self {
            Error::NotAvailable => String::from_str("FCM not available on this platform"),
            Error::PermissionDenied => String::from_str("Notification permission denied"),
            Error::TokenError(d) => {
                let mut s = String::from_str("Failed to get FCM token: ");
                s.append(d.as_str());
                s
            },
            Error::PluginInvoke(d) => {
                let mut s = String::from_str("Plugin error: ");
                s.append(d.as_str());
                s
            },
        }
    }
}

} // verus!
