use vstd::prelude::*;

use crate::error::{message_of, ErrorView};
use crate::mobile::{granted_outcome, token_outcome, Fcm};
use crate::native::{granted_of, opt_text_view, text_result_view, token_of, NativeValue};

verus! {

/// A result as it crosses the application boundary: errors become their text.
pub open spec fn as_text<T>(r: Result<T, ErrorView>) -> Result<T, Seq<char>> {
    match r {
        Ok(t) => Ok(t),
        Err(e) => Err(message_of(e)),
    }
}

pub open spec fn ends_with(s: Seq<char>, suffix: Seq<char>) -> bool {
    suffix.len() <= s.len() && s.subrange(s.len() - suffix.len(), s.len() as int) == suffix
}

/// The diagnostic of a failed `getToken` round-trip, if it failed.
pub open spec fn token_diagnostic(rt: Result<NativeValue, String>) -> Option<Seq<char>> {
    match rt {
        Err(d) => Some(d@),
        Ok(v) => match token_of(v) {
            Err(m) => Some(m),
            Ok(_) => None,
        },
    }
}

/// The diagnostic of a failed permission round-trip, if it failed.
pub open spec fn granted_diagnostic(rt: Result<NativeValue, String>) -> Option<Seq<char>> {
    match rt {
        Err(d) => Some(d@),
        Ok(v) => match granted_of(v) {
            Err(m) => Some(m),
            Ok(_) => None,
        },
    }
}

/// The `get_fcm_token` command: the push token, or the text of the failure.
pub fn get_fcm_token<H>(fcm: &Fcm<H>, round_trip: Option<Result<NativeValue, String>>) -> (r:
    Result<Option<String>, String>)
    requires
        fcm.present() ==> round_trip is Some,
    ensures
        match r {
            Ok(t) => as_text(token_outcome(fcm.present(), round_trip)) == Ok::<
                Option<Seq<char>>,
                Seq<char>,
            >(opt_text_view(t)),
            Err(m) => as_text(token_outcome(fcm.present(), round_trip)) == Err::<
                Option<Seq<char>>,
                Seq<char>,
            >(m@),
        },
{
    match fcm.get_token(round_trip) {
        Ok(token) => Ok(token),
        Err(e) => Err(e.message()),
    }
}

/// The `request_notification_permission` command.
pub fn request_notification_permission<H>(
    fcm: &Fcm<H>,
    round_trip: Option<Result<NativeValue, String>>,
) -> (r: Result<bool, String>)
    requires
        fcm.present() ==> round_trip is Some,
    ensures
        text_result_view(r) == as_text(granted_outcome(fcm.present(), round_trip)),
{
    match fcm.request_permission(round_trip) {
        Ok(granted) => Ok(granted),
        Err(e) => Err(e.message()),
    }
}

/// The `is_notification_permission_granted` command.
pub fn is_notification_permission_granted<H>(
    fcm: &Fcm<H>,
    round_trip: Option<Result<NativeValue, String>>,
) -> (r: Result<bool, String>)
    requires
        fcm.present() ==> round_trip is Some,
    ensures
        text_result_view(r) == as_text(granted_outcome(fcm.present(), round_trip)),
{
    match fcm.is_permission_granted(round_trip) {
        Ok(granted) => Ok(granted),
        Err(e) => Err(e.message()),
    }
}

/// Without a native side every operation answers its platform default,
/// whatever is passed as a reply: no token, and permission granted.
pub proof fn absent_bridge_answers_defaults(
    rt_token: Option<Result<NativeValue, String>>,
    rt_permission: Option<Result<NativeValue, String>>,
)
    ensures
        as_text(token_outcome(false, rt_token)) == Ok::<Option<Seq<char>>, Seq<char>>(None),
        as_text(granted_outcome(false, rt_permission)) == Ok::<bool, Seq<char>>(true),
{
}

/// A round-trip that fails, in transport or in decoding, makes every
/// operation fail with a text that ends with the underlying diagnostic.
pub proof fn failed_round_trip_reports_diagnostic(rt: Result<NativeValue, String>)
    ensures
        token_diagnostic(rt) is Some ==> {
            let text = as_text(token_outcome(true, Some(rt)));
            text is Err && ends_with(text->Err_0, token_diagnostic(rt)->Some_0)
        },
        granted_diagnostic(rt) is Some ==> {
            let text = as_text(granted_outcome(true, Some(rt)));
            text is Err && ends_with(text->Err_0, granted_diagnostic(rt)->Some_0)
        },
{
    let prefix = "Plugin error: "@;
    if let Some(d) = token_diagnostic(rt) {
        assert((prefix + d).subrange(prefix.len() as int, (prefix + d).len() as int) =~= d);
    }
    if let Some(d) = granted_diagnostic(rt) {
        assert((prefix + d).subrange(prefix.len() as int, (prefix + d).len() as int) =~= d);
    }
}

/// Asking twice whether permission is granted, with nothing changed in
/// between, gives the same answer both times.
pub proof fn permission_query_is_repeatable(
    present: bool,
    first: Option<Result<NativeValue, String>>,
    second: Option<Result<NativeValue, String>>,
)
    requires
        present ==> first == second,
        present ==> first is Some,
    ensures
        as_text(granted_outcome(present, first)) == as_text(granted_outcome(present, second)),
{
}

} // verus!
