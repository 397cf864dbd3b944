use fcm_bridge::commands::{
    get_fcm_token, is_notification_permission_granted, request_notification_permission,
};
use fcm_bridge::native::{decode_granted, decode_token, find_field};
use fcm_bridge::{Command, Error, Fcm, FcmToken, NativeValue};

fn object(fields: Vec<(&str, NativeValue)>) -> NativeValue {
    NativeValue::Object(fields.into_iter().map(|(k, v)| (k.to_string(), v)).collect())
}

fn text(s: &str) -> NativeValue {
    NativeValue::Text(s.to_string())
}

fn present() -> Fcm<u32> {
    Fcm::new(Some(1))
}

#[test]
fn absent_bridge_gives_defaults() {
    let fcm: Fcm<u32> = Fcm::absent();
    assert!(!fcm.is_present());
    assert!(fcm.handle().is_none());
    assert_eq!(fcm.get_token(None), Ok(None));
    assert_eq!(fcm.request_permission(None), Ok(true));
    assert_eq!(fcm.is_permission_granted(None), Ok(true));
}

#[test]
fn absent_bridge_ignores_replies() {
    let fcm: Fcm<u32> = Fcm::new(None);
    assert_eq!(fcm.get_token(Some(Err("boom".to_string()))), Ok(None));
    let denied = Some(Ok(object(vec![("granted", NativeValue::Bool(false))])));
    assert_eq!(fcm.request_permission(denied), Ok(true));
}

#[test]
fn absent_bridge_plans_no_native_call() {
    let fcm: Fcm<u32> = Fcm::absent();
    assert_eq!(fcm.plan(Command::GetToken), None);
    assert_eq!(fcm.plan(Command::RequestPermission), None);
    assert_eq!(fcm.plan(Command::IsPermissionGranted), None);
}

#[test]
fn present_bridge_plans_named_calls() {
    let fcm = present();
    assert!(fcm.is_present());
    assert_eq!(fcm.handle(), Some(&1));
    assert_eq!(fcm.plan(Command::GetToken), Some("getToken"));
    assert_eq!(fcm.plan(Command::RequestPermission), Some("requestPermission"));
    assert_eq!(fcm.plan(Command::IsPermissionGranted), Some("isPermissionGranted"));
}

#[test]
fn token_reply_is_returned() {
    let fcm = present();
    let reply = object(vec![("token", text("abc"))]);
    assert_eq!(fcm.get_token(Some(Ok(reply))), Ok(Some("abc".to_string())));
}

#[test]
fn missing_or_null_token_is_no_token() {
    let fcm = present();
    assert_eq!(fcm.get_token(Some(Ok(object(vec![])))), Ok(None));
    let reply = object(vec![("token", NativeValue::Null)]);
    assert_eq!(fcm.get_token(Some(Ok(reply))), Ok(None));
}

#[test]
fn denied_permission_request_returns_false() {
    let fcm = present();
    let reply = object(vec![("granted", NativeValue::Bool(false))]);
    assert_eq!(fcm.request_permission(Some(Ok(reply))), Ok(false));
}

#[test]
fn granted_permission_query_returns_true() {
    let fcm = present();
    let reply = object(vec![("other", NativeValue::Number), ("granted", NativeValue::Bool(true))]);
    assert_eq!(fcm.is_permission_granted(Some(Ok(reply))), Ok(true));
}

#[test]
fn transport_failure_surfaces_diagnostic() {
    let fcm = present();
    let d = "channel closed";
    assert_eq!(
        fcm.get_token(Some(Err(d.to_string()))),
        Err(Error::PluginInvoke(d.to_string()))
    );
    assert_eq!(
        fcm.request_permission(Some(Err(d.to_string()))),
        Err(Error::PluginInvoke(d.to_string()))
    );
    assert_eq!(
        fcm.is_permission_granted(Some(Err(d.to_string()))),
        Err(Error::PluginInvoke(d.to_string()))
    );
    let t = get_fcm_token(&fcm, Some(Err(d.to_string()))).unwrap_err();
    assert_eq!(t, "Plugin error: channel closed");
    let r = request_notification_permission(&fcm, Some(Err(d.to_string()))).unwrap_err();
    assert!(r.contains(d));
    let q = is_notification_permission_granted(&fcm, Some(Err(d.to_string()))).unwrap_err();
    assert!(q.contains(d));
}

#[test]
fn undecodable_replies_surface_diagnostic() {
    let fcm = present();
    assert_eq!(
        get_fcm_token(&fcm, Some(Ok(NativeValue::List))),
        Err("Plugin error: invalid type: expected a map".to_string())
    );
    assert_eq!(
        get_fcm_token(&fcm, Some(Ok(object(vec![("token", NativeValue::Bool(true))])))),
        Err("Plugin error: invalid type for field `token`: expected a string or null".to_string())
    );
    assert_eq!(
        request_notification_permission(&fcm, Some(Ok(object(vec![])))),
        Err("Plugin error: missing field `granted`".to_string())
    );
    assert_eq!(
        is_notification_permission_granted(&fcm, Some(Ok(object(vec![("granted", text("yes"))])))),
        Err("Plugin error: invalid type for field `granted`: expected a boolean".to_string())
    );
}

#[test]
fn permission_query_twice_agrees() {
    let fcm = present();
    let reply = || Some(Ok(object(vec![("granted", NativeValue::Bool(false))])));
    let first = fcm.is_permission_granted(reply());
    let second = fcm.is_permission_granted(reply());
    assert_eq!(first, second);
    let absent: Fcm<u32> = Fcm::absent();
    assert_eq!(absent.is_permission_granted(None), absent.is_permission_granted(None));
}

#[test]
fn operations_in_any_order_agree() {
    let fcm = present();
    let tok = || Some(Ok(object(vec![("token", text("t1"))])));
    let perm = || Some(Ok(object(vec![("granted", NativeValue::Bool(true))])));
    let a = (
        get_fcm_token(&fcm, tok()),
        request_notification_permission(&fcm, perm()),
        is_notification_permission_granted(&fcm, perm()),
    );
    let c = is_notification_permission_granted(&fcm, perm());
    let b = request_notification_permission(&fcm, perm());
    let t = get_fcm_token(&fcm, tok());
    assert_eq!(a, (t, b, c));
}

#[test]
fn command_results_on_absent_bridge() {
    let fcm: Fcm<u32> = Fcm::absent();
    assert_eq!(get_fcm_token(&fcm, None), Ok(None));
    assert_eq!(request_notification_permission(&fcm, None), Ok(true));
    assert_eq!(is_notification_permission_granted(&fcm, None), Ok(true));
}

#[test]
fn error_messages() {
    assert_eq!(Error::NotAvailable.message(), "FCM not available on this platform");
    assert_eq!(Error::PermissionDenied.message(), "Notification permission denied");
    assert_eq!(
        Error::TokenError("expired".to_string()).message(),
        "Failed to get FCM token: expired"
    );
    assert_eq!(Error::PluginInvoke("x".to_string()).message(), "Plugin error: x");
}

#[test]
fn first_of_repeated_fields_wins() {
    let fields = vec![
        ("granted".to_string(), NativeValue::Bool(false)),
        ("granted".to_string(), NativeValue::Bool(true)),
    ];
    assert_eq!(find_field(&fields, &"granted".to_string()), Some(0));
    assert_eq!(find_field(&fields, &"token".to_string()), None);
    assert_eq!(decode_granted(&NativeValue::Object(fields)), Ok(false));
}

#[test]
fn decoders_on_non_objects() {
    assert_eq!(decode_token(&NativeValue::Null), Err("invalid type: expected a map".to_string()));
    assert_eq!(decode_granted(&text("true")), Err("invalid type: expected a map".to_string()));
    assert_eq!(decode_token(&object(vec![("token", text(""))])), Ok(Some(String::new())));
}

#[test]
fn command_names() {
    assert_eq!(Command::GetToken.name(), "getToken");
    assert_eq!(Command::RequestPermission.name(), "requestPermission");
    assert_eq!(Command::IsPermissionGranted.name(), "isPermissionGranted");
}

#[test]
fn token_record_holds_fields() {
    let t = FcmToken { token: "abc".to_string(), platform: "android".to_string() };
    assert_eq!(t.clone(), t);
    assert_eq!(t.platform, "android");
}
