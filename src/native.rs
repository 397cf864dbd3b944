use vstd::prelude::*;
use vstd::string::StringExecFns;

verus! {

/// A structured value handed back by the native side of a round-trip.
#[derive(Debug)]
pub enum NativeValue {
    Null,
    Bool(bool),
    Number,
    Text(String),
    List,
    Object(Vec<(String, NativeValue)>),
}

/// The operations that the native side answers.
#[derive(Debug, Clone, Copy, PartialEq, Eq)]
pub enum Command {
    GetToken,
    RequestPermission,
    IsPermissionGranted,
}

/// The identifier under which a command is sent to the native side.
pub open spec fn command_name(c: Command) -> Seq<char> {
    match c {
        Command::GetToken => "getToken"@,
        Command::RequestPermission => "requestPermission"@,
        Command::IsPermissionGranted => "isPermissionGranted"@,
    }
}

impl Command {
    pub fn name(&self) -> (r: &'static str)
        ensures
            r@ == command_name(*self),
    {
        match self {
            Command::GetToken => "getToken",
            Command::RequestPermission => "requestPermission",
            Command::IsPermissionGranted => "isPermissionGranted",
        }
    }
}

/// The value of the first field named `key` at or after position `i`.
pub open spec fn field_from(fields: Seq<(String, NativeValue)>, key: Seq<char>, i: int) -> Option<
    NativeValue,
>
    decreases fields.len() - i,
{
    if i < 0 || i >= fields.len() {
        None
    } else if fields[i].0@ == key {
        Some(fields[i].1)
    } else {
        field_from(fields, key, i + 1)
    }
}

/// The value of the first field named `key`.
pub open spec fn field_of(fields: Seq<(String, NativeValue)>, key: Seq<char>) -> Option<NativeValue> {
    field_from(fields, key, 0)
}

pub open spec fn not_an_object_text() -> Seq<char> {
    "invalid type: expected a map"@
}

pub open spec fn token_type_text() -> Seq<char> {
    "invalid type for field `token`: expected a string or null"@
}

pub open spec fn granted_missing_text() -> Seq<char> {
    "missing field `granted`"@
}

pub open spec fn granted_type_text() -> Seq<char> {
    "invalid type for field `granted`: expected a boolean"@
}

/// Decoding of the `{token: optional string}` shape: a missing or null
/// field is no token.
pub open spec fn token_of(v: NativeValue) -> Result<Option<Seq<char>>, Seq<char>> {
    match v {
        NativeValue::Object(fields) => match field_of(fields@, "token"@) {
            None => Ok(None),
            Some(NativeValue::Null) => Ok(None),
            Some(NativeValue::Text(s)) => Ok(Some(s@)),
            Some(_) => Err(token_type_text()),
        },
        _ => Err(not_an_object_text()),
    }
}

/// Decoding of the `{granted: bool}` shape: the field is required.
pub open spec fn granted_of(v: NativeValue) -> Result<bool, Seq<char>> {
    match v {
        NativeValue::Object(fields) => match field_of(fields@, "granted"@) {
            None => Err(granted_missing_text()),
            Some(NativeValue::Bool(b)) => Ok(b),
            Some(_) => Err(granted_type_text()),
        },
        _ => Err(not_an_object_text()),
    }
}

pub open spec fn opt_text_view(o: Option<String>) -> Option<Seq<char>> {
    match o {
        Some(s) => Some(s@),
        None => None,
    }
}

pub open spec fn text_result_view<T>(r: Result<T, String>) -> Result<T, Seq<char>> {
    match r {
        Ok(t) => Ok(t),
        Err(e) => Err(e@),
    }
}

/// Position of the first field named `key`.
pub fn find_field(fields: &Vec<(String, NativeValue)>, key: &String) -> (r: Option<usize>)
    ensures
        match r {
            None => field_of(fields@, key@) is None,
            Some(i) => i < fields@.len() && field_of(fields@, key@) == Some(fields@[i as int].1),
        },
{
    let mut i: usize = 0;
    while i < fields.len()
        invariant
            i <= fields@.len(),
            field_of(fields@, key@) == field_from(fields@, key@, i as int),
        decreases fields@.len() - i,
    {
        if fields[i].0 == *key {
            return Some(i);
        }
        i = i + 1;
    }
    None
}

/// Decodes a response of the `{token: optional string}` shape.
pub fn decode_token(v: &NativeValue) -> (r: Result<Option<String>, String>)
    ensures
        match r {
            Ok(t) => token_of(*v) == Ok::<Option<Seq<char>>, Seq<char>>(opt_text_view(t)),
            Err(m) => token_of(*v) == Err::<Option<Seq<char>>, Seq<char>>(m@),
        },
{
    match v {
        NativeValue::Object(fields) => {
            let key = String::from_str("token");
            match find_field(fields, &key) {
                None => Ok(None),
                Some(i) => match &fields[i].1 {
                    NativeValue::Null => Ok(None),
                    NativeValue::Text(s) => Ok(Some(s.clone())),
                    _ => Err(String::from_str(
                        "invalid type for field `token`: expected a string or null",
                    )),
                },
            }
        },
        _ => Err(String::from_str("invalid type: expected a map")),
    }
}

/// Decodes a response of the `{granted: bool}` shape.
pub fn decode_granted(v: &NativeValue) -> (r: Result<bool, String>)
    ensures
        text_result_view(r) == granted_of(*v),
{
    match v {
        NativeValue::Object(fields) => {
            let key = String::from_str("granted");
            match find_field(fields, &key) {
                None => Err(String::from_str("missing field `granted`")),
                Some(i) => match &fields[i].1 {
                    NativeValue::Bool(b) => Ok(*b),
                    _ => Err(String::from_str("invalid type for field `granted`: expected a boolean")),
                },
            }
        },
        _ => Err(String::from_str("invalid type: expected a map")),
    }
}

} // verus!
