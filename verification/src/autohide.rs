use vstd::prelude::*;

verus! {

/// The dock's bottom margin while it is shown.
pub const SHOWN_MARGIN: i32 = 0;

/// The dock's bottom margin while it is tucked away below the screen edge.
pub const HIDDEN_MARGIN: i32 = -55;

/// The dock hides only when the pointer is not on it and the active
/// workspace is known to hold at least one window.
pub open spec fn spec_dock_margin(is_hovered: bool, active_windows: Option<i64>) -> i32 {
    if is_hovered {
        SHOWN_MARGIN
    } else {
        match active_windows {
            Some(w) => if w > 0 {
                HIDDEN_MARGIN
            } else {
                SHOWN_MARGIN
            },
            None => SHOWN_MARGIN,
        }
    }
}

/// The bottom margin for the dock. The window count of the active workspace
/// is read only when the pointer is not on the dock; `None` stands for a count
/// that could not be had.
pub fn dock_margin(is_hovered: bool, active_windows: Option<i64>) -> (m: i32)
    ensures
        m == spec_dock_margin(is_hovered, active_windows),
        m == HIDDEN_MARGIN || m == SHOWN_MARGIN,
        (m == HIDDEN_MARGIN) <==> (!is_hovered && (active_windows matches Some(w) && w >= 1)),
{
    if is_hovered {
        return SHOWN_MARGIN;
    }
    match active_windows {
        Some(w) => if w > 0 {
            HIDDEN_MARGIN
        } else {
            SHOWN_MARGIN
        },
        None => SHOWN_MARGIN,
    }
}

/// What serde_json makes of the field `key` of the JSON text `json`: the
/// field's integer when the text parses, is an object, has that field, and
/// the field is an integer that fits an `i64`; `None` otherwise.
pub uninterp spec fn spec_json_integer_field(json: Seq<u8>, key: Seq<char>) -> Option<i64>;

/// Calls `serde_json::from_slice` into a `serde_json::Value`, then
/// `Value::get` with `key` and `Value::as_i64` on what it finds. Trusted:
/// its result is taken to be `spec_json_integer_field` of the bytes and the
/// key; what that is on given bytes is left unsaid.
#[verifier::external_body]
fn json_integer_field(json: &[u8], key: &str) -> (r: Option<i64>)
    ensures
        r == spec_json_integer_field(json@, key@),
{
    match serde_json::from_slice::<serde_json::Value>(json) {
        Ok(value) => value.get(key).and_then(serde_json::Value::as_i64),
        Err(_) => None,
    }
}

/// The window count in the compositor's JSON reply about the active
/// workspace (its "windows" field).
pub fn active_window_count(reply: &[u8]) -> (r: Option<i64>)
    ensures
        r == spec_json_integer_field(reply@, "windows"@),
{
    json_integer_field(reply, "windows")
}

} // verus!
