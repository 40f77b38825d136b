use vstd::prelude::*;
use crate::text::{lowercase, seq_contains, spec_lowercase, str_contains};

verus! {

/// The icon a button shows for `name`: the name itself when the icon theme
/// has it, else its lowercase form when the theme has that, else
/// "zen-browser" for a name holding "zen" when the theme has it, else the
/// generic executable icon.
pub open spec fn spec_select_icon(
    name: Seq<char>,
    has_name: bool,
    has_lowercase: bool,
    has_zen_browser: bool,
) -> Seq<char> {
    if has_name {
        name
    } else if has_lowercase {
        spec_lowercase(name)
    } else if seq_contains(spec_lowercase(name), "zen"@) && has_zen_browser {
        "zen-browser"@
    } else {
        "application-x-executable"@
    }
}

/// Picks the icon for `name`, given whether the icon theme has `name`, its
/// lowercase form, and "zen-browser".
pub fn select_icon(name: &str, has_name: bool, has_lowercase: bool, has_zen_browser: bool) -> (r:
    String)
    ensures
        r@ == spec_select_icon(name@, has_name, has_lowercase, has_zen_browser),
        has_name ==> r@ == name@,
        !has_name && has_lowercase ==> r@ == spec_lowercase(name@),
        !has_name && !has_lowercase && has_zen_browser && seq_contains(
            spec_lowercase(name@),
            "zen"@,
        ) ==> r@ == "zen-browser"@,
        !has_name && !has_lowercase && !(has_zen_browser && seq_contains(
            spec_lowercase(name@),
            "zen"@,
        )) ==> r@ == "application-x-executable"@,
{
    if has_name {
        return String::from_str(name);
    }
    let clean = lowercase(name);
    if has_lowercase {
        clean
    } else if str_contains(clean.as_str(), "zen") && has_zen_browser {
        String::from_str("zen-browser")
    } else {
        String::from_str("application-x-executable")
    }
}

} // verus!
