use vstd::prelude::*;
use vstd::string::StringExecFns;

verus! {

/// The text of a failure's diagnostic line, with the call site when one is given.
pub open spec fn failure_text(site: Option<Seq<char>>, detail: Seq<char>) -> Seq<char> {
    match site {
        Some(s) => "Error at "@ + s + ": "@ + detail + ", will block till success..."@,
        None => "Error: "@ + detail + ", will block till success..."@,
    }
}

/// The text of the diagnostic line for an absent value, with the call site when one is given.
pub open spec fn absence_text(site: Option<Seq<char>>) -> Seq<char> {
    match site {
        Some(s) => "None at "@ + s + ", will block till Some..."@,
        None => "None, will block till Some..."@,
    }
}

/// The view of an optional call-site label.
pub open spec fn site_view(site: Option<&str>) -> Option<Seq<char>> {
    match site {
        Some(s) => Some(s@),
        None => None,
    }
}

/// The diagnostic line for a failure rendered as `detail`, raised from `site` if given.
pub fn failure_line(site: Option<&str>, detail: &str) -> (r: String)
    ensures
        r@ == failure_text(site_view(site), detail@),
{
    let mut line = match site {
        Some(s) => {
            let mut head = String::from_str("Error at ");
            head.append(s);
            head.append(": ");
            head
        },
        None => String::from_str("Error: "),
    };
    line.append(detail);
    line.append(", will block till success...");
    line
}

/// The diagnostic line for an absent value, raised from `site` if given.
pub fn absence_line(site: Option<&str>) -> (r: String)
    ensures
        r@ == absence_text(site_view(site)),
{
    match site {
        Some(s) => {
            let mut line = String::from_str("None at ");
            line.append(s);
            line.append(", will block till Some...");
            line
        },
        None => String::from_str("None, will block till Some..."),
    }
}

} // verus!
