//! The text fragments of individual monitors, computed from what their
//! probes read.
use vstd::prelude::*;
use vstd::string::StringExecFns;

verus! {

#[verifier::external_type_specification]
#[verifier::external_body]
pub struct ExRegex(regex::Regex);

/// The text of capture group `i` of the leftmost match of the regular
/// expression `pattern` in `text`; `None` when there is no match or the group
/// took no part in it.
pub uninterp spec fn capture_group_of(pattern: Seq<char>, text: Seq<char>, i: nat) -> Option<
    Seq<char>,
>;

/// Whether `pattern` is a valid regular expression that compiles within the
/// default size limits.
pub uninterp spec fn regex_compiles(pattern: Seq<char>) -> bool;

/// `s` without leading and trailing whitespace.
pub uninterp spec fn trimmed(s: Seq<char>) -> Seq<char>;

pub open spec fn opt_view(o: Option<String>) -> Option<Seq<char>> {
    match o {
        Some(s) => Some(s@),
        None => None,
    }
}

/// Relies on regex::Regex::new: compiles `pattern`, failing where it is not
/// a valid expression.
#[verifier::external_body]
fn compile_regex(pattern: &str) -> (r: Option<regex::Regex>)
    ensures
        r is Some <==> regex_compiles(pattern@),
{
    regex::Regex::new(pattern).ok()
}

/// Relies on str::trim: the text with leading and trailing whitespace
/// removed, which depends on the text alone.
#[verifier::external_body]
fn trim_text(s: &str) -> (r: String)
    ensures
        r@ == trimmed(s@),
{
    s.trim().to_string()
}

/// A compiled regular expression together with the pattern it came from.
/// Its fields are private and `compile` is its only constructor, so `re` is
/// always the expression compiled from `source`.
pub struct Pattern {
    re: regex::Regex,
    source: String,
}

impl Pattern {
    pub closed spec fn source(&self) -> Seq<char> {
        self.source@
    }

    /// Compiles `pattern`; `None` exactly when it is not a valid expression.
    pub fn compile(pattern: &str) -> (r: Option<Pattern>)
        ensures
            r is Some <==> regex_compiles(pattern@),
            r matches Some(p) ==> p.source() == pattern@,
    {
        match compile_regex(pattern) {
            Some(re) => Some(Pattern { re, source: String::from_str(pattern) }),
            None => None,
        }
    }

    /// The text of the expression.
    pub fn as_str(&self) -> (r: &str)
        ensures
            r@ == self.source(),
    {
        self.source.as_str()
    }

    /// Relies on regex::Regex::captures and then regex::Captures::get: the
    /// text of group `i` of the leftmost match in `text`, if any.
    #[verifier::external_body]
    fn group(&self, text: &str, i: usize) -> (r: Option<String>)
        ensures
            opt_view(r) == capture_group_of(self.source(), text@, i as nat),
    {
        self.re.captures(text).and_then(|c| c.get(i)).map(|m| m.as_str().to_string())
    }
}

/// The expression matched against the first battery line of `acpi -b`:
/// group 1 is the charging status, group 2 the charge percentage.
pub const BATTERY_PATTERN: &'static str = r"Battery 0: ([\w\s]+), (\d+)%";

/// The one-letter symbol of a charging status.
pub open spec fn status_symbol(status: Seq<char>) -> Seq<char> {
    if status == "Charging"@ {
        "C"@
    } else if status == "Discharging"@ {
        "D"@
    } else if status == "Full"@ {
        "F"@
    } else {
        "?"@
    }
}

/// The battery fragment for status and percentage `groups` (`None` when the
/// acpi line did not match) and the charge stop threshold.
pub open spec fn battery_text(groups: Option<(Seq<char>, Seq<char>)>, threshold: Seq<char>) -> Seq<
    char,
> {
    match groups {
        Some((status, percent)) => "bat: "@ + percent + "/"@ + threshold + "% "@ + status_symbol(
            status,
        ),
        None => "bat: N/A"@,
    }
}

/// The status and percentage that the battery pattern finds in `acpi`.
pub open spec fn battery_groups(acpi: Seq<char>) -> Option<(Seq<char>, Seq<char>)> {
    match (
        capture_group_of(BATTERY_PATTERN@, acpi, 1),
        capture_group_of(BATTERY_PATTERN@, acpi, 2),
    ) {
        (Some(status), Some(percent)) => Some((status, percent)),
        _ => None,
    }
}

/// The one-letter symbol of a charging status: `C`, `D`, `F`, or `?` for any
/// other status.
pub fn status_char(status: &String) -> (r: String)
    ensures
        r@ == status_symbol(status@),
{
    if *status == String::from_str("Charging") {
        String::from_str("C")
    } else if *status == String::from_str("Discharging") {
        String::from_str("D")
    } else if *status == String::from_str("Full") {
        String::from_str("F")
    } else {
        String::from_str("?")
    }
}

/// The battery fragment, `bat: <percent>/<threshold>% <symbol>`, from the
/// status and percentage found in the acpi output; `bat: N/A` when none was
/// found.
pub fn battery_label(groups: Option<(String, String)>, threshold: &String) -> (r: String)
    ensures
        r@ == battery_text(
            match groups {
                Some((s, p)) => Some((s@, p@)),
                None => None,
            },
            threshold@,
        ),
{
    match groups {
        Some((status, percent)) => {
            let mut out = String::from_str("bat: ");
            out.append(percent.as_str());
            out.append("/");
            out.append(threshold.as_str());
            out.append("% ");
            let sym = status_char(&status);
            out.append(sym.as_str());
            out
        },
        None => String::from_str("bat: N/A"),
    }
}

/// The battery fragment for the output of `acpi -b` and the charge stop
/// threshold, found with `pattern`, the compiled battery pattern.
pub fn battery_fragment(pattern: &Pattern, acpi_output: &String, threshold: &String) -> (r: String)
    requires
        pattern.source() == BATTERY_PATTERN@,
    ensures
        r@ == battery_text(battery_groups(acpi_output@), threshold@),
{
    let status = pattern.group(acpi_output.as_str(), 1);
    let percent = pattern.group(acpi_output.as_str(), 2);
    let groups = match (status, percent) {
        (Some(s), Some(p)) => Some((s, p)),
        _ => None,
    };
    battery_label(groups, threshold)
}

/// The notification fragment for the trimmed answer of `dunstctl is-paused`:
/// `n: disabled` when notifications are paused, empty (hidden) otherwise.
pub fn notification_label(paused: &String) -> (r: String)
    ensures
        r@ == (if paused@ == "true"@ {
            "n: disabled"@
        } else {
            Seq::<char>::empty()
        }),
{
    if *paused == String::from_str("true") {
        String::from_str("n: disabled")
    } else {
        String::new()
    }
}

/// The notification fragment for the answer of `dunstctl is-paused`, which
/// is trimmed first.
pub fn notification_fragment(answer: &String) -> (r: String)
    ensures
        r@ == (if trimmed(answer@) == "true"@ {
            "n: disabled"@
        } else {
            Seq::<char>::empty()
        }),
{
    let t = trim_text(answer.as_str());
    notification_label(&t)
}

/// The VPN fragment: `VPN` while the tunnel interface exists, empty (hidden)
/// otherwise.
pub fn vpn_fragment(tunnel_up: bool) -> (r: String)
    ensures
        r@ == (if tunnel_up {
            "VPN"@
        } else {
            Seq::<char>::empty()
        }),
{
    if tunnel_up {
        String::from_str("VPN")
    } else {
        String::new()
    }
}

/// The volume fragment for the level read from the mixer.
pub fn volume_fragment(level: &String) -> (r: String)
    ensures
        r@ == "vol: "@ + level@,
{
    let mut out = String::from_str("vol: ");
    out.append(level.as_str());
    out
}

} // verus!
