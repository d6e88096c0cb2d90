//! Turning raw host facts into display lines.
//!
//! The operating system is interrogated outside this crate; whatever
//! came back (or failed to) is recorded as plain values in
//! [`RawFacts`].  Every decision after that point — fallback texts,
//! version truncation, uptime formatting, window-manager output
//! parsing, package-count wording — is made here and verified.

use vstd::prelude::*;

use crate::config::{Config, FetchType};
use crate::packages::{get_packages, spec_packages_text};
use crate::text::{
    find_char, find_from, has_prefix, has_suffix, lower_of, lowercase, spec_dec, spec_lines,
    split_lines, str_ends_with, str_eq, str_starts_with, u64_to_string,
};

verus! {

/// The raw material for one banner, gathered by the (unverified) host
/// probes and handed in as plain values.  A `None` records that the
/// corresponding probe failed or was never run.
pub struct RawFacts {
    /// What the host reports as its OS family (for example "Linux").
    pub os_type: Option<String>,
    /// The distribution id from the OS release database, if the host
    /// is Linux and one was found.
    pub linux_release_id: Option<String>,
    /// The kernel release string (for example "6.1.0-13-amd64").
    pub os_release: Option<String>,
    /// Seconds since boot.
    pub uptime_seconds: Option<u64>,
    /// For each detected package manager: its display name and, when
    /// listing its packages succeeded, that command's output.
    pub package_outputs: Vec<(String, Option<String>)>,
    /// The output of `wmctrl -m`, when it was consulted and answered.
    pub wmctrl_output: Option<String>,
    /// The `XDG_SESSION_DESKTOP` environment variable.
    pub xdg_session_desktop: Option<String>,
    /// The `DESKTOP_SESSION` environment variable.
    pub desktop_session: Option<String>,
    /// The base name of the login shell, from `SHELL`.
    pub shell_name: Option<String>,
    /// The `TERM_PROGRAM` environment variable.
    pub term_program: Option<String>,
}

/// One fetched fact, ready to render: a textual label, a one-glyph
/// icon alternative, and the fact's display text.
///
/// The display text is expected to be a single row — a text with an
/// embedded newline is outside the compositor's contract and merely
/// misaligns the rows after it; it is never checked at render time.
pub struct FetchData {
    pub label: String,
    pub icon: String,
    pub text: String,
}

/// The mathematical shadow of a [`FetchData`]: its three strings as
/// character sequences.
pub struct FetchDataView {
    pub label: Seq<char>,
    pub icon: Seq<char>,
    pub text: Seq<char>,
}

impl View for FetchData {
    type V = FetchDataView;

    open spec fn view(&self) -> FetchDataView {
        FetchDataView { label: self.label@, icon: self.icon@, text: self.text@ }
    }
}

impl DeepView for FetchData {
    type V = FetchDataView;

    open spec fn deep_view(&self) -> FetchDataView {
        self@
    }
}

/// The OS name used for branching: what the host reported, or
/// "Unknown" when the probe failed.
pub open spec fn spec_os_name(os_type: Option<String>) -> Seq<char> {
    match os_type {
        Some(s) => s@,
        None => "Unknown"@,
    }
}

/// The OS fact's text: on Linux the distribution id (or "linux" when
/// none was found), elsewhere the reported name in lowercase.
pub open spec fn spec_os_text(os_type: Option<String>, linux_release_id: Option<String>) -> Seq<
    char,
> {
    if spec_os_name(os_type) == "Linux"@ {
        match linux_release_id {
            Some(id) => id@,
            None => "linux"@,
        }
    } else {
        lower_of(spec_os_name(os_type))
    }
}

/// The icon shown for the OS fact, chosen by OS family.
pub open spec fn spec_os_icon(os: Seq<char>) -> Seq<char> {
    if os == "Linux"@ {
        "\u{f83c}"@
    } else if os == "Darwin"@ {
        "\u{f534}"@
    } else if os == "Windows"@ {
        "\u{e70f}"@
    } else {
        "\u{eb7f}"@
    }
}

/// The version fact's text: the kernel release up to (not including)
/// its first dash, or "unknown" when the probe failed.
pub open spec fn spec_version_text(os_release: Option<String>) -> Seq<char> {
    match os_release {
        Some(v) => v@.take(find_from(v@, '-', 0)),
        None => "unknown"@,
    }
}

/// The uptime rendered as hours and minutes: "3h 42m", "2h" on a full
/// hour, and just minutes ("0m", "59m") under an hour.
pub open spec fn spec_uptime_text(t: nat) -> Seq<char> {
    if t >= 3600 {
        if t % 3600 > 0 {
            spec_dec(t / 3600) + seq!['h', ' '] + spec_dec((t % 3600) / 60) + seq!['m']
        } else {
            spec_dec(t / 3600).push('h')
        }
    } else {
        spec_dec(t / 60).push('m')
    }
}

/// The window-manager text when `wmctrl` was not consulted or did not
/// answer: the session environment variables on Linux, else "unknown".
pub open spec fn spec_wm_fallback(
    os_type: Option<String>,
    xdg: Option<String>,
    desktop: Option<String>,
) -> Seq<char> {
    if spec_os_name(os_type) == "Linux"@ {
        match xdg {
            Some(x) => x@,
            None => match desktop {
                Some(d) => d@,
                None => "unknown"@,
            },
        }
    } else {
        "unknown"@
    }
}

/// The first line of `ls` (at or after `i`) that starts with
/// "Name: ", or `ls.len()` when there is none.
pub open spec fn find_name_line(ls: Seq<Seq<char>>, i: int) -> int
    decreases ls.len() - i,
{
    if i < 0 || i >= ls.len() {
        ls.len() as int
    } else if has_prefix(ls[i], "Name: "@) {
        i
    } else {
        find_name_line(ls, i + 1)
    }
}

proof fn lemma_find_name_line_is(ls: Seq<Seq<char>>, i: int, k: int)
    requires
        0 <= i <= k <= ls.len(),
        forall|j: int| i <= j < k ==> !has_prefix(#[trigger] ls[j], "Name: "@),
        k < ls.len() ==> has_prefix(ls[k], "Name: "@),
    ensures
        find_name_line(ls, i) == k,
    decreases k - i,
{
    if i < k {
        lemma_find_name_line_is(ls, i + 1, k);
    }
}

/// What `wmctrl -m` output means: the remainder of its first
/// "Name: " line, or "unknown" when no such line exists.
pub open spec fn spec_parse_wmctrl(out: Seq<char>) -> Seq<char> {
    let ls = spec_lines(out);
    let i = find_name_line(ls, 0);
    if i < ls.len() {
        ls[i].skip("Name: "@.len() as int)
    } else {
        "unknown"@
    }
}

/// The window-manager fact's text.
pub open spec fn spec_wm_text(facts: &RawFacts) -> Seq<char> {
    match facts.wmctrl_output {
        Some(o) => spec_parse_wmctrl(o@),
        None => spec_wm_fallback(facts.os_type, facts.xdg_session_desktop, facts.desktop_session),
    }
}

/// The shell fact's text: the shell's base name, or "unknown".
pub open spec fn spec_shell_text(shell_name: Option<String>) -> Seq<char> {
    match shell_name {
        Some(s) => s@,
        None => "unknown"@,
    }
}

/// The terminal fact's text: `TERM_PROGRAM` with a trailing ".app"
/// (as macOS reports it) removed, or "unknown".
pub open spec fn spec_terminal_text(term_program: Option<String>) -> Seq<char> {
    match term_program {
        Some(t) => if has_suffix(t@, ".app"@) {
            t@.take(t@.len() - ".app"@.len())
        } else {
            t@
        },
        None => "unknown"@,
    }
}

/// Whether `wmctrl` should be consulted for the window-manager fact:
/// only when the configuration asks for it and the utility is present.
pub fn should_use_wmctrl(conf: &Config, wmctrl_available: bool) -> (r: bool)
    ensures
        r == (conf.wm.use_wmctrl && wmctrl_available),
{
    conf.wm.use_wmctrl && wmctrl_available
}

fn os_name(os_type: &Option<String>) -> (r: &str)
    ensures
        r@ == spec_os_name(*os_type),
{
    match os_type {
        Some(s) => s.as_str(),
        None => "Unknown",
    }
}

/// The OS fact's display text.
pub fn os_text(os_type: &Option<String>, linux_release_id: &Option<String>) -> (r: String)
    ensures
        r@ == spec_os_text(*os_type, *linux_release_id),
{
    let os = os_name(os_type);
    if str_eq(os, "Linux") {
        match linux_release_id {
            Some(id) => id.clone(),
            None => "linux".to_owned(),
        }
    } else {
        lowercase(os)
    }
}

/// The OS fact's icon.
pub fn os_icon(os_type: &Option<String>) -> (r: String)
    ensures
        r@ == spec_os_icon(spec_os_name(*os_type)),
{
    let os = os_name(os_type);
    if str_eq(os, "Linux") {
        "\u{f83c}".to_owned()
    } else if str_eq(os, "Darwin") {
        "\u{f534}".to_owned()
    } else if str_eq(os, "Windows") {
        "\u{e70f}".to_owned()
    } else {
        "\u{eb7f}".to_owned()
    }
}

/// The version fact's display text.
pub fn version_text(os_release: &Option<String>) -> (r: String)
    ensures
        r@ == spec_version_text(*os_release),
{
    match os_release {
        Some(v) => {
            let cut = find_char(v.as_str(), '-');
            proof {
                crate::text::lemma_find_from(v@, '-', 0);
            }
            let r = v.as_str().substring_char(0, cut);
            r.to_owned()
        },
        None => "unknown".to_owned(),
    }
}

/// The uptime fact's display text for a known uptime.
pub fn uptime_text(secs: u64) -> (r: String)
    ensures
        r@ == spec_uptime_text(secs as nat),
{
    if secs >= 3600 {
        let mut r = u64_to_string(secs / 3600);
        r.push('h');
        if secs % 3600 > 0 {
            r.push(' ');
            let m = u64_to_string((secs % 3600) / 60);
            r.append(m.as_str());
            r.push('m');
            proof {
                assert(r@ =~= spec_dec((secs / 3600) as nat) + seq!['h', ' '] + spec_dec(
                    (((secs % 3600) as nat) / 60) as nat,
                ) + seq!['m']);
            }
        }
        r
    } else {
        let mut r = u64_to_string(secs / 60);
        r.push('m');
        r
    }
}

/// Extract the window-manager name from `wmctrl -m` output.
pub fn parse_wmctrl(out: &str) -> (r: String)
    ensures
        r@ == spec_parse_wmctrl(out@),
{
    let ls = split_lines(out);
    let ghost deep = ls.deep_view();
    let mut i: usize = 0;
    while i < ls.len()
        invariant
            deep == ls.deep_view(),
            deep == spec_lines(out@),
            deep.len() == ls@.len(),
            forall|j: int| 0 <= j < deep.len() ==> deep[j] == ls@[j]@,
            i <= ls@.len(),
            forall|j: int| 0 <= j < i ==> !has_prefix(#[trigger] deep[j], "Name: "@),
        decreases ls@.len() - i,
    {
        if str_starts_with(ls[i].as_str(), "Name: ") {
            proof {
                lemma_find_name_line_is(deep, 0, i as int);
                reveal_strlit("Name: ");
            }
            let line = ls[i].as_str();
            let p = "Name: ".unicode_len();
            let r = line.substring_char(p, line.unicode_len());
            proof {
                assert(r@ =~= deep[i as int].skip("Name: "@.len() as int));
            }
            return r.to_owned();
        }
        i = i + 1;
    }
    proof {
        lemma_find_name_line_is(deep, 0, deep.len() as int);
    }
    "unknown".to_owned()
}

/// The window-manager text when `wmctrl` did not answer.
pub fn wm_fallback(
    os_type: &Option<String>,
    xdg: &Option<String>,
    desktop: &Option<String>,
) -> (r: String)
    ensures
        r@ == spec_wm_fallback(*os_type, *xdg, *desktop),
{
    let os = os_name(os_type);
    if str_eq(os, "Linux") {
        match xdg {
            Some(x) => x.clone(),
            None => match desktop {
                Some(d) => d.clone(),
                None => "unknown".to_owned(),
            },
        }
    } else {
        "unknown".to_owned()
    }
}

/// The window-manager fact's display text.
pub fn wm_text(facts: &RawFacts) -> (r: String)
    ensures
        r@ == spec_wm_text(facts),
{
    match &facts.wmctrl_output {
        Some(o) => parse_wmctrl(o.as_str()),
        None => wm_fallback(&facts.os_type, &facts.xdg_session_desktop, &facts.desktop_session),
    }
}

/// The terminal fact's display text.
pub fn terminal_text(term_program: &Option<String>) -> (r: String)
    ensures
        r@ == spec_terminal_text(*term_program),
{
    match term_program {
        Some(t) => {
            if str_ends_with(t.as_str(), ".app") {
                proof {
                    reveal_strlit(".app");
                }
                let n = t.as_str().unicode_len();
                let r = t.as_str().substring_char(0, n - 4);
                r.to_owned()
            } else {
                t.clone()
            }
        },
        None => "unknown".to_owned(),
    }
}

/// The shell fact's display text.
pub fn shell_text(shell_name: &Option<String>) -> (r: String)
    ensures
        r@ == spec_shell_text(*shell_name),
{
    match shell_name {
        Some(s) => s.clone(),
        None => "unknown".to_owned(),
    }
}

/// What one fetched fact looks like, for every fact kind.
pub open spec fn spec_fetch_data(t: FetchType, conf: &Config, facts: &RawFacts) -> FetchDataView {
    match t {
        FetchType::Os => FetchDataView {
            label: "os"@,
            icon: spec_os_icon(spec_os_name(facts.os_type)),
            text: spec_os_text(facts.os_type, facts.linux_release_id),
        },
        FetchType::Version => FetchDataView {
            label: "version"@,
            icon: "\u{f824}"@,
            text: spec_version_text(facts.os_release),
        },
        FetchType::Uptime => FetchDataView {
            label: "uptime"@,
            icon: "\u{f64f}"@,
            text: match facts.uptime_seconds {
                Some(t) => spec_uptime_text(t as nat),
                None => "unknown"@,
            },
        },
        FetchType::Packages => FetchDataView {
            label: "packages"@,
            icon: "\u{f8d5}"@,
            text: spec_packages_text(
                facts.package_outputs.deep_view(),
                conf.packages.print_package_manager_names,
            ),
        },
        FetchType::Wm => FetchDataView { label: "wm"@, icon: "\u{f2d2}"@, text: spec_wm_text(facts) },
        FetchType::Shell => FetchDataView {
            label: "shell"@,
            icon: "\u{e7a2}"@,
            text: spec_shell_text(facts.shell_name),
        },
        FetchType::Terminal => FetchDataView {
            label: "terminal"@,
            icon: "\u{e795}"@,
            text: spec_terminal_text(facts.term_program),
        },
    }
}

impl FetchData {
    /// Produce the display line for one configured fact from the raw
    /// host facts.
    pub fn get(data: &FetchType, conf: &Config, facts: &RawFacts) -> (r: FetchData)
        ensures
            r@ == spec_fetch_data(*data, conf, facts),
    {
        match data {
            FetchType::Os => FetchData {
                label: "os".to_owned(),
                icon: os_icon(&facts.os_type),
                text: os_text(&facts.os_type, &facts.linux_release_id),
            },
            FetchType::Version => FetchData {
                label: "version".to_owned(),
                icon: "\u{f824}".to_owned(),
                text: version_text(&facts.os_release),
            },
            FetchType::Uptime => FetchData {
                label: "uptime".to_owned(),
                icon: "\u{f64f}".to_owned(),
                text: match facts.uptime_seconds {
                    Some(t) => uptime_text(t),
                    None => "unknown".to_owned(),
                },
            },
            FetchType::Packages => FetchData {
                label: "packages".to_owned(),
                icon: "\u{f8d5}".to_owned(),
                text: get_packages(
                    conf.packages.print_package_manager_names,
                    &facts.package_outputs,
                ),
            },
            FetchType::Wm => FetchData {
                label: "wm".to_owned(),
                icon: "\u{f2d2}".to_owned(),
                text: wm_text(facts),
            },
            FetchType::Shell => FetchData {
                label: "shell".to_owned(),
                icon: "\u{e7a2}".to_owned(),
                text: shell_text(&facts.shell_name),
            },
            FetchType::Terminal => FetchData {
                label: "terminal".to_owned(),
                icon: "\u{e795}".to_owned(),
                text: terminal_text(&facts.term_program),
            },
        }
    }
}

/// Produce the display lines for every configured fact, in the
/// configured order.
pub fn fetch_all(conf: &Config, facts: &RawFacts) -> (r: Vec<FetchData>)
    ensures
        r@.len() == conf.data@.len(),
        forall|i: int|
            0 <= i < r@.len() ==> #[trigger] r@[i]@ == spec_fetch_data(conf.data@[i], conf, facts),
{
    let mut r: Vec<FetchData> = Vec::new();
    let mut i: usize = 0;
    while i < conf.data.len()
        invariant
            i <= conf.data@.len(),
            r@.len() == i,
            forall|j: int|
                0 <= j < i ==> #[trigger] r@[j]@ == spec_fetch_data(conf.data@[j], conf, facts),
        decreases conf.data@.len() - i,
    {
        let d = FetchData::get(&conf.data[i], conf, facts);
        r.push(d);
        i = i + 1;
    }
    r
}

} // verus!
