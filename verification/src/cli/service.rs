//! The service that keeps the monitor running: how it is described to
//! `launchd`, and what the list of services says of it.

use crate::config::{join_path, joined};
use crate::text::{chars_of, contains, has, lines, lines_of, string_of, texts, words, words_of};
use std::path::PathBuf;
use vstd::prelude::*;

verus! {

/// The name under which the service is registered.
pub const PLIST_LABEL: &'static str = "com.kapptec.networkmonitor";

/// The service description up to the service's name.
pub const PLIST_HEAD: &'static str =
    "<?xml version=\"1.0\" encoding=\"UTF-8\"?>\n<!DOCTYPE plist PUBLIC \"-//Apple//DTD PLIST 1.0//EN\" \"http://www.apple.com/DTDs/PropertyList-1.0.dtd\">\n<plist version=\"1.0\">\n<dict>\n    <key>Label</key>\n    <string>";

/// The service description between the service's name and the program.
pub const PLIST_MIDDLE: &'static str =
    "</string>\n\n    <key>ProgramArguments</key>\n    <array>\n        <string>";

/// The service description after the program: the monitor is started in the
/// foreground, at login, and again whenever it stops; what it prints goes to
/// two files under `/tmp`.
pub const PLIST_TAIL: &'static str =
    "</string>\n        <string>start</string>\n        <string>--foreground</string>\n    </array>\n\n    <key>RunAtLoad</key>\n    <true/>\n\n    <key>KeepAlive</key>\n    <true/>\n\n    <key>StandardOutPath</key>\n    <string>/tmp/networkmonitor.out.log</string>\n\n    <key>StandardErrorPath</key>\n    <string>/tmp/networkmonitor.err.log</string>\n\n    <key>EnvironmentVariables</key>\n    <dict>\n        <key>RUST_LOG</key>\n        <string>info</string>\n    </dict>\n</dict>\n</plist>\n";

/// The service description for the program at `binary`.
pub open spec fn plist_of(binary: Seq<char>) -> Seq<char> {
    PLIST_HEAD@ + PLIST_LABEL@ + PLIST_MIDDLE@ + binary + PLIST_TAIL@
}

/// The service description for the program at `binary` (see `plist_of`).
pub fn generate_plist(binary: &str) -> (r: String)
    ensures
        r@ == plist_of(binary@),
{
    let mut r = PLIST_HEAD.to_owned();
    r.append(PLIST_LABEL);
    r.append(PLIST_MIDDLE);
    r.append(binary);
    r.append(PLIST_TAIL);
    r
}

/// Calls `dirs::home_dir`: the current user's home directory, or `None`
/// where none can be found. The result depends on the user's environment, so
/// nothing is claimed of it.
#[verifier::external_body]
fn home_directory() -> (r: Option<PathBuf>) {
    dirs::home_dir()
}

/// The file that holds the service description, given the user's home
/// directory: `Library/LaunchAgents` below it, and there the file named
/// after the service, with the ending `.plist`.
pub open spec fn plist_path_under(home: Option<PathBuf>) -> Option<PathBuf> {
    match home {
        Some(dir) => Some(
            joined(joined(dir, "Library/LaunchAgents"@), PLIST_LABEL@ + ".plist"@),
        ),
        None => None,
    }
}

/// The file that holds the service description below the home directory
/// `home` (see `plist_path_under`).
pub fn plist_path_in(home: Option<PathBuf>) -> (r: Option<PathBuf>)
    ensures
        r == plist_path_under(home),
{
    match home {
        Some(dir) => {
            let mut name = PLIST_LABEL.to_owned();
            name.append(".plist");
            Some(join_path(&join_path(&dir, "Library/LaunchAgents"), name.as_str()))
        },
        None => None,
    }
}

/// The file that holds the service description of the current user, or
/// `None` where the user has no home directory.
pub fn plist_path() -> (r: Option<PathBuf>)
    ensures
        exists|home: Option<PathBuf>| r == plist_path_under(home),
{
    plist_path_in(home_directory())
}

/// What the list of services says of the monitor's service.
#[derive(Debug)]
pub enum ServiceStatus {
    /// The list does not name the service.
    NotRunning,
    /// The list names the service; `pid` is the process it runs as, where the
    /// list gives one.
    Running { pid: Option<String> },
}

/// The view of a `ServiceStatus`.
pub enum ServiceStatusView {
    NotRunning,
    Running { pid: Option<Seq<char>> },
}

impl View for ServiceStatus {
    type V = ServiceStatusView;

    open spec fn view(&self) -> ServiceStatusView {
        match self {
            ServiceStatus::NotRunning => ServiceStatusView::NotRunning,
            ServiceStatus::Running { pid } => ServiceStatusView::Running { pid: pid.deep_view() },
        }
    }
}

/// The process that a line of the list of services gives: the line's first
/// word, unless that is `-`.
pub open spec fn pid_of_line(line: Seq<char>) -> Option<Seq<char>> {
    let parts = words_of(line);
    if parts.len() > 0 && parts[0] != "-"@ {
        Some(parts[0])
    } else {
        None
    }
}

/// What the lines of the list of services say of the monitor's service: the
/// first line that names the service decides.
pub open spec fn status_of_lines(lines: Seq<Seq<char>>) -> ServiceStatusView
    decreases lines.len(),
{
    if lines.len() == 0 {
        ServiceStatusView::NotRunning
    } else if has(lines[0], PLIST_LABEL@) {
        ServiceStatusView::Running { pid: pid_of_line(lines[0]) }
    } else {
        status_of_lines(lines.drop_first())
    }
}

/// What the list of services `listing` says of the monitor's service (see
/// `status_of_lines`).
pub fn read_service_list(listing: &str) -> (r: ServiceStatus)
    ensures
        r@ == status_of_lines(lines_of(listing@)),
{
    let all = lines(&chars_of(listing));
    let label = chars_of(PLIST_LABEL);
    let dash = chars_of("-");
    let mut i: usize = 0;
    assert(texts(all@).skip(0) =~= texts(all@));
    while i < all.len()
        invariant
            i <= all.len(),
            label@ == PLIST_LABEL@,
            dash@ == "-"@,
            texts(all@) == lines_of(listing@),
            status_of_lines(texts(all@)) == status_of_lines(texts(all@).skip(i as int)),
        decreases all.len() - i,
    {
        proof {
            let rest = texts(all@).skip(i as int);
            assert(rest.drop_first() =~= texts(all@).skip(i + 1));
        }
        if contains(&all[i], &label) {
            let parts = words(&all[i]);
            if parts.len() > 0 {
                if !crate::text::same_chars(&parts[0], &dash) {
                    return ServiceStatus::Running { pid: Some(string_of(&parts[0])) };
                }
            }
            return ServiceStatus::Running { pid: None };
        }
        i += 1;
    }
    ServiceStatus::NotRunning
}

} // verus!
