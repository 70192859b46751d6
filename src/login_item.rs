use vstd::prelude::*;
use vstd::string::*;

use crate::escape::{xml_escape, xml_escaped};

verus! {

/// Identifier of the launch agent, and the stem of its file name.
pub const LAUNCH_AGENT_LABEL: &'static str = "io.tmss.awake";

/// Where launch agents live, relative to the home directory.
pub const LAUNCH_AGENTS_SUBDIR: &'static str = "Library/LaunchAgents";

/// Extension of the launch-agent file.
pub const PLIST_EXTENSION: &'static str = ".plist";

/// The descriptor up to the label.
pub const PLIST_HEAD: &'static str = "<?xml version=\"1.0\" encoding=\"UTF-8\"?>\n<!DOCTYPE plist PUBLIC \"-//Apple//DTD PLIST 1.0//EN\" \"http://www.apple.com/DTDs/PropertyList-1.0.dtd\">\n<plist version=\"1.0\">\n<dict>\n    <key>Label</key>\n    <string>";

/// The descriptor between the label and the program path.
pub const PLIST_MIDDLE: &'static str = "</string>\n    <key>ProgramArguments</key>\n    <array>\n        <string>";

/// The descriptor after the program path.
pub const PLIST_TAIL: &'static str = "</string>\n    </array>\n    <key>RunAtLoad</key>\n    <true/>\n</dict>\n</plist>\n";

/// `home` followed by a separator, unless it is empty or already ends in one.
pub open spec fn home_prefix(home: Seq<char>) -> Seq<char> {
    if home.len() == 0 || home.last() == '/' {
        home
    } else {
        home.push('/')
    }
}

/// The directory that holds the launch agents of the user whose home is `home`.
pub open spec fn agents_dir(home: Seq<char>) -> Seq<char> {
    home_prefix(home) + LAUNCH_AGENTS_SUBDIR@
}

/// The path of this program's launch agent under `home`.
pub open spec fn agent_path(home: Seq<char>) -> Seq<char> {
    agents_dir(home) + "/"@ + LAUNCH_AGENT_LABEL@ + PLIST_EXTENSION@
}

/// The launch agent that starts the program at `program` when the user logs in.
pub open spec fn plist_text(program: Seq<char>) -> Seq<char> {
    PLIST_HEAD@ + LAUNCH_AGENT_LABEL@ + PLIST_MIDDLE@ + xml_escaped(program) + PLIST_TAIL@
}

/// The directory that holds the launch agents of the user whose home is `home`.
pub fn launch_agents_dir(home: &str) -> (r: String)
    ensures
        r@ == agents_dir(home@),
{
    let n = home.unicode_len();
    let mut r = String::from_str(home);
    if n > 0 && home.get_char(n - 1) != '/' {
        r.append("/");
        proof {
            reveal_strlit("/");
        }
        assert(r@ =~= home_prefix(home@));
    }
    r.append(LAUNCH_AGENTS_SUBDIR);
    r
}

/// The path of this program's launch agent under `home`.
pub fn launch_agent_path(home: &str) -> (r: String)
    ensures
        r@ == agent_path(home@),
{
    let mut r = launch_agents_dir(home);
    r.append("/");
    r.append(LAUNCH_AGENT_LABEL);
    r.append(PLIST_EXTENSION);
    r
}

/// The launch-agent property list for the program at `program`; the path is
/// escaped for XML.
pub fn plist_contents(program: &str) -> (r: String)
    ensures
        r@ == plist_text(program@),
{
    let mut r = String::from_str(PLIST_HEAD);
    r.append(LAUNCH_AGENT_LABEL);
    r.append(PLIST_MIDDLE);
    let escaped = xml_escape(program);
    r.append(escaped.as_str());
    r.append(PLIST_TAIL);
    r
}

/// A change to the file system that turns launching at login on or off.
pub enum LoginItemChange {
    /// Create `dir` if missing and write `contents` to `path`.
    Install { dir: String, path: String, contents: String },
    /// Remove `path`; a file already gone is no failure.
    Remove { path: String },
}

/// The change that makes launching at login `enable`d, for the user whose
/// home directory is `home` and the program at `program`. Nothing can be done
/// without a home directory, and nothing is installed for an unknown program
/// (an empty path).
pub fn launch_at_login_change(enable: bool, home: Option<&str>, program: &str) -> (r: Option<
    LoginItemChange,
>)
    ensures
        home is None ==> r is None,
        home is Some && enable && program@.len() == 0 ==> r is None,
        home is Some && enable && program@.len() > 0 ==> (r matches Some(
            LoginItemChange::Install { dir, path, contents },
        ) && dir@ == agents_dir(home->0@) && path@ == agent_path(home->0@) && contents@ == plist_text(
            program@,
        )),
        home is Some && !enable ==> (r matches Some(LoginItemChange::Remove { path })
            && path@ == agent_path(home->0@)),
{
    match home {
        None => None,
        Some(h) => {
            if enable {
                if program.unicode_len() == 0 {
                    None
                } else {
                    Some(
                        LoginItemChange::Install {
                            dir: launch_agents_dir(h),
                            path: launch_agent_path(h),
                            contents: plist_contents(program),
                        },
                    )
                }
            } else {
                Some(LoginItemChange::Remove { path: launch_agent_path(h) })
            }
        },
    }
}

/// The change that flips launching at login, given whether the launch agent
/// is installed now.
pub fn toggle_launch_at_login(installed: bool, home: Option<&str>, program: &str) -> (r: Option<
    LoginItemChange,
>)
    ensures
        home is None ==> r is None,
        home is Some && !installed && program@.len() == 0 ==> r is None,
        home is Some && !installed && program@.len() > 0 ==> (r matches Some(
            LoginItemChange::Install { dir, path, contents },
        ) && dir@ == agents_dir(home->0@) && path@ == agent_path(home->0@) && contents@ == plist_text(
            program@,
        )),
        home is Some && installed ==> (r matches Some(LoginItemChange::Remove { path })
            && path@ == agent_path(home->0@)),
{
    launch_at_login_change(!installed, home, program)
}

} // verus!
