use awake::escape::xml_escape;
use awake::login_item::{
    launch_agent_path, launch_agents_dir, launch_at_login_change, plist_contents,
    toggle_launch_at_login, LoginItemChange,
};

#[test]
fn escape_replaces_each_reserved_character() {
    assert_eq!(
        xml_escape("a&b<c>d\"e'f"),
        "a&amp;b&lt;c&gt;d&quot;e&apos;f"
    );
}

#[test]
fn escape_keeps_plain_text() {
    assert_eq!(xml_escape(""), "");
    assert_eq!(xml_escape("/Applications/Awake.app"), "/Applications/Awake.app");
    assert_eq!(xml_escape("/Users/zoë/Café"), "/Users/zoë/Café");
}

#[test]
fn escape_handles_runs_of_reserved_characters() {
    assert_eq!(xml_escape("&&"), "&amp;&amp;");
    assert_eq!(xml_escape("<x>"), "&lt;x&gt;");
    assert_eq!(xml_escape("&amp;"), "&amp;amp;");
}

#[test]
fn agent_path_under_home() {
    assert_eq!(launch_agents_dir("/Users/me"), "/Users/me/Library/LaunchAgents");
    assert_eq!(
        launch_agent_path("/Users/me"),
        "/Users/me/Library/LaunchAgents/io.tmss.awake.plist"
    );
    assert_eq!(
        launch_agent_path("/Users/me/"),
        "/Users/me/Library/LaunchAgents/io.tmss.awake.plist"
    );
    assert_eq!(launch_agent_path(""), "Library/LaunchAgents/io.tmss.awake.plist");
}

#[test]
fn plist_holds_label_and_escaped_program() {
    let text = plist_contents("/Apps/A&B <x>.app/awake");
    let expected = "<?xml version=\"1.0\" encoding=\"UTF-8\"?>
<!DOCTYPE plist PUBLIC \"-//Apple//DTD PLIST 1.0//EN\" \"http://www.apple.com/DTDs/PropertyList-1.0.dtd\">
<plist version=\"1.0\">
<dict>
    <key>Label</key>
    <string>io.tmss.awake</string>
    <key>ProgramArguments</key>
    <array>
        <string>/Apps/A&amp;B &lt;x&gt;.app/awake</string>
    </array>
    <key>RunAtLoad</key>
    <true/>
</dict>
</plist>
";
    assert_eq!(text, expected);
}

#[test]
fn enabling_installs_the_agent() {
    match launch_at_login_change(true, Some("/Users/me"), "/Apps/awake") {
        Some(LoginItemChange::Install { dir, path, contents }) => {
            assert_eq!(dir, "/Users/me/Library/LaunchAgents");
            assert_eq!(path, "/Users/me/Library/LaunchAgents/io.tmss.awake.plist");
            assert_eq!(contents, plist_contents("/Apps/awake"));
            assert!(contents.contains("<string>/Apps/awake</string>"));
        }
        _ => panic!("expected an install"),
    }
}

#[test]
fn disabling_removes_the_agent() {
    match launch_at_login_change(false, Some("/Users/me"), "/Apps/awake") {
        Some(LoginItemChange::Remove { path }) => {
            assert_eq!(path, "/Users/me/Library/LaunchAgents/io.tmss.awake.plist");
        }
        _ => panic!("expected a removal"),
    }
}

#[test]
fn nothing_without_home_or_program() {
    assert!(launch_at_login_change(true, None, "/Apps/awake").is_none());
    assert!(launch_at_login_change(false, None, "/Apps/awake").is_none());
    assert!(launch_at_login_change(true, Some("/Users/me"), "").is_none());
    assert!(matches!(
        launch_at_login_change(false, Some("/Users/me"), ""),
        Some(LoginItemChange::Remove { .. })
    ));
}

#[test]
fn toggling_flips_the_installed_state() {
    assert!(matches!(
        toggle_launch_at_login(false, Some("/h"), "/p"),
        Some(LoginItemChange::Install { .. })
    ));
    assert!(matches!(
        toggle_launch_at_login(true, Some("/h"), "/p"),
        Some(LoginItemChange::Remove { .. })
    ));
    assert!(toggle_launch_at_login(true, None, "/p").is_none());
}
