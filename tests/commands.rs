use bgm_controller::command::{
    array_of, click_command, inject_command, navigate_command, object_of, quoted,
    resize_command, results_document, set_rules_command, sync_script_command, tab_command,
    target_text, type_command, CommandError, InjectRequest, TabAction, TabTarget,
};
use bgm_controller::config::{Config, DEFAULT_PORT};
use bgm_controller::store::{Rule, Script};

#[test]
fn inject_command_text() {
    let req = InjectRequest { tab_id: TabTarget::Id(5), script: "alert(1)".to_string() };
    assert_eq!(
        inject_command(&req),
        "{\"type\":\"inject\",\"tabId\":5,\"script\":\"alert(1)\"}"
    );
    let all = InjectRequest { tab_id: TabTarget::Name("all".to_string()), script: "x".to_string() };
    assert_eq!(
        inject_command(&all),
        "{\"type\":\"inject\",\"tabId\":\"all\",\"script\":\"x\"}"
    );
}

#[test]
fn strings_are_escaped() {
    assert_eq!(quoted("a\"b\\c\n"), "\"a\\\"b\\\\c\\n\"");
    assert_eq!(quoted("\u{1}\u{8}\u{1f}é/"), "\"\\u0001\\b\\u001fé/\"");
    assert_eq!(target_text(&TabTarget::Id(-42)), "-42");
    assert_eq!(target_text(&TabTarget::Id(0)), "0");
    assert_eq!(target_text(&TabTarget::Id(1234567890)), "1234567890");
    assert_eq!(target_text(&TabTarget::Id(i64::MIN)), "-9223372036854775808");
    assert_eq!(target_text(&TabTarget::Id(i64::MAX)), "9223372036854775807");
}

#[test]
fn navigate_defaults() {
    assert_eq!(
        navigate_command(None, None),
        "{\"type\":\"navigate\",\"tabId\":\"active\",\"url\":\"https://google.com\"}"
    );
    assert_eq!(
        navigate_command(Some(TabTarget::Name("new".to_string())), Some("about:blank".to_string())),
        "{\"type\":\"navigate\",\"tabId\":\"new\",\"url\":\"about:blank\"}"
    );
}

#[test]
fn click_needs_a_selector() {
    assert_eq!(
        click_command(None, None),
        Err(CommandError::MissingField("selector".to_string()))
    );
    assert_eq!(
        click_command(Some(TabTarget::Id(3)), Some("#go".to_string())).unwrap(),
        "{\"type\":\"click\",\"tabId\":3,\"selector\":\"#go\"}"
    );
}

#[test]
fn sync_script_text() {
    let s = Script { id: "a".to_string(), content: "x()".to_string(), path: "a.js".to_string() };
    let text = sync_script_command(&s);
    assert_eq!(text, "{\"type\":\"sync_script\",\"id\":\"a\",\"content\":\"x()\",\"path\":\"a.js\"}");
    let v: serde_json::Value = serde_json::from_str(&text).unwrap();
    assert_eq!(v["content"], "x()");
}

#[test]
fn set_rules_text() {
    let rules = vec![
        Rule { id: "1".to_string(), pattern: "p".to_string(), script: "s".to_string(), enabled: true },
        Rule { id: "2".to_string(), pattern: "q".to_string(), script: "t".to_string(), enabled: false },
    ];
    assert_eq!(
        set_rules_command(&rules),
        "{\"type\":\"set_rules\",\"rules\":[{\"id\":\"1\",\"pattern\":\"p\",\"script\":\"s\",\"enabled\":true},{\"id\":\"2\",\"pattern\":\"q\",\"script\":\"t\",\"enabled\":false}]}"
    );
    assert_eq!(set_rules_command(&vec![]), "{\"type\":\"set_rules\",\"rules\":[]}");
}

#[test]
fn arrays_objects_and_results() {
    assert_eq!(array_of(&vec![]), "[]");
    assert_eq!(array_of(&vec!["1".to_string(), "{}".to_string()]), "[1,{}]");
    assert_eq!(object_of(&vec![]), "{}");
    assert_eq!(object_of(&vec![("a".to_string(), "1".to_string())]), "{\"a\":1}");
    assert_eq!(
        results_document(&vec!["{\"ok\":true}".to_string()]),
        "{\"results\":[{\"ok\":true}]}"
    );
}

#[test]
fn config_defaults() {
    let c = Config::default();
    assert_eq!(c.port, DEFAULT_PORT);
    assert_eq!(c.port, 58421);
    assert_eq!(c.agents_dir, "./agents");
}

#[test]
fn tab_actions() {
    assert_eq!(
        tab_command(TabAction::Capture, None),
        "{\"type\":\"capture\",\"tabId\":\"active\"}"
    );
    assert_eq!(
        tab_command(TabAction::GetHtml, Some(TabTarget::Id(9))),
        "{\"type\":\"get_html\",\"tabId\":9}"
    );
}

#[test]
fn resize_defaults_to_1280_by_800() {
    assert_eq!(
        resize_command(None, None, None),
        "{\"type\":\"resize\",\"tabId\":\"active\",\"width\":1280,\"height\":800}"
    );
    assert_eq!(
        resize_command(Some(TabTarget::Id(2)), Some(640), None),
        "{\"type\":\"resize\",\"tabId\":2,\"width\":640,\"height\":800}"
    );
}

#[test]
fn type_needs_selector_and_text() {
    assert_eq!(
        type_command(None, None, Some("hi".to_string())),
        Err(CommandError::MissingField("selector".to_string()))
    );
    assert_eq!(
        type_command(None, Some("#q".to_string()), None),
        Err(CommandError::MissingField("text".to_string()))
    );
    assert_eq!(
        type_command(None, Some("#q".to_string()), Some("hi".to_string())).unwrap(),
        "{\"type\":\"type\",\"tabId\":\"active\",\"selector\":\"#q\",\"text\":\"hi\"}"
    );
}
