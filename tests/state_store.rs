use bgm_controller::message::MessageKind;
use bgm_controller::store::{Rule, Script, StateStore, TabInfo, RESULT_CAPACITY};

fn tab(id: i32) -> TabInfo {
    TabInfo { id: Some(id), url: Some(format!("https://example.com/{}", id)), title: None }
}

#[test]
fn result_ring_keeps_newest_hundred() {
    let mut s = StateStore::new();
    for i in 0..150 {
        s.append_result(format!("{{\"n\":{}}}", i));
    }
    let r = s.results();
    assert_eq!(RESULT_CAPACITY, 100);
    assert_eq!(r.len(), 100);
    for (k, text) in r.iter().enumerate() {
        assert_eq!(text, &format!("{{\"n\":{}}}", k + 50));
    }
}

#[test]
fn result_ring_below_capacity_keeps_all() {
    let mut s = StateStore::new();
    for i in 0..3 {
        s.append_result(i.to_string());
    }
    assert_eq!(s.results(), vec!["0", "1", "2"]);
}

#[test]
fn tab_reports_replace_wholesale() {
    let mut s = StateStore::new();
    s.apply_report(MessageKind::Tabs, Some(vec![tab(1)]), String::new());
    s.apply_report(MessageKind::Tabs, Some(vec![tab(2)]), String::new());
    let tabs = s.tabs();
    assert_eq!(tabs.len(), 1);
    assert_eq!(tabs[0].id, Some(2));
    assert_eq!(tabs[0].url.as_deref(), Some("https://example.com/2"));
}

#[test]
fn unreadable_tab_report_is_ignored() {
    let mut s = StateStore::new();
    s.replace_tabs(vec![tab(1), tab(3)]);
    s.apply_report(MessageKind::Tabs, None, "{\"type\":\"tabs\",\"tabs\":5}".to_string());
    assert_eq!(s.tabs().len(), 2);
    assert!(s.results().is_empty());
}

#[test]
fn unknown_and_audit_messages_change_nothing() {
    let mut s = StateStore::new();
    s.replace_tabs(vec![tab(4)]);
    s.apply_report(MessageKind::Other, Some(vec![]), "{\"type\":\"unknown_xyz\"}".to_string());
    s.apply_report(MessageKind::AuditLog, None, "{\"type\":\"audit_log\"}".to_string());
    assert_eq!(s.tabs().len(), 1);
    assert!(s.results().is_empty());
    assert!(s.scripts().is_empty());
    assert!(s.rules().is_empty());
}

#[test]
fn result_kinds_go_to_history() {
    let mut s = StateStore::new();
    s.apply_report(MessageKind::InjectionResult, None, "a".to_string());
    s.apply_report(MessageKind::HtmlResult, None, "b".to_string());
    s.apply_report(MessageKind::CaptureResult, None, "c".to_string());
    assert_eq!(s.results(), vec!["a", "b", "c"]);
}

#[test]
fn scripts_upsert_by_id() {
    let mut s = StateStore::new();
    let mk = |id: &str, content: &str| Script {
        id: id.to_string(),
        content: content.to_string(),
        path: format!("{}.js", id),
    };
    s.upsert_script(mk("a", "1"));
    s.upsert_script(mk("b", "2"));
    s.upsert_script(mk("a", "3"));
    let scripts = s.scripts();
    assert_eq!(scripts.len(), 2);
    assert_eq!(scripts[0].id, "a");
    assert_eq!(scripts[0].content, "3");
    assert_eq!(scripts[1].id, "b");
    assert_eq!(scripts[1].content, "2");
}

#[test]
fn rules_are_replaced() {
    let mut s = StateStore::new();
    let rule = Rule {
        id: "r".to_string(),
        pattern: "*://x/*".to_string(),
        script: "a".to_string(),
        enabled: true,
    };
    s.replace_rules(vec![rule.duplicate(), rule]);
    s.replace_rules(vec![]);
    assert!(s.rules().is_empty());
}
