//! Commands for the peer, written as JSON objects whose first member is
//! `type`. Request fields are copied over, with defaults where a field may
//! be left out.

use vstd::prelude::*;
use crate::json::{json_quoted, quote};
use crate::store::{Rule, Script};

verus! {

/// Which tab a command is for: a tab id, or a name the peer knows such as
/// `active`, `new` or `all`.
#[derive(Clone, Debug)]
pub enum TabTarget {
    Id(i64),
    Name(String),
}

/// A request to run a script in a tab.
#[derive(Clone, Debug)]
pub struct InjectRequest {
    pub tab_id: TabTarget,
    pub script: String,
}

/// Why a command could not be written.
#[derive(Clone, Debug, PartialEq, Eq)]
pub enum CommandError {
    /// A field the command cannot do without was not given.
    MissingField(String),
}

/// The decimal digits of `n`.
pub open spec fn digits(n: nat) -> Seq<char>
    decreases n,
{
    let d = seq!['0', '1', '2', '3', '4', '5', '6', '7', '8', '9'][(n % 10) as int];
    if n < 10 {
        seq![d]
    } else {
        digits(n / 10).push(d)
    }
}

/// `n` in decimal, with a leading minus sign when negative.
pub open spec fn decimal(n: int) -> Seq<char> {
    if n < 0 {
        seq!['-'] + digits((-n) as nat)
    } else {
        digits(n as nat)
    }
}

/// The one-character text of the digit `d`.
fn digit_str(d: u64) -> (r: &'static str)
    requires
        d < 10,
    ensures
        r@ == seq![seq!['0', '1', '2', '3', '4', '5', '6', '7', '8', '9'][d as int]],
{
    proof {
        reveal_strlit("0");
        reveal_strlit("1");
        reveal_strlit("2");
        reveal_strlit("3");
        reveal_strlit("4");
        reveal_strlit("5");
        reveal_strlit("6");
        reveal_strlit("7");
        reveal_strlit("8");
        reveal_strlit("9");
    }
    let r = match d {
        0 => "0",
        1 => "1",
        2 => "2",
        3 => "3",
        4 => "4",
        5 => "5",
        6 => "6",
        7 => "7",
        8 => "8",
        _ => "9",
    };
    assert(r@ =~= seq![seq!['0', '1', '2', '3', '4', '5', '6', '7', '8', '9'][d as int]]);
    r
}

/// Appends the decimal digits of `n`.
fn push_digits(n: u64, out: &mut String)
    ensures
        final(out)@ == old(out)@ + digits(n as nat),
    decreases n,
{
    if n >= 10 {
        push_digits(n / 10, out);
    }
    out.append(digit_str(n % 10));
    assert(final(out)@ =~= old(out)@ + digits(n as nat));
}

/// `n` in decimal, with a leading minus sign when negative.
fn decimal_text(n: i64) -> (r: String)
    ensures
        r@ == decimal(n as int),
{
    let mut out = String::new();
    if n < 0 {
        proof {
            reveal_strlit("-");
        }
        out.append("-");
        let m: u64 = (0i128 - n as i128) as u64;
        push_digits(m, &mut out);
    } else {
        push_digits(n as u64, &mut out);
    }
    assert(out@ =~= decimal(n as int));
    out
}

/// The JSON that names a tab target.
pub open spec fn target_json(t: TabTarget) -> Seq<char> {
    match t {
        TabTarget::Id(n) => decimal(n as int),
        TabTarget::Name(s) => json_quoted(s@),
    }
}

/// One `"key":value` member.
pub open spec fn member_text(key: Seq<char>, value: Seq<char>) -> Seq<char> {
    seq!['"'] + key + seq!['"', ':'] + value
}

/// Members separated by commas.
pub open spec fn members_text(m: Seq<(Seq<char>, Seq<char>)>) -> Seq<char>
    decreases m.len(),
{
    if m.len() == 0 {
        Seq::empty()
    } else if m.len() == 1 {
        member_text(m[0].0, m[0].1)
    } else {
        members_text(m.drop_last()) + seq![','] + member_text(m.last().0, m.last().1)
    }
}

/// An object with the given members, in order.
pub open spec fn object_text(m: Seq<(Seq<char>, Seq<char>)>) -> Seq<char> {
    seq!['{'] + members_text(m) + seq!['}']
}

/// The members of a list of key and value texts.
pub open spec fn members_view(m: Seq<(String, String)>) -> Seq<(Seq<char>, Seq<char>)> {
    m.map_values(|p: (String, String)| (p.0@, p.1@))
}

/// Writes an object from keys and the JSON text of their values, in order.
/// Keys are written as they are, so they hold no quote or backslash.
pub fn object_of(members: &Vec<(String, String)>) -> (r: String)
    ensures
        r@ == object_text(members_view(members@)),
{
    let mut out = String::from_str("{");
    let mut i: usize = 0;
    proof {
        reveal_strlit("{");
        assert(members_view(members@.subrange(0, 0)).len() == 0);
        assert(out@ =~= seq!['{'] + members_text(members_view(members@.subrange(0, 0))));
    }
    while i < members.len()
        invariant
            i <= members@.len(),
            out@ == seq!['{'] + members_text(members_view(members@.subrange(0, i as int))),
        decreases members@.len() - i,
    {
        proof {
            reveal_strlit("{");
            reveal_strlit(",");
            reveal_strlit("\"");
            reveal_strlit("\":");
        }
        if i > 0 {
            out.append(",");
        }
        out.append("\"");
        out.append(members[i].0.as_str());
        out.append("\":");
        out.append(members[i].1.as_str());
        proof {
            let s = members_view(members@.subrange(0, i + 1));
            assert(s.drop_last() =~= members_view(members@.subrange(0, i as int)));
            assert(s.last() == (members@[i as int].0@, members@[i as int].1@));
            if i == 0 {
                assert(s.len() == 1);
            }
        }
        i += 1;
        assert(out@ =~= seq!['{'] + members_text(members_view(members@.subrange(0, i as int))));
    }
    proof {
        reveal_strlit("}");
        assert(members@.subrange(0, members@.len() as int) =~= members@);
    }
    out.append("}");
    out
}

/// Items separated by commas, in brackets.
pub open spec fn array_text(items: Seq<Seq<char>>) -> Seq<char> {
    seq!['['] + joined(items) + seq![']']
}

/// Items separated by commas.
pub open spec fn joined(items: Seq<Seq<char>>) -> Seq<char>
    decreases items.len(),
{
    if items.len() == 0 {
        Seq::empty()
    } else if items.len() == 1 {
        items[0]
    } else {
        joined(items.drop_last()) + seq![','] + items.last()
    }
}

/// The texts of a list of strings.
pub open spec fn texts(items: Seq<String>) -> Seq<Seq<char>> {
    items.map_values(|s: String| s@)
}

/// Writes a JSON array from the JSON text of its items, in order.
pub fn array_of(items: &Vec<String>) -> (r: String)
    ensures
        r@ == array_text(texts(items@)),
{
    let mut out = String::from_str("[");
    let mut i: usize = 0;
    proof {
        reveal_strlit("[");
        assert(out@ =~= seq!['['] + joined(texts(items@.subrange(0, 0))));
    }
    while i < items.len()
        invariant
            i <= items@.len(),
            out@ == seq!['['] + joined(texts(items@.subrange(0, i as int))),
        decreases items@.len() - i,
    {
        proof {
            reveal_strlit(",");
        }
        if i > 0 {
            out.append(",");
        }
        out.append(items[i].as_str());
        proof {
            let s = texts(items@.subrange(0, i + 1));
            assert(s.drop_last() =~= texts(items@.subrange(0, i as int)));
        }
        i += 1;
        assert(out@ =~= seq!['['] + joined(texts(items@.subrange(0, i as int))));
    }
    proof {
        reveal_strlit("]");
        assert(items@.subrange(0, items@.len() as int) =~= items@);
    }
    out.append("]");
    out
}

/// A string as a JSON literal.
pub fn quoted(s: &str) -> (r: String)
    ensures
        r@ == json_quoted(s@),
{
    match quote(s) {
        Ok(q) => q,
        // never taken: writing a string cannot fail
        Err(_) => String::new(),
    }
}

/// The JSON that names a tab target.
pub fn target_text(t: &TabTarget) -> (r: String)
    ensures
        r@ == target_json(*t),
{
    match t {
        TabTarget::Id(n) => decimal_text(*n),
        TabTarget::Name(s) => quoted(s.as_str()),
    }
}

/// The text of an object with members of the given keys and value texts.
pub open spec fn object3(
    k1: Seq<char>,
    v1: Seq<char>,
    k2: Seq<char>,
    v2: Seq<char>,
    k3: Seq<char>,
    v3: Seq<char>,
) -> Seq<char> {
    object_text(seq![(k1, v1), (k2, v2), (k3, v3)])
}

/// Writes an object of three members.
fn object3_of(k1: &str, v1: String, k2: &str, v2: String, k3: &str, v3: String) -> (r: String)
    ensures
        r@ == object3(k1@, v1@, k2@, v2@, k3@, v3@),
{
    let mut m: Vec<(String, String)> = Vec::new();
    m.push((String::from_str(k1), v1));
    m.push((String::from_str(k2), v2));
    m.push((String::from_str(k3), v3));
    assert(members_view(m@) =~= seq![(k1@, v1@), (k2@, v2@), (k3@, v3@)]);
    object_of(&m)
}

/// The `inject` command for a request: its target and its script.
pub fn inject_command(req: &InjectRequest) -> (r: String)
    ensures
        r@ == object3(
            "type"@,
            "\"inject\""@,
            "tabId"@,
            target_json(req.tab_id),
            "script"@,
            json_quoted(req.script@),
        ),
{
    let target = target_text(&req.tab_id);
    let script = quoted(req.script.as_str());
    object3_of("type", String::from_str("\"inject\""), "tabId", target, "script", script)
}

/// The `navigate` command: to `url` in tab `tab`; the active tab and
/// `https://google.com` where they are left out.
pub fn navigate_command(tab: Option<TabTarget>, url: Option<String>) -> (r: String)
    ensures
        r@ == object3(
            "type"@,
            "\"navigate\""@,
            "tabId"@,
            match tab {
                Some(x) => target_json(x),
                None => json_quoted("active"@),
            },
            "url"@,
            json_quoted(
                match url {
                    Some(u) => u@,
                    None => "https://google.com"@,
                },
            ),
        ),
{
    let target = match tab {
        Some(x) => target_text(&x),
        None => quoted("active"),
    };
    let url_text = match url {
        Some(u) => quoted(u.as_str()),
        None => quoted("https://google.com"),
    };
    object3_of("type", String::from_str("\"navigate\""), "tabId", target, "url", url_text)
}

/// The `click` command on `selector` in tab `tab` (the active tab when left
/// out). The selector has no default: without it the command is refused.
pub fn click_command(tab: Option<TabTarget>, selector: Option<String>) -> (r: Result<
    String,
    CommandError,
>)
    ensures
        selector is None ==> (r matches Err(CommandError::MissingField(f)) && f@ == "selector"@),
        selector matches Some(sel) ==> {
            &&& r is Ok
            &&& r->Ok_0@ == object3(
                "type"@,
                "\"click\""@,
                "tabId"@,
                match tab {
                    Some(x) => target_json(x),
                    None => json_quoted("active"@),
                },
                "selector"@,
                json_quoted(sel@),
            )
        },
{
    let sel = match selector {
        Some(s) => s,
        None => return Err(CommandError::MissingField(String::from_str("selector"))),
    };
    let target = match tab {
        Some(x) => target_text(&x),
        None => quoted("active"),
    };
    let sel_text = quoted(sel.as_str());
    Ok(object3_of("type", String::from_str("\"click\""), "tabId", target, "selector", sel_text))
}

/// The text of a `sync_script` command for a script.
pub open spec fn sync_script_text(s: Script) -> Seq<char> {
    object_text(
        seq![
            ("type"@, "\"sync_script\""@),
            ("id"@, json_quoted(s.id@)),
            ("content"@, json_quoted(s.content@)),
            ("path"@, json_quoted(s.path@)),
        ],
    )
}

/// The `sync_script` command, which hands a script to the peer and to the
/// subscribers.
pub fn sync_script_command(script: &Script) -> (r: String)
    ensures
        r@ == sync_script_text(*script),
{
    let id = quoted(script.id.as_str());
    let content = quoted(script.content.as_str());
    let path = quoted(script.path.as_str());
    let mut m: Vec<(String, String)> = Vec::new();
    m.push((String::from_str("type"), String::from_str("\"sync_script\"")));
    m.push((String::from_str("id"), id));
    m.push((String::from_str("content"), content));
    m.push((String::from_str("path"), path));
    proof {
        assert(members_view(m@) =~= seq![
            ("type"@, "\"sync_script\""@),
            ("id"@, json_quoted(script.id@)),
            ("content"@, json_quoted(script.content@)),
            ("path"@, json_quoted(script.path@)),
        ]);
    }
    object_of(&m)
}

/// The JSON of a boolean.
pub open spec fn bool_json(b: bool) -> Seq<char> {
    if b {
        "true"@
    } else {
        "false"@
    }
}

/// The JSON object of a rule.
pub open spec fn rule_json(r: Rule) -> Seq<char> {
    object_text(
        seq![
            ("id"@, json_quoted(r.id@)),
            ("pattern"@, json_quoted(r.pattern@)),
            ("script"@, json_quoted(r.script@)),
            ("enabled"@, bool_json(r.enabled)),
        ],
    )
}

/// The JSON object of a rule.
pub fn rule_text(rule: &Rule) -> (r: String)
    ensures
        r@ == rule_json(*rule),
{
    let id = quoted(rule.id.as_str());
    let pattern = quoted(rule.pattern.as_str());
    let script = quoted(rule.script.as_str());
    let enabled = if rule.enabled {
        String::from_str("true")
    } else {
        String::from_str("false")
    };
    let mut m: Vec<(String, String)> = Vec::new();
    m.push((String::from_str("id"), id));
    m.push((String::from_str("pattern"), pattern));
    m.push((String::from_str("script"), script));
    m.push((String::from_str("enabled"), enabled));
    proof {
        assert(members_view(m@) =~= seq![
            ("id"@, json_quoted(rule.id@)),
            ("pattern"@, json_quoted(rule.pattern@)),
            ("script"@, json_quoted(rule.script@)),
            ("enabled"@, bool_json(rule.enabled)),
        ]);
    }
    object_of(&m)
}

/// The text of a `set_rules` command for a list of rules.
pub open spec fn set_rules_text(rules: Seq<Rule>) -> Seq<char> {
    object_text(
        seq![
            ("type"@, "\"set_rules\""@),
            ("rules"@, array_text(rules.map_values(|r: Rule| rule_json(r)))),
        ],
    )
}

/// The `set_rules` command, which hands the routing rules to the peer.
pub fn set_rules_command(rules: &Vec<Rule>) -> (r: String)
    ensures
        r@ == set_rules_text(rules@),
{
    let mut items: Vec<String> = Vec::new();
    let mut i: usize = 0;
    while i < rules.len()
        invariant
            i <= rules@.len(),
            items@.len() == i,
            texts(items@) == rules@.subrange(0, i as int).map_values(|r: Rule| rule_json(r)),
        decreases rules@.len() - i,
    {
        let t = rule_text(&rules[i]);
        let ghost prev = items@;
        items.push(t);
        proof {
            let want = rules@.subrange(0, i + 1).map_values(|r: Rule| rule_json(r));
            let had = rules@.subrange(0, i as int).map_values(|r: Rule| rule_json(r));
            assert forall|k: int| 0 <= k < i + 1 implies #[trigger] texts(items@)[k] == want[k] by {
                if k < i {
                    assert(items@[k] == prev[k]);
                    assert(texts(prev)[k] == had[k]);
                    assert(had[k] == want[k]);
                } else {
                    assert(items@[k] == t);
                }
            }
        }
        i += 1;
        assert(texts(items@) =~= rules@.subrange(0, i as int).map_values(|r: Rule| rule_json(r)));
    }
    assert(rules@.subrange(0, rules@.len() as int) =~= rules@);
    let arr = array_of(&items);
    let mut m: Vec<(String, String)> = Vec::new();
    m.push((String::from_str("type"), String::from_str("\"set_rules\"")));
    m.push((String::from_str("rules"), arr));
    assert(members_view(m@) =~= seq![
        ("type"@, "\"set_rules\""@),
        ("rules"@, array_text(rules@.map_values(|r: Rule| rule_json(r)))),
    ]);
    object_of(&m)
}

/// The text of the result history, `{"results":[...]}`, oldest first.
pub open spec fn results_json(results: Seq<String>) -> Seq<char> {
    object_text(seq![("results"@, array_text(texts(results)))])
}

/// The result history as one JSON document.
pub fn results_document(results: &Vec<String>) -> (r: String)
    ensures
        r@ == results_json(results@),
{
    let arr = array_of(results);
    let mut m: Vec<(String, String)> = Vec::new();
    m.push((String::from_str("results"), arr));
    assert(members_view(m@) =~= seq![("results"@, array_text(texts(results@)))]);
    object_of(&m)
}

/// What a command that acts on a whole tab is asked to do.
#[derive(Clone, Copy, Debug, PartialEq, Eq, Structural)]
pub enum TabAction {
    /// Take a screenshot of the tab.
    Capture,
    /// Read the tab's HTML.
    GetHtml,
}

/// The `type` member of a tab action.
pub open spec fn action_type(a: TabAction) -> Seq<char> {
    match a {
        TabAction::Capture => "\"capture\""@,
        TabAction::GetHtml => "\"get_html\""@,
    }
}

/// The JSON of tab target `tab`, the active tab when it is left out.
pub open spec fn target_or_active(tab: Option<TabTarget>) -> Seq<char> {
    match tab {
        Some(x) => target_json(x),
        None => json_quoted("active"@),
    }
}

fn target_or_active_text(tab: &Option<TabTarget>) -> (r: String)
    ensures
        r@ == target_or_active(*tab),
{
    match tab {
        Some(x) => target_text(x),
        None => quoted("active"),
    }
}

/// A `capture` or `get_html` command for tab `tab` (the active tab when
/// left out).
pub fn tab_command(action: TabAction, tab: Option<TabTarget>) -> (r: String)
    ensures
        r@ == object_text(
            seq![("type"@, action_type(action)), ("tabId"@, target_or_active(tab))],
        ),
{
    let target = target_or_active_text(&tab);
    let kind = match action {
        TabAction::Capture => String::from_str("\"capture\""),
        TabAction::GetHtml => String::from_str("\"get_html\""),
    };
    let mut m: Vec<(String, String)> = Vec::new();
    m.push((String::from_str("type"), kind));
    m.push((String::from_str("tabId"), target));
    assert(members_view(m@) =~= seq![("type"@, action_type(action)), ("tabId"@, target_or_active(tab))]);
    object_of(&m)
}

/// The viewport width a `resize` command asks for when none is given.
pub const DEFAULT_WIDTH: u32 = 1280;

/// The viewport height a `resize` command asks for when none is given.
pub const DEFAULT_HEIGHT: u32 = 800;

/// The value given, or `d` when none is.
pub open spec fn or_default(o: Option<u32>, d: u32) -> u32 {
    match o {
        Some(v) => v,
        None => d,
    }
}

/// The `resize` command: the viewport of tab `tab` (the active tab when
/// left out) to `width` by `height`, 1280 by 800 where they are left out.
pub fn resize_command(tab: Option<TabTarget>, width: Option<u32>, height: Option<u32>) -> (r: String)
    ensures
        r@ == object_text(
            seq![
                ("type"@, "\"resize\""@),
                ("tabId"@, target_or_active(tab)),
                ("width"@, decimal(or_default(width, DEFAULT_WIDTH) as int)),
                ("height"@, decimal(or_default(height, DEFAULT_HEIGHT) as int)),
            ],
        ),
{
    let target = target_or_active_text(&tab);
    let w = match width {
        Some(w) => w,
        None => DEFAULT_WIDTH,
    };
    let h = match height {
        Some(h) => h,
        None => DEFAULT_HEIGHT,
    };
    assert(w == or_default(width, DEFAULT_WIDTH) && h == or_default(height, DEFAULT_HEIGHT));
    let mut m: Vec<(String, String)> = Vec::new();
    m.push((String::from_str("type"), String::from_str("\"resize\"")));
    m.push((String::from_str("tabId"), target));
    m.push((String::from_str("width"), decimal_text(w as i64)));
    m.push((String::from_str("height"), decimal_text(h as i64)));
    assert(members_view(m@) =~= seq![
        ("type"@, "\"resize\""@),
        ("tabId"@, target_or_active(tab)),
        ("width"@, decimal(w as int)),
        ("height"@, decimal(h as int)),
    ]);
    object_of(&m)
}

/// The `type` command: `text` typed into the element that `selector`
/// picks in tab `tab` (the active tab when left out). Neither the selector
/// nor the text has a default.
pub fn type_command(tab: Option<TabTarget>, selector: Option<String>, text: Option<String>) -> (r:
    Result<String, CommandError>)
    ensures
        selector is None ==> (r matches Err(CommandError::MissingField(f)) && f@ == "selector"@),
        selector is Some && text is None ==> (r matches Err(CommandError::MissingField(f)) && f@
            == "text"@),
        selector is Some && text is Some ==> {
            &&& r is Ok
            &&& r->Ok_0@ == object_text(
                seq![
                    ("type"@, "\"type\""@),
                    ("tabId"@, target_or_active(tab)),
                    ("selector"@, json_quoted(selector->Some_0@)),
                    ("text"@, json_quoted(text->Some_0@)),
                ],
            )
        },
{
    let sel = match selector {
        Some(s) => s,
        None => return Err(CommandError::MissingField(String::from_str("selector"))),
    };
    let txt = match text {
        Some(t) => t,
        None => return Err(CommandError::MissingField(String::from_str("text"))),
    };
    let target = target_or_active_text(&tab);
    let sel_q = quoted(sel.as_str());
    let txt_q = quoted(txt.as_str());
    let mut m: Vec<(String, String)> = Vec::new();
    m.push((String::from_str("type"), String::from_str("\"type\"")));
    m.push((String::from_str("tabId"), target));
    m.push((String::from_str("selector"), sel_q));
    m.push((String::from_str("text"), txt_q));
    assert(members_view(m@) =~= seq![
        ("type"@, "\"type\""@),
        ("tabId"@, target_or_active(tab)),
        ("selector"@, json_quoted(sel@)),
        ("text"@, json_quoted(txt@)),
    ]);
    Ok(object_of(&m))
}

} // verus!
