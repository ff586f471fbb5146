//! The state store: the peer's tabs, the registered scripts, the routing
//! rules and a bounded history of result messages.

use vstd::prelude::*;
use crate::message::{MessageKind, is_result, is_result_kind, kind_of_member};

verus! {

/// How many result messages the history keeps.
pub const RESULT_CAPACITY: usize = 100;

/// A tab as the peer reports it.
#[derive(Clone, Debug)]
pub struct TabInfo {
    pub id: Option<i32>,
    pub url: Option<String>,
    pub title: Option<String>,
}

/// A script registered by id.
#[derive(Clone, Debug)]
pub struct Script {
    pub id: String,
    pub content: String,
    pub path: String,
}

/// A routing rule; the bridge only stores and forwards it.
#[derive(Clone, Debug)]
pub struct Rule {
    pub id: String,
    pub pattern: String,
    pub script: String,
    pub enabled: bool,
}

fn copy_text(s: &Option<String>) -> (r: Option<String>)
    ensures
        r == *s,
{
    match s {
        Some(t) => Some(t.clone()),
        None => None,
    }
}

impl TabInfo {
    /// A copy equal to this tab.
    pub fn duplicate(&self) -> (r: TabInfo)
        ensures
            r == *self,
    {
        TabInfo { id: self.id, url: copy_text(&self.url), title: copy_text(&self.title) }
    }
}

impl Script {
    /// A copy equal to this script.
    pub fn duplicate(&self) -> (r: Script)
        ensures
            r == *self,
    {
        Script { id: self.id.clone(), content: self.content.clone(), path: self.path.clone() }
    }
}

impl Rule {
    /// A copy equal to this rule.
    pub fn duplicate(&self) -> (r: Rule)
        ensures
            r == *self,
    {
        Rule {
            id: self.id.clone(),
            pattern: self.pattern.clone(),
            script: self.script.clone(),
            enabled: self.enabled,
        }
    }
}

/// What a store holds.
pub struct StoreModel {
    pub tabs: Seq<TabInfo>,
    pub scripts: Seq<Script>,
    pub rules: Seq<Rule>,
    pub results: Seq<String>,
}

/// The history after one more result: the record is appended, and the
/// oldest one leaves once there are more than the capacity.
pub open spec fn ring_push(results: Seq<String>, record: String) -> Seq<String> {
    let longer = results.push(record);
    if longer.len() > RESULT_CAPACITY {
        longer.drop_first()
    } else {
        longer
    }
}

/// The history after each of `records`, in order.
pub open spec fn ring_push_all(results: Seq<String>, records: Seq<String>) -> Seq<String>
    decreases records.len(),
{
    if records.len() == 0 {
        results
    } else {
        ring_push(ring_push_all(results, records.drop_last()), records.last())
    }
}

/// The most recent `RESULT_CAPACITY` items of `s`, oldest first.
pub open spec fn newest(s: Seq<String>) -> Seq<String> {
    if s.len() > RESULT_CAPACITY {
        s.subrange(s.len() - RESULT_CAPACITY, s.len() as int)
    } else {
        s
    }
}

/// Whether some script in `scripts` has the id `id`.
pub open spec fn has_script(scripts: Seq<Script>, id: Seq<char>) -> bool {
    exists|i: int| 0 <= i < scripts.len() && #[trigger] scripts[i].id@ == id
}

/// No two scripts share an id.
pub open spec fn unique_ids(scripts: Seq<Script>) -> bool {
    forall|i: int, j: int|
        0 <= i < scripts.len() && 0 <= j < scripts.len() && i != j ==> #[trigger] scripts[i].id@
            != #[trigger] scripts[j].id@
}

/// The scripts after `s` is registered: it takes the place of the script
/// with its id, or is added after the others.
pub open spec fn upserted(scripts: Seq<Script>, s: Script) -> Seq<Script> {
    if has_script(scripts, s.id@) {
        let i = choose|i: int| 0 <= i < scripts.len() && #[trigger] scripts[i].id@ == s.id@;
        scripts.update(i, s)
    } else {
        scripts.push(s)
    }
}

/// The store after a report of the given kind: a tab report with a readable
/// list replaces the tabs wholesale, a result is appended to the history,
/// and anything else leaves the store as it was.
pub open spec fn after_report(
    m: StoreModel,
    kind: MessageKind,
    tabs: Option<Seq<TabInfo>>,
    text: String,
) -> StoreModel {
    if kind == MessageKind::Tabs && tabs is Some {
        StoreModel { tabs: tabs->Some_0, ..m }
    } else if is_result_kind(kind) {
        StoreModel { results: ring_push(m.results, text), ..m }
    } else {
        m
    }
}

/// The shared state of the bridge.
pub struct StateStore {
    tabs: Vec<TabInfo>,
    scripts: Vec<Script>,
    rules: Vec<Rule>,
    results: Vec<String>,
}

impl View for StateStore {
    type V = StoreModel;

    closed spec fn view(&self) -> StoreModel {
        StoreModel {
            tabs: self.tabs@,
            scripts: self.scripts@,
            rules: self.rules@,
            results: self.results@,
        }
    }
}

/// Whether `m` is a state that a store can be in.
pub open spec fn model_wf(m: StoreModel) -> bool {
    &&& m.results.len() <= RESULT_CAPACITY
    &&& unique_ids(m.scripts)
}

fn copy_tabs(v: &Vec<TabInfo>) -> (r: Vec<TabInfo>)
    ensures
        r@ == v@,
{
    let mut r: Vec<TabInfo> = Vec::new();
    let mut i: usize = 0;
    while i < v.len()
        invariant
            i <= v@.len(),
            r@ == v@.subrange(0, i as int),
        decreases v@.len() - i,
    {
        r.push(v[i].duplicate());
        i += 1;
        assert(r@ =~= v@.subrange(0, i as int));
    }
    assert(r@ =~= v@);
    r
}

fn copy_scripts(v: &Vec<Script>) -> (r: Vec<Script>)
    ensures
        r@ == v@,
{
    let mut r: Vec<Script> = Vec::new();
    let mut i: usize = 0;
    while i < v.len()
        invariant
            i <= v@.len(),
            r@ == v@.subrange(0, i as int),
        decreases v@.len() - i,
    {
        r.push(v[i].duplicate());
        i += 1;
        assert(r@ =~= v@.subrange(0, i as int));
    }
    assert(r@ =~= v@);
    r
}

fn copy_rules(v: &Vec<Rule>) -> (r: Vec<Rule>)
    ensures
        r@ == v@,
{
    let mut r: Vec<Rule> = Vec::new();
    let mut i: usize = 0;
    while i < v.len()
        invariant
            i <= v@.len(),
            r@ == v@.subrange(0, i as int),
        decreases v@.len() - i,
    {
        r.push(v[i].duplicate());
        i += 1;
        assert(r@ =~= v@.subrange(0, i as int));
    }
    assert(r@ =~= v@);
    r
}

fn copy_texts(v: &Vec<String>) -> (r: Vec<String>)
    ensures
        r@ == v@,
{
    let mut r: Vec<String> = Vec::new();
    let mut i: usize = 0;
    while i < v.len()
        invariant
            i <= v@.len(),
            r@ == v@.subrange(0, i as int),
        decreases v@.len() - i,
    {
        r.push(v[i].clone());
        i += 1;
        assert(r@ =~= v@.subrange(0, i as int));
    }
    assert(r@ =~= v@);
    r
}

impl StateStore {
    /// Whether the store is in a state that its operations keep.
    pub open spec fn wf(&self) -> bool {
        model_wf(self@)
    }

    /// An empty store.
    pub fn new() -> (r: StateStore)
        ensures
            r.wf(),
            r@.tabs.len() == 0,
            r@.scripts.len() == 0,
            r@.rules.len() == 0,
            r@.results.len() == 0,
    {
        StateStore { tabs: Vec::new(), scripts: Vec::new(), rules: Vec::new(), results: Vec::new() }
    }

    /// Replaces the whole tab list.
    pub fn replace_tabs(&mut self, tabs: Vec<TabInfo>)
        requires
            old(self).wf(),
        ensures
            final(self).wf(),
            final(self)@ == (StoreModel { tabs: tabs@, ..old(self)@ }),
    {
        self.tabs = tabs;
    }

    /// A copy of the current tabs.
    pub fn tabs(&self) -> (r: Vec<TabInfo>)
        ensures
            r@ == self@.tabs,
    {
        copy_tabs(&self.tabs)
    }

    /// Registers a script, replacing the one with the same id.
    pub fn upsert_script(&mut self, script: Script)
        requires
            old(self).wf(),
        ensures
            final(self).wf(),
            final(self)@ == (StoreModel {
                scripts: upserted(old(self)@.scripts, script),
                ..old(self)@
            }),
    {
        let ghost before = self.scripts@;
        let mut i: usize = 0;
        while i < self.scripts.len()
            invariant
                self.scripts@ == before,
                self@ == old(self)@,
                old(self).wf(),
                i <= before.len(),
                forall|k: int| 0 <= k < i ==> #[trigger] before[k].id@ != script.id@,
            decreases before.len() - i,
        {
            if self.scripts[i].id == script.id {
                proof {
                    let j = choose|j: int|
                        0 <= j < before.len() && #[trigger] before[j].id@ == script.id@;
                    assert(unique_ids(before));
                    assert(j == i);
                }
                self.scripts.set(i, script);
                proof {
                    assert forall|a: int, b: int|
                        0 <= a < self.scripts@.len() && 0 <= b < self.scripts@.len() && a
                            != b implies #[trigger] self.scripts@[a].id@
                        != #[trigger] self.scripts@[b].id@ by {
                        if a != i && b != i {
                            assert(before[a].id@ != before[b].id@);
                        } else if a == i {
                            assert(before[b].id@ != before[i as int].id@);
                        } else {
                            assert(before[a].id@ != before[i as int].id@);
                        }
                    }
                }
                return;
            }
            i += 1;
        }
        self.scripts.push(script);
        proof {
            assert(!has_script(before, script.id@));
            assert forall|a: int, b: int|
                0 <= a < self.scripts@.len() && 0 <= b < self.scripts@.len() && a
                    != b implies #[trigger] self.scripts@[a].id@ != #[trigger] self.scripts@[b].id@ by {
                if a < before.len() && b < before.len() {
                    assert(before[a].id@ != before[b].id@);
                }
            }
        }
    }

    /// A copy of the registered scripts.
    pub fn scripts(&self) -> (r: Vec<Script>)
        ensures
            r@ == self@.scripts,
    {
        copy_scripts(&self.scripts)
    }

    /// Replaces the routing rules.
    pub fn replace_rules(&mut self, rules: Vec<Rule>)
        requires
            old(self).wf(),
        ensures
            final(self).wf(),
            final(self)@ == (StoreModel { rules: rules@, ..old(self)@ }),
    {
        self.rules = rules;
    }

    /// A copy of the routing rules.
    pub fn rules(&self) -> (r: Vec<Rule>)
        ensures
            r@ == self@.rules,
    {
        copy_rules(&self.rules)
    }

    /// Appends a result, dropping the oldest once the history is over its
    /// capacity.
    pub fn append_result(&mut self, record: String)
        requires
            old(self).wf(),
        ensures
            final(self).wf(),
            final(self)@ == (StoreModel {
                results: ring_push(old(self)@.results, record),
                ..old(self)@
            }),
    {
        self.results.push(record);
        if self.results.len() > RESULT_CAPACITY {
            self.results.remove(0);
        }
        assert(self.results@ =~= ring_push(old(self)@.results, record));
    }

    /// A copy of the result history, oldest first.
    pub fn results(&self) -> (r: Vec<String>)
        ensures
            r@ == self@.results,
    {
        copy_texts(&self.results)
    }

    /// Takes in a report: tabs replace the tab list when `tabs` holds the
    /// list that could be read from it, results go to the history, and
    /// audit records and unknown messages change nothing.
    pub fn apply_report(&mut self, kind: MessageKind, tabs: Option<Vec<TabInfo>>, text: String)
        requires
            old(self).wf(),
        ensures
            final(self).wf(),
            final(self)@ == after_report(
                old(self)@,
                kind,
                match tabs {
                    Some(t) => Some(t@),
                    None => None,
                },
                text,
            ),
    {
        match kind {
            MessageKind::Tabs => {
                if let Some(t) = tabs {
                    self.replace_tabs(t);
                }
            },
            _ => {
                if is_result(kind) {
                    self.append_result(text);
                }
            },
        }
    }
}

/// Appending results one by one keeps exactly the most recent
/// `RESULT_CAPACITY` of all that were ever appended, oldest first.
pub proof fn lemma_result_ring_bound(start: Seq<String>, records: Seq<String>)
    requires
        start.len() <= RESULT_CAPACITY,
    ensures
        ring_push_all(start, records) == newest(start + records),
    decreases records.len(),
{
    if records.len() == 0 {
        assert(start + records =~= start);
    } else {
        let prev = records.drop_last();
        lemma_result_ring_bound(start, prev);
        let all = start + records;
        assert(start + prev =~= all.drop_last());
        assert(newest(all) =~= ring_push(newest(all.drop_last()), records.last()));
    }
}

/// A tab report replaces the tab list wholesale: after two reports only
/// the second list is left.
pub proof fn lemma_tabs_replaced_wholesale(
    m: StoreModel,
    first: Seq<TabInfo>,
    second: Seq<TabInfo>,
    t1: String,
    t2: String,
)
    ensures
        after_report(
            after_report(m, MessageKind::Tabs, Some(first), t1),
            MessageKind::Tabs,
            Some(second),
            t2,
        ).tabs == second,
{
}

/// A message of an unknown or ignored kind leaves every collection of the
/// store as it was.
pub proof fn lemma_unknown_kind_changes_nothing(
    m: StoreModel,
    kind: MessageKind,
    tabs: Option<Seq<TabInfo>>,
    text: String,
)
    requires
        kind == MessageKind::Other || kind == MessageKind::AuditLog,
    ensures
        after_report(m, kind, tabs, text) == m,
{
}

/// A message whose `type` member is `unknown_xyz`, or that has no string
/// `type` member, reaches no collection of the store.
pub proof fn lemma_unknown_type_reaches_no_collection(
    m: StoreModel,
    tag: Option<Seq<char>>,
    tabs: Option<Seq<TabInfo>>,
    text: String,
)
    requires
        tag is None || tag == Some("unknown_xyz"@),
    ensures
        after_report(m, kind_of_member(tag), tabs, text) == m,
{
    reveal_strlit("unknown_xyz");
    reveal_strlit("tabs");
    reveal_strlit("injection_result");
    reveal_strlit("html_result");
    reveal_strlit("capture_result");
    reveal_strlit("audit_log");
    if tag is Some {
        let t = tag->Some_0;
        assert(t.len() == 11);
        assert(t != "tabs"@);
        assert(t[0] == 'u');
        assert(t != "injection_result"@);
        assert(t != "html_result"@);
        assert(t != "capture_result"@);
        assert(t != "audit_log"@);
    }
}

} // verus!
