//! Tabs and their navigation history.
use crate::text::fresh_uuid;
use vstd::prelude::*;

verus! {

/// The title a tab carries until the page supplies one.
pub const NEW_TAB_TITLE: &'static str = "New Tab";

/// The address a fresh manager opens its first tab at.
pub const HOME_URL: &'static str = "about:home";

/// What a history of strings reads as.
pub open spec fn history_of(h: Seq<String>) -> Seq<Seq<char>> {
    h.map_values(|s: String| s@)
}

/// One browsing context: its current address, title, loading flag and history.
#[derive(Debug, Clone)]
pub struct Tab {
    /// Unique identifier, fixed at creation.
    pub id: String,
    /// Current address.
    pub url: String,
    /// Page title; `NEW_TAB_TITLE` or empty when the page gave none.
    pub title: String,
    /// Visited addresses in order; never empty.
    pub history: Vec<String>,
    /// Position of `url` in `history`.
    pub history_index: usize,
    /// Advisory loading flag.
    pub is_loading: bool,
}

impl Tab {
    /// The history is non-empty, the cursor is inside it and points at `url`.
    pub open spec fn wf(&self) -> bool {
        &&& self.history@.len() > 0
        &&& self.history_index < self.history@.len()
        &&& self.history@[self.history_index as int]@ == self.url@
    }

    /// The history as a sequence of addresses.
    pub open spec fn history_view(&self) -> Seq<Seq<char>> {
        history_of(self.history@)
    }

    pub open spec fn spec_can_go_back(&self) -> bool {
        self.history_index > 0
    }

    pub open spec fn spec_can_go_forward(&self) -> bool {
        self.history_index + 1 < self.history@.len()
    }

    /// `after` is this tab once `url` has been visited: the entries after the
    /// cursor are gone, `url` is appended and current, and the tab is loading.
    pub open spec fn navigated(&self, after: Tab, url: Seq<char>) -> bool {
        &&& after.wf()
        &&& after.history_view() == self.history_view().take(self.history_index + 1).push(url)
        &&& after.history_index == self.history_index + 1
        &&& after.url@ == url
        &&& after.is_loading
        &&& after.id == self.id
        &&& after.title == self.title
    }

    /// `after` is this tab once the cursor has moved to `index` in the same history.
    pub open spec fn moved_to(&self, after: Tab, index: int) -> bool {
        &&& after.wf()
        &&& after.history_index == index
        &&& after.url@ == self.history_view()[index]
        &&& after.is_loading
        &&& after.history == self.history
        &&& after.id == self.id
        &&& after.title == self.title
    }

    /// `after` and `r` are what a step back from this tab gives.
    pub open spec fn went_back(&self, after: Tab, r: bool) -> bool {
        &&& r == self.spec_can_go_back()
        &&& r ==> self.moved_to(after, self.history_index - 1)
        &&& !r ==> after == *self
    }

    /// `after` and `r` are what a step forward from this tab gives.
    pub open spec fn went_forward(&self, after: Tab, r: bool) -> bool {
        &&& r == self.spec_can_go_forward()
        &&& r ==> self.moved_to(after, self.history_index + 1)
        &&& !r ==> after == *self
    }

    /// Create a tab at `url`, with a history of that one address.
    pub fn new(url: &str) -> (r: Tab)
        ensures
            r.wf(),
            r.url@ == url@,
            r.history_view() == seq![url@],
            r.history_index == 0,
            !r.is_loading,
            r.title@ == NEW_TAB_TITLE@,
    {
        let first = url.to_string();
        let current = url.to_string();
        let mut history: Vec<String> = Vec::new();
        history.push(first);
        let r = Tab {
            id: fresh_uuid(),
            url: current,
            title: NEW_TAB_TITLE.to_string(),
            history,
            history_index: 0,
            is_loading: false,
        };
        assert(r.history_view() =~= seq![url@]);
        r
    }

    /// Visit `url`: the entries after the cursor are dropped, `url` is appended
    /// and becomes current, and the tab starts loading.
    pub fn navigate_to(&mut self, url: &str)
        requires
            old(self).wf(),
        ensures
            old(self).navigated(*final(self), url@),
    {
        let ghost before = self.history_view();
        if self.history_index < self.history.len() - 1 {
            self.history.truncate(self.history_index + 1);
        }
        self.history.push(url.to_string());
        self.history_index = self.history.len() - 1;
        self.url = url.to_string();
        self.is_loading = true;
        assert(self.history_view() =~= before.take(old(self).history_index + 1).push(url@));
    }

    /// Step back one entry; `false`, with nothing changed, at the first entry.
    pub fn go_back(&mut self) -> (r: bool)
        requires
            old(self).wf(),
        ensures
            old(self).went_back(*final(self), r),
    {
        if self.can_go_back() {
            self.history_index = self.history_index - 1;
            self.url = self.history[self.history_index].clone();
            self.is_loading = true;
            true
        } else {
            false
        }
    }

    /// Step forward one entry; `false`, with nothing changed, at the last entry.
    pub fn go_forward(&mut self) -> (r: bool)
        requires
            old(self).wf(),
        ensures
            old(self).went_forward(*final(self), r),
    {
        let n = self.history.len();
        if self.can_go_forward() {
            assert(self.history_index + 1 < n);
            self.history_index = self.history_index + 1;
            self.url = self.history[self.history_index].clone();
            self.is_loading = true;
            true
        } else {
            false
        }
    }

    /// Whether there is an entry before the current one.
    pub fn can_go_back(&self) -> (r: bool)
        ensures
            r == self.spec_can_go_back(),
    {
        self.history_index > 0
    }

    /// Whether there is an entry after the current one.
    pub fn can_go_forward(&self) -> (r: bool)
        requires
            self.wf(),
        ensures
            r == self.spec_can_go_forward(),
    {
        self.history_index < self.history.len() - 1
    }

    /// Start loading the current page again; the history is untouched.
    pub fn reload(&mut self)
        ensures
            *final(self) == (Tab { is_loading: true, ..*old(self) }),
    {
        self.is_loading = true;
    }

    /// Replace the title.
    pub fn set_title(&mut self, title: &str)
        ensures
            final(self).title@ == title@,
            final(self).id == old(self).id,
            final(self).url == old(self).url,
            final(self).history == old(self).history,
            final(self).history_index == old(self).history_index,
            final(self).is_loading == old(self).is_loading,
    {
        self.title = title.to_string();
    }

    /// Clear the loading flag.
    pub fn finish_loading(&mut self)
        ensures
            *final(self) == (Tab { is_loading: false, ..*old(self) }),
    {
        self.is_loading = false;
    }

    /// The title, or the address when the title is empty or the placeholder.
    pub fn display_title(&self) -> (r: String)
        ensures
            r@ == (if self.title@ == NEW_TAB_TITLE@ || self.title@.len() == 0 {
                self.url@
            } else {
                self.title@
            }),
    {
        let placeholder = NEW_TAB_TITLE.to_string();
        if self.title == placeholder || self.title.as_str().is_empty() {
            self.url.clone()
        } else {
            self.title.clone()
        }
    }
}

/// Where the active cursor goes when a tab at `index` is closed: `active` is the
/// cursor before the close and `new_len` the number of tabs after it.
pub open spec fn active_after_close(active: nat, index: nat, new_len: nat) -> nat {
    if active >= new_len {
        (new_len - 1) as nat
    } else if index <= active && active > 0 {
        (active - 1) as nat
    } else {
        active
    }
}

/// All open tabs in display order, and which one is active.
#[derive(Debug, Clone)]
pub struct TabManager {
    tabs: Vec<Tab>,
    active_tab_index: usize,
}

impl TabManager {
    /// The open tabs in display order.
    pub closed spec fn spec_tabs(&self) -> Seq<Tab> {
        self.tabs@
    }

    /// Position of the active tab.
    pub closed spec fn spec_active(&self) -> nat {
        self.active_tab_index as nat
    }

    /// At least one tab, the cursor inside the list, and every tab well formed.
    pub open spec fn wf(&self) -> bool {
        &&& self.spec_tabs().len() > 0
        &&& self.spec_active() < self.spec_tabs().len()
        &&& forall|i: int| 0 <= i < self.spec_tabs().len() ==> #[trigger] self.spec_tabs()[i].wf()
    }

    /// The active tab.
    pub open spec fn spec_active_tab(&self) -> Tab {
        self.spec_tabs()[self.spec_active() as int]
    }

    /// `after` is this manager once a tab at `url` has been opened: it is appended,
    /// fresh, and active.
    pub open spec fn opened(&self, after: TabManager, url: Seq<char>) -> bool {
        &&& after.wf()
        &&& after.spec_tabs().drop_last() == self.spec_tabs()
        &&& after.spec_tabs().len() == self.spec_tabs().len() + 1
        &&& after.spec_active() == self.spec_tabs().len()
        &&& after.spec_active_tab().url@ == url
        &&& after.spec_active_tab().history_view() == seq![url]
        &&& after.spec_active_tab().history_index == 0
        &&& !after.spec_active_tab().is_loading
        &&& after.spec_active_tab().title@ == NEW_TAB_TITLE@
    }

    /// `after` and `r` are what closing the tab at `index` gives: refused for the
    /// last remaining tab or an index past the end.
    pub open spec fn closed(&self, after: TabManager, index: nat, r: bool) -> bool {
        &&& after.wf()
        &&& r == (self.spec_tabs().len() > 1 && index < self.spec_tabs().len())
        &&& r ==> after.spec_tabs() == self.spec_tabs().remove(index as int)
        &&& r ==> after.spec_active() == active_after_close(
            self.spec_active(),
            index,
            (self.spec_tabs().len() - 1) as nat,
        )
        &&& !r ==> after == *self
    }

    /// `after` and `r` are what switching to the tab at `index` gives.
    pub open spec fn switched(&self, after: TabManager, index: nat, r: bool) -> bool {
        &&& after.wf()
        &&& r == (index < self.spec_tabs().len())
        &&& after.spec_tabs() == self.spec_tabs()
        &&& after.spec_active() == (if r { index } else { self.spec_active() })
    }

    /// `after` is this manager with its active tab replaced by a well-formed one.
    pub open spec fn active_replaced(&self, after: TabManager) -> bool {
        &&& after.spec_active() == self.spec_active()
        &&& after.spec_active_tab().wf()
        &&& after.spec_tabs() == self.spec_tabs().update(
            self.spec_active() as int,
            after.spec_active_tab(),
        )
    }

    /// One tab at `HOME_URL`, active.
    pub fn new() -> (r: TabManager)
        ensures
            r.wf(),
            is_fresh(r),
            r.spec_tabs().len() == 1,
            r.spec_active() == 0,
            r.spec_active_tab().url@ == HOME_URL@,
            r.spec_active_tab().history_view() == seq![HOME_URL@],
            r.spec_active_tab().history_index == 0,
            !r.spec_active_tab().is_loading,
            r.spec_active_tab().title@ == NEW_TAB_TITLE@,
    {
        let first = Tab::new(HOME_URL);
        let mut tabs: Vec<Tab> = Vec::new();
        tabs.push(first);
        TabManager { tabs, active_tab_index: 0 }
    }

    /// The active tab.
    pub fn active_tab(&self) -> (r: &Tab)
        requires
            self.wf(),
        ensures
            *r == self.spec_active_tab(),
    {
        &self.tabs[self.active_tab_index]
    }

    /// The active tab, for changing it in place.
    pub fn active_tab_mut(&mut self) -> (r: &mut Tab)
        requires
            old(self).wf(),
        ensures
            *r == old(self).spec_active_tab(),
            final(self).spec_active() == old(self).spec_active(),
            final(self).spec_tabs() == old(self).spec_tabs().update(
                old(self).spec_active() as int,
                *final(r),
            ),
    {
        &mut self.tabs[self.active_tab_index]
    }

    /// The open tabs in display order.
    pub fn tabs(&self) -> (r: &[Tab])
        ensures
            r@ == self.spec_tabs(),
    {
        self.tabs.as_slice()
    }

    /// Position of the active tab.
    pub fn active_tab_index(&self) -> (r: usize)
        ensures
            r == self.spec_active(),
    {
        self.active_tab_index
    }

    /// Open a tab at `url` after the others and make it active.
    pub fn new_tab(&mut self, url: &str)
        requires
            old(self).wf(),
        ensures
            old(self).opened(*final(self), url@),
    {
        let tab = Tab::new(url);
        self.tabs.push(tab);
        self.active_tab_index = self.tabs.len() - 1;
        assert(self.spec_tabs().drop_last() =~= old(self).spec_tabs());
    }

    /// Close the tab at `index`, keeping the cursor on a valid tab. Refused,
    /// with nothing changed, for the last remaining tab or an index past the end.
    pub fn close_tab(&mut self, index: usize) -> (r: bool)
        requires
            old(self).wf(),
        ensures
            old(self).closed(*final(self), index as nat, r),
    {
        if self.tabs.len() <= 1 {
            return false;
        }
        if index < self.tabs.len() {
            self.tabs.remove(index);
            if self.active_tab_index >= self.tabs.len() {
                self.active_tab_index = self.tabs.len() - 1;
            } else if index <= self.active_tab_index && self.active_tab_index > 0 {
                self.active_tab_index = self.active_tab_index - 1;
            }
            assert forall|i: int| 0 <= i < self.spec_tabs().len() implies #[trigger] self.spec_tabs()[i].wf() by {
                if i >= index {
                    assert(self.spec_tabs()[i] == old(self).spec_tabs()[i + 1]);
                } else {
                    assert(self.spec_tabs()[i] == old(self).spec_tabs()[i]);
                }
            }
            true
        } else {
            false
        }
    }

    /// Make the tab at `index` active; `false`, with nothing changed, past the end.
    pub fn switch_to_tab(&mut self, index: usize) -> (r: bool)
        requires
            old(self).wf(),
        ensures
            old(self).switched(*final(self), index as nat, r),
    {
        if index < self.tabs.len() {
            self.active_tab_index = index;
            true
        } else {
            false
        }
    }

    /// Number of open tabs.
    pub fn tab_count(&self) -> (r: usize)
        ensures
            r == self.spec_tabs().len(),
    {
        self.tabs.len()
    }
}

impl Default for TabManager {
    fn default() -> (r: TabManager)
        ensures
            r.wf(),
            is_fresh(r),
            r.spec_tabs().len() == 1,
            r.spec_active() == 0,
            r.spec_active_tab().url@ == HOME_URL@,
            r.spec_active_tab().history_view() == seq![HOME_URL@],
            r.spec_active_tab().history_index == 0,
            !r.spec_active_tab().is_loading,
            r.spec_active_tab().title@ == NEW_TAB_TITLE@,
    {
        TabManager::new()
    }
}

/// Putting a well-formed tab in place of the active one keeps a manager well
/// formed.
pub proof fn lemma_replace_active_tab(before: TabManager, after: TabManager)
    requires
        before.wf(),
        after.spec_active() == before.spec_active(),
        after.spec_tabs() == before.spec_tabs().update(before.spec_active() as int, after.spec_active_tab()),
        after.spec_active_tab().wf(),
    ensures
        after.wf(),
        before.active_replaced(after),
{
    assert forall|i: int| 0 <= i < after.spec_tabs().len() implies #[trigger] after.spec_tabs()[i].wf() by {
        if i != after.spec_active() {
            assert(after.spec_tabs()[i] == before.spec_tabs()[i]);
        }
    }
}

/// One command of the tab bar applied to `before`, giving `after`: open a tab,
/// close one, switch to one, or act on the active tab (visit, back, forward,
/// reload, title, loading) so that it stays well formed.
pub open spec fn manager_step(before: TabManager, after: TabManager) -> bool {
    ||| exists|url: Seq<char>| #[trigger] before.opened(after, url)
    ||| exists|index: nat, r: bool| #[trigger] before.closed(after, index, r)
    ||| exists|index: nat, r: bool| #[trigger] before.switched(after, index, r)
    ||| before.active_replaced(after)
}

/// What a fresh manager looks like: one well-formed tab, active.
pub open spec fn is_fresh(m: TabManager) -> bool {
    &&& m.spec_tabs().len() == 1
    &&& m.spec_active() == 0
    &&& m.spec_tabs()[0].wf()
}

/// `run` starts at a fresh manager, and each state follows from the one before
/// by one tab-bar command.
pub open spec fn is_run(run: Seq<TabManager>) -> bool {
    &&& run.len() > 0
    &&& is_fresh(run[0])
    &&& forall|i: int| 0 <= i < run.len() - 1 ==> manager_step(#[trigger] run[i], run[i + 1])
}

/// Every manager reached from a fresh one by tab-bar commands has a tab, and its
/// active position is inside the list.
pub proof fn lemma_run_stays_valid(run: Seq<TabManager>, k: int)
    requires
        is_run(run),
        0 <= k < run.len(),
    ensures
        run[k].wf(),
        run[k].spec_tabs().len() > 0,
        run[k].spec_active() < run[k].spec_tabs().len(),
    decreases k,
{
    let m = run[k];
    if k == 0 {
        assert forall|i: int| 0 <= i < m.spec_tabs().len() implies #[trigger] m.spec_tabs()[i].wf() by {
            assert(i == 0);
        }
    } else {
        let prev = run[k - 1];
        lemma_run_stays_valid(run, k - 1);
        assert(manager_step(prev, m));
        if prev.active_replaced(m) {
            assert forall|i: int| 0 <= i < m.spec_tabs().len() implies #[trigger] m.spec_tabs()[i].wf() by {
                if i != m.spec_active() {
                    assert(m.spec_tabs()[i] == prev.spec_tabs()[i]);
                }
            }
        }
    }
}

/// A new tab becomes the active one, at the end of the list, showing its address.
pub proof fn lemma_new_tab_is_active(before: TabManager, after: TabManager, url: Seq<char>)
    requires
        before.wf(),
        before.opened(after, url),
    ensures
        after.spec_active() == after.spec_tabs().len() - 1,
        after.spec_active_tab().url@ == url,
{
}

/// Visiting `b` from a tab whose history is just `a` gives the history `a, b` with
/// the cursor on `b`: back is possible, forward is not.
pub proof fn lemma_visit_from_single_entry(t: Tab, after: Tab, a: Seq<char>, b: Seq<char>)
    requires
        t.wf(),
        t.history_view() == seq![a],
        t.navigated(after, b),
    ensures
        after.history_view() == seq![a, b],
        after.history_index == 1,
        after.spec_can_go_back(),
        !after.spec_can_go_forward(),
{
    assert(seq![a].take(1) =~= seq![a]);
    assert(seq![a].push(b) =~= seq![a, b]);
    assert(after.history@.len() == after.history_view().len());
}

/// From the history `a, b, c` at `c`, a step back lands on `b`; a visit to `d`
/// from there drops `c`, giving `a, b, d` with the cursor on `d`.
pub proof fn lemma_visit_after_back_drops_forward(
    t0: Tab,
    t1: Tab,
    t2: Tab,
    r: bool,
    a: Seq<char>,
    b: Seq<char>,
    c: Seq<char>,
    d: Seq<char>,
)
    requires
        t0.wf(),
        t0.history_view() == seq![a, b, c],
        t0.history_index == 2,
        t0.went_back(t1, r),
        t1.navigated(t2, d),
    ensures
        r,
        t1.history_index == 1,
        t1.url@ == b,
        t2.history_view() == seq![a, b, d],
        t2.history_index == 2,
{
    assert(t1.history_view() == t0.history_view());
    assert(seq![a, b, c].take(2) =~= seq![a, b]);
    assert(seq![a, b].push(d) =~= seq![a, b, d]);
}

/// A step back that is not possible reports `false` and leaves the address, the
/// history and the cursor as they were.
pub proof fn lemma_failed_back_changes_nothing(t: Tab, after: Tab, r: bool)
    requires
        t.wf(),
        !t.spec_can_go_back(),
        t.went_back(after, r),
    ensures
        !r,
        after.url == t.url,
        after.history == t.history,
        after.history_index == t.history_index,
{
}

} // verus!
