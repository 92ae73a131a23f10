//! The browser window's state between frames, and what each user command does
//! to it.
use crate::text::{alphanumeric, begins_with, is_alphanumeric, starts_with, trim, trimmed};
use crate::ui::settings::{url_encoded, SearchEngine};
use crate::ui::tabs::{lemma_replace_active_tab, Tab, TabManager, HOME_URL};
use vstd::prelude::*;
use vstd::utf8::encode_utf8;

verus! {

/// The address of the settings page.
pub const SETTINGS_URL: &'static str = "about:settings";

/// The characters after the last `.` of `t`, or all of `t` when it has none.
pub open spec fn after_last_dot(t: Seq<char>) -> Seq<char>
    decreases t.len(),
{
    if t.len() == 0 || t.last() == '.' {
        if t.len() == 0 {
            t
        } else {
            Seq::empty()
        }
    } else {
        after_last_dot(t.drop_last()).push(t.last())
    }
}

/// Address-bar text that reads as a domain: a dot, no space, and a last part of
/// at least two bytes, all alphanumeric.
pub open spec fn looks_like_domain(t: Seq<char>) -> bool {
    t.contains('.') && !t.contains(' ') && tld_like(after_last_dot(t))
}

/// A last domain part: at least two bytes, all alphanumeric.
pub open spec fn tld_like(last: Seq<char>) -> bool {
    encode_utf8(last).len() >= 2 && forall|i: int| 0 <= i < last.len() ==> alphanumeric(#[trigger] last[i])
}

/// The address that trimmed address-bar text `t` stands for: itself when it names
/// a scheme the browser knows, `https://` and itself when it reads as a domain,
/// and otherwise a search for it.
pub open spec fn address_for_trimmed(t: Seq<char>, engine: SearchEngine) -> Seq<char> {
    if begins_with(t, "about:"@) || begins_with(t, "http://"@) || begins_with(t, "https://"@) {
        t
    } else if looks_like_domain(t) {
        "https://"@ + t
    } else {
        engine.spec_query_prefix() + url_encoded(t)
    }
}

/// Whether `t` holds the character `c`.
fn has_char(t: &str, c: char) -> (r: bool)
    ensures
        r == t@.contains(c),
{
    let n = t.unicode_len();
    let mut i: usize = 0;
    while i < n
        invariant
            0 <= i <= n,
            n == t@.len(),
            forall|j: int| 0 <= j < i ==> t@[j] != c,
        decreases n - i,
    {
        if t.get_char(i) == c {
            return true;
        }
        i = i + 1;
    }
    false
}

/// Whether trimmed address-bar text reads as a domain.
pub fn is_domain_like(t: &str) -> (r: bool)
    ensures
        r == looks_like_domain(t@),
{
    let dot = has_char(t, '.');
    let space = has_char(t, ' ');
    if !dot || space {
        assert(!looks_like_domain(t@));
        return false;
    }
    let n = t.unicode_len();
    let mut k: usize = n;
    assert(t@.take(n as int) =~= t@);
    assert(t@.subrange(n as int, n as int) =~= Seq::<char>::empty());
    assert(t@ + Seq::<char>::empty() =~= t@);
    while k > 0 && t.get_char(k - 1) != '.'
        invariant
            0 <= k <= n,
            n == t@.len(),
            after_last_dot(t@) == after_last_dot(t@.take(k as int)) + t@.subrange(k as int, n as int),
            forall|j: int| k <= j < n ==> t@[j] != '.',
        decreases k,
    {
        let ghost pre = t@.take(k as int);
        assert(pre.drop_last() =~= t@.take(k - 1));
        assert(t@.subrange(k - 1, n as int) =~= seq![pre.last()] + t@.subrange(k as int, n as int));
        assert(after_last_dot(t@.take(k - 1)).push(pre.last()) + t@.subrange(k as int, n as int)
            =~= after_last_dot(t@.take(k - 1)) + t@.subrange(k - 1, n as int));
        k = k - 1;
    }
    proof {
        if k == 0 {
            assert(t@.take(0) =~= Seq::<char>::empty());
            assert(after_last_dot(t@.take(0)) =~= Seq::<char>::empty());
            let j = choose|j: int| 0 <= j < t@.len() && t@[j] == '.';
            assert(t@.subrange(0, n as int)[j] == '.');
        } else {
            assert(t@.take(k as int).last() == '.');
        }
        assert(after_last_dot(t@) =~= t@.subrange(k as int, n as int));
    }
    let last = t.substring_char(k, n);
    assert(last@ == after_last_dot(t@));
    let bytes = last.as_bytes();
    if bytes.len() < 2 {
        assert(!tld_like(last@));
        return false;
    }
    let m = last.unicode_len();
    let mut i: usize = 0;
    while i < m
        invariant
            0 <= i <= m,
            m == last@.len(),
            last@ == after_last_dot(t@),
            encode_utf8(last@).len() >= 2,
            t@.contains('.') && !t@.contains(' '),
            forall|j: int| 0 <= j < i ==> alphanumeric(#[trigger] last@[j]),
        decreases m - i,
    {
        if !is_alphanumeric(last.get_char(i)) {
            assert(!alphanumeric(last@[i as int]));
            assert(!tld_like(last@));
            return false;
        }
        i = i + 1;
    }
    true
}

/// The address that trimmed address-bar text stands for.
pub fn address_for(t: &str, engine: SearchEngine) -> (r: String)
    ensures
        r@ == address_for_trimmed(t@, engine),
{
    if starts_with(t, "about:") || starts_with(t, "http://") || starts_with(t, "https://") {
        return t.to_string();
    }
    if is_domain_like(t) {
        let mut r = "https://".to_string();
        r.append(t);
        return r;
    }
    engine.search_url(t)
}

/// The address that address-bar text stands for, once trimmed.
pub fn process_url_input(input: &str, engine: SearchEngine) -> (r: String)
    ensures
        r@ == address_for_trimmed(trimmed(input@), engine),
{
    address_for(trim(input), engine)
}

/// The window between frames: the tabs, the address bar, a tab waiting to be
/// closed once the frame is drawn, the start page and the search engine.
pub struct BrowserState {
    tab_manager: TabManager,
    url_input: String,
    tab_to_close: Option<usize>,
    homepage: String,
    search_engine: SearchEngine,
}

impl BrowserState {
    pub closed spec fn spec_tabs(&self) -> TabManager {
        self.tab_manager
    }

    pub closed spec fn spec_url_input(&self) -> Seq<char> {
        self.url_input@
    }

    pub closed spec fn spec_pending_close(&self) -> Option<usize> {
        self.tab_to_close
    }

    pub closed spec fn spec_homepage(&self) -> Seq<char> {
        self.homepage@
    }

    pub closed spec fn spec_search_engine(&self) -> SearchEngine {
        self.search_engine
    }

    /// The tabs are well formed.
    pub open spec fn wf(&self) -> bool {
        self.spec_tabs().wf()
    }

    /// The address bar shows the active tab's address.
    pub open spec fn shows_active(&self) -> bool {
        self.spec_url_input() == self.spec_tabs().spec_active_tab().url@
    }

    /// `after` keeps the start page, the search engine and the pending close.
    pub open spec fn keeps_setup(&self, after: BrowserState) -> bool {
        &&& after.spec_homepage() == self.spec_homepage()
        &&& after.spec_search_engine() == self.spec_search_engine()
        &&& after.spec_pending_close() == self.spec_pending_close()
    }

    /// A fresh window with one tab at the start of the tab bar.
    pub fn new(homepage: String, search_engine: SearchEngine) -> (r: BrowserState)
        ensures
            r.wf(),
            r.shows_active(),
            r.spec_tabs().spec_tabs().len() == 1,
            r.spec_pending_close() is None,
            r.spec_homepage() == homepage@,
            r.spec_search_engine() == search_engine,
    {
        let tab_manager = TabManager::new();
        let url_input = tab_manager.active_tab().url.clone();
        BrowserState { tab_manager, url_input, tab_to_close: None, homepage, search_engine }
    }

    pub fn tab_manager(&self) -> (r: &TabManager)
        ensures
            *r == self.spec_tabs(),
    {
        &self.tab_manager
    }

    pub fn url_input(&self) -> (r: &str)
        ensures
            r@ == self.spec_url_input(),
    {
        self.url_input.as_str()
    }

    /// The user typed in the address bar.
    pub fn set_url_input(&mut self, text: &str)
        ensures
            final(self).spec_url_input() == text@,
            final(self).spec_tabs() == old(self).spec_tabs(),
            old(self).keeps_setup(*final(self)),
    {
        self.url_input = text.to_string();
    }

    /// The tab waiting to be closed.
    pub fn pending_close(&self) -> (r: Option<usize>)
        ensures
            r == self.spec_pending_close(),
    {
        self.tab_to_close
    }

    fn show_active(&mut self)
        requires
            old(self).wf(),
        ensures
            final(self).wf(),
            final(self).shows_active(),
            final(self).spec_tabs() == old(self).spec_tabs(),
            old(self).keeps_setup(*final(self)),
    {
        self.url_input = self.tab_manager.active_tab().url.clone();
    }

    /// Open a tab at `HOME_URL` and show it.
    pub fn open_new_tab(&mut self)
        requires
            old(self).wf(),
        ensures
            final(self).wf(),
            final(self).shows_active(),
            old(self).spec_tabs().opened(final(self).spec_tabs(), HOME_URL@),
            old(self).keeps_setup(*final(self)),
    {
        self.tab_manager.new_tab(HOME_URL);
        self.show_active();
    }

    /// Mark the tab at `index` to be closed once the frame is drawn.
    pub fn request_close(&mut self, index: usize)
        ensures
            final(self).spec_pending_close() == Some(index),
            final(self).spec_tabs() == old(self).spec_tabs(),
            final(self).spec_url_input() == old(self).spec_url_input(),
            final(self).spec_homepage() == old(self).spec_homepage(),
            final(self).spec_search_engine() == old(self).spec_search_engine(),
    {
        self.tab_to_close = Some(index);
    }

    /// Mark the active tab to be closed once the frame is drawn, unless it is the
    /// only tab.
    pub fn request_close_active(&mut self)
        requires
            old(self).wf(),
        ensures
            final(self).spec_pending_close() == (if old(self).spec_tabs().spec_tabs().len() > 1 {
                Some(old(self).spec_tabs().spec_active() as usize)
            } else {
                old(self).spec_pending_close()
            }),
            final(self).spec_tabs() == old(self).spec_tabs(),
            final(self).spec_url_input() == old(self).spec_url_input(),
            final(self).spec_homepage() == old(self).spec_homepage(),
            final(self).spec_search_engine() == old(self).spec_search_engine(),
    {
        let current = self.tab_manager.active_tab_index();
        if self.tab_manager.tab_count() > 1 {
            self.tab_to_close = Some(current);
        }
    }

    /// After a frame: close the tab waiting to be closed, if any, and show the
    /// active tab.
    pub fn apply_pending_close(&mut self) -> (r: bool)
        requires
            old(self).wf(),
        ensures
            final(self).wf(),
            final(self).spec_pending_close() is None,
            final(self).spec_homepage() == old(self).spec_homepage(),
            final(self).spec_search_engine() == old(self).spec_search_engine(),
            match old(self).spec_pending_close() {
                None => !r && final(self).spec_tabs() == old(self).spec_tabs()
                    && final(self).spec_url_input() == old(self).spec_url_input(),
                Some(i) => old(self).spec_tabs().closed(final(self).spec_tabs(), i as nat, r)
                    && final(self).shows_active(),
            },
    {
        match self.tab_to_close {
            Some(i) => {
                self.tab_to_close = None;
                let r = self.tab_manager.close_tab(i);
                self.show_active();
                r
            },
            None => false,
        }
    }

    /// Show the tab at `index`, if there is one.
    pub fn switch_to(&mut self, index: usize) -> (r: bool)
        requires
            old(self).wf(),
        ensures
            final(self).wf(),
            final(self).shows_active(),
            old(self).spec_tabs().switched(final(self).spec_tabs(), index as nat, r),
            old(self).keeps_setup(*final(self)),
    {
        let r = self.tab_manager.switch_to_tab(index);
        self.show_active();
        r
    }

    /// Step the active tab back, if it can.
    pub fn back(&mut self) -> (r: bool)
        requires
            old(self).wf(),
        ensures
            final(self).wf(),
            old(self).keeps_setup(*final(self)),
            old(self).spec_tabs().active_replaced(final(self).spec_tabs()),
            old(self).spec_tabs().spec_active_tab().went_back(final(self).spec_tabs().spec_active_tab(), r),
            r ==> final(self).shows_active(),
            !r ==> final(self).spec_url_input() == old(self).spec_url_input(),
    {
        if self.tab_manager.active_tab().can_go_back() {
            let r = self.tab_manager.active_tab_mut().go_back();
            proof {
                lemma_replace_active_tab(old(self).spec_tabs(), self.spec_tabs());
            }
            self.show_active();
            r
        } else {
            proof {
                assert(old(self).spec_tabs().spec_tabs().update(
                    old(self).spec_tabs().spec_active() as int,
                    old(self).spec_tabs().spec_active_tab(),
                ) =~= old(self).spec_tabs().spec_tabs());
            }
            false
        }
    }

    /// Step the active tab forward, if it can.
    pub fn forward(&mut self) -> (r: bool)
        requires
            old(self).wf(),
        ensures
            final(self).wf(),
            old(self).keeps_setup(*final(self)),
            old(self).spec_tabs().active_replaced(final(self).spec_tabs()),
            old(self).spec_tabs().spec_active_tab().went_forward(final(self).spec_tabs().spec_active_tab(), r),
            r ==> final(self).shows_active(),
            !r ==> final(self).spec_url_input() == old(self).spec_url_input(),
    {
        if self.tab_manager.active_tab().can_go_forward() {
            let r = self.tab_manager.active_tab_mut().go_forward();
            proof {
                lemma_replace_active_tab(old(self).spec_tabs(), self.spec_tabs());
            }
            self.show_active();
            r
        } else {
            proof {
                assert(old(self).spec_tabs().spec_tabs().update(
                    old(self).spec_tabs().spec_active() as int,
                    old(self).spec_tabs().spec_active_tab(),
                ) =~= old(self).spec_tabs().spec_tabs());
            }
            false
        }
    }

    /// Load the active page again.
    pub fn reload(&mut self)
        requires
            old(self).wf(),
        ensures
            final(self).wf(),
            old(self).keeps_setup(*final(self)),
            final(self).spec_url_input() == old(self).spec_url_input(),
            old(self).spec_tabs().active_replaced(final(self).spec_tabs()),
            final(self).spec_tabs().spec_active_tab() == (Tab {
                is_loading: true,
                ..old(self).spec_tabs().spec_active_tab()
            }),
    {
        proof {
            assert(self.spec_tabs().spec_active_tab().wf());
        }
        self.tab_manager.active_tab_mut().reload();
        proof {
            lemma_replace_active_tab(old(self).spec_tabs(), self.spec_tabs());
        }
    }

    /// Stop showing the active page as loading.
    pub fn stop_loading(&mut self)
        requires
            old(self).wf(),
        ensures
            final(self).wf(),
            old(self).keeps_setup(*final(self)),
            final(self).spec_url_input() == old(self).spec_url_input(),
            old(self).spec_tabs().active_replaced(final(self).spec_tabs()),
            final(self).spec_tabs().spec_active_tab() == (Tab {
                is_loading: false,
                ..old(self).spec_tabs().spec_active_tab()
            }),
    {
        proof {
            assert(self.spec_tabs().spec_active_tab().wf());
        }
        self.tab_manager.active_tab_mut().finish_loading();
        proof {
            lemma_replace_active_tab(old(self).spec_tabs(), self.spec_tabs());
        }
    }

    /// Visit `url` in the active tab and show it in the address bar.
    pub fn open(&mut self, url: &str)
        requires
            old(self).wf(),
        ensures
            final(self).wf(),
            final(self).shows_active(),
            final(self).spec_url_input() == url@,
            old(self).keeps_setup(*final(self)),
            old(self).spec_tabs().active_replaced(final(self).spec_tabs()),
            old(self).spec_tabs().spec_active_tab().navigated(final(self).spec_tabs().spec_active_tab(), url@),
    {
        self.tab_manager.active_tab_mut().navigate_to(url);
        proof {
            lemma_replace_active_tab(old(self).spec_tabs(), self.spec_tabs());
        }
        self.show_active();
    }

    /// Visit the start page in the active tab.
    pub fn go_home(&mut self)
        requires
            old(self).wf(),
        ensures
            final(self).wf(),
            final(self).shows_active(),
            final(self).spec_url_input() == old(self).spec_homepage(),
            old(self).keeps_setup(*final(self)),
            old(self).spec_tabs().active_replaced(final(self).spec_tabs()),
            old(self).spec_tabs().spec_active_tab().navigated(
                final(self).spec_tabs().spec_active_tab(),
                old(self).spec_homepage(),
            ),
    {
        let home = self.homepage.clone();
        self.open(home.as_str());
    }

    /// Visit what the address bar holds, as `process_url_input` reads it.
    pub fn submit_address(&mut self)
        requires
            old(self).wf(),
        ensures
            final(self).wf(),
            final(self).shows_active(),
            final(self).spec_url_input() == address_for_trimmed(
                trimmed(old(self).spec_url_input()),
                old(self).spec_search_engine(),
            ),
            old(self).keeps_setup(*final(self)),
            old(self).spec_tabs().active_replaced(final(self).spec_tabs()),
            old(self).spec_tabs().spec_active_tab().navigated(
                final(self).spec_tabs().spec_active_tab(),
                final(self).spec_url_input(),
            ),
    {
        let url = process_url_input(self.url_input.as_str(), self.search_engine);
        self.open(url.as_str());
    }
}

} // verus!
