//! Saved logins, keyed by site and user name.
use crate::error::BrowserError;
use crate::text::{contains_str, lower_of, lowercase, occurs_in, strip_prefixes, strip_suffix_char, trim_end_char, trim_start_str};
use vstd::prelude::*;

verus! {

/// `std::time::SystemTime`, carried through as an opaque instant.
#[verifier::external_type_specification]
#[verifier::external_body]
pub struct ExSystemTime(std::time::SystemTime);

/// Relies on `SystemTime` being `Copy`: a clone is the same instant.
pub assume_specification[ <std::time::SystemTime as Clone>::clone ](t: &std::time::SystemTime) -> (r: std::time::SystemTime)
    ensures
        r == *t,
;

/// Relies on `std::time::SystemTime::now`: the clock's reading; nothing is known
/// of its value.
#[verifier::external_body]
fn now() -> (r: std::time::SystemTime) {
    std::time::SystemTime::now()
}

/// The site a login address belongs to: the scheme, a leading `www.` and
/// trailing slashes dropped, in lower case.
pub open spec fn normalized_url(u: Seq<char>) -> Seq<char> {
    lower_of(
        strip_suffix_char(
            strip_prefixes(strip_prefixes(strip_prefixes(u, "https://"@), "http://"@), "www."@),
            '/',
        ),
    )
}

/// Compute the site of a login address.
pub fn normalize_url(url: &str) -> (r: String)
    ensures
        r@ == normalized_url(url@),
{
    proof {
        reveal_strlit("https://");
        reveal_strlit("http://");
        reveal_strlit("www.");
    }
    let a = trim_start_str(url, "https://");
    let b = trim_start_str(a, "http://");
    let c = trim_start_str(b, "www.");
    let d = trim_end_char(c, '/');
    lowercase(d)
}

/// A saved login.
#[derive(Debug, Clone)]
pub struct PasswordEntry {
    /// The site, as `normalized_url` gives it.
    pub url: String,
    pub username: String,
    password: String,
    pub display_name: Option<String>,
    pub created_at: std::time::SystemTime,
    pub modified_at: std::time::SystemTime,
    /// How often the login was filled in.
    pub use_count: u32,
}

/// What a saved login holds, as plain values.
pub ghost struct EntryView {
    pub url: Seq<char>,
    pub username: Seq<char>,
    pub password: Seq<char>,
    pub display_name: Option<Seq<char>>,
    pub use_count: u32,
}

impl View for PasswordEntry {
    type V = EntryView;

    closed spec fn view(&self) -> EntryView {
        EntryView {
            url: self.url@,
            username: self.username@,
            password: self.password@,
            display_name: match self.display_name {
                Some(n) => Some(n@),
                None => None,
            },
            use_count: self.use_count,
        }
    }
}

/// `e` is the login of `user` on `site`.
pub open spec fn login_matches(e: PasswordEntry, site: Seq<char>, user: Seq<char>) -> bool {
    e@.url == site && e@.username == user
}

/// `a` and `b` are logins of one user on one site.
pub open spec fn same_login(a: PasswordEntry, b: PasswordEntry) -> bool {
    login_matches(a, b@.url, b@.username)
}

/// Some login in `s` is for `site`.
pub open spec fn has_site(s: Seq<PasswordEntry>, site: Seq<char>) -> bool {
    exists|k: int| 0 <= k < s.len() && s[k]@.url == site
}

/// `site` stands in `r`.
pub open spec fn lists(r: Seq<String>, site: Seq<char>) -> bool {
    exists|a: int| 0 <= a < r.len() && r[a]@ == site
}

/// Keeps the logins saved for `site`.
pub open spec fn at_site(site: Seq<char>) -> spec_fn(PasswordEntry) -> bool {
    |e: PasswordEntry| e@.url == site
}

/// The entries that a sequence of references points at.
pub open spec fn deref_all(s: Seq<&PasswordEntry>) -> Seq<PasswordEntry> {
    s.map_values(|e: &PasswordEntry| *e)
}

impl PasswordEntry {
    /// A login for `username` on the site of `url`, never used.
    pub fn new(url: String, username: String, password: String) -> (r: PasswordEntry)
        ensures
            r@ == (EntryView {
                url: normalized_url(url@),
                username: username@,
                password: password@,
                display_name: None,
                use_count: 0,
            }),
            r.spec_created_at() == r.spec_modified_at(),
    {
        let now = now();
        PasswordEntry {
            url: normalize_url(url.as_str()),
            username,
            password,
            display_name: None,
            created_at: now,
            modified_at: now,
            use_count: 0,
        }
    }

    /// When the login was saved first.
    pub closed spec fn spec_created_at(&self) -> std::time::SystemTime {
        self.created_at
    }

    /// When the password last changed.
    pub closed spec fn spec_modified_at(&self) -> std::time::SystemTime {
        self.modified_at
    }

    /// A login exactly as it was saved earlier.
    pub fn restore(
        url: String,
        username: String,
        password: String,
        display_name: Option<String>,
        created_at: std::time::SystemTime,
        modified_at: std::time::SystemTime,
        use_count: u32,
    ) -> (r: PasswordEntry)
        ensures
            r@ == (EntryView {
                url: url@,
                username: username@,
                password: password@,
                display_name: match display_name {
                    Some(n) => Some(n@),
                    None => None,
                },
                use_count,
            }),
            r.spec_created_at() == created_at,
            r.spec_modified_at() == modified_at,
    {
        PasswordEntry { url, username, password, display_name, created_at, modified_at, use_count }
    }

    /// The stored password.
    pub fn get_password(&self) -> (r: &str)
        ensures
            r@ == self@.password,
    {
        self.password.as_str()
    }

    /// Replace the password and stamp the change.
    pub fn update_password(&mut self, new_password: String)
        ensures
            final(self)@ == (EntryView { password: new_password@, ..old(self)@ }),
    {
        self.password = new_password;
        self.modified_at = now();
    }

    /// Count one more use.
    pub fn increment_use_count(&mut self)
        requires
            old(self)@.use_count < u32::MAX,
        ensures
            final(self)@ == (EntryView { use_count: (old(self)@.use_count + 1) as u32, ..old(self)@ }),
    {
        self.use_count = self.use_count + 1;
    }

    /// The site of the login.
    pub fn domain(&self) -> (r: &str)
        ensures
            r@ == self@.url,
    {
        self.url.as_str()
    }
}

/// What a login form may be filled with.
#[derive(Debug, Clone)]
pub struct AutofillSuggestion {
    pub username: String,
    pub display_name: Option<String>,
    pub last_used: std::time::SystemTime,
    pub use_count: u32,
}

/// A suggestion offers the user name, display name and use count of `e`.
pub open spec fn suggests(s: AutofillSuggestion, e: PasswordEntry) -> bool {
    &&& s.username@ == e@.username
    &&& match s.display_name {
        Some(n) => e@.display_name == Some(n@),
        None => e@.display_name is None,
    }
    &&& s.use_count == e@.use_count
    &&& s.last_used == e.spec_modified_at()
}

/// `e` matches a search for `q`: the lower-case `q` occurs in the lower-case
/// site, user name or display name.
pub open spec fn search_hit(q: Seq<char>) -> spec_fn(PasswordEntry) -> bool {
    |e: PasswordEntry|
        occurs_in(lower_of(q), lower_of(e@.url)) || occurs_in(lower_of(q), lower_of(e@.username)) || (
        e@.display_name is Some && occurs_in(lower_of(q), lower_of(e@.display_name->0)))
}

/// The saved logins, in the order they were added; at most one per site and user.
pub struct PasswordManager {
    entries: Vec<PasswordEntry>,
    storage_path: Option<String>,
    modified: bool,
}

impl PasswordManager {
    pub closed spec fn spec_entries(&self) -> Seq<PasswordEntry> {
        self.entries@
    }

    pub closed spec fn spec_modified(&self) -> bool {
        self.modified
    }

    pub closed spec fn spec_storage_path(&self) -> Option<String> {
        self.storage_path
    }

    /// No two logins share a site and a user name.
    pub open spec fn wf(&self) -> bool {
        forall|i: int, j: int|
            0 <= i < j < self.spec_entries().len() ==> !same_login(
                #[trigger] self.spec_entries()[i],
                #[trigger] self.spec_entries()[j],
            )
    }

    /// Some login of `user` on `site` is saved.
    pub open spec fn has_login(&self, site: Seq<char>, user: Seq<char>) -> bool {
        exists|i: int| 0 <= i < self.spec_entries().len() && login_matches(#[trigger] self.spec_entries()[i], site, user)
    }

    /// An empty store with no file.
    pub fn new() -> (r: PasswordManager)
        ensures
            r.wf(),
            r.spec_entries().len() == 0,
            !r.spec_modified(),
            r.spec_storage_path() is None,
    {
        PasswordManager { entries: Vec::new(), storage_path: None, modified: false }
    }

    /// An empty store that saves to `path`.
    pub fn with_storage_path(path: String) -> (r: PasswordManager)
        ensures
            r.wf(),
            r.spec_entries().len() == 0,
            !r.spec_modified(),
            r.spec_storage_path() == Some(path),
    {
        PasswordManager { entries: Vec::new(), storage_path: Some(path), modified: false }
    }

    /// The file the store saves to, if any.
    pub fn storage_path(&self) -> (r: Option<&String>)
        ensures
            r is Some <==> self.spec_storage_path() is Some,
            r is Some ==> *r->0 == self.spec_storage_path()->0,
    {
        self.storage_path.as_ref()
    }

    /// Position of the login of `user` on `site`, if saved.
    fn find_entry(&self, site: &String, user: &String) -> (r: Option<usize>)
        ensures
            r is None <==> !self.has_login(site@, user@),
            r is Some ==> r->0 < self.spec_entries().len() && login_matches(
                self.spec_entries()[r->0 as int],
                site@,
                user@,
            ),
    {
        let mut i: usize = 0;
        while i < self.entries.len()
            invariant
                0 <= i <= self.entries@.len(),
                forall|j: int| 0 <= j < i ==> !login_matches(#[trigger] self.entries@[j], site@, user@),
            decreases self.entries@.len() - i,
        {
            if self.entries[i].url == *site && self.entries[i].username == *user {
                return Some(i);
            }
            i = i + 1;
        }
        None
    }

    /// Keep a login. Refused, with nothing changed, when its site already holds
    /// one for its user name.
    pub fn insert_entry(&mut self, entry: PasswordEntry) -> (r: Result<(), BrowserError>)
        requires
            old(self).wf(),
        ensures
            final(self).wf(),
            r is Err <==> old(self).has_login(entry@.url, entry@.username),
            r is Err ==> r == Err::<(), BrowserError>(BrowserError::PasswordExists) && *final(self) == *old(self),
            r is Ok ==> final(self).spec_entries() == old(self).spec_entries().push(entry),
            r is Ok ==> final(self).spec_modified(),
            final(self).spec_storage_path() == old(self).spec_storage_path(),
    {
        if self.find_entry(&entry.url, &entry.username).is_some() {
            return Err(BrowserError::PasswordExists);
        }
        self.entries.push(entry);
        self.modified = true;
        assert forall|i: int, j: int| 0 <= i < j < self.spec_entries().len() implies !same_login(
            #[trigger] self.spec_entries()[i],
            #[trigger] self.spec_entries()[j],
        ) by {
            if j == self.spec_entries().len() - 1 {
                assert(self.spec_entries()[i] == old(self).spec_entries()[i]);
            }
        }
        Ok(())
    }

    /// Save a login. Refused, with nothing changed, when the site already holds
    /// one for this user name.
    pub fn add_password(&mut self, url: String, username: String, password: String) -> (r: Result<(), BrowserError>)
        requires
            old(self).wf(),
        ensures
            final(self).wf(),
            r is Err <==> old(self).has_login(normalized_url(url@), username@),
            r is Err ==> r == Err::<(), BrowserError>(BrowserError::PasswordExists) && *final(self) == *old(self),
            r is Ok ==> {
                let e = final(self).spec_entries().last();
                &&& final(self).spec_entries().drop_last() == old(self).spec_entries()
                &&& final(self).spec_entries().len() == old(self).spec_entries().len() + 1
                &&& e@ == (EntryView {
                    url: normalized_url(url@),
                    username: username@,
                    password: password@,
                    display_name: None,
                    use_count: 0,
                })
                &&& final(self).spec_modified()
                &&& final(self).spec_storage_path() == old(self).spec_storage_path()
            },
    {
        let entry = PasswordEntry::new(url, username, password);
        let r = self.insert_entry(entry);
        proof {
            if r is Ok {
                assert(self.spec_entries().drop_last() =~= old(self).spec_entries());
            }
        }
        r
    }

    /// The logins now match what is saved on disk.
    pub fn mark_saved(&mut self)
        ensures
            !final(self).spec_modified(),
            final(self).spec_entries() == old(self).spec_entries(),
            final(self).spec_storage_path() == old(self).spec_storage_path(),
    {
        self.modified = false;
    }

    /// The logins saved for the site of `url`, in the order they were added.
    pub fn get_passwords_for_url(&self, url: &str) -> (r: Vec<&PasswordEntry>)
        ensures
            deref_all(r@) == self.spec_entries().filter(at_site(normalized_url(url@))),
    {
        let site = normalize_url(url);
        let ghost pred = at_site(normalized_url(url@));
        let mut r: Vec<&PasswordEntry> = Vec::new();
        let mut i: usize = 0;
        while i < self.entries.len()
            invariant
                0 <= i <= self.entries@.len(),
                site@ == normalized_url(url@),
                pred == at_site(normalized_url(url@)),
                deref_all(r@) == self.entries@.take(i as int).filter(pred),
            decreases self.entries@.len() - i,
        {
            let e = &self.entries[i];
            proof {
                assert(self.entries@.take(i + 1) == self.entries@.take(i as int).push(*e));
                self.entries@.take(i as int).lemma_filter_push(*e, pred);
            }
            if e.url == site {
                r.push(e);
            }
            i = i + 1;
            assert(deref_all(r@) =~= self.entries@.take(i as int).filter(pred));
        }
        assert(self.entries@.take(i as int) == self.entries@);
        r
    }

    /// The login of `username` on the site of `url`, for changing it in place.
    pub fn get_password(&mut self, url: &str, username: &str) -> (r: Option<&mut PasswordEntry>)
        requires
            old(self).wf(),
        ensures
            r is None <==> !old(self).has_login(normalized_url(url@), username@),
            r is None ==> *final(self) == *old(self),
            r is Some ==> exists|i: int|
                0 <= i < old(self).spec_entries().len() && login_matches(
                    #[trigger] old(self).spec_entries()[i],
                    normalized_url(url@),
                    username@,
                ) && *r->0 == old(self).spec_entries()[i]
                && final(self).spec_entries() == old(self).spec_entries().update(i, *final(r->0)),
            final(self).spec_modified() == old(self).spec_modified(),
            final(self).spec_storage_path() == old(self).spec_storage_path(),
    {
        let site = normalize_url(url);
        let user = username.to_string();
        match self.find_entry(&site, &user) {
            Some(i) => Some(&mut self.entries[i]),
            None => None,
        }
    }

    /// Give the login of `username` on the site of `url` a new password. Refused,
    /// with nothing changed, when no such login is saved.
    pub fn update_password(&mut self, url: &str, username: &str, new_password: String) -> (r: Result<(), BrowserError>)
        requires
            old(self).wf(),
        ensures
            final(self).wf(),
            r is Ok <==> old(self).has_login(normalized_url(url@), username@),
            r is Err ==> r == Err::<(), BrowserError>(BrowserError::PasswordNotFound) && *final(self) == *old(self),
            r is Ok ==> exists|i: int|
                0 <= i < old(self).spec_entries().len() && login_matches(
                    #[trigger] old(self).spec_entries()[i],
                    normalized_url(url@),
                    username@,
                ) && final(self).spec_entries().len() == old(self).spec_entries().len()
                && final(self).spec_entries()[i]@ == (EntryView { password: new_password@, ..old(self).spec_entries()[i]@ })
                && (forall|j: int| 0 <= j < old(self).spec_entries().len() && j != i
                    ==> final(self).spec_entries()[j] == old(self).spec_entries()[j]),
            r is Ok ==> final(self).spec_modified(),
            final(self).spec_storage_path() == old(self).spec_storage_path(),
    {
        let site = normalize_url(url);
        let user = username.to_string();
        match self.find_entry(&site, &user) {
            Some(i) => {
                let mut e = self.entries.remove(i);
                e.update_password(new_password);
                self.entries.insert(i, e);
                self.modified = true;
                assert forall|a: int, b: int| 0 <= a < b < self.spec_entries().len() implies !same_login(
                    #[trigger] self.spec_entries()[a],
                    #[trigger] self.spec_entries()[b],
                ) by {
                    assert(same_login(self.spec_entries()[a], self.spec_entries()[b]) == same_login(old(self).spec_entries()[a], old(self).spec_entries()[b]));
                }
                assert(forall|j: int| 0 <= j < old(self).spec_entries().len() && j != i
                    ==> self.spec_entries()[j] == old(self).spec_entries()[j]);
                Ok(())
            },
            None => Err(BrowserError::PasswordNotFound),
        }
    }

    /// Forget the login of `username` on the site of `url`. Refused, with nothing
    /// changed, when no such login is saved.
    pub fn delete_password(&mut self, url: &str, username: &str) -> (r: Result<(), BrowserError>)
        requires
            old(self).wf(),
        ensures
            final(self).wf(),
            r is Ok <==> old(self).has_login(normalized_url(url@), username@),
            r is Err ==> r == Err::<(), BrowserError>(BrowserError::PasswordNotFound) && *final(self) == *old(self),
            r is Ok ==> exists|i: int|
                0 <= i < old(self).spec_entries().len() && login_matches(
                    #[trigger] old(self).spec_entries()[i],
                    normalized_url(url@),
                    username@,
                ) && final(self).spec_entries() == old(self).spec_entries().remove(i),
            r is Ok ==> final(self).spec_modified(),
            final(self).spec_storage_path() == old(self).spec_storage_path(),
    {
        let site = normalize_url(url);
        let user = username.to_string();
        match self.find_entry(&site, &user) {
            Some(i) => {
                self.entries.remove(i);
                self.modified = true;
                assert forall|a: int, b: int| 0 <= a < b < self.spec_entries().len() implies !same_login(
                    #[trigger] self.spec_entries()[a],
                    #[trigger] self.spec_entries()[b],
                ) by {
                    let oa = if a < i { a } else { a + 1 };
                    let ob = if b < i { b } else { b + 1 };
                    assert(self.spec_entries()[a] == old(self).spec_entries()[oa]);
                    assert(self.spec_entries()[b] == old(self).spec_entries()[ob]);
                }
                Ok(())
            },
            None => Err(BrowserError::PasswordNotFound),
        }
    }

    /// The sites that hold a login, each once, in the order of their first login.
    pub fn get_all_urls(&self) -> (r: Vec<String>)
        ensures
            forall|a: int, b: int| 0 <= a < b < r@.len() ==> (#[trigger] r@[a])@ != (#[trigger] r@[b])@,
            forall|a: int| 0 <= a < r@.len() ==> has_site(self.spec_entries(), (#[trigger] r@[a])@),
            forall|k: int| 0 <= k < self.spec_entries().len() ==> lists(r@, (#[trigger] self.spec_entries()[k])@.url),
    {
        let mut r: Vec<String> = Vec::new();
        let mut i: usize = 0;
        while i < self.entries.len()
            invariant
                0 <= i <= self.entries@.len(),
                self.spec_entries() == self.entries@,
                forall|a: int, b: int| 0 <= a < b < r@.len() ==> (#[trigger] r@[a])@ != (#[trigger] r@[b])@,
                forall|a: int| 0 <= a < r@.len() ==> has_site(self.entries@, (#[trigger] r@[a])@),
                forall|k: int| 0 <= k < i ==> lists(r@, (#[trigger] self.entries@[k])@.url),
            decreases self.entries@.len() - i,
        {
            let url = &self.entries[i].url;
            let mut seen = false;
            let mut j: usize = 0;
            while j < r.len()
                invariant
                    0 <= j <= r@.len(),
                    seen <==> exists|a: int| 0 <= a < j && (#[trigger] r@[a])@ == url@,
                decreases r@.len() - j,
            {
                if r[j] == *url {
                    seen = true;
                }
                j = j + 1;
            }
            let ghost before = r@;
            if !seen {
                r.push(url.clone());
                assert(r@[r@.len() - 1] == *url);
                assert(has_site(self.entries@, url@)) by {
                    assert(self.entries@[i as int]@.url == url@);
                }
                assert forall|a: int| 0 <= a < r@.len() implies has_site(self.entries@, (#[trigger] r@[a])@) by {
                    if a < before.len() {
                        assert(r@[a] == before[a]);
                    }
                }
            }
            assert forall|k: int| 0 <= k < i + 1 implies lists(r@, (#[trigger] self.entries@[k])@.url) by {
                if k == i {
                    if !seen {
                        assert(r@[r@.len() - 1]@ == self.entries@[k]@.url);
                    }
                } else {
                    let a = choose|a: int| 0 <= a < before.len() && before[a]@ == self.entries@[k]@.url;
                    assert(r@[a] == before[a]);
                }
            }
            i = i + 1;
        }
        r
    }

    /// The logins whose site, user name or display name contains `query`, ignoring
    /// case, in the order they were added.
    pub fn search(&self, query: &str) -> (r: Vec<&PasswordEntry>)
        ensures
            deref_all(r@) == self.spec_entries().filter(search_hit(query@)),
    {
        let q = lowercase(query);
        let ghost pred = search_hit(query@);
        let mut r: Vec<&PasswordEntry> = Vec::new();
        let mut i: usize = 0;
        while i < self.entries.len()
            invariant
                0 <= i <= self.entries@.len(),
                q@ == lower_of(query@),
                pred == search_hit(query@),
                deref_all(r@) == self.entries@.take(i as int).filter(pred),
            decreases self.entries@.len() - i,
        {
            let e = &self.entries[i];
            proof {
                assert(self.entries@.take(i + 1) == self.entries@.take(i as int).push(*e));
                self.entries@.take(i as int).lemma_filter_push(*e, pred);
            }
            let in_url = contains_str(lowercase(e.url.as_str()).as_str(), q.as_str());
            let in_user = contains_str(lowercase(e.username.as_str()).as_str(), q.as_str());
            let in_name = match &e.display_name {
                Some(n) => contains_str(lowercase(n.as_str()).as_str(), q.as_str()),
                None => false,
            };
            if in_url || in_user || in_name {
                r.push(e);
            }
            i = i + 1;
            assert(deref_all(r@) =~= self.entries@.take(i as int).filter(pred));
        }
        assert(self.entries@.take(i as int) == self.entries@);
        r
    }

    /// What a login form for the site of `url` may be filled with: one suggestion
    /// per saved login, in the order they were added.
    pub fn get_autofill_suggestions(&self, url: &str) -> (r: Vec<AutofillSuggestion>)
        ensures
            r@.len() == self.spec_entries().filter(at_site(normalized_url(url@))).len(),
            forall|k: int| 0 <= k < r@.len() ==> suggests(
                #[trigger] r@[k],
                self.spec_entries().filter(at_site(normalized_url(url@)))[k],
            ),
    {
        let site = normalize_url(url);
        let ghost pred = at_site(normalized_url(url@));
        let mut r: Vec<AutofillSuggestion> = Vec::new();
        let mut i: usize = 0;
        while i < self.entries.len()
            invariant
                0 <= i <= self.entries@.len(),
                site@ == normalized_url(url@),
                pred == at_site(normalized_url(url@)),
                r@.len() == self.entries@.take(i as int).filter(pred).len(),
                forall|k: int| 0 <= k < r@.len() ==> suggests(
                    #[trigger] r@[k],
                    self.entries@.take(i as int).filter(pred)[k],
                ),
            decreases self.entries@.len() - i,
        {
            let e = &self.entries[i];
            proof {
                assert(self.entries@.take(i + 1) == self.entries@.take(i as int).push(*e));
                self.entries@.take(i as int).lemma_filter_push(*e, pred);
            }
            if e.url == site {
                let display_name = match &e.display_name {
                    Some(n) => Some(n.clone()),
                    None => None,
                };
                r.push(AutofillSuggestion {
                    username: e.username.clone(),
                    display_name,
                    last_used: e.modified_at,
                    use_count: e.use_count,
                });
            }
            i = i + 1;
        }
        assert(self.entries@.take(i as int) == self.entries@);
        r
    }

    /// Every saved login, in the order they were added.
    pub fn get_all_entries(&self) -> (r: Vec<&PasswordEntry>)
        ensures
            deref_all(r@) == self.spec_entries(),
    {
        let mut r: Vec<&PasswordEntry> = Vec::new();
        let mut i: usize = 0;
        while i < self.entries.len()
            invariant
                0 <= i <= self.entries@.len(),
                deref_all(r@) == self.entries@.take(i as int),
            decreases self.entries@.len() - i,
        {
            let e = &self.entries[i];
            assert(self.entries@.take(i + 1) == self.entries@.take(i as int).push(*e));
            r.push(e);
            i = i + 1;
            assert(deref_all(r@) =~= self.entries@.take(i as int));
        }
        assert(self.entries@.take(i as int) == self.entries@);
        r
    }

    /// Number of saved logins.
    pub fn count(&self) -> (r: usize)
        ensures
            r == self.spec_entries().len(),
    {
        self.entries.len()
    }

    /// Whether the logins changed since the store was made or loaded.
    pub fn is_modified(&self) -> (r: bool)
        ensures
            r == self.spec_modified(),
    {
        self.modified
    }

    /// Forget every login.
    pub fn clear_all(&mut self)
        ensures
            final(self).wf(),
            final(self).spec_entries().len() == 0,
            final(self).spec_modified(),
            final(self).spec_storage_path() == old(self).spec_storage_path(),
    {
        self.entries.clear();
        self.modified = true;
    }
}

impl Default for PasswordManager {
    fn default() -> (r: PasswordManager)
        ensures
            r.wf(),
            r.spec_entries().len() == 0,
            !r.spec_modified(),
            r.spec_storage_path() is None,
    {
        PasswordManager::new()
    }
}

} // verus!
