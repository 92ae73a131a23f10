//! Extension manifests in the WebExtensions layout.
use std::collections::HashMap;
use vstd::prelude::*;

verus! {

/// The manifest version that a new manifest declares.
pub const DEFAULT_MANIFEST_VERSION: u8 = 2;

/// Background scripts or page of an extension.
#[derive(Debug, Clone)]
pub struct BackgroundScripts {
    pub scripts: Option<Vec<String>>,
    pub page: Option<String>,
    pub persistent: Option<bool>,
}

/// Scripts injected into the pages that match.
#[derive(Debug, Clone)]
pub struct ContentScript {
    pub matches: Vec<String>,
    pub js: Vec<String>,
    pub css: Vec<String>,
    pub run_at: Option<String>,
}

/// A toolbar button.
#[derive(Debug, Clone)]
pub struct BrowserAction {
    pub default_icon: Option<String>,
    pub default_title: Option<String>,
    pub default_popup: Option<String>,
}

/// An address-bar button.
#[derive(Debug, Clone)]
pub struct PageAction {
    pub default_icon: Option<String>,
    pub default_title: Option<String>,
    pub default_popup: Option<String>,
}

/// The options page.
#[derive(Debug, Clone)]
pub struct OptionsUI {
    pub page: String,
    pub open_in_tab: Option<bool>,
}

/// The permissions an extension may ask for.
#[derive(Debug, Clone, Copy, PartialEq, Eq, Structural)]
pub enum Permission {
    Tabs,
    Bookmarks,
    History,
    Storage,
    Cookies,
    WebRequest,
    WebRequestBlocking,
    Network,
    Downloads,
    Notifications,
    ContextMenus,
    AllUrls,
}

impl Permission {
    /// The permission's name in a manifest.
    pub open spec fn spec_str(self) -> Seq<char> {
        match self {
            Permission::Tabs => "tabs"@,
            Permission::Bookmarks => "bookmarks"@,
            Permission::History => "history"@,
            Permission::Storage => "storage"@,
            Permission::Cookies => "cookies"@,
            Permission::WebRequest => "webRequest"@,
            Permission::WebRequestBlocking => "webRequestBlocking"@,
            Permission::Network => "network"@,
            Permission::Downloads => "downloads"@,
            Permission::Notifications => "notifications"@,
            Permission::ContextMenus => "contextMenus"@,
            Permission::AllUrls => "<all_urls>"@,
        }
    }

    /// The permission's name in a manifest.
    pub fn as_str(&self) -> (r: &'static str)
        ensures
            r@ == self.spec_str(),
    {
        match self {
            Permission::Tabs => "tabs",
            Permission::Bookmarks => "bookmarks",
            Permission::History => "history",
            Permission::Storage => "storage",
            Permission::Cookies => "cookies",
            Permission::WebRequest => "webRequest",
            Permission::WebRequestBlocking => "webRequestBlocking",
            Permission::Network => "network",
            Permission::Downloads => "downloads",
            Permission::Notifications => "notifications",
            Permission::ContextMenus => "contextMenus",
            Permission::AllUrls => "<all_urls>",
        }
    }
}

/// Why a manifest is refused.
pub open spec fn manifest_problem(name: Seq<char>, version: Seq<char>, manifest_version: u8) -> Option<Seq<char>> {
    if name.len() == 0 {
        Some("Extension name is required"@)
    } else if version.len() == 0 {
        Some("Extension version is required"@)
    } else if manifest_version < 2 || manifest_version > 3 {
        Some("Manifest version must be 2 or 3"@)
    } else {
        None
    }
}

/// What an extension declares about itself.
#[derive(Debug, Clone)]
pub struct Manifest {
    pub manifest_version: u8,
    pub id: Option<String>,
    pub name: String,
    pub version: String,
    pub description: String,
    pub author: Option<String>,
    pub homepage_url: Option<String>,
    pub icons: Option<HashMap<String, String>>,
    pub permissions: Vec<String>,
    pub optional_permissions: Vec<String>,
    pub background: Option<BackgroundScripts>,
    pub content_scripts: Vec<ContentScript>,
    pub browser_action: Option<BrowserAction>,
    pub page_action: Option<PageAction>,
    pub options_ui: Option<OptionsUI>,
    pub web_accessible_resources: Vec<String>,
}

impl Manifest {
    /// A version-2 manifest with a name, version and description and nothing else.
    pub fn new(name: &str, version: &str, description: &str) -> (r: Manifest)
        ensures
            r.manifest_version == DEFAULT_MANIFEST_VERSION,
            r.id is None,
            r.name@ == name@,
            r.version@ == version@,
            r.description@ == description@,
            r.author is None,
            r.homepage_url is None,
            r.icons is None,
            r.permissions@.len() == 0,
            r.optional_permissions@.len() == 0,
            r.background is None,
            r.content_scripts@.len() == 0,
            r.browser_action is None,
            r.page_action is None,
            r.options_ui is None,
            r.web_accessible_resources@.len() == 0,
    {
        Manifest {
            manifest_version: DEFAULT_MANIFEST_VERSION,
            id: None,
            name: name.to_string(),
            version: version.to_string(),
            description: description.to_string(),
            author: None,
            homepage_url: None,
            icons: None,
            permissions: Vec::new(),
            optional_permissions: Vec::new(),
            background: None,
            content_scripts: Vec::new(),
            browser_action: None,
            page_action: None,
            options_ui: None,
            web_accessible_resources: Vec::new(),
        }
    }

    /// The same manifest with the given id.
    pub fn with_id(self, id: &str) -> (r: Manifest)
        ensures
            r.id is Some && r.id->0@ == id@,
            r == (Manifest { id: r.id, ..self }),
    {
        let mut m = self;
        m.id = Some(id.to_string());
        m
    }

    /// The same manifest with the given author.
    pub fn with_author(self, author: &str) -> (r: Manifest)
        ensures
            r.author is Some && r.author->0@ == author@,
            r == (Manifest { author: r.author, ..self }),
    {
        let mut m = self;
        m.author = Some(author.to_string());
        m
    }

    /// The same manifest asking for one more permission.
    pub fn with_permission(self, permission: &str) -> (r: Manifest)
        ensures
            r.permissions@.len() == self.permissions@.len() + 1,
            r.permissions@.drop_last() == self.permissions@,
            r.permissions@.last()@ == permission@,
            r == (Manifest { permissions: r.permissions, ..self }),
    {
        let mut m = self;
        m.permissions.push(permission.to_string());
        proof {
            assert(m.permissions@.drop_last() =~= self.permissions@);
        }
        m
    }

    /// The same manifest asking for the given permissions too, after its own.
    pub fn with_permissions(self, permissions: Vec<String>) -> (r: Manifest)
        ensures
            r.permissions@ == self.permissions@ + permissions@,
            r == (Manifest { permissions: r.permissions, ..self }),
    {
        let mut m = self;
        let mut extra = permissions;
        m.permissions.append(&mut extra);
        m
    }

    /// The same manifest with persistent background scripts.
    pub fn with_background_scripts(self, scripts: Vec<String>) -> (r: Manifest)
        ensures
            r.background == Some(BackgroundScripts { scripts: Some(scripts), page: None, persistent: Some(true) }),
            r == (Manifest { background: r.background, ..self }),
    {
        let mut m = self;
        m.background = Some(BackgroundScripts { scripts: Some(scripts), page: None, persistent: Some(true) });
        m
    }

    /// The same manifest with one more content script.
    pub fn with_content_script(self, matches: Vec<String>, js: Vec<String>) -> (r: Manifest)
        ensures
            r.content_scripts@.len() == self.content_scripts@.len() + 1,
            r.content_scripts@.drop_last() == self.content_scripts@,
            r.content_scripts@.last().matches == matches,
            r.content_scripts@.last().js == js,
            r.content_scripts@.last().css@.len() == 0,
            r.content_scripts@.last().run_at is None,
            r == (Manifest { content_scripts: r.content_scripts, ..self }),
    {
        let mut m = self;
        m.content_scripts.push(ContentScript { matches, js, css: Vec::new(), run_at: None });
        proof {
            assert(m.content_scripts@.drop_last() =~= self.content_scripts@);
        }
        m
    }

    /// The same manifest with a toolbar button of the given title and popup.
    pub fn with_browser_action(self, title: &str, popup: &str) -> (r: Manifest)
        ensures
            r.browser_action is Some,
            r.browser_action->0.default_icon is None,
            r.browser_action->0.default_title is Some,
            r.browser_action->0.default_title->0@ == title@,
            r.browser_action->0.default_popup is Some,
            r.browser_action->0.default_popup->0@ == popup@,
            r == (Manifest { browser_action: r.browser_action, ..self }),
    {
        let mut m = self;
        m.browser_action = Some(
            BrowserAction {
                default_icon: None,
                default_title: Some(title.to_string()),
                default_popup: Some(popup.to_string()),
            },
        );
        m
    }

    /// Refuse a manifest without a name or version, or of a version other than 2
    /// or 3; the first problem found is reported.
    pub fn validate(&self) -> (r: Result<(), String>)
        ensures
            match manifest_problem(self.name@, self.version@, self.manifest_version) {
                None => r is Ok,
                Some(m) => r is Err && r->Err_0@ == m,
            },
    {
        if self.name.as_str().is_empty() {
            return Err("Extension name is required".to_string());
        }
        if self.version.as_str().is_empty() {
            return Err("Extension version is required".to_string());
        }
        if self.manifest_version < 2 || self.manifest_version > 3 {
            return Err("Manifest version must be 2 or 3".to_string());
        }
        Ok(())
    }
}

} // verus!
