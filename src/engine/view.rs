//! Views: the surfaces that pages are shown in.
use crate::error::BrowserError;
use vstd::prelude::*;
use vstd::view::View as _;

verus! {

/// A surface with an id, a title and, once something is loaded, an address.
#[derive(Debug)]
pub struct View {
    id: String,
    title: String,
    url: Option<String>,
}

impl View {
    pub closed spec fn spec_id(&self) -> Seq<char> {
        self.id@
    }

    pub closed spec fn spec_title(&self) -> Seq<char> {
        self.title@
    }

    pub closed spec fn spec_url(&self) -> Option<Seq<char>> {
        match self.url {
            Some(u) => Some(u@),
            None => None,
        }
    }

    /// An empty view.
    pub fn new(id: &str, title: &str) -> (r: View)
        ensures
            r.spec_id() == id@,
            r.spec_title() == title@,
            r.spec_url() is None,
    {
        View { id: id.to_string(), title: title.to_string(), url: None }
    }

    pub fn id(&self) -> (r: &str)
        ensures
            r@ == self.spec_id(),
    {
        self.id.as_str()
    }

    pub fn title(&self) -> (r: &str)
        ensures
            r@ == self.spec_title(),
    {
        self.title.as_str()
    }

    /// Show `url` in the view.
    pub fn set_url(&mut self, url: &str)
        ensures
            final(self).spec_url() == Some(url@),
            final(self).spec_id() == old(self).spec_id(),
            final(self).spec_title() == old(self).spec_title(),
    {
        self.url = Some(url.to_string());
    }

    /// The address shown, if any.
    pub fn url(&self) -> (r: Option<&str>)
        ensures
            r is Some <==> self.spec_url() is Some,
            r is Some ==> r->0@ == self.spec_url()->0,
    {
        match &self.url {
            Some(u) => Some(u.as_str()),
            None => None,
        }
    }
}

/// The views in the order they were added, and which one is shown.
pub struct ViewManager {
    views: Vec<View>,
    active_view: Option<usize>,
}

impl ViewManager {
    pub closed spec fn spec_views(&self) -> Seq<View> {
        self.views@
    }

    pub closed spec fn spec_active(&self) -> Option<usize> {
        self.active_view
    }

    /// The shown view, when set, is one of the views.
    pub open spec fn wf(&self) -> bool {
        self.spec_active() is Some ==> self.spec_active()->0 < self.spec_views().len()
    }

    /// No views.
    pub fn new() -> (r: ViewManager)
        ensures
            r.wf(),
            r.spec_views().len() == 0,
            r.spec_active() is None,
    {
        ViewManager { views: Vec::new(), active_view: None }
    }

    /// Append a view and return its position; the first view added is shown.
    pub fn add_view(&mut self, view: View) -> (r: Result<usize, BrowserError>)
        requires
            old(self).wf(),
        ensures
            final(self).wf(),
            r == Ok::<usize, BrowserError>(old(self).spec_views().len() as usize),
            final(self).spec_views() == old(self).spec_views().push(view),
            final(self).spec_active() == (match old(self).spec_active() {
                Some(a) => Some(a),
                None => Some(old(self).spec_views().len() as usize),
            }),
    {
        self.views.push(view);
        let index = self.views.len() - 1;
        if self.active_view.is_none() {
            self.active_view = Some(index);
        }
        Ok(index)
    }

    /// The shown view, if any.
    pub fn active_view(&self) -> (r: Option<&View>)
        requires
            self.wf(),
        ensures
            r is Some <==> self.spec_active() is Some,
            r is Some ==> *r->0 == self.spec_views()[self.spec_active()->0 as int],
    {
        match self.active_view {
            Some(i) => Some(&self.views[i]),
            None => None,
        }
    }

    /// Show the view at `index`; refused, with nothing changed, past the end.
    pub fn set_active_view(&mut self, index: usize) -> (r: Result<(), BrowserError>)
        requires
            old(self).wf(),
        ensures
            final(self).wf(),
            r is Ok <==> index < old(self).spec_views().len(),
            r is Err ==> r == Err::<(), BrowserError>(BrowserError::InvalidViewIndex),
            final(self).spec_views() == old(self).spec_views(),
            final(self).spec_active() == (if r is Ok { Some(index) } else { old(self).spec_active() }),
    {
        if index < self.views.len() {
            self.active_view = Some(index);
            Ok(())
        } else {
            Err(BrowserError::InvalidViewIndex)
        }
    }
}

impl Default for ViewManager {
    fn default() -> (r: ViewManager)
        ensures
            r.wf(),
            r.spec_views().len() == 0,
    {
        ViewManager::new()
    }
}

} // verus!
