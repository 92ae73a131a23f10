//! The extensions that are installed, by id.
use crate::error::BrowserError;
use vstd::prelude::*;

verus! {

/// An installed extension.
#[derive(Debug, Clone)]
pub struct ExtensionInfo {
    pub id: String,
    pub name: String,
    pub version: String,
    pub enabled: bool,
}

/// `e` is the extension `id` with the given name, version and state.
pub open spec fn info_is(e: ExtensionInfo, id: Seq<char>, name: Seq<char>, version: Seq<char>, enabled: bool) -> bool {
    e.id@ == id && e.name@ == name && e.version@ == version && e.enabled == enabled
}

/// The references of a list, as values.
pub open spec fn deref_infos(s: Seq<&ExtensionInfo>) -> Seq<ExtensionInfo> {
    s.map_values(|e: &ExtensionInfo| *e)
}

/// The installed extensions in the order they were first registered; one per id.
pub struct ExtensionRegistry {
    extensions: Vec<ExtensionInfo>,
}

impl ExtensionRegistry {
    pub closed spec fn spec_extensions(&self) -> Seq<ExtensionInfo> {
        self.extensions@
    }

    /// No two extensions share an id.
    pub open spec fn wf(&self) -> bool {
        forall|i: int, j: int|
            0 <= i < j < self.spec_extensions().len() ==> (#[trigger] self.spec_extensions()[i]).id@
                != (#[trigger] self.spec_extensions()[j]).id@
    }

    /// Position of the extension `id`.
    pub open spec fn holds_at(&self, id: Seq<char>, i: int) -> bool {
        0 <= i < self.spec_extensions().len() && self.spec_extensions()[i].id@ == id
    }

    /// Some extension has the id.
    pub open spec fn has(&self, id: Seq<char>) -> bool {
        exists|i: int| #[trigger] self.holds_at(id, i)
    }

    /// `after` is this registry with the extension at `i` enabled or disabled.
    pub open spec fn toggled(&self, after: ExtensionRegistry, i: int, enabled: bool) -> bool {
        after.spec_extensions() == self.spec_extensions().update(
            i,
            ExtensionInfo { enabled, ..self.spec_extensions()[i] },
        )
    }

    /// No extension installed.
    pub fn new() -> (r: ExtensionRegistry)
        ensures
            r.wf(),
            r.spec_extensions().len() == 0,
    {
        ExtensionRegistry { extensions: Vec::new() }
    }

    fn find(&self, id: &str) -> (r: Option<usize>)
        ensures
            r is None <==> !self.has(id@),
            r is Some ==> self.holds_at(id@, r->0 as int),
    {
        let key = id.to_string();
        let mut i: usize = 0;
        while i < self.extensions.len()
            invariant
                0 <= i <= self.extensions@.len(),
                key@ == id@,
                forall|j: int| 0 <= j < i ==> !#[trigger] self.holds_at(id@, j),
            decreases self.extensions@.len() - i,
        {
            if self.extensions[i].id == key {
                assert(self.holds_at(id@, i as int));
                return Some(i);
            }
            i = i + 1;
        }
        None
    }

    /// Install an extension, enabled. An extension already under `id` is replaced
    /// in place.
    pub fn register(&mut self, id: &str, name: &str, version: &str) -> (r: Result<(), BrowserError>)
        requires
            old(self).wf(),
        ensures
            final(self).wf(),
            r is Ok,
            !old(self).has(id@) ==> {
                &&& final(self).spec_extensions().len() == old(self).spec_extensions().len() + 1
                &&& final(self).spec_extensions().drop_last() == old(self).spec_extensions()
                &&& info_is(final(self).spec_extensions().last(), id@, name@, version@, true)
            },
            forall|i: int| #[trigger] old(self).holds_at(id@, i) ==> {
                &&& final(self).spec_extensions().len() == old(self).spec_extensions().len()
                &&& info_is(final(self).spec_extensions()[i], id@, name@, version@, true)
                &&& forall|j: int| 0 <= j < old(self).spec_extensions().len() && j != i
                    ==> final(self).spec_extensions()[j] == old(self).spec_extensions()[j]
            },
    {
        let info = ExtensionInfo {
            id: id.to_string(),
            name: name.to_string(),
            version: version.to_string(),
            enabled: true,
        };
        match self.find(id) {
            Some(i) => {
                self.extensions.set(i, info);
                assert forall|a: int, b: int| 0 <= a < b < self.spec_extensions().len() implies (
                #[trigger] self.spec_extensions()[a]).id@ != (#[trigger] self.spec_extensions()[b]).id@ by {
                    if a != i && b != i {
                        assert(old(self).spec_extensions()[a] == self.spec_extensions()[a]);
                        assert(old(self).spec_extensions()[b] == self.spec_extensions()[b]);
                    } else if a == i {
                        assert(old(self).spec_extensions()[b] == self.spec_extensions()[b]);
                    } else {
                        assert(old(self).spec_extensions()[a] == self.spec_extensions()[a]);
                    }
                }
                assert forall|k: int| #[trigger] old(self).holds_at(id@, k) implies k == i by {
                    if k != i {
                        if k < i {
                            assert(old(self).spec_extensions()[k].id@ != old(self).spec_extensions()[i as int].id@);
                        } else {
                            assert(old(self).spec_extensions()[i as int].id@ != old(self).spec_extensions()[k].id@);
                        }
                    }
                }
            },
            None => {
                self.extensions.push(info);
                assert(self.spec_extensions().drop_last() =~= old(self).spec_extensions());
                assert forall|a: int, b: int| 0 <= a < b < self.spec_extensions().len() implies (
                #[trigger] self.spec_extensions()[a]).id@ != (#[trigger] self.spec_extensions()[b]).id@ by {
                    assert(self.spec_extensions()[a] == old(self).spec_extensions()[a]);
                    if b < old(self).spec_extensions().len() {
                        assert(self.spec_extensions()[b] == old(self).spec_extensions()[b]);
                    } else {
                        assert(!old(self).holds_at(id@, a));
                    }
                }
            },
        }
        Ok(())
    }

    /// Remove the extension `id`; refused, with nothing changed, when none has it.
    pub fn unregister(&mut self, id: &str) -> (r: Result<(), BrowserError>)
        requires
            old(self).wf(),
        ensures
            final(self).wf(),
            r is Ok <==> old(self).has(id@),
            r is Err ==> r == Err::<(), BrowserError>(BrowserError::ExtensionNotFound) && *final(self) == *old(self),
            forall|i: int| #[trigger] old(self).holds_at(id@, i)
                ==> final(self).spec_extensions() == old(self).spec_extensions().remove(i),
    {
        match self.find(id) {
            Some(i) => {
                self.extensions.remove(i);
                assert forall|a: int, b: int| 0 <= a < b < self.spec_extensions().len() implies (
                #[trigger] self.spec_extensions()[a]).id@ != (#[trigger] self.spec_extensions()[b]).id@ by {
                    let oa = if a < i { a } else { a + 1 };
                    let ob = if b < i { b } else { b + 1 };
                    assert(self.spec_extensions()[a] == old(self).spec_extensions()[oa]);
                    assert(self.spec_extensions()[b] == old(self).spec_extensions()[ob]);
                }
                assert forall|k: int| #[trigger] old(self).holds_at(id@, k) implies k == i by {
                    if k < i {
                        assert(old(self).spec_extensions()[k].id@ != old(self).spec_extensions()[i as int].id@);
                    } else if k > i {
                        assert(old(self).spec_extensions()[i as int].id@ != old(self).spec_extensions()[k].id@);
                    }
                }
                Ok(())
            },
            None => Err(BrowserError::ExtensionNotFound),
        }
    }

    /// The extension `id`, if installed.
    pub fn get(&self, id: &str) -> (r: Option<&ExtensionInfo>)
        requires
            self.wf(),
        ensures
            r is Some <==> self.has(id@),
            forall|i: int| #[trigger] self.holds_at(id@, i) ==> r == Some(&self.spec_extensions()[i]),
    {
        match self.find(id) {
            Some(i) => {
                assert forall|k: int| #[trigger] self.holds_at(id@, k) implies k == i by {
                    if k < i {
                        assert(self.spec_extensions()[k].id@ != self.spec_extensions()[i as int].id@);
                    } else if k > i {
                        assert(self.spec_extensions()[i as int].id@ != self.spec_extensions()[k].id@);
                    }
                }
                Some(&self.extensions[i])
            },
            None => None,
        }
    }

    /// Every installed extension, in the order they were first registered.
    pub fn list(&self) -> (r: Vec<&ExtensionInfo>)
        ensures
            deref_infos(r@) == self.spec_extensions(),
    {
        let mut r: Vec<&ExtensionInfo> = Vec::new();
        let mut i: usize = 0;
        while i < self.extensions.len()
            invariant
                0 <= i <= self.extensions@.len(),
                deref_infos(r@) == self.extensions@.take(i as int),
            decreases self.extensions@.len() - i,
        {
            let e = &self.extensions[i];
            assert(self.extensions@.take(i + 1) == self.extensions@.take(i as int).push(*e));
            r.push(e);
            i = i + 1;
            assert(deref_infos(r@) =~= self.extensions@.take(i as int));
        }
        assert(self.extensions@.take(i as int) == self.extensions@);
        r
    }

    fn set_enabled(&mut self, id: &str, enabled: bool) -> (r: Result<(), BrowserError>)
        requires
            old(self).wf(),
        ensures
            final(self).wf(),
            r is Ok <==> old(self).has(id@),
            r is Err ==> r == Err::<(), BrowserError>(BrowserError::ExtensionNotFound) && *final(self) == *old(self),
            forall|i: int| #[trigger] old(self).holds_at(id@, i) ==> old(self).toggled(*final(self), i, enabled),
    {
        match self.find(id) {
            Some(i) => {
                let mut info = self.extensions.remove(i);
                info.enabled = enabled;
                self.extensions.insert(i, info);
                assert(self.spec_extensions() =~= old(self).spec_extensions().update(
                    i as int,
                    ExtensionInfo { enabled, ..old(self).spec_extensions()[i as int] },
                ));
                assert forall|a: int, b: int| 0 <= a < b < self.spec_extensions().len() implies (
                #[trigger] self.spec_extensions()[a]).id@ != (#[trigger] self.spec_extensions()[b]).id@ by {
                    assert(self.spec_extensions()[a].id == old(self).spec_extensions()[a].id);
                    assert(self.spec_extensions()[b].id == old(self).spec_extensions()[b].id);
                }
                assert forall|k: int| #[trigger] old(self).holds_at(id@, k) implies k == i by {
                    if k < i {
                        assert(old(self).spec_extensions()[k].id@ != old(self).spec_extensions()[i as int].id@);
                    } else if k > i {
                        assert(old(self).spec_extensions()[i as int].id@ != old(self).spec_extensions()[k].id@);
                    }
                }
                Ok(())
            },
            None => Err(BrowserError::ExtensionNotFound),
        }
    }

    /// Turn the extension `id` on; refused, with nothing changed, when none has it.
    pub fn enable(&mut self, id: &str) -> (r: Result<(), BrowserError>)
        requires
            old(self).wf(),
        ensures
            final(self).wf(),
            r is Ok <==> old(self).has(id@),
            r is Err ==> r == Err::<(), BrowserError>(BrowserError::ExtensionNotFound) && *final(self) == *old(self),
            forall|i: int| #[trigger] old(self).holds_at(id@, i) ==> old(self).toggled(*final(self), i, true),
    {
        self.set_enabled(id, true)
    }

    /// Turn the extension `id` off; refused, with nothing changed, when none has it.
    pub fn disable(&mut self, id: &str) -> (r: Result<(), BrowserError>)
        requires
            old(self).wf(),
        ensures
            final(self).wf(),
            r is Ok <==> old(self).has(id@),
            r is Err ==> r == Err::<(), BrowserError>(BrowserError::ExtensionNotFound) && *final(self) == *old(self),
            forall|i: int| #[trigger] old(self).holds_at(id@, i) ==> old(self).toggled(*final(self), i, false),
    {
        self.set_enabled(id, false)
    }
}

impl Default for ExtensionRegistry {
    fn default() -> (r: ExtensionRegistry)
        ensures
            r.wf(),
            r.spec_extensions().len() == 0,
    {
        ExtensionRegistry::new()
    }
}

} // verus!
