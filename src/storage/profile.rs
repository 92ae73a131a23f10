//! User profiles, each with its own folder.
use crate::error::BrowserError;
use crate::text::{fresh_uuid, join_path, joined_path};
use vstd::prelude::*;

verus! {

/// A user profile.
#[derive(Debug, Clone)]
pub struct Profile {
    pub id: String,
    pub name: String,
    /// The profile's folder.
    pub path: String,
}

impl Profile {
    pub fn new(id: &str, name: &str, path: String) -> (r: Profile)
        ensures
            r.id@ == id@,
            r.name@ == name@,
            r.path == path,
    {
        Profile { id: id.to_string(), name: name.to_string(), path }
    }

    pub fn id(&self) -> (r: &str)
        ensures
            r@ == self.id@,
    {
        self.id.as_str()
    }

    pub fn name(&self) -> (r: &str)
        ensures
            r@ == self.name@,
    {
        self.name.as_str()
    }

    pub fn path(&self) -> (r: &str)
        ensures
            r@ == self.path@,
    {
        self.path.as_str()
    }
}

/// The profiles in the order they were created, and the id of the active one.
pub struct ProfileManager {
    profiles_dir: String,
    profiles: Vec<Profile>,
    active_profile: Option<String>,
}

/// Position of a profile with the given id.
pub open spec fn profile_at(s: Seq<Profile>, id: Seq<char>, i: int) -> bool {
    0 <= i < s.len() && s[i].id@ == id
}

/// The first position of a profile with the given id, if any.
pub open spec fn first_profile(s: Seq<Profile>, id: Seq<char>) -> Option<int>
    decreases s.len(),
{
    if s.len() == 0 {
        None
    } else if s[0].id@ == id {
        Some(0)
    } else {
        match first_profile(s.skip(1), id) {
            Some(i) => Some(i + 1),
            None => None,
        }
    }
}

/// A first position is a position.
pub proof fn lemma_first_profile_in_range(s: Seq<Profile>, id: Seq<char>)
    ensures
        first_profile(s, id) is Some ==> 0 <= first_profile(s, id)->0 < s.len(),
    decreases s.len(),
{
    if s.len() > 0 && s[0].id@ != id {
        lemma_first_profile_in_range(s.skip(1), id);
    }
}

impl ProfileManager {
    pub closed spec fn spec_dir(&self) -> Seq<char> {
        self.profiles_dir@
    }

    pub closed spec fn spec_profiles(&self) -> Seq<Profile> {
        self.profiles@
    }

    pub closed spec fn spec_active(&self) -> Option<Seq<char>> {
        match self.active_profile {
            Some(id) => Some(id@),
            None => None,
        }
    }

    /// No profiles, kept under `profiles_dir`; the caller makes sure the folder
    /// exists.
    pub fn new(profiles_dir: String) -> (r: ProfileManager)
        ensures
            r.spec_dir() == profiles_dir@,
            r.spec_profiles().len() == 0,
            r.spec_active() is None,
    {
        ProfileManager { profiles_dir, profiles: Vec::new(), active_profile: None }
    }

    /// Add a profile called `name` with a fresh id and a folder of that id under
    /// the profiles folder; the first profile becomes active. The caller creates
    /// the folder.
    pub fn create_profile(&mut self, name: &str) -> (r: Result<Profile, BrowserError>)
        ensures
            r is Ok,
            r->Ok_0.name@ == name@,
            r->Ok_0.id@.len() == 36,
            r->Ok_0.path@ == joined_path(old(self).spec_dir(), r->Ok_0.id@),
            final(self).spec_profiles() == old(self).spec_profiles().push(r->Ok_0),
            final(self).spec_dir() == old(self).spec_dir(),
            final(self).spec_active() == (match old(self).spec_active() {
                Some(a) => Some(a),
                None => Some(r->Ok_0.id@),
            }),
    {
        let id = fresh_uuid();
        let path = join_path(self.profiles_dir.as_str(), id.as_str());
        let profile = Profile::new(id.as_str(), name, path);
        let kept = Profile { id: profile.id.clone(), name: profile.name.clone(), path: profile.path.clone() };
        self.profiles.push(kept);
        if self.active_profile.is_none() {
            self.active_profile = Some(id);
        }
        Ok(profile)
    }

    pub fn profiles(&self) -> (r: &[Profile])
        ensures
            r@ == self.spec_profiles(),
    {
        self.profiles.as_slice()
    }

    fn find(&self, id: &String) -> (r: Option<usize>)
        ensures
            match r {
                Some(i) => first_profile(self.spec_profiles(), id@) == Some(i as int) && i < self.spec_profiles().len(),
                None => first_profile(self.spec_profiles(), id@) is None,
            },
    {
        let mut i: usize = 0;
        assert(self.profiles@.skip(0) =~= self.profiles@);
        while i < self.profiles.len()
            invariant
                0 <= i <= self.profiles@.len(),
                first_profile(self.profiles@, id@) == (match first_profile(self.profiles@.skip(i as int), id@) {
                    Some(k) => Some(k + i),
                    None => None,
                }),
            decreases self.profiles@.len() - i,
        {
            let ghost rest = self.profiles@.skip(i as int);
            assert(rest.skip(1) =~= self.profiles@.skip(i + 1));
            if self.profiles[i].id == *id {
                return Some(i);
            }
            i = i + 1;
        }
        None
    }

    /// The active profile, if one is set and exists.
    pub fn active_profile(&self) -> (r: Option<&Profile>)
        ensures
            match self.spec_active() {
                None => r is None,
                Some(id) => match first_profile(self.spec_profiles(), id) {
                    None => r is None,
                    Some(i) => r == Some(&self.spec_profiles()[i]),
                },
            },
    {
        match &self.active_profile {
            Some(id) => match self.find(id) {
                Some(i) => Some(&self.profiles[i]),
                None => None,
            },
            None => None,
        }
    }

    /// Make the profile `id` active; refused, with nothing changed, when no
    /// profile has that id.
    pub fn set_active_profile(&mut self, id: &str) -> (r: Result<(), BrowserError>)
        ensures
            r is Ok <==> first_profile(old(self).spec_profiles(), id@) is Some,
            r is Err ==> r == Err::<(), BrowserError>(BrowserError::ProfileNotFound),
            final(self).spec_active() == (if r is Ok { Some(id@) } else { old(self).spec_active() }),
            final(self).spec_profiles() == old(self).spec_profiles(),
            final(self).spec_dir() == old(self).spec_dir(),
    {
        let key = id.to_string();
        match self.find(&key) {
            Some(_) => {
                self.active_profile = Some(key);
                Ok(())
            },
            None => Err(BrowserError::ProfileNotFound),
        }
    }
}

} // verus!
