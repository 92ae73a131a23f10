//! Where each kind of user data is kept.
use crate::text::{join_path, joined_path};
use vstd::prelude::*;

verus! {

/// The kinds of user data.
#[derive(Debug, Clone, Copy, PartialEq, Eq, Structural)]
pub enum DataType {
    Cache,
    History,
    Bookmarks,
    Cookies,
    LocalStorage,
}

impl DataType {
    /// The folder name of the kind.
    pub open spec fn spec_dir_name(self) -> Seq<char> {
        match self {
            DataType::Cache => "cache"@,
            DataType::History => "history"@,
            DataType::Bookmarks => "bookmarks"@,
            DataType::Cookies => "cookies"@,
            DataType::LocalStorage => "local_storage"@,
        }
    }

    /// The folder name of the kind.
    pub fn dir_name(&self) -> (r: &'static str)
        ensures
            r@ == self.spec_dir_name(),
    {
        match self {
            DataType::Cache => "cache",
            DataType::History => "history",
            DataType::Bookmarks => "bookmarks",
            DataType::Cookies => "cookies",
            DataType::LocalStorage => "local_storage",
        }
    }
}

/// Knows the folder that holds one sub-folder per kind of data.
pub struct UserDataManager {
    data_dir: String,
}

impl UserDataManager {
    pub closed spec fn spec_dir(&self) -> Seq<char> {
        self.data_dir@
    }

    /// A manager for the data under `data_dir`; the caller makes sure the folder
    /// exists.
    pub fn new(data_dir: String) -> (r: UserDataManager)
        ensures
            r.spec_dir() == data_dir@,
    {
        UserDataManager { data_dir }
    }

    /// The folder of one kind of data.
    pub fn path_for(&self, data_type: DataType) -> (r: String)
        ensures
            r@ == joined_path(self.spec_dir(), data_type.spec_dir_name()),
    {
        join_path(self.data_dir.as_str(), data_type.dir_name())
    }

    pub fn data_dir(&self) -> (r: &str)
        ensures
            r@ == self.spec_dir(),
    {
        self.data_dir.as_str()
    }
}

} // verus!
