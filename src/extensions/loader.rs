//! The folder that installed extensions are read from.
use vstd::prelude::*;

verus! {

/// The id given to an extension whose manifest and folder name give none.
pub const UNKNOWN_EXTENSION_ID: &'static str = "unknown";

/// Knows the folder that holds one sub-folder per extension.
pub struct ExtensionLoader {
    extensions_dir: String,
}

impl ExtensionLoader {
    pub closed spec fn spec_dir(&self) -> Seq<char> {
        self.extensions_dir@
    }

    /// A loader for the extensions under `extensions_dir`.
    pub fn new(extensions_dir: String) -> (r: ExtensionLoader)
        ensures
            r.spec_dir() == extensions_dir@,
    {
        ExtensionLoader { extensions_dir }
    }

    /// The folder the extensions are read from.
    pub fn extensions_dir(&self) -> (r: &str)
        ensures
            r@ == self.spec_dir(),
    {
        self.extensions_dir.as_str()
    }

    /// The id an extension is known by: the one its manifest gives, else the name
    /// of its folder, else `UNKNOWN_EXTENSION_ID`.
    pub fn extension_id(manifest_id: Option<String>, folder_name: Option<String>) -> (r: String)
        ensures
            r@ == (match manifest_id {
                Some(id) => id@,
                None => match folder_name {
                    Some(f) => f@,
                    None => UNKNOWN_EXTENSION_ID@,
                },
            }),
    {
        match manifest_id {
            Some(id) => id,
            None => match folder_name {
                Some(f) => f,
                None => UNKNOWN_EXTENSION_ID.to_string(),
            },
        }
    }
}

} // verus!
