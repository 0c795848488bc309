//! Document metadata. Only the version tag reaches the emitted bytes, as
//! part of the version header; the rest is advisory.

use vstd::prelude::*;

verus! {

use vstd::string::StringExecFns;

/// Metadata of one document.
#[derive(Debug, Clone)]
pub struct MetaData {
    pub title: String,
    pub author: String,
    pub creation_date: String,
    pub modification_date: String,
    pub version: String,
    pub encryption: bool,
}

impl MetaData {
    /// Builds metadata with the given title, author and version tag; the
    /// remaining fields keep their default values.
    pub fn new(title: &str, author: &str, version: &str) -> (m: MetaData)
        ensures
            m.title@ == title@,
            m.author@ == author@,
            m.version@ == version@,
            m.creation_date@ == Seq::<char>::empty(),
            m.modification_date@ == Seq::<char>::empty(),
            !m.encryption,
    {
        MetaData {
            title: String::from_str(title),
            author: String::from_str(author),
            creation_date: String::new(),
            modification_date: String::new(),
            version: String::from_str(version),
            encryption: false,
        }
    }
}

impl Default for MetaData {
    /// An untitled document, version tag "1.3".
    fn default() -> (m: MetaData)
        ensures
            m.title@ == Seq::<char>::empty(),
            m.author@ == "rspdf"@,
            m.creation_date@ == Seq::<char>::empty(),
            m.modification_date@ == Seq::<char>::empty(),
            m.version@ == "1.3"@,
            !m.encryption,
    {
        MetaData {
            title: String::new(),
            author: String::from_str("rspdf"),
            creation_date: String::new(),
            modification_date: String::new(),
            version: String::from_str("1.3"),
            encryption: false,
        }
    }
}

} // verus!
