//! Where the records are stored.

use vstd::prelude::*;
use vstd::string::StringExecFns;

verus! {

/// The database that takes the records.
#[derive(Debug, PartialEq, Eq)]
pub struct Config {
    /// The address of the database cluster.
    pub url: String,
    /// The name of the database.
    pub database: String,
    /// The collection of the substitution plan's day records.
    pub dsb_coll: String,
}

/// The mathematical value of a [`Config`].
pub struct ConfigView {
    pub url: Seq<char>,
    pub database: Seq<char>,
    pub dsb_coll: Seq<char>,
}

impl View for Config {
    type V = ConfigView;

    open spec fn view(&self) -> ConfigView {
        ConfigView { url: self.url@, database: self.database@, dsb_coll: self.dsb_coll@ }
    }
}

impl ConfigView {
    /// The database `llg_companion` on the local host, with the collection
    /// `dsb`.
    pub open spec fn initial() -> ConfigView {
        ConfigView { url: "localhost:27017"@, database: "llg_companion"@, dsb_coll: "dsb"@ }
    }

    /// The address at which to connect to the cluster.
    pub open spec fn address(self) -> Seq<char> {
        "mongodb://"@ + self.url + "/"@
    }
}

impl Config {
    /// The initial settings.
    pub fn new() -> (c: Self)
        ensures
            c@ == ConfigView::initial(),
    {
        Self {
            url: String::from_str("localhost:27017"),
            database: String::from_str("llg_companion"),
            dsb_coll: String::from_str("dsb"),
        }
    }

    /// The address at which to connect to the cluster.
    pub fn address(&self) -> (s: String)
        ensures
            s@ == self@.address(),
    {
        String::from_str("mongodb://").concat(self.url.as_str()).concat("/")
    }

    /// Whether a record has to be written: only where none like it is stored
    /// yet, so that each update is written at most once.
    pub fn must_write(stored: bool) -> (b: bool)
        ensures
            b == !stored,
    {
        !stored
    }
}

impl Default for Config {
    fn default() -> (c: Self)
        ensures
            c@ == ConfigView::initial(),
    {
        Self::new()
    }
}

impl Clone for Config {
    fn clone(&self) -> (c: Self)
        ensures
            c@ == self@,
    {
        Self {
            url: self.url.clone(),
            database: self.database.clone(),
            dsb_coll: self.dsb_coll.clone(),
        }
    }
}

} // verus!
