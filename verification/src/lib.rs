//! Timetable ingestion: decoding of substitution plans and weekly lesson
//! grids from the documents of two school portals.
//!
//! The library turns documents into records and decides what a poller does
//! next; fetching the documents and storing the records is the caller's
//! part.
//!
//! A decoder never stops at a fragment that it cannot read as intended: it
//! reads the fragment as nothing and goes on. What there is to say of such
//! fragments is returned, as values, by the `diagnose` functions that stand
//! beside the decoders; the decoders themselves report nothing, whatever
//! diagnostic level they are given.

pub mod api;
pub mod codec;
pub mod common;
pub mod date;
pub mod diagnostic;
pub mod dom;
pub mod dsb;
pub mod error;
pub mod json;
pub mod planinfo;
pub mod server;
pub mod storage;
pub mod text;

pub use error::Result;

use vstd::prelude::*;
use vstd::string::StringExecFns;

verus! {

/// The name of the database that the web front end reads.
#[derive(Debug, PartialEq, Eq)]
pub struct DataBase(String);

impl View for DataBase {
    type V = Seq<char>;

    closed spec fn view(&self) -> Seq<char> {
        self.0@
    }
}

impl DataBase {
    /// The database of the given name.
    pub fn new(name: String) -> (d: Self)
        ensures
            d@ == name@,
    {
        DataBase(name)
    }

    /// The name of the database.
    pub fn name(&self) -> (s: &String)
        ensures
            s@ == self@,
    {
        &self.0
    }
}

/// The settings of the whole service.
#[derive(Debug, PartialEq, Eq)]
pub struct Config {
    /// The diagnostic level.
    pub verbose: u8,
    /// Access to the substitution plan.
    pub dsb: dsb::Config,
    /// Access to the weekly timetable.
    pub planino: planinfo::Config,
    /// Where records are stored.
    pub storage: storage::Config,
    /// The address of the host's legal notice.
    pub impressum: String,
    /// The port to listen on.
    pub port: u16,
    /// The address to listen on.
    pub address: String,
    /// The key that protects cookies.
    pub secret: String,
    /// The directory of the static files.
    pub assets: String,
}

/// The mathematical value of a [`Config`].
pub struct ConfigView {
    pub verbose: u8,
    pub dsb: dsb::ConfigView,
    pub planino: planinfo::ConfigView,
    pub storage: storage::ConfigView,
    pub impressum: Seq<char>,
    pub port: u16,
    pub address: Seq<char>,
    pub secret: Seq<char>,
    pub assets: Seq<char>,
}

impl View for Config {
    type V = ConfigView;

    open spec fn view(&self) -> ConfigView {
        ConfigView {
            verbose: self.verbose,
            dsb: self.dsb@,
            planino: self.planino@,
            storage: self.storage@,
            impressum: self.impressum@,
            port: self.port,
            address: self.address@,
            secret: self.secret@,
            assets: self.assets@,
        }
    }
}

impl ConfigView {
    /// The settings of a service on port 8080 of every interface, with the
    /// initial settings of its parts.
    pub open spec fn initial() -> ConfigView {
        ConfigView {
            verbose: 0,
            dsb: dsb::ConfigView::initial(),
            planino: planinfo::ConfigView::initial(),
            storage: storage::ConfigView::initial(),
            impressum: "localhost"@,
            port: 8080,
            address: "0.0.0.0"@,
            secret: ""@,
            assets: "assets/"@,
        }
    }
}

impl Config {
    /// The initial settings.
    pub fn new() -> (c: Self)
        ensures
            c@ == ConfigView::initial(),
    {
        Self {
            verbose: 0,
            dsb: dsb::Config::new(),
            planino: planinfo::Config::new(),
            storage: storage::Config::new(),
            impressum: String::from_str("localhost"),
            port: 8080,
            address: String::from_str("0.0.0.0"),
            secret: String::from_str(""),
            assets: String::from_str("assets/"),
        }
    }

    /// The level at which the service reports: the greater of the level
    /// asked for on the command line and the level in the settings file.
    pub fn verbosity(flags: u8, file: u8) -> (v: u8)
        ensures
            v == if file > flags {
                file
            } else {
                flags
            },
    {
        if file > flags {
            file
        } else {
            flags
        }
    }

    /// A setting that may be given on the command line and in the settings
    /// file: the command line goes first.
    pub fn prefer(flag: Option<String>, file: Option<String>) -> (r: Option<String>)
        ensures
            r == match flag {
                Some(v) => Some(v),
                None => file,
            },
    {
        match flag {
            Some(v) => Some(v),
            None => file,
        }
    }

    /// The address of the database for the web front end.
    pub fn database_url(&self) -> (s: String)
        ensures
            s@ == "mongodb://"@ + self.storage.url@ + "/"@ + self.storage.database@,
    {
        String::from_str("mongodb://").concat(self.storage.url.as_str()).concat("/").concat(
            self.storage.database.as_str(),
        )
    }
}

} // verus!
