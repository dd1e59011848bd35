//! The steps of fetching the substitution plan: what to send to the portal,
//! and what to do with each answer.
//!
//! A fetch has three steps. The caller sends the request that opens the
//! handshake, hands the answer back, sends the request for the document
//! that the answer names, hands that answer back, and is given the day
//! records. Each step is a function from what came back to what to do next.

use crate::codec::now_rfc3339;
use crate::dom::html_tree;
use crate::dsb::parse::{days_of, normalized};
use crate::dsb::payload::{payload_url, request_body, user_agent};
use crate::dsb::{day_views, Config, ConfigView, DSBView, DSB};
use crate::error::{PlanError, PlanErrorView, Result};
use vstd::prelude::*;
use vstd::string::StringExecFns;

verus! {

/// The seconds between two fetches of the plan.
pub const CYCLE_PAUSE: u64 = 300;

/// A header of a request.
#[derive(Debug, PartialEq, Eq)]
pub struct Header {
    pub name: String,
    pub value: String,
}

impl View for Header {
    type V = (Seq<char>, Seq<char>);

    open spec fn view(&self) -> (Seq<char>, Seq<char>) {
        (self.name@, self.value@)
    }
}

/// The names and values of a sequence of headers.
pub open spec fn header_views(v: Seq<Header>) -> Seq<(Seq<char>, Seq<char>)> {
    Seq::new(v.len(), |i: int| v[i]@)
}

impl ConfigView {
    /// The headers of the request that opens the handshake.
    pub open spec fn handshake_headers(self) -> Seq<(Seq<char>, Seq<char>)> {
        seq![
            ("Cookie"@, self.cookie),
            ("User-Agent"@, user_agent()),
            ("Bundle_ID"@, "de.heinekingmedia.inhouse.dsbmobile.web"@),
            ("Content-Type"@, "application/json;charset=UTF-8"@),
            ("X-Requested-With"@, "XMLHttpRequest"@),
            ("Referer"@, "https://www.dsbmobile.de/default.aspx"@),
        ]
    }

    /// The headers of the request for the plan's document.
    pub open spec fn document_headers(self) -> Seq<(Seq<char>, Seq<char>)> {
        seq![
            ("Cookie"@, self.cookie),
            ("User-Agent"@, user_agent()),
            ("Bundle_ID"@, "de.heinekingmedia.inhouse.dsbmobile.web"@),
            ("Accept-Encoding"@, "latin1"@),
        ]
    }
}

fn header(name: &str, value: &str) -> (h: Header)
    ensures
        h@ == (name@, value@),
{
    Header { name: String::from_str(name), value: String::from_str(value) }
}

impl Config {
    /// The headers of the request that opens the handshake.
    pub fn handshake_headers(&self) -> (r: Vec<Header>)
        ensures
            header_views(r@) == self@.handshake_headers(),
    {
        let mut v: Vec<Header> = Vec::new();
        v.push(header("Cookie", self.cookie.as_str()));
        v.push(
            header(
                "User-Agent",
                "Mozilla/5.0 (X11; Linux x86_64) AppleWebKit/537.36 (KHTML, like Gecko) Chrome/62.0.3202.94 Safari/537.36",
            ),
        );
        v.push(header("Bundle_ID", "de.heinekingmedia.inhouse.dsbmobile.web"));
        v.push(header("Content-Type", "application/json;charset=UTF-8"));
        v.push(header("X-Requested-With", "XMLHttpRequest"));
        v.push(header("Referer", "https://www.dsbmobile.de/default.aspx"));
        proof {
            let want = self@.handshake_headers();
            let have = header_views(v@);
            assert(have.len() == 6 && want.len() == 6);
            assert(have[0] == want[0]);
            assert(have[1] == want[1]);
            assert(have[2] == want[2]);
            assert(have[3] == want[3]);
            assert(have[4] == want[4]);
            assert(have[5] == want[5]);
            assert(have =~= want);
        }
        v
    }

    /// The headers of the request for the plan's document.
    pub fn document_headers(&self) -> (r: Vec<Header>)
        ensures
            header_views(r@) == self@.document_headers(),
    {
        let mut v: Vec<Header> = Vec::new();
        v.push(header("Cookie", self.cookie.as_str()));
        v.push(
            header(
                "User-Agent",
                "Mozilla/5.0 (X11; Linux x86_64) AppleWebKit/537.36 (KHTML, like Gecko) Chrome/62.0.3202.94 Safari/537.36",
            ),
        );
        v.push(header("Bundle_ID", "de.heinekingmedia.inhouse.dsbmobile.web"));
        v.push(header("Accept-Encoding", "latin1"));
        proof {
            let want = self@.document_headers();
            let have = header_views(v@);
            assert(have.len() == 4 && want.len() == 4);
            assert(have[0] == want[0]);
            assert(have[1] == want[1]);
            assert(have[2] == want[2]);
            assert(have[3] == want[3]);
            assert(have =~= want);
        }
        v
    }

    /// Accepts the answer to the request for the plan's document only with
    /// the status 200.
    pub fn check_status(status: u16) -> (r: Result<()>)
        ensures
            match r {
                Ok(_) => status == 200,
                Err(e) => status != 200 && e@ == PlanErrorView::FieldNotExists("not 200 foo"@),
            },
    {
        if status != 200 {
            Err(PlanError::missing("not 200 foo"))
        } else {
            Ok(())
        }
    }
}

/// What the caller of a fetch has to do next.
#[derive(Debug, PartialEq, Eq)]
pub enum Action {
    /// Send the body to the address with the headers, and hand back the
    /// answer's text.
    Post { url: String, headers: Vec<Header>, body: String },
    /// Ask for the address with the headers, and hand back the answer's
    /// status and text.
    Get { url: String, headers: Vec<Header> },
    /// The fetch is done: these are the day records.
    Store(Vec<DSB>),
    /// The fetch has failed.
    Fail(PlanError),
}

/// The mathematical value of an [`Action`].
pub enum ActionView {
    Post { url: Seq<char>, headers: Seq<(Seq<char>, Seq<char>)>, body: Seq<char> },
    Get { url: Seq<char>, headers: Seq<(Seq<char>, Seq<char>)> },
    Store(Seq<DSBView>),
    Fail(PlanErrorView),
}

impl View for Action {
    type V = ActionView;

    open spec fn view(&self) -> ActionView {
        match self {
            Action::Post { url, headers, body } => ActionView::Post {
                url: url@,
                headers: header_views(headers@),
                body: body@,
            },
            Action::Get { url, headers } => ActionView::Get {
                url: url@,
                headers: header_views(headers@),
            },
            Action::Store(days) => ActionView::Store(day_views(days@)),
            Action::Fail(e) => ActionView::Fail(e@),
        }
    }
}

impl ConfigView {
    /// The first step of a fetch at the time `now`: send the request that
    /// opens the handshake.
    pub open spec fn opening(self, now: Seq<char>) -> ActionView {
        match request_body(self, now) {
            Ok(body) => ActionView::Post { url: self.url, headers: self.handshake_headers(), body },
            Err(e) => ActionView::Fail(e),
        }
    }

    /// The second step: ask for the document at the address that the
    /// portal's answer names.
    pub open spec fn answered(self, answer: Seq<char>) -> ActionView {
        match payload_url(answer) {
            Ok(url) => ActionView::Get { url, headers: self.document_headers() },
            Err(e) => ActionView::Fail(e),
        }
    }

    /// The third step: read the day records out of the document, which must
    /// have come with the status 200.
    pub open spec fn delivered(self, status: u16, document: Seq<char>) -> ActionView {
        if status != 200 {
            ActionView::Fail(PlanErrorView::FieldNotExists("not 200 foo"@))
        } else {
            match html_tree(normalized(document)) {
                None => ActionView::Fail(PlanErrorView::FieldNotExists("document"@)),
                Some(doc) => match days_of(doc) {
                    Ok(days) => ActionView::Store(days),
                    Err(p) => ActionView::Fail(PlanErrorView::FieldNotExists(p)),
                },
            }
        }
    }
}

impl Config {
    /// The first step of a fetch at the time `now`.
    pub fn begin_at(&self, now: &str) -> (a: Action)
        ensures
            a@ == self@.opening(now@),
    {
        match self.request_payload(now) {
            Ok(body) => Action::Post {
                url: self.url.clone(),
                headers: self.handshake_headers(),
                body,
            },
            Err(e) => Action::Fail(e),
        }
    }

    /// The first step of a fetch at the time of the call: for some text of
    /// the time, what [`Config::begin_at`] returns.
    pub fn begin(&self) -> (a: Action)
        ensures
            exists|now: Seq<char>| a@ == #[trigger] self@.opening(now),
    {
        let now = now_rfc3339();
        let a = self.begin_at(now.as_str());
        assert(a@ == self@.opening(now@));
        a
    }

    /// The second step of a fetch, given the text of the portal's answer.
    pub fn answered(&self, answer: &str) -> (a: Action)
        ensures
            a@ == self@.answered(answer@),
    {
        match self.decode_dsb_payload(answer) {
            Ok(url) => Action::Get { url, headers: self.document_headers() },
            Err(e) => Action::Fail(e),
        }
    }

    /// The third step of a fetch, given the status and the text of the
    /// answer to the request for the document.
    pub fn delivered(&self, status: u16, document: &str) -> (a: Action)
        ensures
            a@ == self@.delivered(status, document@),
    {
        match Config::check_status(status) {
            Ok(_) => {},
            Err(e) => {
                return Action::Fail(e);
            },
        }
        match self.parse(document) {
            Ok(days) => Action::Store(days),
            Err(e) => Action::Fail(e),
        }
    }
}

} // verus!
