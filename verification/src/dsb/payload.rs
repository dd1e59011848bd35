//! The handshake with the portal of the substitution plan: the request that
//! the portal expects, and the address of the plan in its answer.
//!
//! The answer holds a menu: a list of items with titles and children. The
//! plan stands below the item titled `Inhalte`, the child titled
//! `Pl\u{e4}ne` and the grandchild titled `DSBSchueler`. A part of the menu
//! that is missing or of the wrong type is an error that carries the dotted
//! path of the part.

use crate::codec::{
    base64_bytes, base64_decode, base64_encode, base64_text, decode_utf8_lossy, gunzip,
    gunzipped, gzip, gzipped, now_rfc3339, utf8_lossy,
};
use crate::dsb::{Config, ConfigView};
use crate::error::{agrees, PlanError, PlanErrorView, Result};
use crate::json::{
    element, json_parse, json_print, json_text, json_value, json_views, lemma_list_view,
    lemma_record_view, list_in, member, member_views, text_in, Json, JsonView, Member,
};
use crate::text::{chars_of, decimal, joined, push_decimal, same, string_of};
use vstd::prelude::*;
use vstd::string::StringExecFns;

verus! {

/// The address in a menu item titled `DSBSchueler`: the text `Detail` of
/// the first of its children.
pub open spec fn pupil_url(v: JsonView) -> Option<Seq<char>> {
    match member(v, "Childs"@) {
        Some(c) => match element(c, 0) {
            Some(n) => match member(n, "Detail"@) {
                Some(d) => text_in(d),
                None => None,
            },
            None => None,
        },
        None => None,
    }
}

/// The address after item `k` of a list of plans, where it was `url`
/// before: an item titled `DSBSchueler` that holds an address replaces it.
/// The item's title must be a text.
pub open spec fn plan_item(url: Seq<char>, v: JsonView, k: int, prefix: Seq<char>) -> core::result::Result<
    Seq<char>,
    Seq<char>,
> {
    let path = prefix + decimal((k + 1) as nat) + ".Title"@;
    match member(v, "Title"@) {
        None => Err(path),
        Some(t) => match text_in(t) {
            None => Err(path),
            Some(title) => if title == "DSBSchueler"@ && pupil_url(v) is Some {
                Ok(pupil_url(v).unwrap())
            } else {
                Ok(url)
            },
        },
    }
}

/// The address after the items of a list of plans from index `k` on. In
/// paths the items count from 1.
pub open spec fn plans_scan(url: Seq<char>, items: Seq<JsonView>, k: int, prefix: Seq<char>) -> core::result::Result<
    Seq<char>,
    Seq<char>,
>
    decreases items.len() - k,
{
    if k < 0 || k >= items.len() {
        Ok(url)
    } else {
        match plan_item(url, items[k], k, prefix) {
            Ok(u) => plans_scan(u, items, k + 1, prefix),
            Err(p) => Err(p),
        }
    }
}

/// The address after item `j` of the contents, where it was `url` before:
/// an item titled `Pl\u{e4}ne` is searched through the list `Childs` of
/// its member `Root`. The item's title must be a text.
pub open spec fn content_item(url: Seq<char>, v: JsonView, j: int, prefix: Seq<char>) -> core::result::Result<
    Seq<char>,
    Seq<char>,
> {
    let base = prefix + decimal((j + 1) as nat);
    match member(v, "Title"@) {
        None => Err(base + ".Title"@),
        Some(t) => match text_in(t) {
            None => Err(base + ".Title"@),
            Some(title) => if title == "Pl\u{e4}ne"@ {
                match member(v, "Root"@) {
                    None => Err(base + ".Root"@),
                    Some(root) => match member(root, "Childs"@) {
                        None => Err(base + ".Root.Childs"@),
                        Some(c) => match list_in(c) {
                            None => Err(base + ".Root.Childs"@),
                            Some(list) => plans_scan(url, list, 0, base + ".Root.Childs."@),
                        },
                    },
                }
            } else {
                Ok(url)
            },
        },
    }
}

/// The address after the items of the contents from index `j` on. In paths
/// the items count from 1.
pub open spec fn contents_scan(url: Seq<char>, items: Seq<JsonView>, j: int, prefix: Seq<char>) -> core::result::Result<
    Seq<char>,
    Seq<char>,
>
    decreases items.len() - j,
{
    if j < 0 || j >= items.len() {
        Ok(url)
    } else {
        match content_item(url, items[j], j, prefix) {
            Ok(u) => contents_scan(u, items, j + 1, prefix),
            Err(p) => Err(p),
        }
    }
}

/// The path of item `i` of the menu, which counts from 0.
pub open spec fn menu_path(i: int) -> Seq<char> {
    "data.ResultMenuItems."@ + decimal(i as nat)
}

/// The address that the menu holds, searched from item `i` on. The first
/// item titled `Inhalte` is taken, and all of its list `Childs` is
/// searched; the address is that of the last plan found there, or empty.
/// Each item up to that one must have a title that is a text; a menu without
/// such an item is an error at the index after its last item.
pub open spec fn menu_scan(items: Seq<JsonView>, i: int) -> core::result::Result<
    Seq<char>,
    Seq<char>,
>
    decreases items.len() - i,
{
    if i < 0 || i >= items.len() {
        Err(menu_path(i))
    } else {
        match member(items[i], "Title"@) {
            None => Err(menu_path(i) + ".Title"@),
            Some(t) => match text_in(t) {
                None => Err(menu_path(i)),
                Some(title) => if title == "Inhalte"@ {
                    match member(items[i], "Childs"@) {
                        None => Err(menu_path(i) + ".Childs"@),
                        Some(c) => match list_in(c) {
                            None => Err(menu_path(i) + ".Childs"@),
                            Some(list) => contents_scan(
                                Seq::empty(),
                                list,
                                0,
                                menu_path(i) + ".Childs."@,
                            ),
                        },
                    }
                } else {
                    menu_scan(items, i + 1)
                },
            },
        }
    }
}

/// The address of the plan in the portal's menu.
pub open spec fn plan_url(menu: JsonView) -> core::result::Result<Seq<char>, Seq<char>> {
    match member(menu, "ResultMenuItems"@) {
        None => Err("data.ResultMenuItems"@),
        Some(m) => match list_in(m) {
            None => Err("data.ResultMenuItems"@),
            Some(items) => menu_scan(items, 0),
        },
    }
}

/// The encoded menu in the portal's answer: the text of the member `d`.
pub open spec fn packed_menu(answer: JsonView) -> core::result::Result<Seq<char>, Seq<char>> {
    match member(answer, "d"@) {
        None => Err("d"@),
        Some(d) => match text_in(d) {
            None => Err("d"@),
            Some(text) => Ok(text),
        },
    }
}

/// The address of the plan in the portal's answer. The answer is a JSON
/// object whose member `d` is a text: the base64 text of a gzip stream that
/// holds, in UTF-8, the JSON text of the menu.
pub open spec fn payload_url(payload: Seq<char>) -> core::result::Result<Seq<char>, PlanErrorView> {
    match json_value(payload) {
        None => Err(PlanErrorView::Json),
        Some(j) => match packed_menu(j) {
            Err(p) => Err(PlanErrorView::FieldNotExists(p)),
            Ok(text) => {
                match base64_bytes(text) {
                    None => Err(PlanErrorView::Base64),
                    Some(bytes) => match gunzipped(bytes) {
                        None => Err(PlanErrorView::Io),
                        Some(data) => match json_value(utf8_lossy(data)) {
                            None => Err(PlanErrorView::Json),
                            Some(menu) => match plan_url(menu) {
                                Ok(u) => Ok(u),
                                Err(p) => Err(PlanErrorView::FieldNotExists(p)),
                            },
                        },
                    },
                }
            },
        },
    }
}

/// The text that names the client to the portal.
pub open spec fn user_agent() -> Seq<char> {
    "Mozilla/5.0 (X11; Linux x86_64) AppleWebKit/537.36 (KHTML, like Gecko) Chrome/62.0.3202.94 Safari/537.36"@
}

/// The request that the portal expects of the given user at the time `now`.
pub open spec fn request_json(c: ConfigView, now: Seq<char>) -> JsonView {
    JsonView::Record(
        seq![
            ("UserId"@, JsonView::Text(c.user_id)),
            ("UserPw"@, JsonView::Text(c.password)),
            ("Abos"@, JsonView::List(Seq::empty())),
            ("AppVersion"@, JsonView::Text("2.3"@)),
            ("Language"@, JsonView::Text("de"@)),
            ("OsVersion"@, JsonView::Text(user_agent())),
            ("AppId"@, JsonView::Text(""@)),
            ("Device"@, JsonView::Text("WebApp"@)),
            ("PushId"@, JsonView::Text(""@)),
            ("BundleId"@, JsonView::Text("de.heinekingmedia.inhous.dsbmobile.web"@)),
            ("Date"@, JsonView::Text(now)),
            ("LastUpdate"@, JsonView::Text(now)),
        ],
    )
}

/// The envelope around the encoded request.
pub open spec fn envelope(data: Seq<char>) -> JsonView {
    JsonView::Record(
        seq![
            (
                "req"@,
                JsonView::Record(
                    seq![("Data"@, JsonView::Text(data)), ("DataType"@, JsonView::Number(1))],
                ),
            ),
        ],
    )
}

/// The body of the request to the portal at the time `now`: the JSON text
/// of the envelope around the base64 text of the gzip stream that holds the
/// JSON text of the request in UTF-8.
pub open spec fn request_body(c: ConfigView, now: Seq<char>) -> core::result::Result<
    Seq<char>,
    PlanErrorView,
> {
    match gzipped(vstd::utf8::encode_utf8(json_text(request_json(c, now)))) {
        None => Err(PlanErrorView::Io),
        Some(z) => Ok(json_text(envelope(base64_text(z)))),
    }
}

fn fail(path: &Vec<char>) -> (e: PlanError)
    ensures
        e@ == PlanErrorView::FieldNotExists(path@),
{
    PlanError::FieldNotExists(string_of(path))
}

fn numbered(prefix: &Vec<char>, n: usize) -> (r: Vec<char>)
    ensures
        r@ == prefix@ + decimal(n as nat),
{
    let mut r = joined(prefix, &Vec::new());
    assert(r@ =~= prefix@);
    push_decimal(&mut r, n);
    r
}

fn below(base: &Vec<char>, name: &str) -> (r: Vec<char>)
    ensures
        r@ == base@ + name@,
{
    joined(base, &chars_of(name))
}

fn is_text(t: &Vec<char>, want: &str) -> (b: bool)
    ensures
        b == (t@ == want@),
{
    same(t, &chars_of(want))
}

fn read_pupil_url(v: &Json) -> (r: Option<Vec<char>>)
    ensures
        match r {
            Some(u) => pupil_url(v@) == Some(u@),
            None => pupil_url(v@) is None,
        },
{
    match v.get("Childs") {
        Some(c) => match c.at(0) {
            Some(n) => match n.get("Detail") {
                Some(d) => d.as_text(),
                None => None,
            },
            None => None,
        },
        None => None,
    }
}

fn read_plan_item(url: Vec<char>, v: &Json, k: usize, prefix: &Vec<char>) -> (r: Result<Vec<char>>)
    requires
        k < usize::MAX,
    ensures
        agrees(r, plan_item(url@, v@, k as int, prefix@)),
{
    let path = below(&numbered(prefix, k + 1), ".Title");
    let title = match v.get("Title") {
        Some(t) => match t.as_text() {
            Some(s) => s,
            None => {
                return Err(fail(&path));
            },
        },
        None => {
            return Err(fail(&path));
        },
    };
    if is_text(&title, "DSBSchueler") {
        match read_pupil_url(v) {
            Some(u) => Ok(u),
            None => Ok(url),
        }
    } else {
        Ok(url)
    }
}

fn scan_plans(url: Vec<char>, items: &Vec<Json>, prefix: &Vec<char>) -> (r: Result<Vec<char>>)
    ensures
        agrees(r, plans_scan(url@, json_views(items@), 0, prefix@)),
{
    let mut found = url;
    let mut k: usize = 0;
    while k < items.len()
        invariant
            k <= items.len(),
            plans_scan(found@, json_views(items@), k as int, prefix@) == plans_scan(
                url@,
                json_views(items@),
                0,
                prefix@,
            ),
        decreases items.len() - k,
    {
        match read_plan_item(found, &items[k], k, prefix) {
            Ok(u) => {
                found = u;
            },
            Err(e) => {
                return Err(e);
            },
        }
        k += 1;
    }
    Ok(found)
}

fn read_content_item(url: Vec<char>, v: &Json, j: usize, prefix: &Vec<char>) -> (r: Result<
    Vec<char>,
>)
    requires
        j < usize::MAX,
    ensures
        agrees(r, content_item(url@, v@, j as int, prefix@)),
{
    let base = numbered(prefix, j + 1);
    let title = match v.get("Title") {
        Some(t) => match t.as_text() {
            Some(s) => s,
            None => {
                return Err(fail(&below(&base, ".Title")));
            },
        },
        None => {
            return Err(fail(&below(&base, ".Title")));
        },
    };
    if !is_text(&title, "Pl\u{e4}ne") {
        return Ok(url);
    }
    let root = match v.get("Root") {
        Some(r) => r,
        None => {
            return Err(fail(&below(&base, ".Root")));
        },
    };
    let list = match root.get("Childs") {
        Some(c) => match c.as_list() {
            Some(l) => l,
            None => {
                return Err(fail(&below(&base, ".Root.Childs")));
            },
        },
        None => {
            return Err(fail(&below(&base, ".Root.Childs")));
        },
    };
    scan_plans(url, list, &below(&base, ".Root.Childs."))
}

fn scan_contents(items: &Vec<Json>, prefix: &Vec<char>) -> (r: Result<Vec<char>>)
    ensures
        agrees(r, contents_scan(Seq::empty(), json_views(items@), 0, prefix@)),
{
    let mut url: Vec<char> = Vec::new();
    let mut j: usize = 0;
    while j < items.len()
        invariant
            j <= items.len(),
            contents_scan(url@, json_views(items@), j as int, prefix@) == contents_scan(
                Seq::empty(),
                json_views(items@),
                0,
                prefix@,
            ),
        decreases items.len() - j,
    {
        match read_content_item(url, &items[j], j, prefix) {
            Ok(u) => {
                url = u;
            },
            Err(e) => {
                return Err(e);
            },
        }
        j += 1;
    }
    Ok(url)
}

fn menu_item_path(i: usize) -> (r: Vec<char>)
    ensures
        r@ == menu_path(i as int),
{
    numbered(&chars_of("data.ResultMenuItems."), i)
}

/// Finds the address of the plan in the portal's menu.
pub fn find_plan_url(menu: &Json) -> (r: Result<String>)
    ensures
        agrees(r, plan_url(menu@)),
{
    let items = match menu.get("ResultMenuItems") {
        Some(m) => match m.as_list() {
            Some(l) => l,
            None => {
                return Err(PlanError::missing("data.ResultMenuItems"));
            },
        },
        None => {
            return Err(PlanError::missing("data.ResultMenuItems"));
        },
    };
    let mut i: usize = 0;
    while i < items.len()
        invariant
            i <= items.len(),
            member(menu@, "ResultMenuItems"@) matches Some(m) && list_in(m) == Some(
                json_views(items@),
            ),
            menu_scan(json_views(items@), i as int) == menu_scan(json_views(items@), 0),
        decreases items.len() - i,
    {
        let item = &items[i];
        let title = match item.get("Title") {
            Some(t) => match t.as_text() {
                Some(s) => s,
                None => {
                    return Err(fail(&menu_item_path(i)));
                },
            },
            None => {
                return Err(fail(&below(&menu_item_path(i), ".Title")));
            },
        };
        if is_text(&title, "Inhalte") {
            let list = match item.get("Childs") {
                Some(c) => match c.as_list() {
                    Some(l) => l,
                    None => {
                        return Err(fail(&below(&menu_item_path(i), ".Childs")));
                    },
                },
                None => {
                    return Err(fail(&below(&menu_item_path(i), ".Childs")));
                },
            };
            return match scan_contents(list, &below(&menu_item_path(i), ".Childs.")) {
                Ok(url) => Ok(string_of(&url)),
                Err(e) => Err(e),
            };
        }
        i += 1;
    }
    Err(fail(&menu_item_path(i)))
}

/// Takes the encoded menu out of the portal's answer.
pub fn read_packed_menu(answer: &Json) -> (r: Result<String>)
    ensures
        agrees(r, packed_menu(answer@)),
{
    match answer.get("d") {
        Some(d) => match d.as_text() {
            Some(t) => Ok(string_of(&t)),
            None => Err(PlanError::missing("d")),
        },
        None => Err(PlanError::missing("d")),
    }
}

/// Wraps the encoded request in its envelope.
pub fn wrap_request(data: &str) -> (j: Json)
    ensures
        j@ == envelope(data@),
{
    let mut inner: Vec<Member> = Vec::new();
    inner.push(text_member("Data", data));
    inner.push(Member { key: String::from_str("DataType"), value: Json::Number(1) });
    proof {
        lemma_record_view(inner);
        assert(member_views(inner@) =~= seq![
            ("Data"@, JsonView::Text(data@)),
            ("DataType"@, JsonView::Number(1)),
        ]);
    }
    let mut outer: Vec<Member> = Vec::new();
    outer.push(Member { key: String::from_str("req"), value: Json::Record(inner) });
    proof {
        lemma_record_view(outer);
        assert(member_views(outer@) =~= envelope(data@)->Record_0);
    }
    Json::Record(outer)
}

fn text_member(key: &str, value: &str) -> (m: Member)
    ensures
        m.key@ == key@,
        m.value@ == JsonView::Text(value@),
{
    Member { key: String::from_str(key), value: Json::Text(String::from_str(value)) }
}

impl Config {
    /// The request that the portal expects at the time `now`.
    pub fn request_json(&self, now: &str) -> (j: Json)
        ensures
            j@ == request_json(self@, now@),
    {
        let mut m: Vec<Member> = Vec::new();
        m.push(text_member("UserId", self.user_id.as_str()));
        m.push(text_member("UserPw", self.password.as_str()));
        let none: Vec<Json> = Vec::new();
        proof {
            lemma_list_view(none);
            assert(json_views(none@) =~= Seq::<JsonView>::empty());
        }
        m.push(Member { key: String::from_str("Abos"), value: Json::List(none) });
        m.push(text_member("AppVersion", "2.3"));
        m.push(text_member("Language", "de"));
        m.push(
            text_member(
                "OsVersion",
                "Mozilla/5.0 (X11; Linux x86_64) AppleWebKit/537.36 (KHTML, like Gecko) Chrome/62.0.3202.94 Safari/537.36",
            ),
        );
        m.push(text_member("AppId", ""));
        m.push(text_member("Device", "WebApp"));
        m.push(text_member("PushId", ""));
        m.push(text_member("BundleId", "de.heinekingmedia.inhous.dsbmobile.web"));
        m.push(text_member("Date", now));
        m.push(text_member("LastUpdate", now));
        proof {
            lemma_record_view(m);
            let want = request_json(self@, now@)->Record_0;
            let have = member_views(m@);
            assert(have.len() == 12 && want.len() == 12);
            assert(have[0] == want[0]);
            assert(have[1] == want[1]);
            assert(have[2] == want[2]);
            assert(have[3] == want[3]);
            assert(have[4] == want[4]);
            assert(have[5] == want[5]);
            assert(have[6] == want[6]);
            assert(have[7] == want[7]);
            assert(have[8] == want[8]);
            assert(have[9] == want[9]);
            assert(have[10] == want[10]);
            assert(have[11] == want[11]);
            assert(have =~= want);
        }
        Json::Record(m)
    }

    /// The body of the request to the portal at the time `now`.
    pub fn request_payload(&self, now: &str) -> (r: Result<String>)
        ensures
            match r {
                Ok(s) => request_body(self@, now@) == Ok::<Seq<char>, PlanErrorView>(s@),
                Err(e) => request_body(self@, now@) == Err::<Seq<char>, PlanErrorView>(e@),
            },
    {
        let data = json_print(&self.request_json(now));
        let packed = match gzip(data.as_str().as_bytes()) {
            Ok(z) => z,
            Err(_) => {
                return Err(PlanError::Io);
            },
        };
        let text = base64_encode(&packed);
        Ok(json_print(&wrap_request(text.as_str())))
    }

    /// The body of the request to the portal at the time of the call: for
    /// some text of the time, what [`Config::request_payload`] returns.
    pub fn gen_request_payload(&self) -> (r: Result<String>)
        ensures
            exists|now: Seq<char>|
                match r {
                    Ok(s) => #[trigger] request_body(self@, now) == Ok::<Seq<char>, PlanErrorView>(
                        s@,
                    ),
                    Err(e) => request_body(self@, now) == Err::<Seq<char>, PlanErrorView>(e@),
                },
    {
        let now = now_rfc3339();
        let r = self.request_payload(now.as_str());
        proof {
            let t = now@;
            assert(match r {
                Ok(s) => request_body(self@, t) == Ok::<Seq<char>, PlanErrorView>(s@),
                Err(e) => request_body(self@, t) == Err::<Seq<char>, PlanErrorView>(e@),
            });
        }
        r
    }

    /// Finds the address of the plan in the portal's answer.
    pub fn decode_dsb_payload(&self, payload: &str) -> (r: Result<String>)
        ensures
            match r {
                Ok(s) => payload_url(payload@) == Ok::<Seq<char>, PlanErrorView>(s@),
                Err(e) => payload_url(payload@) == Err::<Seq<char>, PlanErrorView>(e@),
            },
    {
        let json = match json_parse(payload) {
            Ok(j) => j,
            Err(_) => {
                return Err(PlanError::Json);
            },
        };
        let encoded = match read_packed_menu(&json) {
            Ok(t) => t,
            Err(e) => {
                return Err(e);
            },
        };
        let packed = match base64_decode(encoded.as_str()) {
            Ok(b) => b,
            Err(_) => {
                return Err(PlanError::Base64);
            },
        };
        let data = match gunzip(&packed) {
            Ok(d) => d,
            Err(_) => {
                return Err(PlanError::Io);
            },
        };
        let inner = decode_utf8_lossy(&data);
        let menu = match json_parse(inner.as_str()) {
            Ok(j) => j,
            Err(_) => {
                return Err(PlanError::Json);
            },
        };
        find_plan_url(&menu)
    }
}

} // verus!
