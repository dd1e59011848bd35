use llg_companion::dsb::fetch::{Action, Header};
use llg_companion::dsb::payload::{find_plan_url, read_packed_menu, wrap_request};
use llg_companion::dsb::Config;
use llg_companion::error::PlanError;
use llg_companion::json::{Json, Member};
use std::io::{Read, Write};

fn missing(path: &str) -> PlanError {
    PlanError::FieldNotExists(path.to_string())
}

fn pack(menu: &str) -> String {
    let mut e = flate2::write::GzEncoder::new(Vec::new(), flate2::Compression::default());
    e.write_all(menu.as_bytes()).unwrap();
    let packed = e.finish().unwrap();
    #[allow(deprecated)]
    let text = base64::encode(&packed);
    format!("{{\"d\":\"{}\"}}", text)
}

const MENU: &str = "{\"Resultcode\":0,\"ResultMenuItems\":[\
{\"Title\":\"Sonstiges\",\"Childs\":[]},\
{\"Title\":\"Inhalte\",\"Childs\":[\
{\"Title\":\"News\",\"Root\":{\"Childs\":[]}},\
{\"Title\":\"Pl\u{e4}ne\",\"Root\":{\"Childs\":[\
{\"Title\":\"DSBLehrer\",\"Childs\":[{\"Detail\":\"https://example.org/lehrer.htm\"}]},\
{\"Title\":\"DSBSchueler\",\"Childs\":[{\"Detail\":\"https://example.org/plan.htm\"}]}\
]}}]}]}";

#[test]
fn answer_gives_the_address() {
    let c = Config::new();
    assert_eq!(c.decode_dsb_payload(&pack(MENU)), Ok("https://example.org/plan.htm".to_string()));
}

#[test]
fn answer_without_plan_gives_the_empty_address() {
    let c = Config::new();
    let menu = "{\"ResultMenuItems\":[{\"Title\":\"Inhalte\",\"Childs\":[{\"Title\":\"News\"}]}]}";
    assert_eq!(c.decode_dsb_payload(&pack(menu)), Ok(String::new()));
    let menu = MENU.replace("DSBSchueler", "DSBEltern");
    assert_eq!(c.decode_dsb_payload(&pack(&menu)), Ok(String::new()));
    let menu = MENU.replace("\"Detail\":\"https://example.org/plan.htm\"", "\"Detail\":5");
    assert_eq!(c.decode_dsb_payload(&pack(&menu)), Ok(String::new()));
}

#[test]
fn answer_failures_carry_their_path() {
    let c = Config::new();
    assert_eq!(c.decode_dsb_payload("{"), Err(PlanError::Json));
    assert_eq!(c.decode_dsb_payload("{\"x\":1}"), Err(missing("d")));
    assert_eq!(c.decode_dsb_payload("{\"d\":1}"), Err(missing("d")));
    assert_eq!(c.decode_dsb_payload("[1]"), Err(missing("d")));
    assert_eq!(c.decode_dsb_payload("{\"d\":\"!!!\"}"), Err(PlanError::Base64));
    assert_eq!(c.decode_dsb_payload("{\"d\":\"QUJD\"}"), Err(PlanError::Io));
    assert_eq!(c.decode_dsb_payload(&pack("{")), Err(PlanError::Json));
    assert_eq!(c.decode_dsb_payload(&pack("{}")), Err(missing("data.ResultMenuItems")));
    assert_eq!(
        c.decode_dsb_payload(&pack("{\"ResultMenuItems\":{}}")),
        Err(missing("data.ResultMenuItems"))
    );
    assert_eq!(
        c.decode_dsb_payload(&pack("{\"ResultMenuItems\":[]}")),
        Err(missing("data.ResultMenuItems.0"))
    );
    assert_eq!(
        c.decode_dsb_payload(&pack("{\"ResultMenuItems\":[{\"Title\":\"a\"},{\"Title\":\"b\"}]}")),
        Err(missing("data.ResultMenuItems.2"))
    );
    assert_eq!(
        c.decode_dsb_payload(&pack("{\"ResultMenuItems\":[{\"Title\":\"a\"},{}]}")),
        Err(missing("data.ResultMenuItems.1.Title"))
    );
    assert_eq!(
        c.decode_dsb_payload(&pack("{\"ResultMenuItems\":[{\"Title\":7}]}")),
        Err(missing("data.ResultMenuItems.0"))
    );
    assert_eq!(
        c.decode_dsb_payload(&pack("{\"ResultMenuItems\":[{\"Title\":\"Inhalte\"}]}")),
        Err(missing("data.ResultMenuItems.0.Childs"))
    );
    assert_eq!(
        c.decode_dsb_payload(&pack(
            "{\"ResultMenuItems\":[{\"Title\":\"Inhalte\",\"Childs\":[{\"Title\":\"x\"},{}]}]}"
        )),
        Err(missing("data.ResultMenuItems.0.Childs.2.Title"))
    );
    assert_eq!(
        c.decode_dsb_payload(&pack(
            "{\"ResultMenuItems\":[{\"Title\":\"Inhalte\",\"Childs\":[{\"Title\":\"Pl\u{e4}ne\"}]}]}"
        )),
        Err(missing("data.ResultMenuItems.0.Childs.1.Root"))
    );
    assert_eq!(
        c.decode_dsb_payload(&pack(
            "{\"ResultMenuItems\":[{\"Title\":\"Inhalte\",\"Childs\":[{\"Title\":\"Pl\u{e4}ne\",\"Root\":{\"Childs\":3}}]}]}"
        )),
        Err(missing("data.ResultMenuItems.0.Childs.1.Root.Childs"))
    );
    assert_eq!(
        c.decode_dsb_payload(&pack(
            "{\"ResultMenuItems\":[{\"Title\":\"Inhalte\",\"Childs\":[{\"Title\":\"Pl\u{e4}ne\",\"Root\":{\"Childs\":[{\"Title\":\"a\"},{\"Title\":\"b\"},{\"Title\":null}]}}]}]}"
        )),
        Err(missing("data.ResultMenuItems.0.Childs.1.Root.Childs.3.Title"))
    );
}

#[test]
fn menu_search_on_a_built_document() {
    let text = |s: &str| Json::Text(s.to_string());
    let member = |k: &str, v: Json| Member { key: k.to_string(), value: v };
    let plan = Json::Record(vec![
        member("Title", text("DSBSchueler")),
        member("Childs", Json::List(vec![Json::Record(vec![member("Detail", text("u"))])])),
    ]);
    let plans = Json::Record(vec![
        member("Title", text("Pl\u{e4}ne")),
        member("Root", Json::Record(vec![member("Childs", Json::List(vec![plan]))])),
    ]);
    let contents = Json::Record(vec![
        member("Title", text("Inhalte")),
        member("Childs", Json::List(vec![plans])),
    ]);
    let menu = Json::Record(vec![member("ResultMenuItems", Json::List(vec![contents]))]);
    assert_eq!(find_plan_url(&menu), Ok("u".to_string()));
    assert_eq!(find_plan_url(&Json::Null), Err(missing("data.ResultMenuItems")));
    assert_eq!(menu.get("ResultMenuItems").unwrap().at(1), None);
    assert_eq!(menu.get("x"), None);
    assert_eq!(Json::Number(1).as_text(), None);
}

fn unpack(body: &str) -> serde_json::Value {
    let outer: serde_json::Value = serde_json::from_str(body).unwrap();
    let req = outer.get("req").unwrap();
    assert_eq!(req.get("DataType").unwrap().as_i64(), Some(1));
    assert_eq!(req.as_object().unwrap().len(), 2);
    assert_eq!(outer.as_object().unwrap().len(), 1);
    #[allow(deprecated)]
    let packed = base64::decode(req.get("Data").unwrap().as_str().unwrap()).unwrap();
    let mut text = String::new();
    flate2::read::GzDecoder::new(&packed[..]).read_to_string(&mut text).unwrap();
    serde_json::from_str(&text).unwrap()
}

#[test]
fn request_holds_the_credentials() {
    let mut c = Config::new();
    c.user_id = "123456".to_string();
    c.password = "geheim \"x\"".to_string();
    let body = c.request_payload("2019-09-20T07:45:00+00:00").unwrap();
    let request = unpack(&body);
    let field = |k: &str| request.get(k).unwrap().as_str().unwrap().to_string();
    assert_eq!(field("UserId"), "123456");
    assert_eq!(field("UserPw"), "geheim \"x\"");
    assert_eq!(field("AppVersion"), "2.3");
    assert_eq!(field("Language"), "de");
    assert_eq!(field("AppId"), "");
    assert_eq!(field("Device"), "WebApp");
    assert_eq!(field("PushId"), "");
    assert_eq!(field("BundleId"), "de.heinekingmedia.inhous.dsbmobile.web");
    assert_eq!(field("Date"), "2019-09-20T07:45:00+00:00");
    assert_eq!(field("LastUpdate"), "2019-09-20T07:45:00+00:00");
    assert!(field("OsVersion").starts_with("Mozilla/5.0"));
    assert_eq!(request.get("Abos").unwrap().as_array().unwrap().len(), 0);
    assert_eq!(request.as_object().unwrap().len(), 12);
}

#[test]
fn request_at_the_time_of_the_call() {
    let c = Config::new();
    let request = unpack(&c.gen_request_payload().unwrap());
    let date = request.get("Date").unwrap().as_str().unwrap();
    assert_eq!(request.get("LastUpdate").unwrap().as_str().unwrap(), date);
    assert!(date.len() >= 20 && date.contains('T'));
}

#[test]
fn envelope_and_packed_menu() {
    let text = |s: &str| Json::Text(s.to_string());
    let member = |k: &str, v: Json| Member { key: k.to_string(), value: v };
    assert_eq!(
        wrap_request("abc"),
        Json::Record(vec![member(
            "req",
            Json::Record(vec![member("Data", text("abc")), member("DataType", Json::Number(1))])
        )])
    );
    assert_eq!(read_packed_menu(&Json::Record(vec![member("d", text("x"))])), Ok("x".to_string()));
    assert_eq!(read_packed_menu(&Json::Record(vec![member("d", Json::Null)])), Err(missing("d")));
    assert_eq!(read_packed_menu(&Json::List(vec![])), Err(missing("d")));
}

#[test]
fn request_json_is_a_record() {
    let c = Config::new();
    match c.request_json("now") {
        Json::Record(m) => {
            assert_eq!(m.len(), 12);
            assert_eq!(m[0].key, "UserId");
            assert_eq!(m[2].value, Json::List(vec![]));
            assert_eq!(m[11].value, Json::Text("now".to_string()));
        }
        other => panic!("{:?}", other),
    }
}

#[test]
fn handshake_headers_and_status() {
    let mut c = Config::new();
    c.cookie = "k=v".to_string();
    let h = c.handshake_headers();
    assert_eq!(h.len(), 6);
    assert_eq!(h[0], Header { name: "Cookie".to_string(), value: "k=v".to_string() });
    assert_eq!(h[2].value, "de.heinekingmedia.inhouse.dsbmobile.web");
    assert_eq!(h[4], Header { name: "X-Requested-With".to_string(), value: "XMLHttpRequest".to_string() });
    let d = c.document_headers();
    assert_eq!(d.len(), 4);
    assert_eq!(d[3], Header { name: "Accept-Encoding".to_string(), value: "latin1".to_string() });
    assert_eq!(Config::check_status(200), Ok(()));
    assert_eq!(Config::check_status(404), Err(missing("not 200 foo")));
    assert_eq!(Config::check_status(204), Err(missing("not 200 foo")));
    assert_eq!(c.url, "https://www.dsbmobile.de/JsonHandlerWeb.ashx/GetData");
}

#[test]
fn fetch_steps() {
    let mut c = Config::new();
    c.cookie = "k=v".to_string();
    match c.begin_at("2019-09-20T07:45:00+00:00") {
        Action::Post { url, headers, body } => {
            assert_eq!(url, c.url);
            assert_eq!(headers, c.handshake_headers());
            assert_eq!(body, c.request_payload("2019-09-20T07:45:00+00:00").unwrap());
        }
        other => panic!("{:?}", other),
    }
    assert!(matches!(c.begin(), Action::Post { .. }));
    assert_eq!(
        c.answered(&pack(MENU)),
        Action::Get { url: "https://example.org/plan.htm".to_string(), headers: c.document_headers() }
    );
    assert_eq!(c.answered("{}"), Action::Fail(missing("d")));
    assert_eq!(c.delivered(404, "<html></html>"), Action::Fail(missing("not 200 foo")));
    assert_eq!(c.delivered(200, "<html><body></body></html>"), Action::Store(vec![]));
    assert_eq!(
        c.delivered(200, "<html><body><table class=\"mon_head\"></table></body></html>"),
        Action::Fail(missing("mon_head.1.0.5.1"))
    );
}
