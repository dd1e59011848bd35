use llg_companion::common::{Course, CourseKind, Hour, Room};
use llg_companion::diagnostic::Diagnostic;
use llg_companion::dom::{Attribute, DomKind, DomNode};
use llg_companion::error::PlanError;
use llg_companion::planinfo::poll::Cycle;
use llg_companion::planinfo::{createTable, Config, PlanInfo, Table};

fn missing(path: &str) -> PlanError {
    PlanError::FieldNotExists(path.to_string())
}

fn page(title: &str, plan: &str) -> String {
    format!(
        "\n<!DOCTYPE html>\n<html><head><meta charset=\"utf-8\"><title>{}</title></head>\n<body>\n<h1>x</h1>\n<div class=\"plan\">{}</div>\n</body></html>\n",
        title, plan
    )
}

const TEACHER: &str = "<table class=\"plan\">\n\
<thead><tr><th class=\"titel\" colspan=\"6\">A-Woche-Stundenplan von Lehrer/in Mue</th></tr>\n\
<tr><th>Std</th><th>Mo</th><th>Di</th><th>Mi</th><th>Do</th><th>Fr</th></tr></thead>\n\
<tbody>\n\
<tr><th>1</th><td>5a D B101</td><td>&nbsp;</td><td>Q1-2 M-LK1 A204</td><td></td><td>AG Schach</td></tr>\n\
<tr><th>2</th><td></td><td>8b E c007</td><td></td><td></td><td></td></tr>\n\
</tbody></table>";

#[test]
fn teacher_page_is_read() {
    let mut plan = PlanInfo::new();
    let (table, tag) = plan.parse_str(&page("PlanInfo - Anzeige", TEACHER), 0).unwrap();
    assert_eq!(tag, "teachers");
    assert_eq!(table.name, "Mue");
    assert_eq!(plan.teachers.len(), 1);
    assert_eq!(plan.teachers[0], table);
    assert!(plan.rooms.is_empty());
    let h = &table.table_a[0][0];
    assert_eq!(h.course, Course::Sec1 { name: "D 5a".to_string() });
    assert_eq!(h.room, Room::B { room: 101 });
    assert_eq!(h.teacher.name, "Mue");
    let h = &table.table_a[0][1];
    assert_eq!(h.course, Course::Absent);
    assert_eq!(h.teacher.name, "Mue");
    let h = &table.table_a[0][2];
    assert_eq!(
        h.course,
        Course::Sec2 { track: 2, name: "M Q1".to_string(), kind: CourseKind::LK { number: 1 } }
    );
    assert_eq!(h.room, Room::A { room: 204 });
    assert_eq!(table.table_a[0][3], Hour::new());
    assert_eq!(table.table_a[0][4].course, Course::Sec1 { name: "AG Schach".to_string() });
    assert_eq!(table.table_a[1][1].course, Course::Sec1 { name: "E 8b".to_string() });
    assert_eq!(table.table_a[1][1].room, Room::C { room: 7 });
    assert_eq!(table.table_a[1][0], Hour::new());
    assert_eq!(table.table_b, createTable());
}

#[test]
fn week_b_goes_to_the_second_grid() {
    let plan_text = TEACHER.replace("A-Woche", "B-Woche");
    let mut plan = PlanInfo::new();
    let (table, tag) = plan.parse_str(&page("Anzeige", &plan_text), 0).unwrap();
    assert_eq!(tag, "teachers");
    assert_eq!(table.table_a, createTable());
    assert_eq!(table.table_b[0][0].room, Room::B { room: 101 });
}

#[test]
fn room_page_is_read() {
    let plan_text = "<table><thead><tr><td class=\"titel\">A-Woche-Stundenplan von Raum A204</td></tr></thead>\
<tbody><tr><td>Q1-2 M-LK1 Mue</td><td>5a D Abc</td><td>E999</td></tr></tbody></table>";
    let mut plan = PlanInfo::new();
    let (table, tag) = plan.parse_str(&page("Anzeige", plan_text), 0).unwrap();
    assert_eq!(tag, "room");
    assert_eq!(table.name, "A204");
    assert_eq!(plan.rooms.len(), 1);
    assert_eq!(
        table.table_a[0][0].course,
        Course::Sec2 { track: 0, name: "M Q1".to_string(), kind: CourseKind::LK { number: 1 } }
    );
    assert_eq!(table.table_a[0][0].room, Room::Unknown);
    assert_eq!(table.table_a[0][1].course, Course::Sec1 { name: "D 5a".to_string() });
    assert_eq!(table.table_a[0][2].room, Room::E { room: 999 });
    assert_eq!(table.table_a[0][2].course, Course::Absent);
}

#[test]
fn student_page_is_read() {
    let plan_text = "<table><thead><tr><th class=\"titel\">A-Woche-Stundenplan von Sch\u{fc}ler/in \
<span><a title=\"Sch\u{fc}ler/in Max Muster(Q1)\">Max</a></span>(D Mue, E Abc)</th></tr></thead>\
<tbody><tr><td>Q1-2 M-LK1 Mue A204</td><td>(Q1-3) D-GK2 Xyz B001</td></tr></tbody></table>";
    let mut plan = PlanInfo::new();
    let (table, tag) = plan.parse_str(&page("Anzeige", plan_text), 0).unwrap();
    assert_eq!(tag, "students");
    assert_eq!(table.name, "Max Muster");
    assert_eq!(plan.students.len(), 1);
    let h = &table.table_a[0][0];
    assert_eq!(h.teacher.name, "Mue");
    assert!(h.is_tutor);
    assert_eq!(h.room, Room::A { room: 204 });
    assert_eq!(
        h.course,
        Course::Sec2 { track: 2, name: "M".to_string(), kind: CourseKind::LK { number: 1 } }
    );
    let h = &table.table_a[0][1];
    assert_eq!(h.teacher.name, "Xyz");
    assert!(!h.is_tutor);
    assert_eq!(
        h.course,
        Course::Sec2 { track: 3, name: "D".to_string(), kind: CourseKind::GK { number: 2 } }
    );
}

#[test]
fn class_page_yields_no_table() {
    let plan_text = "<table><thead><tr><th class=\"titel\">A-Woche-Stundenplan von Klasse 5a</th></tr></thead>\
<tbody><tr><td>D Mue B101</td></tr></tbody></table>";
    let mut plan = PlanInfo::new();
    let (table, tag) = plan.parse_str(&page("Anzeige", plan_text), 0).unwrap();
    assert_eq!(tag, "none");
    assert_eq!(table, Table::new());
    assert!(plan.teachers.is_empty() && plan.rooms.is_empty() && plan.students.is_empty());
}

#[test]
fn page_without_header_yields_no_table() {
    let mut plan = PlanInfo::new();
    let (table, tag) = plan.parse_str(&page("Anzeige", "<p>nichts</p>"), 0).unwrap();
    assert_eq!(tag, "none");
    assert_eq!(table, Table::default());
    let plan_text = "<table><tbody><tr><td>5a D B101</td></tr></tbody></table>";
    let (table, tag) = plan.parse_str(&page("Anzeige", plan_text), 0).unwrap();
    assert_eq!(tag, "none");
    assert_eq!(table, Table::new());
}

#[test]
fn empty_page_is_an_error() {
    let plan_text = "<table><thead><tr><th class=\"titel\">A-Woche-Stundenplan von</th></tr></thead></table>";
    let mut plan = PlanInfo::new();
    assert_eq!(plan.parse_str(&page("Anzeige", plan_text), 0), Err(missing("PlanInfo empty")));
    assert!(plan.teachers.is_empty());
    let plan_text = "<table><thead><tr><th class=\"titel\"> B-Woche-Stundenplan von </th></tr></thead></table>";
    assert_eq!(plan.parse_str(&page("Anzeige", plan_text), 0), Err(missing("PlanInfo empty")));
}

#[test]
fn unknown_header_is_an_error() {
    let plan_text = "<table><thead><tr><th class=\"titel\">Mensaplan</th></tr></thead></table>";
    let mut plan = PlanInfo::new();
    assert_eq!(
        plan.parse_str(&page("Anzeige", plan_text), 0),
        Err(missing("PlanInfo header kind"))
    );
}

#[test]
fn page_structure_is_checked() {
    let mut plan = PlanInfo::new();
    assert_eq!(plan.parse_str(&page("Anmeldung", TEACHER), 0), Err(missing("planinfo auth")));
    assert_eq!(plan.parse_str("", 0), Err(missing("planinfo html")));
    let no_plan = "<!DOCTYPE html>\n<html><head><title>Anzeige</title></head>\n<body><div class=\"other\"></div></body></html>";
    assert_eq!(
        plan.parse_str(no_plan, 0),
        Err(missing("not found for parse_dom (planinfo)"))
    );
    let no_gap = "<!DOCTYPE html><html><head><title>Anzeige</title></head><body><div class=\"plan\"></div></body></html>";
    assert_eq!(plan.parse_str(no_gap, 0), Err(missing("planinfo html body")));
    let doc = DomNode { kind: DomKind::Document, children: vec![] };
    assert_eq!(plan.parse_dom(&doc, 0), Err(missing("planinfo html")));
}

#[test]
fn title_check() {
    let text = |s: &str| DomNode { kind: DomKind::Text { contents: s.to_string() }, children: vec![] };
    let title = |children: Vec<DomNode>| DomNode {
        kind: DomKind::Element { name: "title".to_string(), attrs: vec![] },
        children,
    };
    let head = |children: Vec<DomNode>| DomNode {
        kind: DomKind::Element { name: "head".to_string(), attrs: Vec::<Attribute>::new() },
        children,
    };
    let plan = PlanInfo::new();
    assert!(plan.check_title(&head(vec![text("\n"), title(vec![text("PlanInfo Anzeige")])])));
    assert!(!plan.check_title(&head(vec![title(vec![text("Login")])])));
    assert!(!plan.check_title(&head(vec![])));
    assert!(plan.check_title(&head(vec![title(vec![]), title(vec![text("Anzeige")])])));
    assert!(!plan.check_title(&head(vec![title(vec![text("x")]), title(vec![text("Anzeige")])])));
}

#[test]
fn cells_outside_the_grid_are_passed_over() {
    let mut row = String::from("<tr>");
    for _ in 0..14 {
        row.push_str("<td>5a D B101</td>");
    }
    row.push_str("</tr>");
    let mut body = String::new();
    for _ in 0..7 {
        body.push_str(&row);
    }
    let plan_text = format!(
        "<table><thead><tr><th class=\"titel\">A-Woche-Stundenplan von Lehrer/in Mue</th></tr></thead><tbody>{}</tbody></table>",
        body
    );
    let mut plan = PlanInfo::new();
    let (table, _) = plan.parse_str(&page("Anzeige", &plan_text), 0).unwrap();
    for x in 0..5 {
        for y in 0..12 {
            assert_eq!(table.table_a[x][y].room, Room::B { room: 101 });
        }
    }
}

#[test]
fn tables_accumulate_over_pages() {
    let mut plan = PlanInfo::new();
    plan.parse_str(&page("Anzeige", TEACHER), 0).unwrap();
    let other = TEACHER.replace("Mue", "Abc");
    let (table, tag) = plan.parse_str(&page("Anzeige", &other), 0).unwrap();
    assert_eq!(tag, "teachers");
    assert_eq!(table.name, "Abc");
    assert_eq!(plan.teachers.len(), 2);
    assert_eq!(plan.teachers[0].name, "Mue");
}

#[test]
fn table_clone_is_equal() {
    let mut plan = PlanInfo::new();
    let (table, _) = plan.parse_str(&page("Anzeige", TEACHER), 0).unwrap();
    assert_eq!(table.clone(), table);
    assert_eq!(Table::new().name, "");
}

#[test]
fn config_defaults() {
    let c = Config::new();
    assert_eq!(c.base_url, "https://selbstlernportal.de/html/planinfo/planinfo_start.php");
    assert_eq!(c.delay_hits, 20);
    assert_eq!(c.max_misses, 5);
    assert_eq!((c.start, c.end, c.verbose), (0, 0, 0));
    assert_eq!(c.clone(), c);
}

#[test]
fn cycle_asks_for_pages_in_order() {
    let mut c = Config::new();
    c.school_id = "llg".to_string();
    c.start = 7;
    c.end = 9;
    c.max_misses = 2;
    let mut cycle = c.begin_cycle();
    assert_eq!(cycle, Cycle { misses_left: 2, dbidx: 7 });
    let url = c.next_page(&mut cycle).unwrap();
    assert_eq!(
        url,
        "https://selbstlernportal.de/html/planinfo/planinfo_start.php?ug=llg&dbidx=8"
    );
    c.page_done(&mut cycle, true);
    assert_eq!(cycle, Cycle { misses_left: 2, dbidx: 8 });
    assert!(c.next_page(&mut cycle).unwrap().ends_with("dbidx=9"));
    c.page_done(&mut cycle, true);
    assert_eq!(cycle, Cycle { misses_left: 0, dbidx: 9 });
    assert_eq!(c.next_page(&mut cycle), None);
}

#[test]
fn cycle_ends_after_the_allowed_misses() {
    let mut c = Config::new();
    c.max_misses = 2;
    c.end = 100;
    let mut cycle = c.begin_cycle();
    assert!(c.next_page(&mut cycle).is_some());
    c.page_done(&mut cycle, false);
    assert_eq!(cycle, Cycle { misses_left: 1, dbidx: 1 });
    assert!(c.next_page(&mut cycle).is_some());
    c.page_done(&mut cycle, true);
    assert_eq!(cycle, Cycle { misses_left: 1, dbidx: 2 });
    assert!(c.next_page(&mut cycle).is_some());
    c.page_done(&mut cycle, false);
    assert_eq!(cycle, Cycle { misses_left: 0, dbidx: 3 });
    assert_eq!(c.next_page(&mut cycle), None);
    assert!(Config::page_is_hit(200, true));
    assert!(Config::page_is_hit(299, true));
    assert!(!Config::page_is_hit(200, false));
    assert!(!Config::page_is_hit(404, true));
    assert!(!Config::page_is_hit(199, true));
    assert_eq!(c.page_url(0), format!("{}?ug=&dbidx=0", c.base_url));
    assert!(c.page_url(1234567890).ends_with("dbidx=1234567890"));
}

fn note(level: u8, label: &str, text: &str) -> Diagnostic {
    Diagnostic { level, label: label.to_string(), text: text.to_string() }
}

#[test]
fn page_diagnostics() {
    assert_eq!(
        PlanInfo::diagnose_str(&page("Anzeige", TEACHER)),
        vec![note(2, "hour.activity", "AG Schach")]
    );
    let class = "<table><thead><tr><th class=\"titel\">A-Woche-Stundenplan von Klasse 5a</th></tr></thead>\
<tbody><tr><td>D Mue B101</td><td></td><td>E Abc</td></tr></tbody></table>";
    assert_eq!(
        PlanInfo::diagnose_str(&page("Anzeige", class)),
        vec![note(1, "planinfo.class", "D Mue B101"), note(1, "planinfo.class", "E Abc")]
    );
    let empty = "<table><thead><tr><th class=\"titel\">A-Woche-Stundenplan von</th></tr></thead>\
<tbody><tr><td>D Mue B101</td></tr></tbody></table>";
    assert_eq!(
        PlanInfo::diagnose_str(&page("Anzeige", empty)),
        vec![note(0, "planinfo.header", "PlanInfo empty")]
    );
    let wide = "<table><thead><tr><th class=\"titel\">A-Woche-Stundenplan von Lehrer/in Mue</th></tr></thead>\
<tbody><tr></tr><tr></tr><tr></tr><tr></tr><tr><td>8a E B101</td></tr><tr><td>5a D B101</td><td>x y</td></tr></tbody></table>";
    assert_eq!(
        PlanInfo::diagnose_str(&page("Anzeige", wide)),
        vec![note(0, "planinfo.grid", "5a D B101"), note(0, "planinfo.grid", "x y")]
    );
    assert_eq!(PlanInfo::diagnose_str(""), vec![]);
    assert_eq!(PlanInfo::diagnose_str(&page("Anzeige", "<p></p>")), vec![]);
}

#[test]
fn failure_leaves_the_tables_as_they_stand() {
    let mut plan = PlanInfo::new();
    let (first, _) = plan.parse_str(&page("Anzeige", TEACHER), 0).unwrap();
    let empty = "<table><thead><tr><th class=\"titel\">A-Woche-Stundenplan von</th></tr></thead></table>";
    assert_eq!(plan.parse_str(&page("Anzeige", empty), 0), Err(missing("PlanInfo empty")));
    assert_eq!(plan.teachers, vec![first.clone()]);
    assert!(plan.rooms.is_empty() && plan.students.is_empty());
    let other = "<table><thead><tr><th class=\"titel\">Mensaplan</th></tr></thead></table>";
    assert_eq!(plan.parse_str(&page("Anzeige", other), 0), Err(missing("PlanInfo header kind")));
    assert_eq!(plan.teachers, vec![first.clone()]);
    assert_eq!(plan.parse_str(&page("Login", TEACHER), 0), Err(missing("planinfo auth")));
    assert_eq!(plan.teachers, vec![first.clone()]);
    let late = "<table><thead><tr><th class=\"titel\">A-Woche-Stundenplan von Raum A204</th>\
<th class=\"titel\">Mensaplan</th></tr></thead></table>";
    assert_eq!(plan.parse_str(&page("Anzeige", late), 0), Err(missing("PlanInfo header kind")));
    assert_eq!(plan.teachers, vec![first]);
    assert_eq!(plan.rooms.len(), 1);
    assert_eq!(plan.rooms[0].name, "A204");
}
