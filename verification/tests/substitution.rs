use llg_companion::common::{Course, CourseKind, Room, Teacher};
use llg_companion::date::{Date, DateTime};
use llg_companion::diagnostic::Diagnostic;
use llg_companion::dom::{Attribute, DomKind, DomNode};
use llg_companion::dsb::parse::{read_label, read_period, InfoLabel};
use llg_companion::dsb::{Class, Config, Duration, Entry, EntryKind, Week, DSB};
use llg_companion::error::PlanError;

fn text(s: &str) -> DomNode {
    DomNode { kind: DomKind::Text { contents: s.to_string() }, children: vec![] }
}

fn element(name: &str, class: &str, children: Vec<DomNode>) -> DomNode {
    let attrs = if class.is_empty() {
        vec![]
    } else {
        vec![Attribute { name: "class".to_string(), value: class.to_string() }]
    };
    DomNode { kind: DomKind::Element { name: name.to_string(), attrs }, children }
}

fn header_table() -> DomNode {
    let br = || element("br", "", vec![]);
    let p = element(
        "p",
        "",
        vec![
            text("Testschule"),
            br(),
            text("D-12345 Ort"),
            br(),
            text("Schuljahr 2019/2020"),
            br(),
            text(" gueltig ab 12.08.2019 "),
            br(),
            text("Stand: 20.09.2019 07:45"),
        ],
    );
    let cell = element("td", "", vec![text(" "), p]);
    let row = element(
        "tr",
        "",
        vec![
            text("\n"),
            element("td", "", vec![]),
            text("\n"),
            element("td", "", vec![]),
            text("\n"),
            cell,
        ],
    );
    element("table", "mon_head", vec![text("\n"), element("tbody", "", vec![row])])
}

fn plain_cell(s: &str) -> DomNode {
    element("td", "list", vec![text(s)])
}

fn bold_cell(s: &str) -> DomNode {
    element("td", "list", vec![element("b", "", vec![text(s)])])
}

fn data_row(cells: [&str; 8]) -> DomNode {
    element(
        "tr",
        "list",
        vec![
            plain_cell(cells[0]),
            bold_cell(cells[1]),
            bold_cell(cells[2]),
            plain_cell(cells[3]),
            plain_cell(cells[4]),
            plain_cell(cells[5]),
            plain_cell(cells[6]),
            bold_cell(cells[7]),
        ],
    )
}

fn heading_row() -> DomNode {
    let th = |s: &str| element("th", "list", vec![text(s)]);
    element(
        "tr",
        "list",
        vec![
            th("Klasse(n)"),
            th("Stunde"),
            th("Vertreter"),
            th("Fach"),
            th("(Fach)"),
            th("Text"),
            th("Art"),
            th("Raum"),
        ],
    )
}

fn info_table(rows: Vec<DomNode>) -> DomNode {
    element("table", "info", vec![text("\n"), element("tbody", "", rows)])
}

fn info_row(label: &str, content: &str) -> DomNode {
    element("tr", "info", vec![plain_cell(label), plain_cell(content)])
}

fn center_block(title: &str, info: Vec<DomNode>, rows: Vec<DomNode>) -> DomNode {
    let grid = element("table", "mon_list", vec![text("\n"), element("tbody", "", rows)]);
    element(
        "center",
        "",
        vec![
            text("\n"),
            element("div", "mon_title", vec![text(title)]),
            text("\n"),
            info_table(info),
            text("\n"),
            element("p", "", vec![text("\n"), grid]),
        ],
    )
}

fn document(body: Vec<DomNode>) -> DomNode {
    let html = element("html", "", vec![element("head", "", vec![]), element("body", "", body)]);
    DomNode { kind: DomKind::Document, children: vec![html] }
}

fn missing(path: &str) -> PlanError {
    PlanError::FieldNotExists(path.to_string())
}

#[test]
fn entry_kind_keywords() {
    assert_eq!(EntryKind::parse_from_str("Vertretung"), EntryKind::Substitution);
    assert_eq!(EntryKind::parse_from_str("Entf\u{e4}llt"), EntryKind::Dropped);
    assert_eq!(EntryKind::parse_from_str("ENTF\u{c4}LLT"), EntryKind::Dropped);
    assert_eq!(EntryKind::parse_from_str("Sondereinsatz"), EntryKind::Special);
    assert_eq!(EntryKind::parse_from_str("Raum ge\u{e4}ndert"), EntryKind::Changed);
    assert_eq!(EntryKind::parse_from_str("Betreuung"), EntryKind::Special);
    assert_eq!(EntryKind::parse_from_str("Raum-Vtr."), EntryKind::Room);
    assert_eq!(EntryKind::parse_from_str("Pause"), EntryKind::Unknow("Pause".to_string()));
    assert_eq!(EntryKind::parse_from_str("Vertretung im Raum"), EntryKind::Substitution);
    assert_eq!(EntryKind::new(), EntryKind::Unknow(String::new()));
}

#[test]
fn week_letters() {
    assert_eq!(Week::parse('A'), Week::A);
    assert_eq!(Week::parse('B'), Week::B);
    assert_eq!(Week::parse('a'), Week::NoWeek('a'));
    assert_eq!(Week::parse('7'), Week::NoWeek('7'));
}

#[test]
fn period_ranges() {
    let chars = |s: &str| s.chars().collect::<Vec<char>>();
    assert_eq!(read_period(&chars("3 - 4")), Duration { from: 3, to: 4 });
    assert_eq!(read_period(&chars("5")), Duration { from: 5, to: 5 });
    assert_eq!(read_period(&chars("10 - 11")), Duration { from: 10, to: 11 });
    assert_eq!(read_period(&chars("1-2")), Duration { from: 0, to: 0 });
    assert_eq!(read_period(&chars("x - 7")), Duration { from: 0, to: 7 });
    assert_eq!(read_period(&chars("")), Duration { from: 0, to: 0 });
    assert_eq!(read_period(&chars("12")), Duration { from: 1, to: 1 });
    assert_eq!(read_period(&chars("/")), Duration { from: -1, to: -1 });
    assert_eq!(Duration::new(), Duration { from: 0, to: 0 });
}

#[test]
fn new_records_are_empty() {
    let d = DSB::new();
    assert_eq!(d.school, "");
    assert_eq!(d.valid_from, Date { year: 1970, month: 1, day: 1 });
    assert_eq!(d.week, Week::A);
    assert!(d.entries.is_empty());
    let e = Entry::new_from_str("9a");
    assert_eq!(e.name, "9a");
    assert_eq!(e.course, Course::Absent);
    assert_eq!(e.room, Room::Unknown);
    assert_eq!(e.kind, EntryKind::Unknow(String::new()));
    assert_eq!(Entry::new().name, "");
}

#[test]
fn header_table_is_read() {
    let d = DSB::new_mon_head(&header_table()).unwrap();
    assert_eq!(d.school, "Testschule");
    assert_eq!(d.year, "2019/2020");
    assert_eq!(d.valid_from, Date { year: 2019, month: 8, day: 12 });
    assert_eq!(
        d.updated_at,
        DateTime { date: Date { year: 2019, month: 9, day: 20 }, hour: 7, minute: 45, second: 0 }
    );
    assert_eq!(d.date, Date { year: 1970, month: 1, day: 1 });
}

#[test]
fn header_table_with_unreadable_dates() {
    let br = || element("br", "", vec![]);
    let p = element(
        "p",
        "",
        vec![
            text("S"),
            br(),
            text("x"),
            br(),
            text("y"),
            br(),
            text("kein Datum"),
            br(),
            text("Stand"),
        ],
    );
    let cell = element("td", "", vec![text(" "), p]);
    let cells = vec![text(""), text(""), text(""), text(""), text(""), cell];
    let table = element(
        "table",
        "mon_head",
        vec![text("\n"), element("tbody", "", vec![element("tr", "", cells)])],
    );
    let d = DSB::new_mon_head(&table).unwrap();
    assert_eq!(d.valid_from, Date { year: 1870, month: 1, day: 1 });
    assert_eq!(
        d.updated_at,
        DateTime { date: Date { year: 1970, month: 1, day: 1 }, hour: 0, minute: 0, second: 0 }
    );
    assert_eq!(d.year, "y");
}

#[test]
fn header_table_without_its_cell_fails() {
    let table = element("table", "mon_head", vec![text("\n")]);
    assert_eq!(DSB::new_mon_head(&table), Err(missing("mon_head.1.0.5.1")));
    let short = element("td", "", vec![text(" "), element("p", "", vec![text("S")])]);
    let cells = vec![text(""), text(""), text(""), text(""), text(""), short];
    let table = element(
        "table",
        "mon_head",
        vec![text("\n"), element("tbody", "", vec![element("tr", "", cells)])],
    );
    assert_eq!(DSB::new_mon_head(&table), Err(missing("mon_head.1.0.5.1.8")));
}

#[test]
fn title_gives_day_and_week() {
    let mut d = DSB::new();
    d.parse_mon_title("20.9.2019 Freitag, Woche A").unwrap();
    assert_eq!(d.date, Date { year: 2019, month: 9, day: 20 });
    assert_eq!(d.week, Week::A);
    d.parse_mon_title("23.9.2019 Montag, Woche B").unwrap();
    assert_eq!(d.week, Week::B);
    d.parse_mon_title("24.9.2019 Dienstag").unwrap();
    assert_eq!(d.week, Week::NoWeek('g'));
    assert_eq!(d.parse_mon_title("Freitag"), Err(missing("mon_title.date")));
    assert_eq!(d.parse_mon_title(""), Err(missing("mon_title")));
    assert_eq!(d.parse_mon_title("   "), Err(missing("mon_title")));
    assert_eq!(d.date, Date { year: 2019, month: 9, day: 24 });
}

#[test]
fn title_with_a_given_day() {
    let mut d = DSB::new();
    let day = Date { year: 2020, month: 2, day: 29 };
    assert_eq!(d.set_title("x Woche B", Some(day)), Ok(()));
    assert_eq!((d.date, d.week), (day, Week::B));
    assert_eq!(d.set_title("x Woche A", None), Err(missing("mon_title.date")));
    assert_eq!(d.set_title("", Some(day)), Err(missing("mon_title")));
    assert_eq!((d.date, d.week), (day, Week::B));
    assert_eq!(Date::read_or_unread(None), Date { year: 1870, month: 1, day: 1 });
    assert_eq!(Date::read_or_unread(Some(day)), day);
    assert_eq!(DateTime::read_or_epoch(None), DateTime::new(Date::new(1970, 1, 1), 0, 0, 0));
}

#[test]
fn info_labels() {
    let chars = |s: &str| s.chars().collect::<Vec<char>>();
    assert_eq!(read_label(&chars("abwesende lehrer")), InfoLabel::Teachers);
    assert_eq!(read_label(&chars("betroffene klassen")), InfoLabel::Classes);
    assert_eq!(read_label(&chars("Abwesende Lehrer")), InfoLabel::Other);
    assert_eq!(read_label(&chars("")), InfoLabel::Other);
}

#[test]
fn week_is_the_last_character() {
    let mut d = DSB::new();
    d.parse_mon_title("20.9.2019 Woche \u{e4}").unwrap();
    assert_eq!(d.week, Week::NoWeek('\u{e4}'));
}

#[test]
fn unknown_info_labels_are_told() {
    assert!(DSB::info_row_is_unknown(&info_row("Blockierte Raeume", "A204")));
    assert!(!DSB::info_row_is_unknown(&info_row("Abwesende Lehrer", "Abc")));
    assert!(!DSB::info_row_is_unknown(&info_row(" BETROFFENE KLASSEN ", "5a")));
    assert!(!DSB::info_row_is_unknown(&element("tr", "", vec![plain_cell("x")])));
}

#[test]
fn info_table_names_teachers_and_classes() {
    let table = info_table(vec![
        element("tr", "info", vec![plain_cell("Nachrichten zum Tag")]),
        info_row("Abwesende Lehrer", "Abc, Def (1-2), Ghi"),
        info_row(" Betroffene Klassen ", "5a, 9b,  Q1 "),
        info_row("Blockierte Raeume", "A204"),
    ]);
    let table = DomNode { kind: table.kind, children: vec![text("\n"), table.children.into_iter().nth(1).unwrap()] };
    let mut d = DSB::new();
    d.parse_info_table(&table).unwrap();
    assert_eq!(
        d.missing_teachers,
        vec![
            Teacher { name: "Abc".to_string() },
            Teacher { name: "Def".to_string() },
            Teacher { name: "Ghi".to_string() }
        ]
    );
    assert_eq!(
        d.affected_classes,
        vec![
            Class { name: "5a".to_string() },
            Class { name: "9b".to_string() },
            Class { name: "Q1".to_string() }
        ]
    );
    assert!(d.blocked_rooms.is_empty());
}

#[test]
fn minimal_document_round_trip() {
    let row = data_row(["Q1", "3 - 4", "Mue", "M-LK2", "D-GK1", "Aufgaben", "Vertretung", "A204"]);
    let doc = document(vec![
        text("\n"),
        header_table(),
        text("\n"),
        center_block("20.9.2019 Freitag, Woche A", vec![], vec![heading_row(), text("\n"), row]),
    ]);
    let days = Config::new().parse_dom(&doc).unwrap();
    assert_eq!(days.len(), 1);
    let day = &days[0];
    assert_eq!(day.school, "Testschule");
    assert_eq!(day.date, Date { year: 2019, month: 9, day: 20 });
    assert_eq!(day.week, Week::A);
    assert_eq!(day.entries.len(), 1);
    let e = &day.entries[0];
    assert_eq!(e.name, "Q1");
    assert_eq!(e.time, Duration { from: 3, to: 4 });
    assert_eq!(e.new_teacher, Teacher { name: "Mue".to_string() });
    assert_eq!(e.old_teacher, Teacher { name: String::new() });
    assert_eq!(
        e.course,
        Course::Sec2 { track: 0, name: "M".to_string(), kind: CourseKind::LK { number: 2 } }
    );
    assert_eq!(
        e.old_course,
        Course::Sec2 { track: 0, name: "D".to_string(), kind: CourseKind::GK { number: 1 } }
    );
    assert_eq!(e.message, "Aufgaben");
    assert_eq!(e.kind, EntryKind::Substitution);
    assert_eq!(e.room, Room::A { room: 204 });
}

#[test]
fn cells_lose_blanks_and_hyphens() {
    let row = data_row(["5a", "2", " --- ", "---", " Ma ", "-", "Entf\u{e4}llt", "---"]);
    let doc = document(vec![
        header_table(),
        center_block("20.9.2019 Freitag, Woche B", vec![], vec![row]),
    ]);
    let days = Config::new().parse_dom(&doc).unwrap();
    let e = &days[0].entries[0];
    assert_eq!(e.time, Duration { from: 2, to: 2 });
    assert_eq!(e.new_teacher.name, "");
    assert_eq!(e.course, Course::Absent);
    assert_eq!(e.old_course, Course::Sec1 { name: "Ma".to_string() });
    assert_eq!(e.message, "");
    assert_eq!(e.kind, EntryKind::Dropped);
    assert_eq!(e.room, Room::Unknown);
    assert_eq!(days[0].week, Week::B);
}

#[test]
fn continuation_rows_append_their_message() {
    let first = data_row(["9a", "1", "Abc", "D", "D", "Teil eins", "Vertretung", "B101"]);
    let more = || data_row([" ", " ", " ", " ", " ", " und zwei", " ", " "]);
    let other = data_row(["9b", "2", "Def", "E", "E", "anders", "Raum", "C001"]);
    let doc = document(vec![
        header_table(),
        center_block(
            "20.9.2019 Freitag, Woche A",
            vec![],
            vec![heading_row(), more(), first, more(), other],
        ),
    ]);
    let days = Config::new().parse_dom(&doc).unwrap();
    let entries = &days[0].entries;
    assert_eq!(entries.len(), 2);
    assert_eq!(entries[0].name, "9a");
    assert_eq!(entries[0].message, "Teil einsund zwei");
    assert_eq!(entries[0].kind, EntryKind::Substitution);
    assert_eq!(entries[0].room, Room::B { room: 101 });
    assert_eq!(entries[1].message, "anders");
}

#[test]
fn header_without_block_yields_no_day() {
    let doc = document(vec![text("\n"), header_table(), text("\n")]);
    assert_eq!(Config::new().parse_dom(&doc), Ok(vec![]));
    let doc = document(vec![
        center_block("20.9.2019 Freitag, Woche A", vec![], vec![]),
        header_table(),
        element("p", "", vec![]),
    ]);
    assert_eq!(Config::new().parse_dom(&doc), Ok(vec![]));
}

#[test]
fn two_days_in_one_document() {
    let doc = document(vec![
        header_table(),
        center_block(
            "20.9.2019 Freitag, Woche A",
            vec![info_row("Abwesende Lehrer", "Abc")],
            vec![data_row(["9a", "1", "Abc", "D", "D", "x", "Vertretung", "B101"])],
        ),
        header_table(),
        header_table(),
        center_block("23.9.2019 Montag, Woche B", vec![], vec![]),
        center_block("24.9.2019 Dienstag, Woche B", vec![], vec![]),
    ]);
    let days = Config::new().parse_dom(&doc).unwrap();
    assert_eq!(days.len(), 2);
    assert_eq!(days[0].missing_teachers, vec![Teacher { name: "Abc".to_string() }]);
    assert_eq!(days[0].entries.len(), 1);
    assert_eq!(days[1].date, Date { year: 2019, month: 9, day: 23 });
    assert!(days[1].entries.is_empty());
}

#[test]
fn structural_failures_carry_their_path() {
    let empty = DomNode { kind: DomKind::Document, children: vec![] };
    assert_eq!(Config::new().parse_dom(&empty), Err(missing("document.0")));
    let doc = document(vec![header_table(), element("center", "", vec![])]);
    assert_eq!(Config::new().parse_dom(&doc), Err(missing("center.1.0")));
    let doc =
        document(vec![header_table(), center_block("kein Datum", vec![], vec![])]);
    assert_eq!(Config::new().parse_dom(&doc), Err(missing("mon_title.date")));
    let mut broken = data_row(["9a", "1", "Abc", "D", "D", "x", "Vertretung", "B101"]);
    broken.children[7] = element("td", "", vec![]);
    let doc = document(vec![
        header_table(),
        center_block("20.9.2019 Freitag, Woche A", vec![], vec![broken]),
    ]);
    assert_eq!(Config::new().parse_dom(&doc), Err(missing("row.7.0.0")));
}

const PLAN: &str = "<html><head><title>Vertretungsplan</title></head><body>\n\
<table class=\"mon_head\">\n\
<tr>\n<td>a</td>\n<td>b</td>\n<td align=\"right\"> <p>Testschule<br />D-12345 Ort<br />Schuljahr 2019/2020<br />g&uuml;ltig ab 12.08.2019<br />Stand: 20.09.2019 07:45</p></td></tr></table>\n\
<center>\n<div class=\"mon_title\">20.9.2019 Freitag, Woche A</div>\n\
<table class=\"info\" >\n<tr class=\"info\"><th class=\"info\" colspan=\"2\">Nachrichten zum Tag</th></tr>\n\
<tr class=\"info\"><td class=\"info\">Abwesende Lehrer</td><td class=\"info\">Abc, Def</td></tr>\n\
<tr class=\"info\"><td class=\"info\">Betroffene Klassen</td><td class=\"info\">5a, Q1</td></tr>\n</table>\n\
<p>\n<table class=\"mon_list\" >\n\
<tr class='list'><th class=\"list\">Klasse(n)</th><th class=\"list\">Stunde</th><th class=\"list\">Vertreter</th><th class=\"list\">Fach</th><th class=\"list\">(Fach)</th><th class=\"list\">Text</th><th class=\"list\">Art</th><th class=\"list\">Raum</th></tr>\n\
<tr class='list odd'><td class=\"list\">5a</td><td class=\"list\"><b>3 - 4</b></td><td class=\"list\"><b>Mue</b></td><td class=\"list\">Deutsch</td><td class=\"list\">Deutsch</td><td class=\"list\">Aufgaben im Buch</td><td class=\"list\">Vertretung</td><td class=\"list\"><b>B101</b></td></tr>\n\
<tr class='list odd'><td class=\"list\">&nbsp;</td><td class=\"list\"><b>&nbsp;</b></td><td class=\"list\"><b>&nbsp;</b></td><td class=\"list\">&nbsp;</td><td class=\"list\">&nbsp;</td><td class=\"list\"> Seite 12</td><td class=\"list\">&nbsp;</td><td class=\"list\"><b>&nbsp;</b></td></tr>\n\
<tr class='list even'><td class=\"list\">Q1</td><td class=\"list\"><b>6</b></td><td class=\"list\"><b>---</b></td><td class=\"list\">---</td><td class=\"list\">ph-GK3</td><td class=\"list\">&nbsp;</td><td class=\"list\">Entf&auml;llt</td><td class=\"list\"><b>---</b></td></tr>\n\
</table>\n</p></center>\n</body></html>";

#[test]
fn document_text_is_parsed() {
    let days = Config::new().parse(PLAN).unwrap();
    assert_eq!(days.len(), 1);
    let day = &days[0];
    assert_eq!(day.school, "Testschule");
    assert_eq!(day.year, "2019/2020");
    assert_eq!(day.valid_from, Date { year: 2019, month: 8, day: 12 });
    assert_eq!(day.updated_at.hour, 7);
    assert_eq!(day.updated_at.minute, 45);
    assert_eq!(day.date, Date { year: 2019, month: 9, day: 20 });
    assert_eq!(day.week, Week::A);
    assert_eq!(
        day.missing_teachers,
        vec![Teacher { name: "Abc".to_string() }, Teacher { name: "Def".to_string() }]
    );
    assert_eq!(
        day.affected_classes,
        vec![Class { name: "5a".to_string() }, Class { name: "Q1".to_string() }]
    );
    assert_eq!(day.entries.len(), 2);
    let e = &day.entries[0];
    assert_eq!(e.name, "5a");
    assert_eq!(e.time, Duration { from: 3, to: 4 });
    assert_eq!(e.new_teacher.name, "Mue");
    assert_eq!(e.course, Course::Sec1 { name: "Deutsch".to_string() });
    assert_eq!(e.message, "Aufgaben im BuchSeite 12");
    assert_eq!(e.kind, EntryKind::Substitution);
    assert_eq!(e.room, Room::B { room: 101 });
    let e = &day.entries[1];
    assert_eq!(e.name, "Q1");
    assert_eq!(e.time, Duration { from: 6, to: 6 });
    assert_eq!(e.new_teacher.name, "");
    assert_eq!(e.course, Course::Absent);
    assert_eq!(
        e.old_course,
        Course::Sec2 { track: 0, name: "PH".to_string(), kind: CourseKind::GK { number: 3 } }
    );
    assert_eq!(e.message, "");
    assert_eq!(e.kind, EntryKind::Dropped);
    assert_eq!(e.room, Room::Unknown);
}

#[test]
fn document_text_with_header_only() {
    let cut = PLAN.find("<center>").unwrap();
    let text = format!("{}</body></html>", &PLAN[..cut]);
    assert_eq!(Config::new().parse(&text), Ok(vec![]));
    assert_eq!(Config::new().parse(""), Ok(vec![]));
}

#[test]
fn escape_default_escapes() {
    assert_eq!(llg_companion::dsb::escape_default("a b~"), "a b~");
    assert_eq!(llg_companion::dsb::escape_default("\t\r\n'\"\\"), "\\t\\r\\n\\'\\\"\\\\");
    assert_eq!(llg_companion::dsb::escape_default("\u{e4}\u{0}\u{10ffff}\u{7f}"), "\\u{e4}\\u{0}\\u{10ffff}\\u{7f}");
    let sample = "Entf\u{e4}llt \u{1f600} 'x'\n";
    let expected: String = sample.chars().flat_map(|c| c.escape_default()).collect();
    assert_eq!(llg_companion::dsb::escape_default(sample), expected);
    assert_eq!(llg_companion::planinfo::escape_default(sample), expected);
}

fn note(level: u8, label: &str, text: &str) -> Diagnostic {
    Diagnostic { level, label: label.to_string(), text: text.to_string() }
}

#[test]
fn document_diagnostics() {
    let doc = document(vec![
        header_table(),
        center_block(
            "20.9.2019 Freitag, Woche A",
            vec![
                info_row("Abwesende Lehrer", "Abc"),
                info_row(" Blockierte Raeume ", "A204"),
            ],
            vec![
                heading_row(),
                data_row(["Q1", "1", "Abc", "abc", "m-XK1", "x", "Pause", "Z999"]),
                data_row([" ", " ", " ", "abc", "abc", " mehr", "Pause", "Z999"]),
                data_row(["5a", "1", "Abc", "D", "D", "x", "Vertretung", "---"]),
            ],
        ),
        center_block("x", vec![info_row("Sonstiges", "")], vec![]),
    ]);
    assert_eq!(
        Config::new().diagnose_dom(&doc),
        vec![
            note(0, "td.info", "Blockierte Raeume"),
            note(1, "course.pieces", "abc"),
            note(1, "kind.level", "XK1"),
            note(0, "entry.kind", "Pause"),
            note(1, "room.building", "Z999"),
        ]
    );
    assert_eq!(Config::new().diagnose(PLAN), vec![]);
    let odd = PLAN.replace("Betroffene Klassen", "Pausenaufsicht").replace("<b>B101</b>", "<b>B1</b>");
    assert_eq!(
        Config::new().diagnose(&odd),
        vec![note(0, "td.info", "Pausenaufsicht"), note(1, "room.length", "B1")]
    );
    assert_eq!(Config::new().diagnose(""), vec![]);
}

#[test]
fn block_failure_leaves_the_record_as_it_stands() {
    let c = Config::new();
    let mut d = DSB::new();
    d.school = "S".to_string();
    assert_eq!(c.parse_center(&element("center", "", vec![]), &mut d), Err(missing("center.1.0")));
    assert_eq!(d.school, "S");
    assert!(d.entries.is_empty());
    let mut broken = data_row(["9b", "1", "Abc", "D", "D", "x", "Vertretung", "B101"]);
    broken.children[7] = element("td", "", vec![]);
    let block = center_block(
        "20.9.2019 Freitag, Woche B",
        vec![info_row("Abwesende Lehrer", "Abc")],
        vec![data_row(["9a", "1", "Abc", "D", "D", "x", "Vertretung", "B101"]), broken],
    );
    assert_eq!(c.parse_center(&block, &mut d), Err(missing("row.7.0.0")));
    assert_eq!(d.week, Week::B);
    assert_eq!(d.missing_teachers, vec![Teacher { name: "Abc".to_string() }]);
    assert_eq!(d.entries.len(), 1);
    assert_eq!(d.entries[0].name, "9a");
    let mut e = DSB::new();
    let table = element("table", "info", vec![text("\n"), element("tbody", "", vec![
        info_row("Abwesende Lehrer", "Abc"),
        element("tr", "", vec![plain_cell("x"), element("td", "", vec![])]),
        info_row("Betroffene Klassen", "5a"),
    ])]);
    assert_eq!(e.parse_info_table(&table), Err(missing("info.row.1.0")));
    assert_eq!(e.missing_teachers, vec![Teacher { name: "Abc".to_string() }]);
    assert!(e.affected_classes.is_empty());
}
