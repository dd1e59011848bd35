use llg_companion::common::{Course, CourseKind, Hour, Room, Teacher};
use llg_companion::diagnostic::Diagnostic;
use llg_companion::dsb::EntryKind;

#[test]
fn room_code_end_to_end() {
    assert_eq!(Room::from_dsb_str("A204", 0), Room::A { room: 204 });
}

#[test]
fn room_building_letter_in_either_case() {
    assert_eq!(Room::from_dsb_str("a204", 0), Room::A { room: 204 });
    assert_eq!(Room::from_dsb_str("b001", 0), Room::B { room: 1 });
    assert_eq!(Room::from_dsb_str("C-12", 0), Room::C { room: -12 });
    assert_eq!(Room::from_dsb_str("d+07", 0), Room::D { room: 7 });
    assert_eq!(Room::from_dsb_str("E999", 0), Room::E { room: 999 });
}

#[test]
fn room_number_defaults_to_zero() {
    assert_eq!(Room::from_dsb_str("Axyz", 0), Room::A { room: 0 });
    assert_eq!(Room::from_dsb_str("B1 2", 0), Room::B { room: 0 });
}

#[test]
fn room_unknown_for_other_codes() {
    assert_eq!(Room::from_dsb_str("A20", 0), Room::Unknown);
    assert_eq!(Room::from_dsb_str("A2044", 0), Room::Unknown);
    assert_eq!(Room::from_dsb_str("F204", 0), Room::Unknown);
    assert_eq!(Room::from_dsb_str("", 0), Room::Unknown);
    assert!(!Room::is_well_formed("F204"));
    assert!(Room::is_well_formed("e000"));
    assert_eq!(Room::new(), Room::Unknown);
    assert_eq!(Room::default(), Room::Unknown);
}

#[test]
fn course_kind_dsb_grammar() {
    assert_eq!(CourseKind::from_dsb_str("GK3", 0), CourseKind::GK { number: 3 });
    assert_eq!(CourseKind::from_dsb_str("LK12", 0), CourseKind::LK { number: 12 });
    assert_eq!(CourseKind::from_dsb_str(" LK1 ", 0), CourseKind::LK { number: 1 });
    assert_eq!(CourseKind::from_dsb_str("GKx", 0), CourseKind::GK { number: 0 });
    assert_eq!(CourseKind::from_dsb_str("XK3", 0), CourseKind::Absent);
    assert_eq!(CourseKind::from_dsb_str("GK", 0), CourseKind::Absent);
    assert_eq!(CourseKind::from_dsb_str("GK123", 0), CourseKind::Absent);
    assert_eq!(CourseKind::from_dsb_str("", 0), CourseKind::Absent);
    assert_eq!(CourseKind::new(), CourseKind::Absent);
}

#[test]
fn course_kind_planinfo_grammar() {
    assert_eq!(CourseKind::from_planinfo_teacher_str("M-LK2"), CourseKind::LK { number: 2 });
    assert_eq!(CourseKind::from_planinfo_teacher_str("m-lk2"), CourseKind::LK { number: 2 });
    assert_eq!(CourseKind::from_planinfo_teacher_str("D-GK1"), CourseKind::GK { number: 1 });
    assert_eq!(CourseKind::from_planinfo_teacher_str("Sport"), CourseKind::GK { number: 68 });
    assert_eq!(CourseKind::from_planinfo_teacher_str("  "), CourseKind::Absent);
    assert_eq!(CourseKind::from_planinfo_teacher_str("L\u{212a}1"), CourseKind::LK { number: 1 });
    assert_eq!(CourseKind::from_planinfo_teacher_str("M-Lk3"), CourseKind::LK { number: 3 });
    assert_eq!(
        CourseKind::from_folded(&chars("M-LK3"), &chars("m-lk3")),
        CourseKind::LK { number: 3 }
    );
    assert_eq!(CourseKind::from_folded(&chars("M-LK3"), &chars("M-LK3")), CourseKind::GK { number: 3 });
}

#[test]
fn course_dsb_upper_secondary() {
    assert_eq!(
        Course::from_dsb_str("9a", "NAME-GK3", 0),
        Course::Sec2 { track: 0, name: "NAME".to_string(), kind: CourseKind::GK { number: 3 } }
    );
    assert_eq!(
        Course::from_dsb_str("Q1", "ph-LK12", 0),
        Course::Sec2 { track: 0, name: "PH".to_string(), kind: CourseKind::LK { number: 12 } }
    );
    assert_eq!(Course::from_dsb_str("Q1", "a-b-c", 0), Course::Absent);
    assert_eq!(Course::from_dsb_str("Q1", "abc", 0), Course::Absent);
}

#[test]
fn course_dsb_lower_secondary() {
    for digit in ["1", "2", "3", "4", "5", "6", "7", "8"] {
        let class = format!("{}b", digit);
        assert_eq!(
            Course::from_dsb_str(&class, "what-ever it-is", 0),
            Course::Sec1 { name: "what-ever it-is".to_string() }
        );
    }
    assert_eq!(
        Course::from_dsb_str("5c", " _Mathe_ ", 0),
        Course::Sec1 { name: " _Mathe_ ".to_string() }
    );
    assert_eq!(Course::from_dsb_str("1", " ", 0), Course::Sec1 { name: " ".to_string() });
}

#[test]
fn course_dsb_blank_and_exam() {
    assert_eq!(Course::from_dsb_str("5c", "", 0), Course::Absent);
    assert_eq!(Course::from_dsb_str("Q1", "", 0), Course::Absent);
    assert_eq!(Course::from_dsb_str("Q1 Klausur", "", 0), Course::Absent);
    assert_eq!(
        Course::from_dsb_str("Q2 KLAUSUR", "x", 0),
        Course::Sec2Exam { track: 0, name: String::new(), kind: CourseKind::GK { number: 0 } }
    );
    assert_eq!(
        Course::from_dsb_str("Q2 Klausur", "m-LK1", 0),
        Course::Sec2Exam { track: 0, name: String::new(), kind: CourseKind::GK { number: 0 } }
    );
    assert_eq!(Course::from_dsb_str("", "m-LK1", 0), Course::Sec2 {
        track: 0,
        name: "M".to_string(),
        kind: CourseKind::LK { number: 1 }
    });
    assert_eq!(Course::new(), Course::Absent);
}

#[test]
fn course_planinfo_grammars() {
    assert_eq!(
        Course::from_planinfo_teacher_str("Q1-2", "M-LK1"),
        Course::Sec2 { track: 2, name: "M Q1".to_string(), kind: CourseKind::LK { number: 1 } }
    );
    assert_eq!(
        Course::from_planinfo_room_str("Q1-2", "M-LK1"),
        Course::Sec2 { track: 0, name: "M Q1".to_string(), kind: CourseKind::LK { number: 1 } }
    );
    assert_eq!(
        Course::from_planinfo_students_str("(Q1-3)", "D-GK2"),
        Course::Sec2 { track: 3, name: "D".to_string(), kind: CourseKind::GK { number: 2 } }
    );
}

#[test]
fn hour_teacher_cell() {
    let mut h = Hour::new();
    h.parse_planinfo_teacher(" Q1-2 M-LK1 A204 ", "Mue", 0);
    assert_eq!(h.teacher, Teacher { name: "Mue".to_string() });
    assert_eq!(h.room, Room::A { room: 204 });
    assert!(!h.is_tutor);
    assert_eq!(
        h.course,
        Course::Sec2 { track: 2, name: "M Q1".to_string(), kind: CourseKind::LK { number: 1 } }
    );
    let mut h = Hour::new();
    h.parse_planinfo_teacher("5a D B101", "Mue", 0);
    assert_eq!(h.course, Course::Sec1 { name: "D 5a".to_string() });
    assert_eq!(h.room, Room::B { room: 101 });
    let mut h = Hour::new();
    h.parse_planinfo_teacher("AG Schach", "Mue", 0);
    assert_eq!(h.course, Course::Sec1 { name: "AG Schach".to_string() });
    assert_eq!(h.room, Room::Unknown);
    let mut h = Hour::new();
    h.parse_planinfo_teacher("one two", "Mue", 0);
    assert_eq!(h.course, Course::Absent);
    assert_eq!(h.teacher.name, "Mue");
}

#[test]
fn hour_room_cell() {
    let mut h = Hour::new();
    h.is_tutor = true;
    h.parse_planinfo_room("Q1-2 M-LK1 Mue", "A204", 0);
    assert!(!h.is_tutor);
    assert_eq!(h.room, Room::Unknown);
    assert_eq!(
        h.course,
        Course::Sec2 { track: 0, name: "M Q1".to_string(), kind: CourseKind::LK { number: 1 } }
    );
    let mut h = Hour::new();
    h.parse_planinfo_room("C012", "x", 0);
    assert_eq!(h.room, Room::C { room: 12 });
    assert_eq!(h.course, Course::Absent);
}

#[test]
fn hour_student_cell_overwrites() {
    let mut h = Hour::new();
    h.parse_planinfo_student("Q1-2 M-LK1 Mue A204", "D Mue, E Abc", 0);
    assert_eq!(h.teacher.name, "Mue");
    assert!(h.is_tutor);
    assert_eq!(h.room, Room::A { room: 204 });
    h.parse_planinfo_student("(Q1-3) D-GK2 Xyz B001", "D Mue, E Abc", 0);
    assert_eq!(h.teacher.name, "Xyz");
    assert!(!h.is_tutor);
    assert_eq!(h.room, Room::B { room: 1 });
    assert_eq!(
        h.course,
        Course::Sec2 { track: 3, name: "D".to_string(), kind: CourseKind::GK { number: 2 } }
    );
    let before = h.clone();
    h.parse_planinfo_student("too few", "D Mue", 0);
    assert_eq!(h, before);
}

fn note(level: u8, label: &str, text: &str) -> Diagnostic {
    Diagnostic { level, label: label.to_string(), text: text.to_string() }
}

fn chars(s: &str) -> Vec<char> {
    s.chars().collect()
}

#[test]
fn room_diagnostics() {
    assert_eq!(Room::diagnose("A204"), vec![]);
    assert_eq!(Room::diagnose("e000"), vec![]);
    assert_eq!(Room::diagnose("A20"), vec![note(1, "room.length", "A20")]);
    assert_eq!(Room::diagnose(""), vec![note(1, "room.length", "")]);
    assert_eq!(Room::diagnose("F204"), vec![note(1, "room.building", "F204")]);
}

#[test]
fn course_diagnostics() {
    assert_eq!(Course::diagnose_dsb("Q1", "ph-LK1"), vec![]);
    assert_eq!(Course::diagnose_dsb("Q1", ""), vec![]);
    assert_eq!(Course::diagnose_dsb("Q1", "  "), vec![note(1, "course.pieces", "  ")]);
    assert_eq!(Course::diagnose_dsb("5a", "whatever"), vec![]);
    assert_eq!(Course::diagnose_dsb("Q1", " abc_"), vec![note(1, "course.pieces", " abc_")]);
    assert_eq!(Course::diagnose_dsb("Q1", "a-b-c"), vec![note(1, "course.pieces", "a-b-c")]);
    assert_eq!(Course::diagnose_dsb("Q1 Klausur", "m-LK1"), vec![note(1, "course.exam", "m-LK1")]);
    assert_eq!(Course::diagnose_dsb("Q1", "m-LK123"), vec![note(1, "kind.length", "LK123")]);
    assert_eq!(Course::diagnose_dsb("Q1", "m-XK1"), vec![note(1, "kind.level", "XK1")]);
    assert_eq!(Course::diagnose_dsb("Q1", "m-"), vec![]);
    assert_eq!(CourseKind::diagnose_dsb(&chars(" GK1 ")), vec![]);
}

#[test]
fn decoding_from_the_lower_case_form() {
    assert_eq!(
        Course::from_dsb_folded(&chars("q1 klausur"), &chars("Q1 Klausur"), &chars("m-LK1")),
        Course::Sec2Exam { track: 0, name: String::new(), kind: CourseKind::GK { number: 0 } }
    );
    assert_eq!(
        Course::from_dsb_folded(&chars("q1"), &chars("Q1 Klausur"), &chars("m-LK1")),
        Course::Sec2 { track: 0, name: "M".to_string(), kind: CourseKind::LK { number: 1 } }
    );
    assert_eq!(EntryKind::from_folded("VERTRETUNG", &chars("vertretung")), EntryKind::Substitution);
    assert_eq!(
        EntryKind::from_folded("VERTRETUNG", &chars("VERTRETUNG")),
        EntryKind::Unknow("VERTRETUNG".to_string())
    );
    assert_eq!(
        Course::diagnose_dsb_folded(&chars("klausur"), &chars("x"), &chars("y")),
        vec![note(1, "course.exam", "y")]
    );
}

#[test]
fn kind_and_cell_diagnostics() {
    assert_eq!(EntryKind::diagnose("Vertretung"), vec![]);
    assert_eq!(EntryKind::diagnose("Pause"), vec![note(0, "entry.kind", "Pause")]);
    assert_eq!(Hour::diagnose_teacher_cell(&chars(" 5a D B101 ")), vec![]);
    assert_eq!(Hour::diagnose_teacher_cell(&chars("  ")), vec![]);
    assert_eq!(
        Hour::diagnose_teacher_cell(&chars("AG Schach")),
        vec![note(2, "hour.activity", "AG Schach")]
    );
    assert_eq!(Hour::diagnose_teacher_cell(&chars("a b")), vec![note(1, "hour.words", "a b")]);
    assert_eq!(
        Hour::diagnose_teacher_cell(&chars("5a D X101")),
        vec![note(1, "room.building", "X101")]
    );
    assert_eq!(
        Hour::diagnose_room_cell(&chars("5a D Mue")),
        vec![note(1, "room.length", "5a D Mue")]
    );
    assert_eq!(
        Hour::diagnose_room_cell(&chars("X101")),
        vec![note(1, "room.building", "X101"), note(1, "hour.words", "X101")]
    );
    assert_eq!(Hour::diagnose_room_cell(&chars("LZ")), vec![note(1, "hour.activity", "LZ")]);
    assert_eq!(Hour::diagnose_student_cell(&chars("Q1 M Mue A204")), vec![]);
    assert_eq!(Hour::diagnose_student_cell(&chars("Q1 M Mue")), vec![note(1, "hour.words", "Q1 M Mue")]);
    assert_eq!(
        Hour::diagnose_student_cell(&chars("Q1 M Mue A2")),
        vec![note(1, "room.length", "A2")]
    );
    let d = note(1, "room.length", "A2");
    assert!(d.shown(1) && d.shown(3) && !d.shown(0));
    assert_eq!(d.message(), "room.length: A2");
}
