use llg_companion::api::{collection, login, login_status, Login, Name, User};
use llg_companion::error::PlanError;
use llg_companion::server::Server;
use llg_companion::text;
use llg_companion::{Config, DataBase};

#[test]
fn settings_defaults() {
    let c = Config::new();
    assert_eq!(c.verbose, 0);
    assert_eq!(c.port, 8080);
    assert_eq!(c.address, "0.0.0.0");
    assert_eq!(c.impressum, "localhost");
    assert_eq!(c.secret, "");
    assert_eq!(c.assets, "assets/");
    assert_eq!(c.storage.url, "localhost:27017");
    assert_eq!(c.storage.database, "llg_companion");
    assert_eq!(c.storage.dsb_coll, "dsb");
    assert_eq!(c.storage, llg_companion::storage::Config::default());
    assert_eq!(c.database_url(), "mongodb://localhost:27017/llg_companion");
    assert_eq!(c.storage.address(), "mongodb://localhost:27017/");
    assert_eq!(Config::prefer(Some("a".to_string()), Some("b".to_string())), Some("a".to_string()));
    assert_eq!(Config::prefer(None, Some("b".to_string())), Some("b".to_string()));
    assert_eq!(Config::prefer(None, None), None);
    assert_eq!(Config::verbosity(1, 3), 3);
    assert_eq!(Config::verbosity(2, 0), 2);
    assert!(llg_companion::storage::Config::must_write(false));
    assert!(!llg_companion::storage::Config::must_write(true));
    assert_eq!(Server::new(&c), Server {});
    assert_eq!(DataBase::new("db".to_string()).name(), "db");
}

#[test]
fn users_and_collections() {
    let u = User::new();
    assert_eq!(u.id, 0);
    assert!(!u.activ);
    assert_eq!(u, User::default());
    let n = Name { name: "Mue".to_string(), dbidx: 4 };
    assert_eq!(n.clone(), n);
    assert_eq!(collection(0), Some("teachers".to_string()));
    assert_eq!(collection(1), Some("room".to_string()));
    assert_eq!(collection(2), Some("students".to_string()));
    assert_eq!(collection(3), None);
    assert_eq!(login(false, true, Some(true)), Login::Inactive);
    assert_eq!(login(true, false, Some(true)), Login::NoHash);
    assert_eq!(login(true, true, Some(true)), Login::Granted);
    assert_eq!(login(true, true, Some(false)), Login::WrongPassword);
    assert_eq!(login(true, true, None), Login::Unchecked);
    assert_eq!(login_status(Login::Granted), 303);
    assert_eq!(login_status(Login::WrongPassword), 401);
    assert_eq!(login_status(Login::NoHash), 500);
}

#[test]
fn error_messages() {
    assert_eq!(
        PlanError::new_field_not_exists("a.b".to_string()).message(),
        "field does not exist: a.b"
    );
    assert_eq!(PlanError::missing("d"), PlanError::FieldNotExists("d".to_string()));
    assert_eq!(PlanError::Json.message(), "invalid JSON");
    assert_eq!(PlanError::Base64.message(), "invalid base64");
    assert_eq!(PlanError::Io.message(), "compression failed");
}

fn chars(s: &str) -> Vec<char> {
    s.chars().collect()
}

fn text_of(v: &[char]) -> String {
    v.iter().collect()
}

#[test]
fn text_trimming_matches_std() {
    for s in ["", " ", "  a b \t\n", "\u{a0}x\u{2003}", "--a--", "a", "\u{85}\u{1680}y\u{3000}"] {
        assert_eq!(text_of(&text::trimmed(&chars(s))), s.trim());
        assert_eq!(text_of(&text::trimmed_matches(&chars(s), '-')), s.trim_matches('-'));
    }
    assert_eq!(
        text_of(&text::trimmed_start_pattern(&chars("ababxab"), &chars("ab"))),
        "ababxab".trim_start_matches("ab")
    );
    assert_eq!(text_of(&text::trimmed_start_pattern(&chars("x"), &chars(""))), "x");
}

#[test]
fn text_splitting_matches_std() {
    for (s, p) in [("a-b-c", "-"), ("", "-"), ("-", "-"), ("a, b,c, ", ", "), ("aaa", "aa"), ("1 - 2 - ", " - ")] {
        let got: Vec<String> = text::pieces(&chars(s), &chars(p)).iter().map(|v| text_of(v)).collect();
        let want: Vec<String> = s.split(p).map(|x| x.to_string()).collect();
        assert_eq!(got, want);
        assert_eq!(text_of(&text::replaced(&chars(s), &chars(p), &chars("+"))), s.replace(p, "+"));
        assert_eq!(text::has(&chars(s), &chars(p)), s.contains(p));
        assert_eq!(text::begins_with(&chars(s), &chars(p)), s.starts_with(p));
        assert_eq!(text::finishes_with(&chars(s), &chars(p)), s.ends_with(p));
    }
    for s in ["", "  ", "a", " a  b\tc\n", "a\u{a0}b c"] {
        let got: Vec<String> = text::split_words(&chars(s)).iter().map(|v| text_of(v)).collect();
        let want: Vec<String> = s.split_ascii_whitespace().map(|x| x.to_string()).collect();
        assert_eq!(got, want);
    }
    assert_eq!(text::find(&chars("abcabc"), &chars("bc"), 2), Some(4));
    assert_eq!(text::find(&chars("abcabc"), &chars("x"), 0), None);
}

#[test]
fn text_numbers_match_std() {
    for s in ["0", "7", "007", "+5", "-5", "32767", "32768", "-32768", "-32769", "", "+", "-", "1a", " 1", "99999999999999999999", "-0", "١"] {
        assert_eq!(text::to_i16(&chars(s)), s.parse::<i16>().ok(), "{:?}", s);
        assert_eq!(text::to_i16_or_zero(&chars(s)), s.parse::<i16>().unwrap_or(0));
    }
    assert_eq!(text::last_digit(&chars("Q1-2")), 2);
    assert_eq!(text::last_digit(&chars("")), 0);
    assert_eq!(text::last_digit(&chars("a")), 49);
    assert_eq!(text::last_digit(&chars(" ")), -16);
    assert_eq!(text::last_digit(&chars("\u{e4}")), 0xa4 - 48);
    assert_eq!(text::char_code_digit_value('5'), 5);
    assert_eq!(text::char_code_digit_value(' '), -16);
    assert_eq!(text::char_code_digit_value('\u{10ffff}'), ((0x10ffffu32 - 48) as u16) as i16);
    let mut out = Vec::new();
    text::push_decimal(&mut out, 1203);
    assert_eq!(text_of(&out), "1203");
}

#[test]
fn text_case_mapping() {
    assert_eq!(text_of(&text::upper(&chars("ab\u{e4}Z9"))), "AB\u{e4}Z9");
    for t in ["AB\u{c4}\u{d7}Zz9\u{de}", "L\u{212a}", "\u{3a3}\u{391}\u{3a3}", "\u{130}x", ""] {
        assert_eq!(text_of(&text::lower(&chars(t))), t.to_lowercase());
    }
    assert_eq!(text::char_ascii_lower('E'), 'e');
    assert_eq!(text::char_ascii_lower('\u{c4}'), '\u{c4}');
    assert!(text::same(&chars("ab"), &chars("ab")));
    assert!(!text::same(&chars("ab"), &chars("abc")));
    assert!(text::char_is_whitespace('\u{2028}'));
    assert!(!text::char_is_whitespace('\u{200b}'));
    assert_eq!(text::chars_of("x\u{e4}"), chars("x\u{e4}"));
    assert_eq!(text_of(&text::joined(&chars("a"), &chars("b"))), "ab");
}
