use selector::db::database_health;
use selector::knowledge::{confirmed_parameter, tags_from_json, tags_json, ParameterCandidateRecord};
use selector::text::{decimal_string, is_whitespace, str_eq, trim};

fn candidate(source_page: Option<&str>) -> ParameterCandidateRecord {
    ParameterCandidateRecord {
        id: "root-pdf-摩擦系数".to_string(),
        name: "摩擦系数".to_string(),
        value: "0.1".to_string(),
        unit: None,
        scenario: "同步带摩擦系数候选，需要人工确认。".to_string(),
        source_page: source_page.map(|s| s.to_string()),
        status: "confirmed".to_string(),
    }
}

#[test]
fn confirmed_candidate_becomes_internal_parameter() {
    let p = confirmed_parameter(&candidate(Some("P24")));
    assert_eq!(p.id, "parameter-root-pdf-摩擦系数");
    assert_eq!(p.name, "摩擦系数");
    assert_eq!(p.category, "PDF 候选参数");
    assert_eq!(p.value, "0.1");
    assert_eq!(p.unit, None);
    assert_eq!(p.scenario, "同步带摩擦系数候选，需要人工确认。");
    assert_eq!(p.source, "P24");
    let p = confirmed_parameter(&candidate(None));
    assert_eq!(p.source, "根目录 PDF");
}

#[test]
fn tags_are_stored_as_json_and_read_back() {
    let tags = vec!["PDF知识检索".to_string(), "惯量比".to_string(), "a \"quoted\" \\ tag".to_string()];
    let text = tags_json(&tags).expect("encode");
    assert_eq!(text, "[\"PDF知识检索\",\"惯量比\",\"a \\\"quoted\\\" \\\\ tag\"]");
    assert_eq!(tags_from_json(&text), tags);
    assert_eq!(tags_json(&Vec::new()).expect("encode"), "[]");
    assert_eq!(tags_from_json("not json"), Vec::<String>::new());
    assert_eq!(tags_from_json("[1, 2]"), Vec::<String>::new());
    assert_eq!(tags_from_json("[\"电机篇\"]"), vec!["电机篇".to_string()]);
}

#[test]
fn health_report_for_initialized_database() {
    let h = database_health("/tmp/selector.db".to_string(), 1, 17);
    assert_eq!(h.status, "ok");
    assert_eq!(h.database_path, "/tmp/selector.db");
    assert_eq!(h.applied_migrations, 1);
    assert_eq!(h.table_count, 17);
    assert_eq!(h.message, "SQLite 数据库已初始化");
}

#[test]
fn text_helpers_match_std() {
    for s in ["", "  ", " a ", "\u{3000}全角\u{3000}", "\t\nx y\r\n", "\u{85}z\u{a0}", "\u{200b}b"] {
        assert_eq!(trim(s), s.trim(), "{s:?}");
    }
    for c in ['\t', '\n', '\u{b}', '\u{c}', '\r', ' ', '\u{85}', '\u{a0}', '\u{1680}', '\u{2000}', '\u{200a}', '\u{2028}', '\u{2029}', '\u{202f}', '\u{205f}', '\u{3000}', 'a', '\u{200b}', '\u{180e}', '0'] {
        assert_eq!(is_whitespace(c), c.is_whitespace(), "{c:?}");
    }
    for n in [0u128, 7, 10, 99, 100, 305, 1_000_000_007, u128::MAX] {
        assert_eq!(decimal_string(n), n.to_string());
    }
    assert!(str_eq("mm", "mm"));
    assert!(!str_eq("mm", "m"));
}
