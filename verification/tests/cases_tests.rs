use selector::cases::{
    case_query, check_rerun_module, duplicate_case_name, next_id,
    normalize_date_to, normalize_text, timestamped_id, validate_case_name, CaseFilter,
};
use selector::text::like_pattern;

#[test]
fn case_name_must_hold_one_to_hundred_characters() {
    assert_eq!(validate_case_name("同步带测试"), Ok(()));
    assert_eq!(validate_case_name("  a  "), Ok(()));
    assert_eq!(
        validate_case_name("   "),
        Err("案例名称必须为 1-100 个字符".to_string())
    );
    assert_eq!(
        validate_case_name(""),
        Err("案例名称必须为 1-100 个字符".to_string())
    );
    let hundred: String = "带".repeat(100);
    assert_eq!(validate_case_name(&hundred), Ok(()));
    let padded = format!("\u{3000}{}\t", hundred);
    assert_eq!(validate_case_name(&padded), Ok(()));
    let hundred_one: String = "带".repeat(101);
    assert!(validate_case_name(&hundred_one).is_err());
}

#[test]
fn normalize_text_trims_and_drops_blank_values() {
    assert_eq!(normalize_text(None), None);
    assert_eq!(normalize_text(Some("")), None);
    assert_eq!(normalize_text(Some(" \t\n ")), None);
    assert_eq!(normalize_text(Some("  更新 ")), Some("更新".to_string()));
    assert_eq!(normalize_text(Some("a b")), Some("a b".to_string()));
    let once = normalize_text(Some("\u{a0} x \u{2003}")).unwrap();
    assert_eq!(once, "x");
    assert_eq!(normalize_text(Some(once.as_str())), Some(once.clone()));
}

#[test]
fn normalize_date_to_extends_bare_dates_to_end_of_day() {
    assert_eq!(
        normalize_date_to(Some(" 2024-05-01 ")),
        Some("2024-05-01 23:59:59".to_string())
    );
    assert_eq!(
        normalize_date_to(Some("2024-05-01 12:00:00")),
        Some("2024-05-01 12:00:00".to_string())
    );
    assert_eq!(normalize_date_to(Some("2024-5-1")), Some("2024-5-1".to_string()));
    assert_eq!(normalize_date_to(Some("  ")), None);
    assert_eq!(normalize_date_to(None), None);
    // Ten bytes, not ten characters: "二〇二四" takes twelve bytes.
    assert_eq!(normalize_date_to(Some("二〇二四")), Some("二〇二四".to_string()));
}

#[test]
fn ids_join_prefix_and_timestamp() {
    assert_eq!(timestamped_id("case", 0), "case-0");
    assert_eq!(timestamped_id("run", 1712345678901234567), "run-1712345678901234567");
    assert_eq!(
        timestamped_id("x", u128::MAX),
        format!("x-{}", u128::MAX)
    );
    let id = next_id("case");
    let digits = id.strip_prefix("case-").expect("prefix");
    assert!(!digits.is_empty());
    assert!(digits.chars().all(|c| c.is_ascii_digit()));
}

#[test]
fn duplicate_and_pattern_texts() {
    assert_eq!(duplicate_case_name("同步带测试"), "同步带测试 - 副本");
    assert_eq!(like_pattern("更新"), "%更新%");
    assert_eq!(like_pattern(""), "%%");
}

#[test]
fn case_query_normalizes_each_filter() {
    let query = case_query(&CaseFilter::default());
    assert_eq!(query.like_query, None);
    assert_eq!(query.module_id, None);
    assert_eq!(query.created_from, None);
    assert_eq!(query.created_to, None);

    let query = case_query(&CaseFilter {
        query: Some(" 更新 ".to_string()),
        module_id: Some("timing-belt-basic".to_string()),
        created_from: Some("   ".to_string()),
        created_to: Some("2024-05-01".to_string()),
    });
    assert_eq!(query.like_query, Some("%更新%".to_string()));
    assert_eq!(query.module_id, Some("timing-belt-basic".to_string()));
    assert_eq!(query.created_from, None);
    assert_eq!(query.created_to, Some("2024-05-01 23:59:59".to_string()));
}

#[test]
fn rerun_requires_the_saved_module() {
    assert_eq!(check_rerun_module("timing-belt-basic", "timing-belt-basic"), Ok(()));
    assert_eq!(
        check_rerun_module("timing-belt-basic", "reducer-basic"),
        Err("案例模块与请求模块不一致".to_string())
    );
}
