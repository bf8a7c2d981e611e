use model::custom_reports::{
    CustomReport, CustomReportId, CustomReportLanguage, CustomReportTranslation, CustomReportType,
    CustomReportsConfig, CustomReportsOrderMode,
};

fn report(key: &str, id: u8, order_number: u16) -> CustomReport {
    CustomReport {
        key: key.to_string(),
        name: format!("{key} name"),
        report_type: CustomReportType::Empty,
        visible: true,
        id: CustomReportId::new(id).unwrap(),
        order_number,
        translations: vec![],
    }
}

#[test]
fn custom_reports_are_sorted_by_id() {
    let mut config = CustomReportsConfig::new(
        CustomReportsOrderMode::OrderNumber,
        vec![report("c", 2, 10), report("a", 0, 30), report("b", 1, 20)],
    );
    assert_eq!(config.validate_and_sort_by_id(), Ok(()));
    for i in 0..3u8 {
        let r = config.index_with_id(CustomReportId::new(i).unwrap()).unwrap();
        assert_eq!(r.id.to_usize(), i as usize);
    }
    assert_eq!(config.index_with_id(CustomReportId::new(0).unwrap()).unwrap().key, "a");
    assert_eq!(config.index_with_id(CustomReportId::new(2).unwrap()).unwrap().key, "c");
    assert!(config.index_with_id(CustomReportId::new(3).unwrap()).is_none());
}

#[test]
fn custom_reports_duplicates_are_errors() {
    let mut dup_key = CustomReportsConfig::new(
        CustomReportsOrderMode::OrderNumber,
        vec![report("a", 0, 1), report("a", 1, 2)],
    );
    assert_eq!(dup_key.validate_and_sort_by_id(), Err("Duplicate key a".to_string()));
    let mut dup_id = CustomReportsConfig::new(
        CustomReportsOrderMode::OrderNumber,
        vec![report("a", 1, 1), report("b", 1, 2)],
    );
    assert_eq!(dup_id.validate_and_sort_by_id(), Err("Duplicate id 1".to_string()));
    let mut dup_order = CustomReportsConfig::new(
        CustomReportsOrderMode::OrderNumber,
        vec![report("a", 0, 7), report("b", 1, 7)],
    );
    assert_eq!(dup_order.validate_and_sort_by_id(), Err("Duplicate order number 7".to_string()));
}

#[test]
fn custom_reports_missing_id_is_an_error() {
    let mut config = CustomReportsConfig::new(
        CustomReportsOrderMode::OrderNumber,
        vec![report("a", 0, 1), report("b", 2, 2)],
    );
    assert_eq!(
        config.validate_and_sort_by_id(),
        Err("ID 1 is missing from custom report ID values, all numbers between 0 and 1 should be used".to_string())
    );
}

#[test]
fn custom_reports_translation_keys_must_match() {
    let mut r = report("a", 0, 1);
    r.translations.push(CustomReportLanguage {
        lang: "fi".to_string(),
        values: vec![CustomReportTranslation { key: "b".to_string(), name: "x".to_string() }],
    });
    assert_eq!(r.validate(), Err("Missing custom report key definition for translation key b".to_string()));
    let mut config = CustomReportsConfig::new(CustomReportsOrderMode::OrderNumber, vec![r]);
    assert_eq!(
        config.validate_and_sort_by_id(),
        Err("Missing custom report key definition for translation key b".to_string())
    );
    let mut ok = report("a", 0, 1);
    ok.translations.push(CustomReportLanguage {
        lang: "fi".to_string(),
        values: vec![CustomReportTranslation { key: "a".to_string(), name: "x".to_string() }],
    });
    assert_eq!(ok.validate(), Ok(()));
}

#[test]
fn custom_report_id_limits() {
    assert_eq!(CustomReportId::new(63).unwrap().to_usize(), 63);
    assert_eq!(
        CustomReportId::new(64),
        Err("Custom report ID value 64 is too large, max value: 63".to_string())
    );
    assert_eq!(
        CustomReportId::try_from(300i64),
        Err("out of range integral type conversion attempted".to_string())
    );
    let v = CustomReportId::new(5).unwrap().to_report_type_number_value().unwrap();
    assert_eq!(v.to_report_type().n, 69);
    assert_eq!(
        v.to_custom_report_id(),
        Err("Custom report ID value 69 is too large, max value: 63".to_string())
    );
}
