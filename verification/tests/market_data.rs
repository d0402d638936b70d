use backend::decimal::Dec;
use backend::error::ErrorKind;
use backend::holdings::{
    cross_shareholding_dto, cross_shareholdings_report, keep_parsed, large_volume_document_type,
    major_shareholders_document_type, plan_shareholding_query, CrossShareholdingCategory,
    CrossShareholdingContent, LargeVolumeDocumentType, LargeVolumeReportType,
    MajorShareholderReportType, MajorShareholdersDocumentType, MutualHolding,
    ReadShareholdingStructureParams, ReportedCategory, ReportedCrossShareholding,
    ReportedMutualHolding,
};
use backend::market::{
    blank_to_none, check_date_range, check_macro_indicator, compute_short_ratio,
    is_quarterly_financial_statement, sector33_code_for_name, MarginPubReasonDto, PubReason,
};
use rust_decimal::Decimal;

fn dec(s: &str) -> Dec {
    let d: Decimal = s.parse().expect("valid decimal");
    Dec { mantissa: d.mantissa(), scale: d.scale() }
}

#[test]
fn sector33_code_plain_name() {
    assert_eq!(sector33_code_for_name("輸送用機器"), Some("3700"));
}

#[test]
fn sector33_code_halfwidth_dot_name() {
    assert_eq!(sector33_code_for_name("石油･石炭製品"), Some("3300"));
}

#[test]
fn sector33_code_catch_all() {
    assert_eq!(sector33_code_for_name("その他"), Some("9999"));
}

#[test]
fn sector33_code_unknown() {
    assert_eq!(sector33_code_for_name("半導体"), None);
}

#[test]
fn short_ratio_no_trading() {
    assert_eq!(compute_short_ratio(None, None, None), Some(None));
}

#[test]
fn short_ratio_computes_ratio() {
    let r = compute_short_ratio(Some(dec("700")), Some(dec("200")), Some(dec("100")))
        .expect("no overflow")
        .expect("traded");
    let value = Decimal::from_i128_with_scale(r.mantissa, r.scale);
    assert_eq!(value, Decimal::new(3, 1));
    assert_eq!(rust_decimal::prelude::ToPrimitive::to_f64(&value), Some(0.3));
}

#[test]
fn short_ratio_zero_total_is_none() {
    assert_eq!(compute_short_ratio(Some(dec("0")), Some(dec("0")), Some(dec("0"))), Some(None));
}

#[test]
fn blank_to_none_blank() {
    assert_eq!(blank_to_none(String::new()), None);
}

#[test]
fn blank_to_none_non_blank() {
    assert_eq!(blank_to_none("foo".to_string()), Some("foo".to_string()));
}

#[test]
fn quarterly_statement_matches_its_quarter() {
    assert!(is_quarterly_financial_statement(Some("2QFinancialStatements_Consolidated_JP"), Some("2Q")));
}

#[test]
fn quarterly_statement_needs_matching_quarter() {
    assert!(!is_quarterly_financial_statement(Some("1QFinancialStatements_Consolidated_JP"), Some("2Q")));
}

#[test]
fn full_year_is_not_quarterly() {
    assert!(!is_quarterly_financial_statement(Some("FYFinancialStatements_Consolidated_JP"), Some("FY")));
}

#[test]
fn quarterly_statement_needs_both_fields() {
    assert!(!is_quarterly_financial_statement(None, Some("3Q")));
    assert!(!is_quarterly_financial_statement(Some("3QFinancialStatements_Consolidated_JP"), None));
}

#[test]
fn forecast_revision_is_not_a_statement() {
    assert!(!is_quarterly_financial_statement(Some("EarnForecastRevision"), Some("1Q")));
}

#[test]
fn date_range_refuses_reversed_bounds() {
    let err = check_date_range(Some(10), Some(9)).expect_err("reversed");
    assert_eq!((err.kind, err.message.as_str()), (ErrorKind::InvalidParams, "from must be on or before to"));
    assert!(check_date_range(Some(9), Some(9)).is_ok());
    assert!(check_date_range(None, Some(1)).is_ok());
}

#[test]
fn macro_indicator_checks() {
    assert_eq!(check_macro_indicator(" USDJPY ", 1, 2).expect("ok"), "USDJPY");
    assert_eq!(check_macro_indicator("  ", 1, 2).expect_err("blank").message, "indicator_id must not be empty");
    assert_eq!(check_macro_indicator("VIX", 3, 2).expect_err("reversed").message, "from must be on or before to");
}

#[test]
fn margin_pub_reason_keeps_each_flag() {
    let r = PubReason {
        restricted: true,
        daily_publication: false,
        monitoring: true,
        restricted_by_jsf: false,
        precaution_by_jsf: true,
        unclear_or_sec_on_alert: false,
    };
    let d = MarginPubReasonDto::from(r);
    assert_eq!(
        d,
        MarginPubReasonDto {
            restricted: true,
            daily_publication: false,
            monitoring: true,
            restricted_by_jsf: false,
            precaution_by_jsf: true,
            unclear_or_sec_on_alert: false,
        }
    );
}

#[test]
fn large_volume_document_type_cases() {
    let cases = [
        (LargeVolumeReportType::Report, LargeVolumeDocumentType::LargeVolumeReport),
        (LargeVolumeReportType::Amendment, LargeVolumeDocumentType::Amendment),
        (LargeVolumeReportType::AmendmentRapidTransfer, LargeVolumeDocumentType::AmendmentRapidTransfer),
        (LargeVolumeReportType::ReportSpecial, LargeVolumeDocumentType::LargeVolumeReportSpecial),
        (LargeVolumeReportType::AmendmentSpecial, LargeVolumeDocumentType::AmendmentSpecial),
        (LargeVolumeReportType::Unknown, LargeVolumeDocumentType::Unknown),
    ];
    for (input, expected) in cases {
        assert_eq!(large_volume_document_type(input), expected);
    }
}

#[test]
fn major_shareholders_document_type_cases() {
    let cases = [
        (MajorShareholderReportType::Annual, MajorShareholdersDocumentType::AnnualReport),
        (MajorShareholderReportType::Quarterly, MajorShareholdersDocumentType::QuarterlyReport),
        (MajorShareholderReportType::SemiAnnual, MajorShareholdersDocumentType::SemiAnnualReport),
        (MajorShareholderReportType::Unknown, MajorShareholdersDocumentType::Unknown),
    ];
    for (input, expected) in cases {
        assert_eq!(major_shareholders_document_type(input), expected);
    }
}

fn entry() -> ReportedCrossShareholding {
    ReportedCrossShareholding {
        issuer_name: "トヨタ自動車".to_string(),
        issuer_stock_code: Some("72030".to_string()),
        category: ReportedCategory::Deemed,
        current_shares: Some(1000),
        previous_shares: None,
        current_book_value: Some(2_000_000),
        previous_book_value: Some(1_500_000),
        mutual_holding: ReportedMutualHolding::Held,
    }
}

#[test]
fn cross_shareholding_dto_carries_fields() {
    let d = cross_shareholding_dto(&entry());
    assert_eq!(d.issuer_name, "トヨタ自動車");
    assert_eq!(d.issuer_code, Some("72030".to_string()));
    assert_eq!(d.category, CrossShareholdingCategory::Deemed);
    assert_eq!(d.current_shares, Some(1000));
    assert_eq!(d.previous_shares, None);
    assert_eq!(d.mutual_holding, MutualHolding::Held);
}

#[test]
fn cross_shareholdings_report_without_document_is_none() {
    assert_eq!(cross_shareholdings_report(None).expect("ok"), None);
}

#[test]
fn cross_shareholdings_report_with_malformed_details_is_internal_error() {
    let err = cross_shareholdings_report(Some(("S100XYZ".to_string(), 739_000, Err("missing field".to_string()))))
        .expect_err("malformed");
    assert_eq!(err.kind, ErrorKind::InternalError);
    assert_eq!(err.message, "malformed cross shareholding details S100XYZ: missing field");
}

#[test]
fn cross_shareholdings_report_maps_each_holding() {
    let content = CrossShareholdingContent { period_end: Some(738_900), holdings: vec![entry(), entry()] };
    let r = cross_shareholdings_report(Some(("S100XYZ".to_string(), 739_000, Ok(content))))
        .expect("ok")
        .expect("some");
    assert_eq!(r.doc_id, "S100XYZ");
    assert_eq!(r.submitted_on, 739_000);
    assert_eq!(r.period_end, Some(738_900));
    assert_eq!(r.holdings.len(), 2);
}

#[test]
fn keep_parsed_skips_malformed_documents() {
    assert_eq!(keep_parsed(vec![Some(1), None, Some(3)]), vec![1, 3]);
}

#[test]
fn shareholding_query_for_a_stock_code() {
    let q = plan_shareholding_query(&ReadShareholdingStructureParams { symbol: "7203".into(), limit: None })
        .expect("valid");
    assert_eq!((q.limit, q.code_from.as_str(), q.code_to.as_str()), (50, "72030", "72039"));
    let err = plan_shareholding_query(&ReadShareholdingStructureParams { symbol: "72a3".into(), limit: None })
        .expect_err("invalid");
    assert_eq!(err.kind, ErrorKind::InvalidParams);
}
