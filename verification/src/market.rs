//! Market data read per stock or per sector: the 33 sector codes, the short-selling ratio of
//! a sector, the fields of short-sale reports and financial summaries, margin publication
//! reasons, and the checks on date ranges. Dates are day numbers counted from the Common Era.

use vstd::prelude::*;
use vstd::string::*;

use crate::decimal::{Dec, dec_add, dec_div, decimal_quotient, decimal_sum};
use crate::error::{ErrorKind, ToolError, internal_error, invalid_params};
use crate::validate::{debug_str, debug_str_text};
use crate::text::{starts_with, str_equal, trim_str, trimmed};

verus! {

/// The code of one of the 33 sectors, by the sector's name.
pub open spec fn sector33_code_of(name: Seq<char>) -> Option<Seq<char>> {
    if name == "水産・農林業"@ {
        Some("0050"@)
    } else if name == "鉱業"@ {
        Some("1050"@)
    } else if name == "建設業"@ {
        Some("2050"@)
    } else if name == "食料品"@ {
        Some("3050"@)
    } else if name == "繊維製品"@ {
        Some("3100"@)
    } else if name == "パルプ・紙"@ {
        Some("3150"@)
    } else if name == "化学"@ {
        Some("3200"@)
    } else if name == "医薬品"@ {
        Some("3250"@)
    } else if name == "石油･石炭製品"@ {
        Some("3300"@)
    } else if name == "ゴム製品"@ {
        Some("3350"@)
    } else if name == "ガラス･土石製品"@ {
        Some("3400"@)
    } else if name == "鉄鋼"@ {
        Some("3450"@)
    } else if name == "非鉄金属"@ {
        Some("3500"@)
    } else if name == "金属製品"@ {
        Some("3550"@)
    } else if name == "機械"@ {
        Some("3600"@)
    } else if name == "電気機器"@ {
        Some("3650"@)
    } else if name == "輸送用機器"@ {
        Some("3700"@)
    } else if name == "精密機器"@ {
        Some("3750"@)
    } else if name == "その他製品"@ {
        Some("3800"@)
    } else if name == "電気･ガス業"@ {
        Some("4050"@)
    } else if name == "陸運業"@ {
        Some("5050"@)
    } else if name == "海運業"@ {
        Some("5100"@)
    } else if name == "空運業"@ {
        Some("5150"@)
    } else if name == "倉庫･運輸関連業"@ {
        Some("5200"@)
    } else if name == "情報･通信業"@ {
        Some("5250"@)
    } else if name == "卸売業"@ {
        Some("6050"@)
    } else if name == "小売業"@ {
        Some("6100"@)
    } else if name == "銀行業"@ {
        Some("7050"@)
    } else if name == "証券･商品先物取引業"@ {
        Some("7100"@)
    } else if name == "保険業"@ {
        Some("7150"@)
    } else if name == "その他金融業"@ {
        Some("7200"@)
    } else if name == "不動産業"@ {
        Some("8050"@)
    } else if name == "サービス業"@ {
        Some("9050"@)
    } else if name == "その他"@ {
        Some("9999"@)
    } else {
        None
    }
}

/// The sector that a 33-sector code stands for, read the other way round: the name of each
/// of the codes that JPX assigns to its 33 sectors (and `9999` for the rest).
pub open spec fn sector33_name_of(code: Seq<char>) -> Option<Seq<char>> {
    if code == "0050"@ {
        Some("水産・農林業"@)
    } else if code == "1050"@ {
        Some("鉱業"@)
    } else if code == "2050"@ {
        Some("建設業"@)
    } else if code == "3050"@ {
        Some("食料品"@)
    } else if code == "3100"@ {
        Some("繊維製品"@)
    } else if code == "3150"@ {
        Some("パルプ・紙"@)
    } else if code == "3200"@ {
        Some("化学"@)
    } else if code == "3250"@ {
        Some("医薬品"@)
    } else if code == "3300"@ {
        Some("石油･石炭製品"@)
    } else if code == "3350"@ {
        Some("ゴム製品"@)
    } else if code == "3400"@ {
        Some("ガラス･土石製品"@)
    } else if code == "3450"@ {
        Some("鉄鋼"@)
    } else if code == "3500"@ {
        Some("非鉄金属"@)
    } else if code == "3550"@ {
        Some("金属製品"@)
    } else if code == "3600"@ {
        Some("機械"@)
    } else if code == "3650"@ {
        Some("電気機器"@)
    } else if code == "3700"@ {
        Some("輸送用機器"@)
    } else if code == "3750"@ {
        Some("精密機器"@)
    } else if code == "3800"@ {
        Some("その他製品"@)
    } else if code == "4050"@ {
        Some("電気･ガス業"@)
    } else if code == "5050"@ {
        Some("陸運業"@)
    } else if code == "5100"@ {
        Some("海運業"@)
    } else if code == "5150"@ {
        Some("空運業"@)
    } else if code == "5200"@ {
        Some("倉庫･運輸関連業"@)
    } else if code == "5250"@ {
        Some("情報･通信業"@)
    } else if code == "6050"@ {
        Some("卸売業"@)
    } else if code == "6100"@ {
        Some("小売業"@)
    } else if code == "7050"@ {
        Some("銀行業"@)
    } else if code == "7100"@ {
        Some("証券･商品先物取引業"@)
    } else if code == "7150"@ {
        Some("保険業"@)
    } else if code == "7200"@ {
        Some("その他金融業"@)
    } else if code == "8050"@ {
        Some("不動産業"@)
    } else if code == "9050"@ {
        Some("サービス業"@)
    } else if code == "9999"@ {
        Some("その他"@)
    } else {
        None
    }
}

/// Every sector name maps to the code that stands for that very sector: reading the code
/// back gives the name.
pub proof fn law_sector33_code_names_its_sector(name: Seq<char>)
    ensures
        sector33_code_of(name) matches Some(code) ==> sector33_name_of(code) == Some(name),
{
    reveal_strlit("0050");
    assert("0050"@[0] == '0' && "0050"@[1] == '0' && "0050"@[2] == '5' && "0050"@[3] == '0');
    reveal_strlit("1050");
    assert("1050"@[0] == '1' && "1050"@[1] == '0' && "1050"@[2] == '5' && "1050"@[3] == '0');
    reveal_strlit("2050");
    assert("2050"@[0] == '2' && "2050"@[1] == '0' && "2050"@[2] == '5' && "2050"@[3] == '0');
    reveal_strlit("3050");
    assert("3050"@[0] == '3' && "3050"@[1] == '0' && "3050"@[2] == '5' && "3050"@[3] == '0');
    reveal_strlit("3100");
    assert("3100"@[0] == '3' && "3100"@[1] == '1' && "3100"@[2] == '0' && "3100"@[3] == '0');
    reveal_strlit("3150");
    assert("3150"@[0] == '3' && "3150"@[1] == '1' && "3150"@[2] == '5' && "3150"@[3] == '0');
    reveal_strlit("3200");
    assert("3200"@[0] == '3' && "3200"@[1] == '2' && "3200"@[2] == '0' && "3200"@[3] == '0');
    reveal_strlit("3250");
    assert("3250"@[0] == '3' && "3250"@[1] == '2' && "3250"@[2] == '5' && "3250"@[3] == '0');
    reveal_strlit("3300");
    assert("3300"@[0] == '3' && "3300"@[1] == '3' && "3300"@[2] == '0' && "3300"@[3] == '0');
    reveal_strlit("3350");
    assert("3350"@[0] == '3' && "3350"@[1] == '3' && "3350"@[2] == '5' && "3350"@[3] == '0');
    reveal_strlit("3400");
    assert("3400"@[0] == '3' && "3400"@[1] == '4' && "3400"@[2] == '0' && "3400"@[3] == '0');
    reveal_strlit("3450");
    assert("3450"@[0] == '3' && "3450"@[1] == '4' && "3450"@[2] == '5' && "3450"@[3] == '0');
    reveal_strlit("3500");
    assert("3500"@[0] == '3' && "3500"@[1] == '5' && "3500"@[2] == '0' && "3500"@[3] == '0');
    reveal_strlit("3550");
    assert("3550"@[0] == '3' && "3550"@[1] == '5' && "3550"@[2] == '5' && "3550"@[3] == '0');
    reveal_strlit("3600");
    assert("3600"@[0] == '3' && "3600"@[1] == '6' && "3600"@[2] == '0' && "3600"@[3] == '0');
    reveal_strlit("3650");
    assert("3650"@[0] == '3' && "3650"@[1] == '6' && "3650"@[2] == '5' && "3650"@[3] == '0');
    reveal_strlit("3700");
    assert("3700"@[0] == '3' && "3700"@[1] == '7' && "3700"@[2] == '0' && "3700"@[3] == '0');
    reveal_strlit("3750");
    assert("3750"@[0] == '3' && "3750"@[1] == '7' && "3750"@[2] == '5' && "3750"@[3] == '0');
    reveal_strlit("3800");
    assert("3800"@[0] == '3' && "3800"@[1] == '8' && "3800"@[2] == '0' && "3800"@[3] == '0');
    reveal_strlit("4050");
    assert("4050"@[0] == '4' && "4050"@[1] == '0' && "4050"@[2] == '5' && "4050"@[3] == '0');
    reveal_strlit("5050");
    assert("5050"@[0] == '5' && "5050"@[1] == '0' && "5050"@[2] == '5' && "5050"@[3] == '0');
    reveal_strlit("5100");
    assert("5100"@[0] == '5' && "5100"@[1] == '1' && "5100"@[2] == '0' && "5100"@[3] == '0');
    reveal_strlit("5150");
    assert("5150"@[0] == '5' && "5150"@[1] == '1' && "5150"@[2] == '5' && "5150"@[3] == '0');
    reveal_strlit("5200");
    assert("5200"@[0] == '5' && "5200"@[1] == '2' && "5200"@[2] == '0' && "5200"@[3] == '0');
    reveal_strlit("5250");
    assert("5250"@[0] == '5' && "5250"@[1] == '2' && "5250"@[2] == '5' && "5250"@[3] == '0');
    reveal_strlit("6050");
    assert("6050"@[0] == '6' && "6050"@[1] == '0' && "6050"@[2] == '5' && "6050"@[3] == '0');
    reveal_strlit("6100");
    assert("6100"@[0] == '6' && "6100"@[1] == '1' && "6100"@[2] == '0' && "6100"@[3] == '0');
    reveal_strlit("7050");
    assert("7050"@[0] == '7' && "7050"@[1] == '0' && "7050"@[2] == '5' && "7050"@[3] == '0');
    reveal_strlit("7100");
    assert("7100"@[0] == '7' && "7100"@[1] == '1' && "7100"@[2] == '0' && "7100"@[3] == '0');
    reveal_strlit("7150");
    assert("7150"@[0] == '7' && "7150"@[1] == '1' && "7150"@[2] == '5' && "7150"@[3] == '0');
    reveal_strlit("7200");
    assert("7200"@[0] == '7' && "7200"@[1] == '2' && "7200"@[2] == '0' && "7200"@[3] == '0');
    reveal_strlit("8050");
    assert("8050"@[0] == '8' && "8050"@[1] == '0' && "8050"@[2] == '5' && "8050"@[3] == '0');
    reveal_strlit("9050");
    assert("9050"@[0] == '9' && "9050"@[1] == '0' && "9050"@[2] == '5' && "9050"@[3] == '0');
    reveal_strlit("9999");
    assert("9999"@[0] == '9' && "9999"@[1] == '9' && "9999"@[2] == '9' && "9999"@[3] == '9');
}

/// Different sector names map to different codes.
pub proof fn law_sector33_codes_distinct(a: Seq<char>, b: Seq<char>)
    ensures
        sector33_code_of(a) is Some && sector33_code_of(a) == sector33_code_of(b) ==> a == b,
{
    law_sector33_code_names_its_sector(a);
    law_sector33_code_names_its_sector(b);
}

/// The 33-sector code for a sector name, or `None` for a name that is not one of the 33.
pub fn sector33_code_for_name(sector: &str) -> (r: Option<&'static str>)
    ensures
        match r {
            Some(code) => sector33_code_of(sector@) == Some(code@),
            None => sector33_code_of(sector@) is None,
        },
{
    if str_equal(sector, "水産・農林業") {
        Some("0050")
    } else if str_equal(sector, "鉱業") {
        Some("1050")
    } else if str_equal(sector, "建設業") {
        Some("2050")
    } else if str_equal(sector, "食料品") {
        Some("3050")
    } else if str_equal(sector, "繊維製品") {
        Some("3100")
    } else if str_equal(sector, "パルプ・紙") {
        Some("3150")
    } else if str_equal(sector, "化学") {
        Some("3200")
    } else if str_equal(sector, "医薬品") {
        Some("3250")
    } else if str_equal(sector, "石油･石炭製品") {
        Some("3300")
    } else if str_equal(sector, "ゴム製品") {
        Some("3350")
    } else if str_equal(sector, "ガラス･土石製品") {
        Some("3400")
    } else if str_equal(sector, "鉄鋼") {
        Some("3450")
    } else if str_equal(sector, "非鉄金属") {
        Some("3500")
    } else if str_equal(sector, "金属製品") {
        Some("3550")
    } else if str_equal(sector, "機械") {
        Some("3600")
    } else if str_equal(sector, "電気機器") {
        Some("3650")
    } else if str_equal(sector, "輸送用機器") {
        Some("3700")
    } else if str_equal(sector, "精密機器") {
        Some("3750")
    } else if str_equal(sector, "その他製品") {
        Some("3800")
    } else if str_equal(sector, "電気･ガス業") {
        Some("4050")
    } else if str_equal(sector, "陸運業") {
        Some("5050")
    } else if str_equal(sector, "海運業") {
        Some("5100")
    } else if str_equal(sector, "空運業") {
        Some("5150")
    } else if str_equal(sector, "倉庫･運輸関連業") {
        Some("5200")
    } else if str_equal(sector, "情報･通信業") {
        Some("5250")
    } else if str_equal(sector, "卸売業") {
        Some("6050")
    } else if str_equal(sector, "小売業") {
        Some("6100")
    } else if str_equal(sector, "銀行業") {
        Some("7050")
    } else if str_equal(sector, "証券･商品先物取引業") {
        Some("7100")
    } else if str_equal(sector, "保険業") {
        Some("7150")
    } else if str_equal(sector, "その他金融業") {
        Some("7200")
    } else if str_equal(sector, "不動産業") {
        Some("8050")
    } else if str_equal(sector, "サービス業") {
        Some("9050")
    } else if str_equal(sector, "その他") {
        Some("9999")
    } else {
        None
    }
}

/// The short-selling ratio of a day from its three traded values: the short sales (with and
/// without price restriction) over all sales. `Some(None)` when a value is missing (no
/// trading) or the total is zero; `None` when the decimal arithmetic overflows.
pub open spec fn short_ratio_of(
    sell_excluding_short: Option<Dec>,
    with_restriction: Option<Dec>,
    without_restriction: Option<Dec>,
) -> Option<Option<Dec>> {
    match (sell_excluding_short, with_restriction, without_restriction) {
        (Some(sell), Some(with), Some(without)) => match decimal_sum(with, without) {
            None => None,
            Some(short) => match decimal_sum(sell, short) {
                None => None,
                Some(total) => if total.mantissa == 0 {
                    Some(None)
                } else {
                    match decimal_quotient(short, total) {
                        None => None,
                        Some(q) => Some(Some(q)),
                    }
                },
            },
        },
        _ => Some(None),
    }
}

/// Whether every given amount is a valid decimal.
pub open spec fn all_valid(a: Option<Dec>, b: Option<Dec>, c: Option<Dec>) -> bool {
    &&& (a matches Some(x) ==> x.valid())
    &&& (b matches Some(x) ==> x.valid())
    &&& (c matches Some(x) ==> x.valid())
}

/// Computes the short-selling ratio of a day: short sales (with and without price
/// restriction) over the total of all sales; none without trading or with a zero total.
/// `None` only where the decimal arithmetic overflows.
pub fn compute_short_ratio(
    sell_excluding_short: Option<Dec>,
    with_restriction: Option<Dec>,
    without_restriction: Option<Dec>,
) -> (r: Option<Option<Dec>>)
    requires
        all_valid(sell_excluding_short, with_restriction, without_restriction),
    ensures
        r == short_ratio_of(sell_excluding_short, with_restriction, without_restriction),
{
    let sell = match sell_excluding_short {
        Some(v) => v,
        None => {
            return Some(None);
        },
    };
    let with = match with_restriction {
        Some(v) => v,
        None => {
            return Some(None);
        },
    };
    let without = match without_restriction {
        Some(v) => v,
        None => {
            return Some(None);
        },
    };
    let short = match dec_add(with, without) {
        Some(v) => v,
        None => {
            return None;
        },
    };
    let total = match dec_add(sell, short) {
        Some(v) => v,
        None => {
            return None;
        },
    };
    if total.is_zero() {
        return Some(None);
    }
    match dec_div(short, total) {
        Some(q) => Some(Some(q)),
        None => None,
    }
}

/// A text field of a filing that is empty when it does not apply: empty is none.
pub fn blank_to_none(s: String) -> (r: Option<String>)
    ensures
        s@.len() == 0 ==> r is None,
        s@.len() != 0 ==> (r matches Some(x) && x@ == s@),
{
    if s.as_str().is_empty() {
        None
    } else {
        Some(s)
    }
}

/// The document-type prefix of the statements of a quarter, by the quarter's period type.
pub open spec fn quarter_prefix(period_type: Seq<char>) -> Option<Seq<char>> {
    if period_type == "1Q"@ {
        Some("1QFinancialStatements_"@)
    } else if period_type == "2Q"@ {
        Some("2QFinancialStatements_"@)
    } else if period_type == "3Q"@ {
        Some("3QFinancialStatements_"@)
    } else {
        None
    }
}

/// Whether a disclosure is a quarterly financial statement: its period is the first, second
/// or third quarter, and its document type begins with the prefix of that quarter's
/// statements.
pub open spec fn quarterly_statement(doc_type: Option<Seq<char>>, period_type: Option<Seq<char>>) -> bool {
    match (doc_type, period_type) {
        (Some(d), Some(p)) => match quarter_prefix(p) {
            Some(prefix) => prefix.is_prefix_of(d),
            None => false,
        },
        _ => false,
    }
}

/// Decides whether a disclosure is a quarterly financial statement, from its document type
/// and period type.
pub fn is_quarterly_financial_statement(doc_type: Option<&str>, period_type: Option<&str>) -> (r: bool)
    ensures
        r == quarterly_statement(
            match doc_type {
                Some(d) => Some(d@),
                None => None,
            },
            match period_type {
                Some(p) => Some(p@),
                None => None,
            },
        ),
{
    let prefix = match period_type {
        Some(p) => {
            if str_equal(p, "1Q") {
                "1QFinancialStatements_"
            } else if str_equal(p, "2Q") {
                "2QFinancialStatements_"
            } else if str_equal(p, "3Q") {
                "3QFinancialStatements_"
            } else {
                return false;
            }
        },
        None => {
            return false;
        },
    };
    match doc_type {
        Some(d) => starts_with(d, prefix),
        None => false,
    }
}

/// Parameters of the financial-summary tool.
#[derive(Debug, Clone)]
pub struct ReadFinSummaryParams {
    /// A 4-digit stock code, matched against the first four characters of the stored code.
    pub symbol: String,
    pub limit: Option<u32>,
}

/// Checks an optional date range: when both ends are given, `from` may not be after `to`.
pub fn check_date_range(from: Option<i32>, to: Option<i32>) -> (r: Result<(), ToolError>)
    ensures
        r is Ok <==> !(from matches Some(f) && to matches Some(t) && f > t),
        r matches Err(e) ==> e.kind == ErrorKind::InvalidParams && e.message@
            == "from must be on or before to"@,
{
    match (from, to) {
        (Some(f), Some(t)) => {
            if f > t {
                return Err(invalid_params(String::from_str("from must be on or before to")));
            }
            Ok(())
        },
        _ => Ok(()),
    }
}

/// Why a macro-indicator read is refused, if it is.
pub open spec fn macro_indicator_error(indicator_id: Seq<char>, from: i32, to: i32) -> Option<Seq<char>> {
    if trimmed(indicator_id).len() == 0 {
        Some("indicator_id must not be empty"@)
    } else if from > to {
        Some("from must be on or before to"@)
    } else {
        None
    }
}

/// Checks a macro-indicator read and gives the trimmed indicator id.
pub fn check_macro_indicator(indicator_id: &str, from: i32, to: i32) -> (r: Result<String, ToolError>)
    ensures
        r is Ok <==> macro_indicator_error(indicator_id@, from, to) is None,
        r matches Ok(id) ==> id@ == trimmed(indicator_id@),
        r matches Err(e) ==> e.kind == ErrorKind::InvalidParams && Some(e.message@)
            == macro_indicator_error(indicator_id@, from, to),
{
    let id = trim_str(indicator_id);
    if id.unicode_len() == 0 {
        return Err(invalid_params(String::from_str("indicator_id must not be empty")));
    }
    if from > to {
        return Err(invalid_params(String::from_str("from must be on or before to")));
    }
    Ok(String::from_str(id))
}

/// The reasons for which the exchange publishes a stock's margin balance daily, as stored.
#[derive(Debug, Clone, Copy, PartialEq, Eq, Structural)]
pub struct PubReason {
    pub restricted: bool,
    pub daily_publication: bool,
    pub monitoring: bool,
    pub restricted_by_jsf: bool,
    pub precaution_by_jsf: bool,
    pub unclear_or_sec_on_alert: bool,
}

/// The publication reasons in the margin tool's answer.
#[derive(Debug, Clone, Copy, PartialEq, Eq, Structural)]
pub struct MarginPubReasonDto {
    pub restricted: bool,
    pub daily_publication: bool,
    pub monitoring: bool,
    pub restricted_by_jsf: bool,
    pub precaution_by_jsf: bool,
    pub unclear_or_sec_on_alert: bool,
}

impl From<PubReason> for MarginPubReasonDto {
    fn from(r: PubReason) -> (d: MarginPubReasonDto) {
        MarginPubReasonDto {
            restricted: r.restricted,
            daily_publication: r.daily_publication,
            monitoring: r.monitoring,
            restricted_by_jsf: r.restricted_by_jsf,
            precaution_by_jsf: r.precaution_by_jsf,
            unclear_or_sec_on_alert: r.unclear_or_sec_on_alert,
        }
    }
}

impl vstd::std_specs::convert::FromSpecImpl<PubReason> for MarginPubReasonDto {
    open spec fn obeys_from_spec() -> bool {
        true
    }

    open spec fn from_spec(r: PubReason) -> MarginPubReasonDto {
        MarginPubReasonDto {
            restricted: r.restricted,
            daily_publication: r.daily_publication,
            monitoring: r.monitoring,
            restricted_by_jsf: r.restricted_by_jsf,
            precaution_by_jsf: r.precaution_by_jsf,
            unclear_or_sec_on_alert: r.unclear_or_sec_on_alert,
        }
    }
}

/// Finds the 33-sector code of a sector name given by a caller; a name that is not one of
/// the 33 is refused, quoted in the message.
pub fn sector_code_for_request(sector: &str) -> (r: Result<&'static str, ToolError>)
    ensures
        match sector33_code_of(sector@) {
            Some(code) => r matches Ok(c) && c@ == code,
            None => r matches Err(e) && e.kind == ErrorKind::InvalidParams && e.message@
                == "unknown sector name: "@ + debug_str_text(sector@),
        },
{
    match sector33_code_for_name(sector) {
        Some(code) => Ok(code),
        None => {
            let mut m = String::from_str("unknown sector name: ");
            let quoted = debug_str(sector);
            m.append(quoted.as_str());
            Err(invalid_params(m))
        },
    }
}

/// The publication reasons of a margin alert from its stored JSON, parsed (`Err` with the
/// parse error's text when it could not be); a stored value that cannot be read is an
/// internal error.
pub fn pub_reason_or_error(parsed: Result<PubReason, String>) -> (r: Result<MarginPubReasonDto, ToolError>)
    ensures
        parsed matches Ok(p) ==> r == Ok::<MarginPubReasonDto, ToolError>(
            MarginPubReasonDto {
                restricted: p.restricted,
                daily_publication: p.daily_publication,
                monitoring: p.monitoring,
                restricted_by_jsf: p.restricted_by_jsf,
                precaution_by_jsf: p.precaution_by_jsf,
                unclear_or_sec_on_alert: p.unclear_or_sec_on_alert,
            },
        ),
        parsed matches Err(e) ==> (r matches Err(err) && err.kind == ErrorKind::InternalError
            && err.message@ == "invalid margin_alert.pub_reason: "@ + e@),
{
    match parsed {
        Ok(p) => Ok(MarginPubReasonDto::from(p)),
        Err(e) => {
            let mut m = String::from_str("invalid margin_alert.pub_reason: ");
            m.append(e.as_str());
            Err(internal_error(m))
        },
    }
}

} // verus!
