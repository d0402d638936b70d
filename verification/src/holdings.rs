//! The shareholding-structure tool: which stored documents it reads for a symbol, how the
//! document kinds of the filings map to the kinds it answers with, and how parsed documents
//! become the answer. Dates are day numbers counted from the Common Era.

use vstd::prelude::*;
use vstd::string::*;

use crate::error::{ErrorKind, ToolError, internal_error};
use crate::limits::{clamp_limit, clamped_limit};
use crate::validate::{bad_symbol_message, code_range, code_range_of, is_stock_code, validate_symbol};

verus! {

/// Parameters of the shareholding-structure tool.
#[derive(Debug, Clone)]
pub struct ReadShareholdingStructureParams {
    /// A 4-digit stock code, such as "7203".
    pub symbol: String,
    /// Largest number of large-volume reports to return.
    pub limit: Option<u32>,
}

/// The document kind of a large-volume holding filing, as the filing states it.
#[derive(Debug, Clone, Copy, PartialEq, Eq, Structural)]
pub enum LargeVolumeReportType {
    Report,
    Amendment,
    AmendmentRapidTransfer,
    ReportSpecial,
    AmendmentSpecial,
    Unknown,
}

/// The document kind of a large-volume holding report, as the tool answers with it.
#[derive(Debug, Clone, Copy, PartialEq, Eq, Structural)]
pub enum LargeVolumeDocumentType {
    LargeVolumeReport,
    Amendment,
    AmendmentRapidTransfer,
    LargeVolumeReportSpecial,
    AmendmentSpecial,
    Unknown,
}

/// The document kind of a filing that lists the major shareholders, as the filing states it.
#[derive(Debug, Clone, Copy, PartialEq, Eq, Structural)]
pub enum MajorShareholderReportType {
    Annual,
    Quarterly,
    SemiAnnual,
    Unknown,
}

/// The document kind of a major-shareholders report, as the tool answers with it.
#[derive(Debug, Clone, Copy, PartialEq, Eq, Structural)]
pub enum MajorShareholdersDocumentType {
    AnnualReport,
    QuarterlyReport,
    SemiAnnualReport,
    Unknown,
}

/// Whether a cross-held stock is a specified investment or a deemed holding, as filed.
#[derive(Debug, Clone, Copy, PartialEq, Eq, Structural)]
pub enum ReportedCategory {
    Specified,
    Deemed,
}

/// Whether the issuer holds the filer's shares in turn, as filed.
#[derive(Debug, Clone, Copy, PartialEq, Eq, Structural)]
pub enum ReportedMutualHolding {
    Held,
    NotHeld,
    Unknown,
}

/// The category of a cross-shareholding in the tool's answer.
#[derive(Debug, Clone, Copy, PartialEq, Eq, Structural)]
pub enum CrossShareholdingCategory {
    Specified,
    Deemed,
}

/// Whether the issuer holds the filer's shares in turn, in the tool's answer.
#[derive(Debug, Clone, Copy, PartialEq, Eq, Structural)]
pub enum MutualHolding {
    Held,
    NotHeld,
    Unknown,
}

/// One cross-held stock as the filing lists it.
#[derive(Debug, Clone)]
pub struct ReportedCrossShareholding {
    pub issuer_name: String,
    pub issuer_stock_code: Option<String>,
    pub category: ReportedCategory,
    pub current_shares: Option<i64>,
    pub previous_shares: Option<i64>,
    pub current_book_value: Option<i64>,
    pub previous_book_value: Option<i64>,
    pub mutual_holding: ReportedMutualHolding,
}

/// One cross-held stock in the tool's answer.
#[derive(Debug, Clone, PartialEq, Eq)]
pub struct CrossShareholdingDto {
    /// The issuer's name.
    pub issuer_name: String,
    /// The issuer's 5-digit code, where it could be matched.
    pub issuer_code: Option<String>,
    pub category: CrossShareholdingCategory,
    /// Shares held at the end of the fiscal year.
    pub current_shares: Option<i64>,
    /// Shares held at the end of the previous fiscal year.
    pub previous_shares: Option<i64>,
    /// Book value in yen at the end of the fiscal year.
    pub current_book_value: Option<i64>,
    /// Book value in yen at the end of the previous fiscal year.
    pub previous_book_value: Option<i64>,
    pub mutual_holding: MutualHolding,
}

/// The parsed details of a cross-shareholding filing.
#[derive(Debug, Clone)]
pub struct CrossShareholdingContent {
    pub period_end: Option<i32>,
    pub holdings: Vec<ReportedCrossShareholding>,
}

/// The latest cross-shareholding report in the tool's answer.
#[derive(Debug, Clone, PartialEq, Eq)]
pub struct CrossShareholdingsReportDto {
    pub doc_id: String,
    pub submitted_on: i32,
    pub period_end: Option<i32>,
    pub holdings: Vec<CrossShareholdingDto>,
}

/// The answer's document kind for a filed large-volume document kind.
pub open spec fn large_volume_kind(t: LargeVolumeReportType) -> LargeVolumeDocumentType {
    match t {
        LargeVolumeReportType::Report => LargeVolumeDocumentType::LargeVolumeReport,
        LargeVolumeReportType::Amendment => LargeVolumeDocumentType::Amendment,
        LargeVolumeReportType::AmendmentRapidTransfer => LargeVolumeDocumentType::AmendmentRapidTransfer,
        LargeVolumeReportType::ReportSpecial => LargeVolumeDocumentType::LargeVolumeReportSpecial,
        LargeVolumeReportType::AmendmentSpecial => LargeVolumeDocumentType::AmendmentSpecial,
        LargeVolumeReportType::Unknown => LargeVolumeDocumentType::Unknown,
    }
}

/// Maps a filed large-volume document kind to the kind the tool answers with.
pub fn large_volume_document_type(report_type: LargeVolumeReportType) -> (r: LargeVolumeDocumentType)
    ensures
        r == large_volume_kind(report_type),
{
    match report_type {
        LargeVolumeReportType::Report => LargeVolumeDocumentType::LargeVolumeReport,
        LargeVolumeReportType::Amendment => LargeVolumeDocumentType::Amendment,
        LargeVolumeReportType::AmendmentRapidTransfer => LargeVolumeDocumentType::AmendmentRapidTransfer,
        LargeVolumeReportType::ReportSpecial => LargeVolumeDocumentType::LargeVolumeReportSpecial,
        LargeVolumeReportType::AmendmentSpecial => LargeVolumeDocumentType::AmendmentSpecial,
        LargeVolumeReportType::Unknown => LargeVolumeDocumentType::Unknown,
    }
}

/// The answer's document kind for a filed major-shareholder document kind.
pub open spec fn major_shareholders_kind(t: MajorShareholderReportType) -> MajorShareholdersDocumentType {
    match t {
        MajorShareholderReportType::Annual => MajorShareholdersDocumentType::AnnualReport,
        MajorShareholderReportType::Quarterly => MajorShareholdersDocumentType::QuarterlyReport,
        MajorShareholderReportType::SemiAnnual => MajorShareholdersDocumentType::SemiAnnualReport,
        MajorShareholderReportType::Unknown => MajorShareholdersDocumentType::Unknown,
    }
}

/// Maps a filed major-shareholder document kind to the kind the tool answers with.
pub fn major_shareholders_document_type(report_type: MajorShareholderReportType) -> (r: MajorShareholdersDocumentType)
    ensures
        r == major_shareholders_kind(report_type),
{
    match report_type {
        MajorShareholderReportType::Annual => MajorShareholdersDocumentType::AnnualReport,
        MajorShareholderReportType::Quarterly => MajorShareholdersDocumentType::QuarterlyReport,
        MajorShareholderReportType::SemiAnnual => MajorShareholdersDocumentType::SemiAnnualReport,
        MajorShareholderReportType::Unknown => MajorShareholdersDocumentType::Unknown,
    }
}

/// The views of an optional string.
pub open spec fn opt_text(s: Option<String>) -> Option<Seq<char>> {
    match s {
        Some(x) => Some(x@),
        None => None,
    }
}

/// Whether an answer entry carries the filed entry over: the same names, counts and values,
/// with the category and mutual holding mapped variant for variant.
pub open spec fn carries_entry(dto: CrossShareholdingDto, entry: ReportedCrossShareholding) -> bool {
    &&& dto.issuer_name@ == entry.issuer_name@
    &&& opt_text(dto.issuer_code) == opt_text(entry.issuer_stock_code)
    &&& dto.category == match entry.category {
        ReportedCategory::Specified => CrossShareholdingCategory::Specified,
        ReportedCategory::Deemed => CrossShareholdingCategory::Deemed,
    }
    &&& dto.current_shares == entry.current_shares
    &&& dto.previous_shares == entry.previous_shares
    &&& dto.current_book_value == entry.current_book_value
    &&& dto.previous_book_value == entry.previous_book_value
    &&& dto.mutual_holding == match entry.mutual_holding {
        ReportedMutualHolding::Held => MutualHolding::Held,
        ReportedMutualHolding::NotHeld => MutualHolding::NotHeld,
        ReportedMutualHolding::Unknown => MutualHolding::Unknown,
    }
}

fn clone_opt_string(s: &Option<String>) -> (r: Option<String>)
    ensures
        opt_text(r) == opt_text(*s),
{
    match s {
        Some(x) => Some(x.clone()),
        None => None,
    }
}

/// The answer entry for one filed cross-held stock.
pub fn cross_shareholding_dto(entry: &ReportedCrossShareholding) -> (r: CrossShareholdingDto)
    ensures
        carries_entry(r, *entry),
{
    CrossShareholdingDto {
        issuer_name: entry.issuer_name.clone(),
        issuer_code: clone_opt_string(&entry.issuer_stock_code),
        category: match entry.category {
            ReportedCategory::Specified => CrossShareholdingCategory::Specified,
            ReportedCategory::Deemed => CrossShareholdingCategory::Deemed,
        },
        current_shares: entry.current_shares,
        previous_shares: entry.previous_shares,
        current_book_value: entry.current_book_value,
        previous_book_value: entry.previous_book_value,
        mutual_holding: match entry.mutual_holding {
            ReportedMutualHolding::Held => MutualHolding::Held,
            ReportedMutualHolding::NotHeld => MutualHolding::NotHeld,
            ReportedMutualHolding::Unknown => MutualHolding::Unknown,
        },
    }
}

/// What a per-symbol tool reads: the symbol, the number of rows, and the inclusive range of
/// stored 5-digit codes that belong to the symbol.
#[derive(Debug, Clone)]
pub struct SymbolQuery {
    pub symbol: String,
    pub limit: u64,
    pub code_from: String,
    pub code_to: String,
}

/// Checks a symbol and a row limit and says what is to be read: refused unless the symbol is
/// a 4-digit stock code; otherwise the clamped limit and the code range of the symbol.
pub fn plan_symbol_query(symbol: &str, limit: Option<u32>) -> (r: Result<SymbolQuery, ToolError>)
    ensures
        r is Ok <==> is_stock_code(symbol@),
        r matches Err(e) ==> e.kind == ErrorKind::InvalidParams && e.message@ == bad_symbol_message(
            symbol@,
        ),
        r matches Ok(q) ==> q.symbol@ == symbol@ && q.limit == clamped_limit(limit) && (
        q.code_from@, q.code_to@) == code_range_of(symbol@),
{
    match validate_symbol(symbol) {
        Err(e) => Err(e),
        Ok(()) => {
            let limit = clamp_limit(limit);
            let (code_from, code_to) = code_range(symbol);
            Ok(SymbolQuery { symbol: String::from_str(symbol), limit, code_from, code_to })
        },
    }
}

/// Checks the parameters of the shareholding-structure tool and says what is to be read.
pub fn plan_shareholding_query(params: &ReadShareholdingStructureParams) -> (r: Result<
    SymbolQuery,
    ToolError,
>)
    ensures
        r is Ok <==> is_stock_code(params.symbol@),
        r matches Err(e) ==> e.kind == ErrorKind::InvalidParams && e.message@ == bad_symbol_message(
            params.symbol@,
        ),
        r matches Ok(q) ==> q.symbol@ == params.symbol@ && q.limit == clamped_limit(params.limit)
            && (q.code_from@, q.code_to@) == code_range_of(params.symbol@),
{
    plan_symbol_query(params.symbol.as_str(), params.limit)
}

/// The parsed documents, in order, of those whose details could be parsed.
pub open spec fn parsed_only<T>(rows: Seq<Option<T>>) -> Seq<T>
    decreases rows.len(),
{
    if rows.len() == 0 {
        Seq::empty()
    } else {
        let prev = parsed_only(rows.drop_last());
        match rows.last() {
            Some(d) => prev.push(d),
            None => prev,
        }
    }
}

/// Keeps the large-volume documents whose details could be parsed, in their order; a
/// document with malformed details is skipped.
pub fn keep_parsed<T>(rows: Vec<Option<T>>) -> (r: Vec<T>)
    ensures
        r@ == parsed_only(rows@),
{
    broadcast use vstd::std_specs::vec::group_vec_axioms;

    let ghost whole = rows@;
    let mut out: Vec<T> = Vec::new();
    for item in iter: rows.into_iter()
        invariant
            iter.seq() == whole,
            out@ == parsed_only(whole.take(iter.index() as int)),
    {
        proof {
            let i = iter.index() as int;
            assert(whole.take(i + 1).drop_last() =~= whole.take(i));
            assert(whole.take(i + 1).last() == item);
        }
        match item {
            Some(d) => {
                out.push(d);
            },
            None => {},
        }
    }
    proof {
        assert(whole.take(whole.len() as int) =~= whole);
    }
    out
}

/// The message with which a stored document whose details cannot be parsed is refused.
pub open spec fn malformed_message(what: Seq<char>, doc_id: Seq<char>, err: Seq<char>) -> Seq<char> {
    "malformed "@ + what + " details "@ + doc_id + ": "@ + err
}

/// The parsed details of the latest document of a kind, or an internal error naming the kind
/// (`what`), the document and the parse error when its details are malformed.
pub fn parsed_or_error<T>(what: &str, doc_id: &str, parsed: Result<T, String>) -> (r: Result<
    T,
    ToolError,
>)
    ensures
        parsed matches Ok(d) ==> (r matches Ok(x) && x == d),
        parsed matches Err(e) ==> (r matches Err(err) && err.kind == ErrorKind::InternalError
            && err.message@ == malformed_message(what@, doc_id@, e@)),
{
    match parsed {
        Ok(d) => Ok(d),
        Err(e) => {
            let mut message = String::from_str("malformed ");
            message.append(what);
            message.append(" details ");
            message.append(doc_id);
            message.append(": ");
            message.append(e.as_str());
            Err(internal_error(message))
        },
    }
}

/// Whether a report carries the latest stored cross-shareholding document over: its id, date,
/// period and, entry for entry, its holdings.
pub open spec fn carries_cross_report(
    r: CrossShareholdingsReportDto,
    doc_id: Seq<char>,
    submitted_on: i32,
    content: CrossShareholdingContent,
) -> bool {
    &&& r.doc_id@ == doc_id
    &&& r.submitted_on == submitted_on
    &&& r.period_end == content.period_end
    &&& r.holdings@.len() == content.holdings@.len()
    &&& forall|k: int|
        0 <= k < r.holdings@.len() ==> carries_entry(#[trigger] r.holdings@[k], content.holdings@[k])
}

/// The cross-shareholding part of the answer from the latest stored document, if any: `None`
/// without a document, an internal error when its details are malformed, else the report.
pub fn cross_shareholdings_report(latest: Option<(String, i32, Result<CrossShareholdingContent, String>)>) -> (r: Result<
    Option<CrossShareholdingsReportDto>,
    ToolError,
>)
    ensures
        latest is None ==> (r matches Ok(o) && o is None),
        latest matches Some((doc_id, submitted_on, parsed)) ==> match parsed {
            Ok(content) => r matches Ok(Some(report)) && carries_cross_report(
                report,
                doc_id@,
                submitted_on,
                content,
            ),
            Err(e) => r matches Err(err) && err.kind == ErrorKind::InternalError && err.message@
                == malformed_message("cross shareholding"@, doc_id@, e@),
        },
{
    match latest {
        None => Ok(None),
        Some((doc_id, submitted_on, parsed)) => {
            match parsed_or_error("cross shareholding", doc_id.as_str(), parsed) {
                Err(e) => Err(e),
                Ok(content) => {
                    let mut holdings: Vec<CrossShareholdingDto> = Vec::new();
                    let mut k: usize = 0;
                    while k < content.holdings.len()
                        invariant
                            0 <= k <= content.holdings@.len(),
                            holdings@.len() == k,
                            forall|j: int|
                                0 <= j < k ==> carries_entry(
                                    #[trigger] holdings@[j],
                                    content.holdings@[j],
                                ),
                        decreases content.holdings.len() - k,
                    {
                        let dto = cross_shareholding_dto(&content.holdings[k]);
                        holdings.push(dto);
                        k = k + 1;
                    }
                    Ok(
                        Some(
                            CrossShareholdingsReportDto {
                                doc_id,
                                submitted_on,
                                period_end: content.period_end,
                                holdings,
                            },
                        ),
                    )
                },
            }
        },
    }
}

} // verus!
