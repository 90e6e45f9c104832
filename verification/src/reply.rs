//! The answers of the web service: for each request, which reply it gives
//! and what the reply says.

use vstd::prelude::*;

use crate::config::{accepts, Config};
use crate::excel::{first_sheet_records, parse_excel, unreadable_text, xlsx_sheets};
use crate::models::{SearchResponse, SearchResponseView};

verus! {

/// A reply of the web service, before it is written out as JSON.
#[derive(Debug)]
pub enum Reply {
    /// Whether the password was right: `{"valid": …}`.
    PasswordCheck { valid: bool },
    /// The banks found: `{"results": […], "total": …}`.
    Found(SearchResponse),
    /// A failed lookup: `{"error": …}`.
    Error { error: String },
    /// A change that went through, with the number of records it touched:
    /// `{"success": true, "count": …}`.
    Done { count: usize },
    /// A change that went through: `{"success": true}`.
    Success,
    /// A refused or failed change: `{"success": false, "message": …}`.
    Failure { message: String },
    /// A file to download.
    File { data: Vec<u8> },
}

/// A reply as a mathematical value.
pub enum ReplyView {
    PasswordCheck { valid: bool },
    Found(SearchResponseView),
    Error { error: Seq<char> },
    Done { count: usize },
    Success,
    Failure { message: Seq<char> },
    File { data: Seq<u8> },
}

impl View for Reply {
    type V = ReplyView;

    open spec fn view(&self) -> ReplyView {
        match self {
            Reply::PasswordCheck { valid } => ReplyView::PasswordCheck { valid: *valid },
            Reply::Found(r) => ReplyView::Found(r@),
            Reply::Error { error } => ReplyView::Error { error: error@ },
            Reply::Done { count } => ReplyView::Done { count: *count },
            Reply::Success => ReplyView::Success,
            Reply::Failure { message } => ReplyView::Failure { message: message@ },
            Reply::File { data } => ReplyView::File { data: data@ },
        }
    }
}

/// `prefix` followed by `detail`.
pub fn prefixed(prefix: &str, detail: &str) -> (res: String)
    ensures
        res@ == prefix@ + detail@,
{
    let mut res = String::from_str(prefix);
    res.append(detail);
    res
}

/// The answer to a password check.
pub fn password_reply(config: &Config, password: &str) -> (res: Reply)
    ensures
        res@ == (ReplyView::PasswordCheck { valid: accepts(config@, password@) }),
{
    Reply::PasswordCheck { valid: config.password_matches(password) }
}

/// What a search request leads to.
pub enum SearchStep {
    /// Answer at once.
    Answer(Reply),
    /// Look the query up in the database.
    Lookup(String),
}

/// The reply to a search with no query: no banks.
pub open spec fn no_banks() -> ReplyView {
    ReplyView::Found(SearchResponseView { results: Seq::empty(), total: 0 })
}

/// A search with an empty query is answered at once with no banks; any
/// other query is looked up.
pub fn plan_search(query: &str) -> (res: SearchStep)
    ensures
        query@.len() == 0 ==> (res matches SearchStep::Answer(r) && r@ == no_banks()),
        query@.len() > 0 ==> (res matches SearchStep::Lookup(q) && q@ == query@),
{
    if query.is_empty() {
        let empty = SearchResponse::empty();
        assert(empty@.results =~= Seq::empty());
        SearchStep::Answer(Reply::Found(empty))
    } else {
        SearchStep::Lookup(String::from_str(query))
    }
}

/// The reply to a search that was looked up: the response, or the error.
pub fn search_reply(result: Result<SearchResponse, String>) -> (res: Reply)
    ensures
        match result {
            Ok(r) => res@ == ReplyView::Found(r@),
            Err(e) => res@ == (ReplyView::Error { error: "查询失败: "@ + e@ }),
        },
{
    match result {
        Ok(r) => Reply::Found(r),
        Err(e) => Reply::Error { error: prefixed("查询失败: ", e.as_str()) },
    }
}

/// What an upload leads to.
pub enum ImportStep {
    /// Answer at once.
    Answer(Reply),
    /// Store these records.
    Insert(Vec<(String, String)>),
}

/// An empty upload is refused; so is one that is not an xlsx workbook, and
/// one whose workbook holds no record; the records of any other are stored.
pub fn plan_import(data: &[u8]) -> (res: ImportStep)
    ensures
        data@.len() == 0 ==> (res matches ImportStep::Answer(r) && r@ == (ReplyView::Failure {
            message: "上传文件为空"@,
        })),
        data@.len() > 0 ==> match xlsx_sheets(data@) {
            None => res matches ImportStep::Answer(r) && r@ == (ReplyView::Failure {
                message: "文件解析失败: "@ + unreadable_text(),
            }),
            Some(s) => if first_sheet_records(s).len() == 0 {
                res matches ImportStep::Answer(r) && r@ == (ReplyView::Failure {
                    message: "未能从文件中解析到有效数据"@,
                })
            } else {
                res matches ImportStep::Insert(records) && records.deep_view()
                    == first_sheet_records(s)
            },
        },
{
    if data.len() == 0 {
        return ImportStep::Answer(Reply::Failure { message: String::from_str("上传文件为空") });
    }
    match parse_excel(data) {
        Err(e) => ImportStep::Answer(
            Reply::Failure { message: prefixed("文件解析失败: ", e.message().as_str()) },
        ),
        Ok(records) => {
            if records.len() == 0 {
                ImportStep::Answer(
                    Reply::Failure { message: String::from_str("未能从文件中解析到有效数据") },
                )
            } else {
                ImportStep::Insert(records)
            }
        },
    }
}

/// The reply once the records of an upload were stored, or failed to be.
pub fn import_reply(result: Result<usize, String>) -> (res: Reply)
    ensures
        match result {
            Ok(n) => res@ == (ReplyView::Done { count: n }),
            Err(e) => res@ == (ReplyView::Failure { message: "数据库写入失败: "@ + e@ }),
        },
{
    match result {
        Ok(n) => Reply::Done { count: n },
        Err(e) => Reply::Failure { message: prefixed("数据库写入失败: ", e.as_str()) },
    }
}

/// Where reading an upload failed.
pub enum UploadFault {
    /// A part of the form could not be read.
    Part,
    /// The content of a part could not be read.
    Content,
}

/// The reply to an upload that could not be read.
pub fn upload_fault_reply(fault: UploadFault) -> (res: Reply)
    ensures
        match fault {
            UploadFault::Part => res@ == (ReplyView::Failure {
                message: "读取上传文件失败，请检查文件名是否为中文或特殊字符"@,
            }),
            UploadFault::Content => res@ == (ReplyView::Failure { message: "读取文件内容失败"@ }),
        },
{
    match fault {
        UploadFault::Part => Reply::Failure {
            message: String::from_str("读取上传文件失败，请检查文件名是否为中文或特殊字符"),
        },
        UploadFault::Content => Reply::Failure { message: String::from_str("读取文件内容失败") },
    }
}

/// The reply once every record was deleted, or failed to be.
pub fn clear_reply(result: Result<usize, String>) -> (res: Reply)
    ensures
        match result {
            Ok(n) => res@ == (ReplyView::Done { count: n }),
            Err(e) => res@ == (ReplyView::Failure { message: "清空失败: "@ + e@ }),
        },
{
    match result {
        Ok(n) => Reply::Done { count: n },
        Err(e) => Reply::Failure { message: prefixed("清空失败: ", e.as_str()) },
    }
}

/// The reply to a change of one record: done where a record was changed,
/// refused where none has the id, failed where the database failed.
fn record_change_reply(result: Result<bool, String>, failure: &str) -> (res: Reply)
    ensures
        match result {
            Ok(true) => res@ == ReplyView::Success,
            Ok(false) => res@ == (ReplyView::Failure { message: "未找到该记录"@ }),
            Err(e) => res@ == (ReplyView::Failure { message: failure@ + e@ }),
        },
{
    match result {
        Ok(true) => Reply::Success,
        Ok(false) => Reply::Failure { message: String::from_str("未找到该记录") },
        Err(e) => Reply::Failure { message: prefixed(failure, e.as_str()) },
    }
}

/// The reply to an edit of one record.
pub fn update_reply(result: Result<bool, String>) -> (res: Reply)
    ensures
        match result {
            Ok(true) => res@ == ReplyView::Success,
            Ok(false) => res@ == (ReplyView::Failure { message: "未找到该记录"@ }),
            Err(e) => res@ == (ReplyView::Failure { message: "更新失败: "@ + e@ }),
        },
{
    record_change_reply(result, "更新失败: ")
}

/// The reply to a deletion of one record.
pub fn delete_reply(result: Result<bool, String>) -> (res: Reply)
    ensures
        match result {
            Ok(true) => res@ == ReplyView::Success,
            Ok(false) => res@ == (ReplyView::Failure { message: "未找到该记录"@ }),
            Err(e) => res@ == (ReplyView::Failure { message: "删除失败: "@ + e@ }),
        },
{
    record_change_reply(result, "删除失败: ")
}

/// The reply to a request for the import template: the file, or the error.
pub fn template_reply(result: Result<Vec<u8>, String>) -> (res: Reply)
    ensures
        match result {
            Ok(d) => res@ == (ReplyView::File { data: d@ }),
            Err(e) => res@ == (ReplyView::Error { error: "生成模板失败: "@ + e@ }),
        },
{
    match result {
        Ok(data) => Reply::File { data },
        Err(e) => Reply::Error { error: prefixed("生成模板失败: ", e.as_str()) },
    }
}

} // verus!
