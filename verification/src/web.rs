//! What a handler answers: the error it fails with, or the envelope of a
//! successful reply.

use vstd::prelude::*;
use vstd::string::StringExecFns;

verus! {

/// Why a request failed.
#[derive(Debug)]
pub enum Reason {
    /// The query string or body was absent.
    MissingParameters,
    /// The query string of a lookup by name was absent.
    MissingQueryParameters,
    /// The `account` header was absent or empty.
    NoAccount,
    /// No record has the given id.
    RecordNotFound,
    /// No reporter has the given id.
    UserNotFound,
    /// Inserting a reporter changed no row.
    InsertUserFailed,
    /// A similarity search named neither a title nor a content.
    TitleOrContentRequired,
    /// An error of the database, the request parser or another service, by its message.
    Backend(String),
}

/// The error a handler fails with; its message is what the client reads.
#[derive(Debug)]
pub struct WebErr {
    pub reason: Reason,
}

/// The text of each reason.
pub open spec fn reason_text(r: Reason) -> Seq<char> {
    match r {
        Reason::MissingParameters => "Missing parameters"@,
        Reason::MissingQueryParameters => "Missing query parameters"@,
        Reason::NoAccount => "no account"@,
        Reason::RecordNotFound => "未找到指定的记录"@,
        Reason::UserNotFound => "用户不存在"@,
        Reason::InsertUserFailed => "插入用户失败"@,
        Reason::TitleOrContentRequired => "Either title or content must be provided"@,
        Reason::Backend(m) => m@,
    }
}

impl WebErr {
    /// An error for the given reason.
    pub fn new(reason: Reason) -> (e: WebErr)
        ensures
            e.reason == reason,
    {
        WebErr { reason }
    }

    /// An error that carries the message of a failure elsewhere.
    pub fn from_message(message: String) -> (e: WebErr)
        ensures
            e.reason == Reason::Backend(message),
    {
        WebErr { reason: Reason::Backend(message) }
    }

    /// The message that the client reads.
    pub fn message(&self) -> (m: String)
        ensures
            m@ == reason_text(self.reason),
    {
        let mut m = String::new();
        match &self.reason {
            Reason::MissingParameters => m.append("Missing parameters"),
            Reason::MissingQueryParameters => m.append("Missing query parameters"),
            Reason::NoAccount => m.append("no account"),
            Reason::RecordNotFound => m.append("未找到指定的记录"),
            Reason::UserNotFound => m.append("用户不存在"),
            Reason::InsertUserFailed => m.append("插入用户失败"),
            Reason::TitleOrContentRequired => m.append("Either title or content must be provided"),
            Reason::Backend(s) => m.append(s.as_str()),
        }
        m
    }
}

/// The `errMsg` of a successful reply.
#[derive(Debug, Clone, Copy, PartialEq, Eq)]
pub enum Notice {
    Empty,
    Success,
    Done,
    QueryOk,
    Created,
    Updated,
    Deleted,
    Inserted,
    ArticleCreated,
    ArticleUpdated,
    ArticleDeleted,
    PageMetaOk,
    CategoriesOk,
    ReportersOk,
    AccountData,
    SimilarFound,
}

/// The text of each notice.
pub open spec fn notice_text(n: Notice) -> Seq<char> {
    match n {
        Notice::Empty => ""@,
        Notice::Success => "success"@,
        Notice::Done => "操作成功"@,
        Notice::QueryOk => "查询成功"@,
        Notice::Created => "新建成功"@,
        Notice::Updated => "更新成功"@,
        Notice::Deleted => "删除成功"@,
        Notice::Inserted => "插入成功"@,
        Notice::ArticleCreated => "文章新建成功"@,
        Notice::ArticleUpdated => "文章更新成功"@,
        Notice::ArticleDeleted => "文章删除成功"@,
        Notice::PageMetaOk => "页面元数据查询成功"@,
        Notice::CategoriesOk => "获取记者分类成功"@,
        Notice::ReportersOk => "记者列表数据获取成功"@,
        Notice::AccountData => "account data got"@,
        Notice::SimilarFound => "相似文章查询成功"@,
    }
}

impl Notice {
    /// The text of this notice.
    pub fn text(&self) -> (t: String)
        ensures
            t@ == notice_text(*self),
    {
        let mut t = String::new();
        match self {
            Notice::Empty => {
                proof {
                    reveal_strlit("");
                }
            },
            Notice::Success => t.append("success"),
            Notice::Done => t.append("操作成功"),
            Notice::QueryOk => t.append("查询成功"),
            Notice::Created => t.append("新建成功"),
            Notice::Updated => t.append("更新成功"),
            Notice::Deleted => t.append("删除成功"),
            Notice::Inserted => t.append("插入成功"),
            Notice::ArticleCreated => t.append("文章新建成功"),
            Notice::ArticleUpdated => t.append("文章更新成功"),
            Notice::ArticleDeleted => t.append("文章删除成功"),
            Notice::PageMetaOk => t.append("页面元数据查询成功"),
            Notice::CategoriesOk => t.append("获取记者分类成功"),
            Notice::ReportersOk => t.append("记者列表数据获取成功"),
            Notice::AccountData => t.append("account data got"),
            Notice::SimilarFound => t.append("相似文章查询成功"),
        }
        t
    }
}

/// The `data` of a reply whose data the handler computes itself.
#[derive(Debug, Clone, Copy, PartialEq, Eq)]
pub enum Data {
    /// JSON `null`.
    Null,
    /// The empty string.
    EmptyText,
    /// A number of rows that a statement changed.
    Rows(u64),
    /// The id of a row that a statement inserted.
    RowId(i64),
}

/// A successful reply: `{"success": true, "errMsg": .., "data": ..}`.
#[derive(Debug, Clone, Copy, PartialEq, Eq)]
pub struct Reply {
    pub notice: Notice,
    pub data: Data,
}

/// The settings the service is started with.
#[derive(Debug)]
pub struct Config {
    pub port: u32,
    pub db_path: String,
    pub newspaper_zsrb_db_path: String,
    pub newspaper_db_path: String,
}

} // verus!
