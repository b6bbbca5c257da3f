//! The newspaper pages that articles are placed on.

use vstd::prelude::*;
use crate::handler::statement::{bind_values, statement, Bind, BindValue, Statement};

verus! {

/// The page listing endpoint.
pub struct GetPageMeta;

/// The page listing takes no parameters.
#[derive(Debug)]
pub struct GetPageMetaReq;

/// A newspaper page.
#[derive(Debug)]
pub struct PageMeta {
    pub id: i64,
    pub paper_name: String,
    pub page_no: String,
}

/// Every newspaper page.
pub const PAGE_META_SQL: &'static str = "\n            select * from page_meta\n        ";

/// The query of every newspaper page; it binds nothing.
pub fn page_meta_query() -> (s: Statement)
    ensures
        s@ == (PAGE_META_SQL@, Seq::<BindValue>::empty()),
{
    let binds: Vec<Bind> = Vec::new();
    proof {
        assert(bind_values(binds@) =~= Seq::<BindValue>::empty());
    }
    statement(PAGE_META_SQL, binds)
}

} // verus!
