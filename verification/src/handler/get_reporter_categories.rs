//! The categories of reporters.

use vstd::prelude::*;
use crate::handler::statement::{bind_values, statement, Bind, BindValue, Statement};

verus! {

/// The category listing endpoint.
pub struct GetReporterCategories;

/// The category listing takes no parameters.
#[derive(Debug)]
pub struct GetReporterCategoriesReq;

/// Every reporter category, by id and name.
pub const CATEGORIES_SQL: &'static str = "\n            select id, name from reporter_category\n        ";

/// The query of every reporter category; it binds nothing.
pub fn categories_query() -> (s: Statement)
    ensures
        s@ == (CATEGORIES_SQL@, Seq::<BindValue>::empty()),
{
    let binds: Vec<Bind> = Vec::new();
    proof {
        assert(bind_values(binds@) =~= Seq::<BindValue>::empty());
    }
    statement(CATEGORIES_SQL, binds)
}

} // verus!
