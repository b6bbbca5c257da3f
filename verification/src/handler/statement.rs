//! A database statement as the handlers hand it to the caller: its text and
//! the values bound to its parameters, in order.

use vstd::prelude::*;

verus! {

/// A value bound to a statement's parameter.
#[derive(Debug)]
pub enum Bind {
    Int(i64),
    Text(String),
}

/// A bound value as contracts speak of it.
pub enum BindValue {
    Int(int),
    Text(Seq<char>),
}

/// The value of a bound value.
pub open spec fn bind_value(b: Bind) -> BindValue {
    match b {
        Bind::Int(i) => BindValue::Int(i as int),
        Bind::Text(s) => BindValue::Text(s@),
    }
}

/// A statement's text and its parameter values, in order.
#[derive(Debug)]
pub struct Statement {
    pub sql: String,
    pub binds: Vec<Bind>,
}

impl View for Statement {
    type V = (Seq<char>, Seq<BindValue>);

    open spec fn view(&self) -> (Seq<char>, Seq<BindValue>) {
        (self.sql@, self.binds@.map_values(|b: Bind| bind_value(b)))
    }
}

/// A text parameter.
pub fn text_bind(s: &String) -> (b: Bind)
    ensures
        bind_value(b) == BindValue::Text(s@),
{
    Bind::Text(s.clone())
}

/// The values of a list of binds, in order.
pub open spec fn bind_values(bs: Seq<Bind>) -> Seq<BindValue> {
    bs.map_values(|b: Bind| bind_value(b))
}

/// A statement of the given text and binds.
pub fn statement(sql: &str, binds: Vec<Bind>) -> (s: Statement)
    ensures
        s@ == (sql@, bind_values(binds@)),
{
    Statement { sql: <String as vstd::string::StringExecFns>::from_str(sql), binds }
}

/// The three parameters of a monthly lookup: reporter, year, month.
pub fn month_binds(reporter_id: u32, year: u32, month: u32) -> (v: Vec<Bind>)
    ensures
        bind_values(v@) == seq![BindValue::Int(reporter_id as int), BindValue::Int(year as int), BindValue::Int(month as int)],
{
    let v = vec![Bind::Int(reporter_id as i64), Bind::Int(year as i64), Bind::Int(month as i64)];
    proof {
        assert(bind_values(v@) =~= seq![BindValue::Int(reporter_id as int), BindValue::Int(year as int), BindValue::Int(month as int)]);
    }
    v
}

} // verus!
