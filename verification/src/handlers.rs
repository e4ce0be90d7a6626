//! The replies of the city endpoints: which status each outcome of a
//! lookup or a write is answered with, and what the reply carries.

use vstd::prelude::*;

use crate::city::City;
use crate::queries::{
    get_one, post_put_or_delete_one, spec_city_of_row, spec_error_message, CityRow,
    QueryBuilderError,
};

verus! {

/// The query parameters of a lookup.
#[derive(Debug, Clone, Copy, PartialEq, Eq, Structural)]
pub struct QueryParams {
    pub id: Option<i32>,
}

/// The `id` query parameter of a request, or none when the request had no
/// query parameters.
pub fn query_val(qval: Option<QueryParams>) -> (r: Option<i32>)
    ensures
        r == (match qval {
            Some(q) => q.id,
            None => None,
        }),
{
    let q = match qval {
        Some(v) => v,
        None => QueryParams { id: None },
    };
    q.id
}

/// What a lookup found.
#[derive(Debug)]
pub enum Fetched {
    /// The query could not be built or run.
    BuildFailed,
    /// The row the query returned.
    Row(CityRow),
    /// The row could not be read as a city; the reason.
    BadRow(String),
}

/// The reply to a lookup.
#[derive(Debug)]
pub enum GetReply {
    /// The query failed: status 500.
    Failed,
    /// The city that was found: status 200.
    Found(City),
    /// The row could not be read: status 400, with the reason.
    RowError(String),
}

impl GetReply {
    /// The HTTP status of the reply.
    pub fn status(&self) -> (r: u16)
        ensures
            r == (match self {
                GetReply::Failed => 500u16,
                GetReply::Found(_) => 200u16,
                GetReply::RowError(_) => 400u16,
            }),
    {
        match self {
            GetReply::Failed => 500,
            GetReply::Found(_) => 200,
            GetReply::RowError(_) => 400,
        }
    }
}

/// The reply to a lookup: the city of the row found, or why there is none.
pub fn get_reply(fetched: Fetched) -> (r: GetReply)
    ensures
        match fetched {
            Fetched::BuildFailed => r is Failed,
            Fetched::Row(row) => r matches GetReply::Found(c) && c@ == spec_city_of_row(&row),
            Fetched::BadRow(e) => r matches GetReply::RowError(m) && m@ == e@,
        },
{
    match fetched {
        Fetched::BuildFailed => GetReply::Failed,
        Fetched::Row(row) => {
            let rows = vec![row];
            GetReply::Found(get_one(rows))
        },
        Fetched::BadRow(e) => GetReply::RowError(e),
    }
}

/// The reply to an insert, update or delete.
#[derive(Debug)]
pub enum WriteReply {
    /// The request body was not a model: status 400, with the text to show.
    Rejected(String),
    /// The query could not be built or run: status 500.
    BuildFailed(QueryBuilderError),
    /// The statement wrote a row: status 204.
    Written,
    /// The statement wrote nothing: status 400, with the message.
    NotWritten(String),
}

impl WriteReply {
    /// The HTTP status of the reply.
    pub fn status(&self) -> (r: u16)
        ensures
            r == (match self {
                WriteReply::Rejected(_) => 400u16,
                WriteReply::BuildFailed(_) => 500u16,
                WriteReply::Written => 204u16,
                WriteReply::NotWritten(_) => 400u16,
            }),
    {
        match self {
            WriteReply::Rejected(_) => 400,
            WriteReply::BuildFailed(_) => 500,
            WriteReply::Written => 204,
            WriteReply::NotWritten(_) => 400,
        }
    }
}

/// The reply to a request whose body was rejected, with the rejection's
/// text: `err : ` and the text.
pub fn rejected_reply(body_text: &str) -> (r: WriteReply)
    ensures
        r matches WriteReply::Rejected(m) && m@ == "err : "@ + body_text@,
{
    let mut m = String::from_str("err : ");
    m.append(body_text);
    WriteReply::Rejected(m)
}

/// The reply to a write once its statement ran (or failed to): a failure
/// answers 500; otherwise the name in the first row returned means the row
/// was written, and no row answers 400 with `No results`.
pub fn write_reply(result: Result<Vec<String>, QueryBuilderError>) -> (r: WriteReply)
    ensures
        match result {
            Err(e) => r == WriteReply::BuildFailed(e),
            Ok(names) => if names.len() > 0 {
                r is Written
            } else {
                r matches WriteReply::NotWritten(m) && m@ == spec_error_message(
                    QueryBuilderError::NoResults,
                )
            },
        },
{
    match result {
        Err(e) => WriteReply::BuildFailed(e),
        Ok(names) => match post_put_or_delete_one(names) {
            Ok(_) => WriteReply::Written,
            Err(e) => WriteReply::NotWritten(e.message()),
        },
    }
}

} // verus!
