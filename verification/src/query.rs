//! The query handler: the ten bookings with the highest totals.

use crate::error::{error_reply, error_response, RequestError};
use crate::response::{Body, BodyView, ContentType, Response, ResponseView, OK};
use vstd::prelude::*;

verus! {

/// `chrono::NaiveDateTime`, a date and time without a zone. The library
/// hands such a value on and looks at nothing in it; every one is meant as
/// UTC.
#[verifier::external_type_specification]
#[verifier::external_body]
pub struct ExNaiveDateTime(chrono::NaiveDateTime);

/// `bigdecimal::BigDecimal`, a decimal number of any precision. The library
/// hands such a value on and looks at nothing in it.
#[verifier::external_type_specification]
#[verifier::external_body]
pub struct ExBigDecimal(bigdecimal::BigDecimal);

/// A booking, as the `bookings` table holds it.
#[derive(Debug, PartialEq)]
pub struct Bookings {
    /// The booking's reference (column `book_ref`).
    pub id: String,
    /// When it was made, in UTC (column `book_date`).
    pub date: chrono::NaiveDateTime,
    /// What it cost (column `total_amount`).
    pub total: bigdecimal::BigDecimal,
}

/// The column that holds a booking's reference.
pub const ID_COLUMN: &'static str = "book_ref";

/// The column that holds a booking's date.
pub const DATE_COLUMN: &'static str = "book_date";

/// The column that holds a booking's total.
pub const TOTAL_COLUMN: &'static str = "total_amount";

/// The query that the handler has the database run. Order and number of the
/// records are the database's work: highest total first, ties as the
/// database leaves them, and no more than ten rows.
pub const SQL: &'static str =
    "\nSELECT   *\nFROM     bookings\nORDER BY total_amount desc\nLIMIT    10\n        ";

/// The response for the rows that the database gave, or for its failure.
pub open spec fn query_reply(rows: Option<Seq<Bookings>>) -> ResponseView {
    match rows {
        Some(records) => ResponseView {
            status: OK,
            content_type: Some(ContentType::Json),
            x_app: None,
            body: BodyView::Records(records),
        },
        None => error_reply(RequestError::Database),
    }
}

/// Answers `GET /query`. `rows` is what the database returned for `SQL`, or
/// `None` where the query failed. The rows become the records of the
/// response, each one as it is and in the database's order; a failure becomes
/// a response that says nothing of its cause.
pub fn query(rows: Option<Vec<Bookings>>) -> (reply: Response)
    ensures
        reply@ == query_reply(
            match rows {
                Some(records) => Some(records@),
                None => None,
            },
        ),
{
    match rows {
        Some(records) => Response {
            status: OK,
            content_type: Some(ContentType::Json),
            x_app: None,
            body: Body::Records(records),
        },
        None => error_response(RequestError::Database),
    }
}

} // verus!
