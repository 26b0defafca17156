//! Streaming a report in pages: how many rows each page asks for, when the
//! stream stops, and the count and page queries over a report's base table
//! expression.
use vstd::prelude::*;
use crate::text::{append_dec, dec, push_char};

verus! {

pub const STREAM_CHUNK_SIZE: i64 = 2000;

/// The rows the next page asks for, or nothing when a preview limit has
/// been reached: a full page, or what remains under the limit.
pub open spec fn fetch_size_of(offset: int, preview_limit: Option<i64>) -> Option<int> {
    match preview_limit {
        Some(l) if l > 0 => if offset >= l {
            None
        } else if l - offset < STREAM_CHUNK_SIZE {
            Some(l - offset)
        } else {
            Some(STREAM_CHUNK_SIZE as int)
        },
        _ => Some(STREAM_CHUNK_SIZE as int),
    }
}

/// The size of the next page of a stream.
pub fn stream_fetch_size(offset: i64, preview_limit: Option<i64>) -> (r: Option<i64>)
    requires
        offset >= 0,
    ensures
        match r {
            Some(f) => fetch_size_of(offset as int, preview_limit) == Some(f as int),
            None => fetch_size_of(offset as int, preview_limit) is None,
        },
        r matches Some(f) ==> 0 < f <= STREAM_CHUNK_SIZE,
        r matches Some(f) ==> (preview_limit matches Some(l) ==> (l > 0 ==> offset + f <= l)),
{
    match preview_limit {
        Some(l) => {
            if l > 0 {
                if offset >= l {
                    None
                } else if l - offset < STREAM_CHUNK_SIZE {
                    Some(l - offset)
                } else {
                    Some(STREAM_CHUNK_SIZE)
                }
            } else {
                Some(STREAM_CHUNK_SIZE)
            }
        },
        None => Some(STREAM_CHUNK_SIZE),
    }
}

/// Where the next page starts, or nothing once a page came back short.
pub fn stream_next_offset(offset: i64, fetched: i64, fetch_size: i64) -> (r: Option<i64>)
    requires
        0 <= offset,
        0 <= fetched <= fetch_size,
        offset + fetch_size <= i64::MAX,
    ensures
        fetched < fetch_size ==> r is None,
        fetched >= fetch_size ==> r == Some((offset + fetched) as i64),
{
    if fetched < fetch_size {
        None
    } else {
        Some(offset + fetched)
    }
}

/// `{}` of a signed integer.
pub open spec fn int_text(n: int) -> Seq<char> {
    if n < 0 {
        seq!['-'] + dec((-n) as nat)
    } else {
        dec(n as nat)
    }
}

pub(crate) fn append_i64(out: &mut String, n: i64)
    ensures
        final(out)@ == old(out)@ + int_text(n as int),
{
    if n < 0 {
        push_char(out, '-');
        let m: u64 = if n == i64::MIN {
            9223372036854775808
        } else {
            (-n) as u64
        };
        append_dec(out, m);
        assert(out@ =~= old(out)@ + (seq!['-'] + dec(m as nat)));
    } else {
        append_dec(out, n as u64);
    }
}

/// The number of rows a stream will send.
pub open spec fn count_query_text(base: Seq<char>) -> Seq<char> {
    base + " SELECT COUNT(*) AS total FROM base WHERE parsed_date IS NOT NULL"@
}

pub fn count_query(base_cte: &str) -> (r: String)
    ensures
        r@ == count_query_text(base_cte@),
{
    let mut r = String::from_str(base_cte);
    r.append(" SELECT COUNT(*) AS total FROM base WHERE parsed_date IS NOT NULL");
    r
}

/// The paging clause of a page.
pub open spec fn page_text(order_by: Seq<char>, offset: int, fetch: int) -> Seq<char> {
    "\nFROM base\nWHERE parsed_date IS NOT NULL\nORDER BY "@ + order_by + "\nOFFSET "@ + int_text(offset)
        + " ROWS FETCH NEXT "@ + int_text(fetch) + " ROWS ONLY"@
}

fn append_page(r: &mut String, order_by: &str, offset: i64, fetch: i64)
    ensures
        final(r)@ == old(r)@ + page_text(order_by@, offset as int, fetch as int),
{
    r.append("\nFROM base\nWHERE parsed_date IS NOT NULL\nORDER BY ");
    r.append(order_by);
    r.append("\nOFFSET ");
    append_i64(r, offset);
    r.append(" ROWS FETCH NEXT ");
    append_i64(r, fetch);
    r.append(" ROWS ONLY");
}

pub open spec fn ledger_columns() -> Seq<char> {
    "\nSELECT CONVERT(char(10), parsed_date, 103) AS [date], journal, account_no, account_label, ref_piece, lettrage, debit, credit"@
}

pub open spec fn auxiliary_columns() -> Seq<char> {
    "\nSELECT account_no, account_label, tiers_code, tiers_name, CONVERT(char(10), parsed_date, 103) AS [date], journal, description, ref_piece, lettrage, debit, credit"@
}

/// One page of a streamed General Ledger.
pub fn ledger_page_query(base_cte: &str, order_by: &str, offset: i64, fetch: i64) -> (r: String)
    ensures
        r@ == base_cte@ + ledger_columns() + page_text(order_by@, offset as int, fetch as int),
{
    let mut r = String::from_str(base_cte);
    r.append("\nSELECT CONVERT(char(10), parsed_date, 103) AS [date], journal, account_no, account_label, ref_piece, lettrage, debit, credit");
    append_page(&mut r, order_by, offset, fetch);
    r
}

/// One page of a streamed auxiliary ledger.
pub fn auxiliary_page_query(base_cte: &str, order_by: &str, offset: i64, fetch: i64) -> (r: String)
    ensures
        r@ == base_cte@ + auxiliary_columns() + page_text(order_by@, offset as int, fetch as int),
{
    let mut r = String::from_str(base_cte);
    r.append("\nSELECT account_no, account_label, tiers_code, tiers_name, CONVERT(char(10), parsed_date, 103) AS [date], journal, description, ref_piece, lettrage, debit, credit");
    append_page(&mut r, order_by, offset, fetch);
    r
}

} // verus!
