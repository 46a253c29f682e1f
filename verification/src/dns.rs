//! The DNS commands: what each asks for, how prompt answers become their
//! arguments, and how a list of records is laid out as a table.

use vstd::prelude::*;
use crate::cloudflare::DnsRecord;
use crate::operations::{pad_right, pad_right_spec};
use crate::text::{
    decimal, decimal_string, is_blank, is_blank_str, lemma_decimal_parses_back, parse_u32,
    parse_u32_spec, trim, trim_str,
};

verus! {

/// A DNS command.
#[derive(Debug, Clone)]
pub enum DnsCommand {
    /// List records, optionally only of one type and one name.
    List { record_type: Option<String>, name: Option<String> },
    /// Create a record or update the one with the same type and name.
    Upsert {
        record_type: String,
        name: String,
        content: String,
        ttl: u32,
        proxied: Option<bool>,
    },
    /// Delete a record by id.
    Delete { record_id: String },
}

/// The value of an optional prompt once its answer (pre-filled with the
/// default) is read: none when the answer is blank, else the answer as
/// typed.
pub fn optional_input_with_default(answer: String) -> (r: Option<String>)
    ensures
        is_blank(answer@) ==> r is None,
        !is_blank(answer@) ==> (r matches Some(v) && v@ == answer@),
{
    if is_blank_str(answer.as_str()) {
        None
    } else {
        Some(answer)
    }
}

/// The TTL a prompt answer gives: the trimmed answer read as a `u32`, and
/// 1 (automatic) when it is not one.
pub open spec fn ttl_answer_spec(answer: Seq<char>) -> u32 {
    match parse_u32_spec(trim(answer)) {
        Some(v) => v,
        None => 1,
    }
}

/// Reads the TTL answer of the upsert prompt.
pub fn ttl_from_answer(answer: &str) -> (r: u32)
    ensures
        r == ttl_answer_spec(answer@),
{
    let t = trim_str(answer);
    match parse_u32(t.as_str()) {
        Some(v) => v,
        None => 1,
    }
}

/// An answer that is a TTL in decimal gives that TTL; in particular the
/// pre-filled `1` gives automatic TTL.
pub proof fn law_ttl_answer_read_back(ttl: u32)
    ensures
        ttl_answer_spec(decimal(ttl as nat)) == ttl,
{
    lemma_decimal_parses_back(ttl);
}

/// What the table shows for the proxied flag.
pub open spec fn proxied_label(p: Option<bool>) -> Seq<char> {
    match p {
        Some(true) => "true"@,
        Some(false) => "false"@,
        None => "-"@,
    }
}

/// A table row: id, type, name, TTL and proxied flag padded to 34, 6, 36,
/// 8 and 7 characters, each followed by a space, then the content.
pub open spec fn table_row(
    id: Seq<char>,
    record_type: Seq<char>,
    name: Seq<char>,
    ttl: Seq<char>,
    proxy: Seq<char>,
    content: Seq<char>,
) -> Seq<char> {
    pad_right_spec(id, 34) + " "@ + pad_right_spec(record_type, 6) + " "@ + pad_right_spec(name, 36)
        + " "@ + pad_right_spec(ttl, 8) + " "@ + pad_right_spec(proxy, 7) + " "@ + content
}

/// The row of one record.
pub open spec fn record_row_spec(r: DnsRecord) -> Seq<char> {
    table_row(r.id@, r.record_type@, r.name@, decimal(r.ttl as nat), proxied_label(r.proxied), r.content@)
}

/// The header row of the table.
pub open spec fn header_row_spec() -> Seq<char> {
    table_row("ID"@, "TYPE"@, "NAME"@, "TTL"@, "PROXY"@, "CONTENT"@)
}

/// Lays out one row from its six cells.
fn format_row(
    id: &str,
    record_type: &str,
    name: &str,
    ttl: &str,
    proxy: &str,
    content: &str,
) -> (r: String)
    ensures
        r@ == table_row(id@, record_type@, name@, ttl@, proxy@, content@),
{
    let mut r = pad_right(id, 34);
    r.append(" ");
    let c = pad_right(record_type, 6);
    r.append(c.as_str());
    r.append(" ");
    let c = pad_right(name, 36);
    r.append(c.as_str());
    r.append(" ");
    let c = pad_right(ttl, 8);
    r.append(c.as_str());
    r.append(" ");
    let c = pad_right(proxy, 7);
    r.append(c.as_str());
    r.append(" ");
    r.append(content);
    r
}

/// Formats the row of one record.
pub fn record_row(record: &DnsRecord) -> (r: String)
    ensures
        r@ == record_row_spec(*record),
{
    let ttl = decimal_string(record.ttl as u64);
    let proxy: &str = match record.proxied {
        Some(true) => "true",
        Some(false) => "false",
        None => "-",
    };
    format_row(
        record.id.as_str(),
        record.record_type.as_str(),
        record.name.as_str(),
        ttl.as_str(),
        proxy,
        record.content.as_str(),
    )
}

/// The lines printed for a list of records: a notice when there is none,
/// otherwise the header and one row per record, in order.
pub fn record_table(records: &[DnsRecord]) -> (r: Vec<String>)
    ensures
        records@.len() == 0 ==> r@.len() == 1 && r@[0]@ == "No DNS records found."@,
        records@.len() > 0 ==> r@.len() == records@.len() + 1 && r@[0]@ == header_row_spec()
            && forall|i: int|
            0 <= i < records@.len() ==> (#[trigger] r@[i + 1])@ == record_row_spec(records@[i]),
{
    let mut out: Vec<String> = Vec::new();
    if records.len() == 0 {
        out.push(String::from_str("No DNS records found."));
        return out;
    }
    out.push(format_row("ID", "TYPE", "NAME", "TTL", "PROXY", "CONTENT"));
    let n = records.len();
    let mut i: usize = 0;
    while i < n
        invariant
            n == records@.len(),
            n > 0,
            i <= n,
            out@.len() == i + 1,
            out@[0]@ == header_row_spec(),
            forall|k: int| 0 <= k < i ==> (#[trigger] out@[k + 1])@ == record_row_spec(records@[k]),
        decreases n - i,
    {
        out.push(record_row(&records[i]));
        i = i + 1;
    }
    out
}

} // verus!
