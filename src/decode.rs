use vstd::prelude::*;

use crate::enrich::FetchFault;
use crate::model::MempoolSnapshot;

verus! {

pub open spec fn is_digit(c: char) -> bool {
    '0' <= c && c <= '9'
}

/// The value of a string of decimal digits.
pub open spec fn decimal_value(s: Seq<char>) -> nat
    decreases s.len(),
{
    if s.len() == 0 {
        0
    } else {
        decimal_value(s.drop_last()) * 10 + (s.last() as nat - '0' as nat) as nat
    }
}

/// A non-empty string of decimal digits without a superfluous leading zero.
pub open spec fn is_canonical_decimal(s: Seq<char>) -> bool {
    &&& s.len() > 0
    &&& forall|i: int| 0 <= i < s.len() ==> is_digit(#[trigger] s[i])
    &&& (s.len() == 1 || s[0] != '0')
}

/// Relies on serde_json::from_str::<u64>: a JSON document that is a single
/// integer literal in range decodes to that integer.
#[verifier::external_body]
fn json_u64(text: &str) -> (r: Option<u64>)
    ensures
        is_canonical_decimal(text@) && decimal_value(text@) <= u64::MAX ==> r == Some(
            decimal_value(text@) as u64,
        ),
{
    serde_json::from_str::<u64>(text).ok()
}

/// Decodes the body of the mempool source, a bare JSON integer.
pub fn decode_mempool(body: &str) -> (r: Result<MempoolSnapshot, FetchFault>)
    ensures
        is_canonical_decimal(body@) && decimal_value(body@) <= u64::MAX ==> r == Ok::<
            MempoolSnapshot,
            FetchFault,
        >(MempoolSnapshot { pending_count: decimal_value(body@) as u64 }),
        r is Err ==> r == Err::<MempoolSnapshot, FetchFault>(FetchFault::Malformed),
{
    match json_u64(body) {
        Some(n) => Ok(MempoolSnapshot { pending_count: n }),
        None => Err(FetchFault::Malformed),
    }
}

} // verus!
