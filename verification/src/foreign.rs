//! The calls that the bot makes into code that Verus does not read: the
//! random number generator of `rand`, the clock formatting of `hhmmss` and
//! std's Unicode upper-casing. Each item states what its contract claims of
//! the code it calls.

use crate::text::{decimal, zero_pad};
use hhmmss::Hhmmss;
use rand::seq::IndexedRandom;
use rand::Rng;
use vstd::prelude::*;

verus! {

/// A number drawn by `rand::Rng::random_range` from the thread-local
/// generator `rand::rng()`, over `low..high`. Claimed: the number lies in
/// `low..high` (the range is not empty, so the call does not panic). Which
/// number comes out is left open: it is random.
#[verifier::external_body]
pub(crate) fn random_in_range(low: u32, high: u32) -> (r: u32)
    requires
        low < high,
    ensures
        low <= r < high,
{
    rand::rng().random_range(low..high)
}

/// An element of `items` picked by `rand::seq::IndexedRandom::choose` with
/// the thread-local generator, cloned. Claimed: `None` exactly when `items`
/// is empty, and otherwise a copy of one of the items. Which one is left
/// open: it is random.
#[verifier::external_body]
pub(crate) fn choose_one(items: &Vec<String>) -> (r: Option<String>)
    ensures
        r is None <==> items@.len() == 0,
        r matches Some(s) ==> exists|i: int| 0 <= i < items@.len() && items@[i]@ == s@,
{
    items.as_slice().choose(&mut rand::rng()).cloned()
}

/// What std's `str::to_uppercase` makes of a text: each character replaced
/// by its Unicode upper-case mapping.
pub uninterp spec fn uppercase_of(s: Seq<char>) -> Seq<char>;

/// std's `str::to_uppercase`. Claimed: the result is `uppercase_of` the
/// argument, a function of the argument alone; the Unicode case tables are
/// not written out here.
#[verifier::external_body]
pub(crate) fn to_uppercase(s: &str) -> (r: String)
    ensures
        r@ == uppercase_of(s@),
{
    s.to_uppercase()
}

/// The seconds of a duration as `hhmmss` reads them: the `u64` count taken
/// as an `i64`, so that counts from 2^63 up read as negative.
pub open spec fn seconds_as_read(secs: u64) -> int {
    if secs < 0x8000_0000_0000_0000u64 {
        secs as int
    } else {
        secs as int - 0x1_0000_0000_0000_0000int
    }
}

/// `{:03}` of a possibly negative number: the sign counts toward the width.
pub open spec fn width3(x: int) -> Seq<char> {
    if x < 0 {
        seq!['-'] + zero_pad(decimal((-x) as nat), 2)
    } else {
        zero_pad(decimal(x as nat), 3)
    }
}

/// The `HH:MM:SS.xxx` text that `hhmmss` writes for a duration of `secs`
/// seconds and `nanos` nanoseconds: hours (at least two digits), minutes and
/// seconds (two digits each), then milliseconds (three digits); a minus sign
/// first where the seconds read as negative.
pub open spec fn clock_text(secs: u64, nanos: u32) -> Seq<char> {
    let s = seconds_as_read(secs);
    let neg = s < 0;
    let a: int = if neg { -s } else { s };
    let ms: int = if neg { -((nanos / 1_000_000) as int) } else { (nanos / 1_000_000) as int };
    let h = a / 3600;
    let m = (a % 3600) / 60;
    let sec = (a % 3600) % 60;
    (if neg { seq!['-'] } else { Seq::<char>::empty() }) + zero_pad(decimal(h as nat), 2) + seq![':']
        + zero_pad(decimal(m as nat), 2) + seq![':'] + zero_pad(decimal(sec as nat), 2) + seq!['.']
        + width3(ms)
}

/// `hhmmss::Hhmmss::hhmmssxxx` of the `std::time::Duration` made by
/// `Duration::new(secs, nanos)`. Claimed: the text is `clock_text`, which
/// restates the crate's formatting (`{:02}` fields, `{:03}` milliseconds,
/// seconds read as `i64`). A count of exactly 2^63 seconds is left out: the
/// crate negates `i64::MIN` there, which overflows.
#[verifier::external_body]
pub(crate) fn hhmmssxxx(secs: u64, nanos: u32) -> (r: String)
    requires
        nanos < 1_000_000_000,
        secs != 0x8000_0000_0000_0000u64,
    ensures
        r@ == clock_text(secs, nanos),
{
    std::time::Duration::new(secs, nanos).hhmmssxxx()
}

} // verus!
