//! The server's reply to a search, and the results drawn from it.

use vstd::prelude::*;

use crate::error::Error;
use crate::json::JsonValue;
use crate::sauce::{Sauce, SauceView, sauce_views};
use crate::sources::{get_source, source_name};
use crate::text::{
    all_digits, decimal_u32, digit_value, digits_value, find_char, first_index_of, is_digits,
    parse_u32,
};

verus! {

/// The header of the server's reply.
#[derive(Debug)]
pub struct ResponseHeader {
    /// Negative where the search failed.
    pub status: i32,
    pub message: String,
    /// The number of searches allowed in a short period, in decimal.
    pub short_limit: String,
    /// The number of searches allowed in a long period, in decimal.
    pub long_limit: String,
    pub short_remaining: u32,
    pub long_remaining: u32,
}

/// One result of the server's reply.
#[derive(Debug)]
pub struct ResultEntry {
    /// The similarity in percent, in decimal, such as `93.45`.
    pub similarity: String,
    pub thumbnail: String,
    /// The name of the index, such as `Index #5: Pixiv Images - 1234.jpg`.
    pub index_name: String,
    pub index_id: u32,
    pub ext_urls: Vec<String>,
    pub title: Option<String>,
    /// The further fields of the result's data.
    pub additional_fields: Vec<(String, JsonValue)>,
}

/// The server's reply to a search.
#[derive(Debug)]
pub struct SearchResponse {
    pub header: ResponseHeader,
    pub results: Option<Vec<ResultEntry>>,
}

/// The hundredths in the fraction digits `f`: its first two digits, the
/// rest dropped.
pub open spec fn fraction_hundredths(f: Seq<char>) -> nat {
    (if f.len() > 0 {
        digit_value(f[0]) * 10
    } else {
        0
    }) + (if f.len() > 1 {
        digit_value(f[1])
    } else {
        0
    })
}

/// The percentage that `s` writes in decimal (digits, and a `.` with more
/// digits after it), in hundredths, where it fits a `u32`.
pub open spec fn similarity_hundredths(s: Seq<char>) -> Option<u32> {
    let d = first_index_of(s, '.');
    let whole = s.take(d);
    let fraction = if d < s.len() {
        s.skip(d + 1)
    } else {
        Seq::empty()
    };
    if is_digits(whole) && (d < s.len() ==> is_digits(fraction)) && digits_value(whole) * 100
        + fraction_hundredths(fraction) <= u32::MAX {
        Some((digits_value(whole) * 100 + fraction_hundredths(fraction)) as u32)
    } else {
        None
    }
}

/// The index number in an index name: the text between its first `#` and the
/// next `#`, in the part before its first `:`.
pub open spec fn index_number(name: Seq<char>) -> Option<u32> {
    let head = name.take(first_index_of(name, ':'));
    let h = first_index_of(head, '#');
    if h < head.len() {
        let rest = head.skip(h + 1);
        decimal_u32(rest.take(first_index_of(rest, '#')))
    } else {
        None
    }
}

/// Whether a result of similarity `similarity` with `n_urls` links is kept
/// under the threshold `threshold` and the empty-URL filter `filter`.
pub open spec fn kept(similarity: u32, n_urls: nat, threshold: u32, filter: bool) -> bool {
    similarity >= threshold && (!filter || n_urls > 0)
}

/// The result that entry `e` gives, with similarity `similarity`, from the
/// database with index `index`. Where the index is unknown, the site is the
/// index name and the further fields are dropped.
pub open spec fn sauce_of(e: ResultEntry, similarity: u32, index: u32) -> SauceView {
    SauceView {
        ext_urls: e.ext_urls.deep_view(),
        title: e.title.deep_view(),
        site: match source_name(index) {
            Some(n) => n,
            None => e.index_name@,
        },
        index,
        index_id: e.index_id,
        similarity,
        thumbnail: e.thumbnail@,
        additional_fields: match source_name(index) {
            Some(_) => Some(JsonValue::Object(e.additional_fields)),
            None => None,
        },
    }
}

/// What entry `e` gives: `None` where it is malformed, `Some(None)` where it
/// is left out, and `Some(Some(s))` where it gives the result `s`.
pub open spec fn entry_outcome(e: ResultEntry, threshold: u32, filter: bool) -> Option<
    Option<SauceView>,
> {
    match similarity_hundredths(e.similarity@) {
        None => None,
        Some(sim) => if !kept(sim, e.ext_urls@.len(), threshold, filter) {
            Some(None)
        } else {
            match index_number(e.index_name@) {
                None => None,
                Some(index) => Some(Some(sauce_of(e, sim, index))),
            }
        },
    }
}

/// The results that `entries` give, in order, or `None` where one of them is
/// malformed.
pub open spec fn results_of(entries: Seq<ResultEntry>, threshold: u32, filter: bool) -> Option<
    Seq<SauceView>,
>
    decreases entries.len(),
{
    if entries.len() == 0 {
        Some(Seq::empty())
    } else {
        match entry_outcome(entries[0], threshold, filter) {
            None => None,
            Some(first) => match results_of(entries.skip(1), threshold, filter) {
                None => None,
                Some(rest) => Some(
                    match first {
                        Some(s) => seq![s] + rest,
                        None => rest,
                    },
                ),
            },
        }
    }
}

/// `done` followed by what `rest` holds, if it holds anything.
pub open spec fn prepend(done: Seq<SauceView>, rest: Option<Seq<SauceView>>) -> Option<
    Seq<SauceView>,
> {
    match rest {
        Some(r) => Some(done + r),
        None => None,
    }
}

/// Returns the percentage that `s` writes in decimal, in hundredths.
pub fn parse_similarity(s: &str) -> (r: Option<u32>)
    ensures
        r == similarity_hundredths(s@),
{
    let n = s.unicode_len();
    let d = find_char(s, '.');
    let whole = s.substring_char(0, d);
    let whole_value = match parse_u32(whole) {
        Some(w) => w as u64,
        None => {
            if all_digits(whole) {
                assert(digits_value(whole@) > u32::MAX);
            }
            return None;
        },
    };
    let mut hundredths: u64 = 0;
    if d < n {
        let fraction = s.substring_char(d + 1, n);
        if !all_digits(fraction) {
            return None;
        }
        assert(fraction@ =~= s@.skip(d + 1));
        let c0 = fraction.get_char(0);
        hundredths = (c0 as u32 - '0' as u32) as u64 * 10;
        if fraction.unicode_len() > 1 {
            let c1 = fraction.get_char(1);
            hundredths = hundredths + (c1 as u32 - '0' as u32) as u64;
        }
    }
    let value = whole_value * 100 + hundredths;
    if value > u32::MAX as u64 {
        None
    } else {
        Some(value as u32)
    }
}

/// Returns the index number in an index name.
pub fn parse_index(name: &str) -> (r: Option<u32>)
    ensures
        r == index_number(name@),
{
    let colon = find_char(name, ':');
    let head = name.substring_char(0, colon);
    let h = find_char(head, '#');
    if h >= head.unicode_len() {
        return None;
    }
    let rest = head.substring_char(h + 1, head.unicode_len());
    assert(rest@ =~= head@.skip(h + 1));
    let end = find_char(rest, '#');
    parse_u32(rest.substring_char(0, end))
}

/// Returns what entry `e` gives: an error where it is malformed, `None` where
/// it is left out, and the result that it gives.
fn entry_result(e: ResultEntry, threshold: u32, filter: bool) -> (r: Result<Option<Sauce>, Error>)
    ensures
        match r {
            Ok(Some(s)) => entry_outcome(e, threshold, filter) == Some(Some(s@)),
            Ok(None) => entry_outcome(e, threshold, filter) == Some(None::<SauceView>),
            Err(err) => entry_outcome(e, threshold, filter) is None && err is InvalidResponse,
        },
{
    let similarity = match parse_similarity(e.similarity.as_str()) {
        Some(s) => s,
        None => {
            return Err(
                Error::InvalidResponse(String::from_str("a result's similarity is not a number.")),
            )
        },
    };
    if !(similarity >= threshold && (!filter || e.ext_urls.len() > 0)) {
        return Ok(None);
    }
    let index = match parse_index(e.index_name.as_str()) {
        Some(i) => i,
        None => {
            return Err(
                Error::InvalidResponse(String::from_str("a result's index name holds no index.")),
            )
        },
    };
    let ghost expected = sauce_of(e, similarity, index);
    let sauce = match get_source(index) {
        Some(source) => Sauce {
            ext_urls: e.ext_urls,
            title: e.title,
            site: String::from_str(source.name),
            index,
            index_id: e.index_id,
            similarity,
            thumbnail: e.thumbnail,
            additional_fields: Some(JsonValue::Object(e.additional_fields)),
        },
        None => Sauce {
            ext_urls: e.ext_urls,
            title: e.title,
            site: e.index_name,
            index,
            index_id: e.index_id,
            similarity,
            thumbnail: e.thumbnail,
            additional_fields: None,
        },
    };
    assert(sauce@ == expected);
    Ok(Some(sauce))
}

/// Returns the results that `entries` give, in order: those whose similarity
/// reaches `threshold` (in hundredths of a percent) and, where `filter` is set,
/// that have a link. An entry with a malformed similarity, or a kept entry with
/// a malformed index name, gives an error.
pub fn collect_sauces(entries: Vec<ResultEntry>, threshold: u32, filter: bool) -> (r: Result<
    Vec<Sauce>,
    Error,
>)
    ensures
        match r {
            Ok(v) => results_of(entries@, threshold, filter) == Some(sauce_views(v@)),
            Err(e) => results_of(entries@, threshold, filter) is None && e is InvalidResponse,
        },
{
    let mut rest = entries;
    let mut out: Vec<Sauce> = Vec::new();
    while rest.len() > 0
        invariant
            results_of(entries@, threshold, filter) == prepend(
                sauce_views(out@),
                results_of(rest@, threshold, filter),
            ),
        decreases rest@.len(),
    {
        let ghost before = rest@;
        let e = rest.remove(0);
        assert(rest@ =~= before.skip(1));
        let ghost done = sauce_views(out@);
        match entry_result(e, threshold, filter) {
            Ok(Some(s)) => {
                out.push(s);
                assert(sauce_views(out@) =~= done + seq![s@]);
                proof {
                    match results_of(rest@, threshold, filter) {
                        Some(t) => {
                            assert(done + (seq![s@] + t) =~= sauce_views(out@) + t);
                        },
                        None => {},
                    }
                }
            },
            Ok(None) => {},
            Err(err) => {
                return Err(err);
            },
        }
    }
    assert(sauce_views(out@) + Seq::empty() =~= sauce_views(out@));
    Ok(out)
}

} // verus!
