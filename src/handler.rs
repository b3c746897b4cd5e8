//! The handler that holds a search configuration and the server's rate limits.

use vstd::prelude::*;

use crate::error::Error;
use crate::mask::{all_have_mask_bits, bitmask, generate_bitmask, mask_in_range};
use crate::response::{collect_sauces, results_of, SearchResponse};
use crate::sauce::{sauce_views, Sauce};
use crate::sources;
use crate::text::{
    decimal, decimal_text, decimal_u32, has_prefix, parse_u32, signed_decimal, signed_decimal_text,
};

verus! {

/// The address of the search service.
pub const API_URL: &'static str = "https://saucenao.com/search.php";

/// The largest number of results that one search may ask for.
pub const MAX_RESULTS: u32 = 999;

/// The largest minimum similarity, in hundredths of a percent.
pub const MAX_SIMILARITY: u32 = 10000;

/// The text of the URL that `base` parses to, with each of `pairs`, in order,
/// appended form-urlencoded to its query; `None` where `base` does not parse.
pub uninterp spec fn url_with_query(base: Seq<char>, pairs: Seq<(Seq<char>, Seq<char>)>) -> Option<
    Seq<char>,
>;

/// Relies on `url::Url::parse_with_params`, which parses `base` and then appends
/// the pairs in order through `form_urlencoded::Serializer::extend_pairs`, and on
/// `String::from(Url)`, which hands back the URL's serialization.
#[verifier::external_body]
fn parse_with_params(base: &str, pairs: &Vec<(String, String)>) -> (r: Result<
    String,
    url::ParseError,
>)
    ensures
        match r {
            Ok(s) => url_with_query(base@, pairs.deep_view()) == Some(s@),
            Err(_) => url_with_query(base@, pairs.deep_view()) is None,
        },
{
    url::Url::parse_with_params(base, pairs.iter()).map(String::from)
}

/// Whether the arguments of one search are in range: at most 999 results and a
/// minimum similarity of at most 100 percent.
pub open spec fn search_args_ok(num_results: Option<u32>, min_similarity: Option<u32>) -> bool {
    (num_results matches Some(n) ==> n <= MAX_RESULTS) && (min_similarity matches Some(m) ==> m
        <= MAX_SIMILARITY)
}

/// What to send for one search.
#[derive(Debug)]
pub struct SearchRequest {
    /// The URL to post to.
    pub url: String,
    /// The local file to upload, where the image is not a link.
    pub upload: Option<String>,
}

/// What a handler holds.
pub ghost struct HandlerView {
    pub api_key: Seq<char>,
    pub output_type: i32,
    pub testmode: Option<i32>,
    pub db_mask: Option<Seq<u32>>,
    pub db_mask_i: Option<Seq<u32>>,
    pub db: Option<u32>,
    pub num_results: Option<i32>,
    pub short_limit: u32,
    pub long_limit: u32,
    pub short_left: u32,
    pub long_left: u32,
    /// In hundredths of a percent.
    pub min_similarity: u32,
    pub empty_filter_enabled: bool,
}

/// A handler to make calls to the search service.
#[derive(Debug, Clone)]
pub struct Handler {
    api_key: String,
    output_type: i32,
    testmode: Option<i32>,
    db_mask: Option<Vec<u32>>,
    db_mask_i: Option<Vec<u32>>,
    db: Option<u32>,
    num_results: Option<i32>,
    short_limit: u32,
    long_limit: u32,
    short_left: u32,
    long_left: u32,
    min_similarity: u32,
    empty_filter_enabled: bool,
}

impl View for Handler {
    type V = HandlerView;

    closed spec fn view(&self) -> HandlerView {
        HandlerView {
            api_key: self.api_key@,
            output_type: self.output_type,
            testmode: self.testmode,
            db_mask: match self.db_mask {
                Some(m) => Some(m@),
                None => None,
            },
            db_mask_i: match self.db_mask_i {
                Some(m) => Some(m@),
                None => None,
            },
            db: self.db,
            num_results: self.num_results,
            short_limit: self.short_limit,
            long_limit: self.long_limit,
            short_left: self.short_left,
            long_left: self.long_left,
            min_similarity: self.min_similarity,
            empty_filter_enabled: self.empty_filter_enabled,
        }
    }
}

/// Whether `path` is a link to an image rather than a local file.
pub open spec fn is_link(path: Seq<char>) -> bool {
    "https://"@.is_prefix_of(path) || "http://"@.is_prefix_of(path)
}

/// Whether every index of the optional mask `m` has a bit in a mask.
pub open spec fn mask_ok(m: Option<Seq<u32>>) -> bool {
    match m {
        Some(s) => all_have_mask_bits(s),
        None => true,
    }
}

/// Whether both masks of `h` can be encoded.
pub open spec fn masks_ok(h: HandlerView) -> bool {
    mask_ok(h.db_mask) && mask_ok(h.db_mask_i)
}

/// The pair of the query that an optional non-empty mask gives under `key`.
pub open spec fn mask_pairs(key: Seq<char>, m: Option<Seq<u32>>) -> Seq<(Seq<char>, Seq<char>)> {
    match m {
        Some(s) => if s.len() > 0 {
            seq![(key, decimal(bitmask(s) as nat))]
        } else {
            seq![]
        },
        None => seq![],
    }
}

/// Whether the mask `m` selects databases, so that no default database is needed.
pub open spec fn mask_selects(m: Option<Seq<u32>>) -> bool {
    match m {
        Some(s) => s.len() > 0,
        None => false,
    }
}

/// The pairs of the query string of a search of `image_path` by a handler
/// holding `h`, in order. `num_results`, where given, overrides the handler's
/// number of results.
pub open spec fn query_pairs(h: HandlerView, image_path: Seq<char>, num_results: Option<u32>) -> Seq<
    (Seq<char>, Seq<char>),
> {
    seq![("api_key"@, h.api_key), ("output_type"@, signed_decimal(h.output_type as int))]
        + match h.db {
        Some(d) => seq![("db"@, decimal(d as nat))],
        None => seq![],
    } + mask_pairs("dbmask"@, h.db_mask) + (if !mask_selects(h.db_mask) && h.db is None {
        seq![("db"@, "999"@)]
    } else {
        seq![]
    }) + mask_pairs("dbmaski"@, h.db_mask_i) + seq![
        (
            "testmode"@,
            match h.testmode {
                Some(t) => signed_decimal(t as int),
                None => "0"@,
            },
        ),
        (
            "numres"@,
            match num_results {
                Some(n) => decimal(n as nat),
                None => match h.num_results {
                    Some(v) => signed_decimal(v as int),
                    None => "999"@,
                },
            },
        ),
    ] + if is_link(image_path) {
        seq![("url"@, image_path)]
    } else {
        seq![]
    }
}

/// Returns whether `path` is a link to an image rather than a local file.
pub fn is_image_link(path: &str) -> (r: bool)
    ensures
        r == is_link(path@),
{
    has_prefix(path, "https://") || has_prefix(path, "http://")
}

fn push_mask_pair(pairs: &mut Vec<(String, String)>, key: &str, m: &Option<Vec<u32>>)
    requires
        match m {
            Some(s) => all_have_mask_bits(s@),
            None => true,
        },
    ensures
        final(pairs).deep_view() == old(pairs).deep_view() + mask_pairs(
            key@,
            match m {
                Some(s) => Some(s@),
                None => None,
            },
        ),
{
    match m {
        Some(s) => {
            if s.len() > 0 {
                let ghost before = pairs.deep_view();
                pairs.push((String::from_str(key), decimal_text(generate_bitmask(s))));
                assert(pairs.deep_view() =~= before + seq![(key@, decimal(bitmask(s@) as nat))]);
            } else {
                assert(pairs.deep_view() =~= old(pairs).deep_view() + seq![]);
            }
        },
        None => {
            assert(pairs.deep_view() =~= old(pairs).deep_view() + seq![]);
        },
    }
}

impl Handler {
    /// Index of H-Magazines.
    pub const H_MAGAZINES: u32 = sources::H_MAGAZINES;
    /// Index of H-Game CG.
    pub const H_GAME_CG: u32 = sources::H_GAME_CG;
    /// Index of DoujinshiDB.
    pub const DOUJINSHI_DB: u32 = sources::DOUJINSHI_DB;
    /// Index of Pixiv.
    pub const PIXIV: u32 = sources::PIXIV;
    /// Index of Nico Nico Seiga.
    pub const NICO_NICO_SEIGA: u32 = sources::NICO_NICO_SEIGA;
    /// Index of Danbooru.
    pub const DANBOORU: u32 = sources::DANBOORU;
    /// Index of drawr Images.
    pub const DRAWR: u32 = sources::DRAWR;
    /// Index of Nijie Images.
    pub const NIJIE: u32 = sources::NIJIE;
    /// Index of Yande.re.
    pub const YANDE_RE: u32 = sources::YANDE_RE;
    /// Index of Shutterstock.
    pub const SHUTTERSTOCK: u32 = sources::SHUTTERSTOCK;
    /// Index of FAKKU.
    pub const FAKKU: u32 = sources::FAKKU;
    /// Index of H-Misc.
    pub const H_MISC: u32 = sources::H_MISC;
    /// Index of 2D-Market.
    pub const TWO_D_MARKET: u32 = sources::TWO_D_MARKET;
    /// Index of MediBang.
    pub const MEDIBANG: u32 = sources::MEDIBANG;
    /// Index of Anime.
    pub const ANIME: u32 = sources::ANIME;
    /// Index of H-Anime.
    pub const H_ANIME: u32 = sources::H_ANIME;
    /// Index of Movies.
    pub const MOVIES: u32 = sources::MOVIES;
    /// Index of Shows.
    pub const SHOWS: u32 = sources::SHOWS;
    /// Index of Gelbooru.
    pub const GELBOORU: u32 = sources::GELBOORU;
    /// Index of Konachan.
    pub const KONACHAN: u32 = sources::KONACHAN;
    /// Index of Sankaku Channel.
    pub const SANKAKU_CHANNEL: u32 = sources::SANKAKU_CHANNEL;
    /// Index of Anime-Pictures.net.
    pub const ANIME_PICTURES_NET: u32 = sources::ANIME_PICTURES_NET;
    /// Index of e621.net.
    pub const E621_NET: u32 = sources::E621_NET;
    /// Index of Idol Complex.
    pub const IDOL_COMPLEX: u32 = sources::IDOL_COMPLEX;
    /// Index of bcy.net Illust.
    pub const BCY_NET_ILLUST: u32 = sources::BCY_NET_ILLUST;
    /// Index of bcy.net Cosplay.
    pub const BCY_NET_COSPLAY: u32 = sources::BCY_NET_COSPLAY;
    /// Index of PortalGraphics.net.
    pub const PORTALGRAPHICS_NET: u32 = sources::PORTALGRAPHICS_NET;
    /// Index of deviantArt.
    pub const DEVIANTART: u32 = sources::DEVIANTART;
    /// Index of Pawoo.net.
    pub const PAWOO_NET: u32 = sources::PAWOO_NET;
    /// Index of Madokami.
    pub const MADOKAMI: u32 = sources::MADOKAMI;
    /// Index of MangaDex.
    pub const MANGADEX: u32 = sources::MANGADEX;

    /// Creates a handler. Its rate limits start at 12 searches a short period
    /// and 200 a long one, its minimum similarity at 0 and its empty-URL filter
    /// off; it asks the server for JSON replies (output type 2).
    pub fn new(
        api_key: &str,
        testmode: Option<i32>,
        db_mask: Option<Vec<u32>>,
        db_mask_i: Option<Vec<u32>>,
        db: Option<u32>,
        num_results: Option<i32>,
    ) -> (r: Handler)
        ensures
            r@ == (HandlerView {
                api_key: api_key@,
                output_type: 2,
                testmode,
                db_mask: match db_mask {
                    Some(m) => Some(m@),
                    None => None,
                },
                db_mask_i: match db_mask_i {
                    Some(m) => Some(m@),
                    None => None,
                },
                db,
                num_results,
                short_limit: 12,
                long_limit: 200,
                short_left: 12,
                long_left: 200,
                min_similarity: 0,
                empty_filter_enabled: false,
            }),
    {
        Handler {
            api_key: String::from_str(api_key),
            output_type: 2,
            testmode,
            db_mask,
            db_mask_i,
            db,
            num_results,
            short_limit: 12,
            long_limit: 200,
            short_left: 12,
            long_left: 200,
            min_similarity: 0,
            empty_filter_enabled: false,
        }
    }

    /// Sets the minimum similarity, in hundredths of a percent, that a result
    /// must reach when a search does not give its own.
    pub fn set_min_similarity(&mut self, min_similarity: u32)
        ensures
            final(self)@ == (HandlerView { min_similarity, ..old(self)@ }),
    {
        self.min_similarity = min_similarity;
    }

    /// Sets whether results without URLs are left out.
    pub fn set_empty_filter(&mut self, enabled: bool)
        ensures
            final(self)@ == (HandlerView { empty_filter_enabled: enabled, ..old(self)@ }),
    {
        self.empty_filter_enabled = enabled;
    }

    /// Returns the number of searches allowed in a short period.
    pub fn get_short_limit(&self) -> (r: u32)
        ensures
            r == self@.short_limit,
    {
        self.short_limit
    }

    /// Returns the number of searches allowed in a long period.
    pub fn get_long_limit(&self) -> (r: u32)
        ensures
            r == self@.long_limit,
    {
        self.long_limit
    }

    /// Returns the number of searches left in the current short period.
    pub fn get_current_short_limit(&self) -> (r: u32)
        ensures
            r == self@.short_left,
    {
        self.short_left
    }

    /// Returns the number of searches left in the current long period.
    pub fn get_current_long_limit(&self) -> (r: u32)
        ensures
            r == self@.long_left,
    {
        self.long_left
    }

    /// Returns the minimum similarity, in hundredths of a percent, that a
    /// result must reach when a search does not give its own.
    pub fn get_min_similarity(&self) -> (r: u32)
        ensures
            r == self@.min_similarity,
    {
        self.min_similarity
    }

    /// Returns whether results without URLs are left out.
    pub fn get_empty_filter(&self) -> (r: bool)
        ensures
            r == self@.empty_filter_enabled,
    {
        self.empty_filter_enabled
    }

    /// Returns the pairs of the query string of a search of `image_path`, or an
    /// error where a mask holds an index that has no bit.
    pub fn query_pairs(&self, image_path: &str, num_results: Option<u32>) -> (r: Result<
        Vec<(String, String)>,
        Error,
    >)
        ensures
            match r {
                Ok(p) => masks_ok(self@) && p.deep_view() == query_pairs(
                    self@,
                    image_path@,
                    num_results,
                ),
                Err(e) => !masks_ok(self@) && e is InvalidParameter,
            },
    {
        let mask_fits = match &self.db_mask {
            Some(m) => mask_in_range(m),
            None => true,
        };
        let mask_i_fits = match &self.db_mask_i {
            Some(m) => mask_in_range(m),
            None => true,
        };
        if !mask_fits || !mask_i_fits {
            return Err(
                Error::invalid_parameter(
                    String::from_str("database masks may only hold indices up to 64."),
                ),
            );
        }
        let ghost h = self@;
        let mut pairs: Vec<(String, String)> = Vec::new();
        pairs.push((String::from_str("api_key"), self.api_key.clone()));
        pairs.push(
            (String::from_str("output_type"), signed_decimal_text(self.output_type as i64)),
        );
        assert(pairs.deep_view() =~= seq![
            ("api_key"@, h.api_key),
            ("output_type"@, signed_decimal(h.output_type as int)),
        ]);
        let ghost p1 = pairs.deep_view();
        match self.db {
            Some(d) => {
                pairs.push((String::from_str("db"), decimal_text(d as u64)));
            },
            None => {},
        }
        assert(pairs.deep_view() =~= p1 + match h.db {
            Some(d) => seq![("db"@, decimal(d as nat))],
            None => seq![],
        });
        push_mask_pair(&mut pairs, "dbmask", &self.db_mask);
        let ghost p2 = pairs.deep_view();
        let selects = match &self.db_mask {
            Some(m) => m.len() > 0,
            None => false,
        };
        if !selects && self.db.is_none() {
            pairs.push((String::from_str("db"), String::from_str("999")));
        }
        assert(pairs.deep_view() =~= p2 + (if !mask_selects(h.db_mask) && h.db is None {
            seq![("db"@, "999"@)]
        } else {
            seq![]
        }));
        push_mask_pair(&mut pairs, "dbmaski", &self.db_mask_i);
        let ghost p3 = pairs.deep_view();
        let testmode = match self.testmode {
            Some(t) => signed_decimal_text(t as i64),
            None => String::from_str("0"),
        };
        pairs.push((String::from_str("testmode"), testmode));
        let numres = match num_results {
            Some(n) => decimal_text(n as u64),
            None => match self.num_results {
                Some(v) => signed_decimal_text(v as i64),
                None => String::from_str("999"),
            },
        };
        pairs.push((String::from_str("numres"), numres));
        let ghost p4 = pairs.deep_view();
        if is_image_link(image_path) {
            pairs.push((String::from_str("url"), String::from_str(image_path)));
        }
        assert(pairs.deep_view() =~= p4 + if is_link(image_path@) {
            seq![("url"@, image_path@)]
        } else {
            seq![]
        });
        assert(pairs.deep_view() =~= query_pairs(h, image_path@, num_results));
        Ok(pairs)
    }

    /// Returns the URL of a search of `image_path`: the service's address with
    /// the query pairs of the search.
    pub fn generate_url(&self, image_path: &str, num_results: Option<u32>) -> (r: Result<
        String,
        Error,
    >)
        ensures
            match r {
                Ok(s) => masks_ok(self@) && url_with_query(
                    API_URL@,
                    query_pairs(self@, image_path@, num_results),
                ) == Some(s@),
                Err(Error::InvalidParameter(_)) => !masks_ok(self@),
                Err(Error::InvalidUrl(_)) => masks_ok(self@) && url_with_query(
                    API_URL@,
                    query_pairs(self@, image_path@, num_results),
                ) is None,
                Err(_) => false,
            },
    {
        let pairs = self.query_pairs(image_path, num_results)?;
        match parse_with_params(API_URL, &pairs) {
            Ok(s) => Ok(s),
            Err(e) => Err(Error::InvalidUrl(e)),
        }
    }

    /// Checks the arguments of a search of `image_path` and returns what to
    /// send for it: the search URL, and the file to upload where the image is
    /// not a link. `min_similarity` is in hundredths of a percent.
    pub fn prepare_search(
        &self,
        image_path: &str,
        num_results: Option<u32>,
        min_similarity: Option<u32>,
    ) -> (r: Result<SearchRequest, Error>)
        ensures
            match r {
                Ok(q) => {
                    &&& search_args_ok(num_results, min_similarity)
                    &&& masks_ok(self@)
                    &&& url_with_query(API_URL@, query_pairs(self@, image_path@, num_results))
                        == Some(q.url@)
                    &&& match q.upload {
                        Some(p) => !is_link(image_path@) && p@ == image_path@,
                        None => is_link(image_path@),
                    }
                },
                Err(Error::InvalidParameter(_)) => !search_args_ok(num_results, min_similarity)
                    || !masks_ok(self@),
                Err(Error::InvalidUrl(_)) => search_args_ok(num_results, min_similarity)
                    && masks_ok(self@) && url_with_query(
                    API_URL@,
                    query_pairs(self@, image_path@, num_results),
                ) is None,
                Err(_) => false,
            },
    {
        match num_results {
            Some(n) => {
                if n > MAX_RESULTS {
                    return Err(
                        Error::invalid_parameter(
                            String::from_str("num_results must be at most 999."),
                        ),
                    );
                }
            },
            None => {},
        }
        match min_similarity {
            Some(m) => {
                if m > MAX_SIMILARITY {
                    return Err(
                        Error::invalid_parameter(
                            String::from_str("min_similarity must be between 0 and 100 percent."),
                        ),
                    );
                }
            },
            None => {},
        }
        let url = self.generate_url(image_path, num_results)?;
        let upload = if is_image_link(image_path) {
            None
        } else {
            Some(String::from_str(image_path))
        };
        Ok(SearchRequest { url, upload })
    }

    /// Takes in the server's reply to a search and returns its results.
    ///
    /// A reply with a negative status gives that status and message as an
    /// error, and leaves the handler as it was. Otherwise the handler takes the
    /// rate limits of the reply, and the results are those whose similarity
    /// reaches `min_similarity` (in hundredths of a percent; the handler's own
    /// where none is given) and, where the handler's empty-URL filter is on,
    /// that have a link. Limits that are not decimal numbers, or a malformed
    /// result, give an `InvalidResponse` error.
    pub fn process_response(&mut self, response: SearchResponse, min_similarity: Option<u32>) -> (r:
        Result<Vec<Sauce>, Error>)
        ensures
            ({
                let header = response.header;
                let threshold = match min_similarity {
                    Some(m) => m,
                    None => old(self)@.min_similarity,
                };
                let entries = match response.results {
                    Some(v) => v@,
                    None => Seq::empty(),
                };
                let short_limit = decimal_u32(header.short_limit@);
                let long_limit = decimal_u32(header.long_limit@);
                let limits_ok = short_limit is Some && long_limit is Some;
                &&& header.status >= 0 && limits_ok ==> final(self)@ == (HandlerView {
                    short_left: header.short_remaining,
                    long_left: header.long_remaining,
                    short_limit: short_limit->0,
                    long_limit: long_limit->0,
                    ..old(self)@
                })
                &&& !(header.status >= 0 && limits_ok) ==> final(self)@ == old(self)@
                &&& match r {
                    Ok(v) => header.status >= 0 && limits_ok && results_of(
                        entries,
                        threshold,
                        old(self)@.empty_filter_enabled,
                    ) == Some(sauce_views(v@)),
                    Err(Error::InvalidCode { code, message }) => header.status < 0 && code
                        == header.status && message == header.message,
                    Err(Error::InvalidResponse(_)) => header.status >= 0 && (!limits_ok
                        || results_of(entries, threshold, old(self)@.empty_filter_enabled) is None),
                    Err(_) => false,
                }
            }),
    {
        let header = response.header;
        if header.status < 0 {
            return Err(Error::invalid_code(header.status, header.message));
        }
        let short_limit = parse_u32(header.short_limit.as_str());
        let long_limit = parse_u32(header.long_limit.as_str());
        match (short_limit, long_limit) {
            (Some(s), Some(l)) => {
                self.short_left = header.short_remaining;
                self.long_left = header.long_remaining;
                self.short_limit = s;
                self.long_limit = l;
            },
            _ => {
                return Err(
                    Error::InvalidResponse(
                        String::from_str("the rate limits of the reply are not numbers."),
                    ),
                );
            },
        }
        let threshold = match min_similarity {
            Some(m) => m,
            None => self.min_similarity,
        };
        match response.results {
            Some(entries) => collect_sauces(entries, threshold, self.empty_filter_enabled),
            None => {
                assert(results_of(Seq::empty(), threshold, self.empty_filter_enabled) == Some(
                    Seq::<crate::sauce::SauceView>::empty(),
                ));
                let out: Vec<Sauce> = Vec::new();
                assert(sauce_views(out@) =~= Seq::empty());
                Ok(out)
            },
        }
    }
}

} // verus!
