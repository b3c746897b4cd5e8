//! A result of a search: a likely source of the image.

use vstd::prelude::*;

use crate::error::Error;
use crate::json::{
    compact, pretty, strings_json, strings_to_json, to_compact_text, to_pretty_text, Json,
    JsonValue,
};
use crate::text::{decimal, decimal_text, percent_text, percent_text_of};

verus! {

/// A likely source of an image.
#[derive(Debug)]
pub struct Sauce {
    /// Links to the image on the source's site.
    pub ext_urls: Vec<String>,
    pub title: Option<String>,
    /// The name of the database that holds the image.
    pub site: String,
    /// The index of that database.
    pub index: u32,
    /// The image's id in that database.
    pub index_id: u32,
    /// How similar the image is, in hundredths of a percent.
    pub similarity: u32,
    /// A link to a thumbnail of the image.
    pub thumbnail: String,
    /// The further fields that the server gave, where the database is known.
    pub additional_fields: Option<JsonValue>,
}

/// What a result holds.
pub ghost struct SauceView {
    pub ext_urls: Seq<Seq<char>>,
    pub title: Option<Seq<char>>,
    pub site: Seq<char>,
    pub index: u32,
    pub index_id: u32,
    pub similarity: u32,
    pub thumbnail: Seq<char>,
    pub additional_fields: Option<JsonValue>,
}

impl View for Sauce {
    type V = SauceView;

    open spec fn view(&self) -> SauceView {
        SauceView {
            ext_urls: self.ext_urls.deep_view(),
            title: self.title.deep_view(),
            site: self.site@,
            index: self.index,
            index_id: self.index_id,
            similarity: self.similarity,
            thumbnail: self.thumbnail@,
            additional_fields: self.additional_fields,
        }
    }
}

/// The views of the results `s`, in order.
pub open spec fn sauce_views(s: Seq<Sauce>) -> Seq<SauceView> {
    s.map_values(|x: Sauce| x@)
}

/// The JSON form of a result: an object of its fields, in the order in which
/// `Sauce` declares them. The similarity is written as a percentage with two
/// fraction digits.
pub open spec fn sauce_json(s: SauceView) -> Json {
    Json::Object(
        seq![
            ("ext_urls"@, strings_json(s.ext_urls)),
            (
                "title"@,
                match s.title {
                    Some(t) => Json::Str(t),
                    None => Json::Null,
                },
            ),
            ("site"@, Json::Str(s.site)),
            ("index"@, Json::Number(decimal(s.index as nat))),
            ("index_id"@, Json::Number(decimal(s.index_id as nat))),
            ("similarity"@, Json::Number(percent_text(s.similarity as nat))),
            ("thumbnail"@, Json::Str(s.thumbnail)),
            (
                "additional_fields"@,
                match s.additional_fields {
                    Some(j) => j.model(),
                    None => Json::Null,
                },
            ),
        ],
    )
}

/// The JSON form of a list of results: an array of their forms.
pub open spec fn sauces_json(s: Seq<Sauce>) -> Json {
    Json::Array(s.map_values(|x: Sauce| sauce_json(x@)))
}

impl Sauce {
    /// Returns the JSON form of this result.
    pub fn to_json_value(&self) -> (r: JsonValue)
        ensures
            r.model() == sauce_json(self@),
    {
        let title = match &self.title {
            Some(t) => JsonValue::Str(t.clone()),
            None => JsonValue::Null,
        };
        let additional = match &self.additional_fields {
            Some(j) => j.copy(),
            None => JsonValue::Null,
        };
        let mut fields: Vec<(String, JsonValue)> = Vec::new();
        fields.push((String::from_str("ext_urls"), strings_to_json(&self.ext_urls)));
        fields.push((String::from_str("title"), title));
        fields.push((String::from_str("site"), JsonValue::Str(self.site.clone())));
        fields.push((String::from_str("index"), JsonValue::Number(decimal_text(self.index as u64))));
        fields.push(
            (String::from_str("index_id"), JsonValue::Number(decimal_text(self.index_id as u64))),
        );
        fields.push(
            (String::from_str("similarity"), JsonValue::Number(percent_text_of(self.similarity))),
        );
        fields.push((String::from_str("thumbnail"), JsonValue::Str(self.thumbnail.clone())));
        fields.push((String::from_str("additional_fields"), additional));
        let ghost fg = fields;
        let r = JsonValue::Object(fields);
        assert forall|k: int| 0 <= k < 8 implies r.model()->Object_0[k] == sauce_json(
            self@,
        )->Object_0[k] by {
            assert(r.model()->Object_0[k] == (fg[k].0@, fg[k].1.model()));
        }
        assert(r.model()->Object_0 =~= sauce_json(self@)->Object_0);
        r
    }
}

/// Rendering as JSON text.
pub trait ToJSON {
    /// The JSON form of the value.
    spec fn json_model(&self) -> Json;

    /// Returns the compact JSON text of the value.
    fn to_json(&self) -> (r: Result<String, Error>)
        ensures
            r is Ok && r->Ok_0@ == compact(self.json_model()),
    ;

    /// Returns the JSON text of the value, indented by two spaces a level.
    fn to_json_pretty(&self) -> (r: Result<String, Error>)
        ensures
            r is Ok && r->Ok_0@ == pretty(self.json_model(), 0),
    ;
}

/// Returns the JSON form of the results `s`.
pub fn sauces_to_json(s: &Vec<Sauce>) -> (r: JsonValue)
    ensures
        r.model() == sauces_json(s@),
{
    let mut out: Vec<JsonValue> = Vec::new();
    let mut i: usize = 0;
    while i < s.len()
        invariant
            i <= s@.len(),
            out@.len() == i,
            forall|k: int| 0 <= k < i ==> #[trigger] out@[k].model() == sauce_json(s@[k]@),
        decreases s@.len() - i,
    {
        out.push(s[i].to_json_value());
        i = i + 1;
    }
    let ghost og = out;
    let r = JsonValue::Array(out);
    assert forall|k: int| 0 <= k < og@.len() implies r.model()->Array_0[k] == sauces_json(
        s@,
    )->Array_0[k] by {
        assert(og[k].model() == sauce_json(s@[k]@));
    }
    assert(r.model()->Array_0 =~= sauces_json(s@)->Array_0);
    r
}

impl ToJSON for Vec<Sauce> {
    open spec fn json_model(&self) -> Json {
        sauces_json(self@)
    }

    fn to_json(&self) -> (r: Result<String, Error>) {
        Ok(to_compact_text(&sauces_to_json(self)))
    }

    fn to_json_pretty(&self) -> (r: Result<String, Error>) {
        Ok(to_pretty_text(&sauces_to_json(self)))
    }
}

} // verus!
