//! A builder for handlers.

use vstd::prelude::*;

use crate::handler::{Handler, HandlerView};

verus! {

/// What a builder holds: each setting, where it was given.
pub ghost struct BuilderView {
    pub api_key: Option<Seq<char>>,
    pub testmode: Option<bool>,
    pub db_mask: Option<Seq<u32>>,
    pub db_mask_i: Option<Seq<u32>>,
    pub db: Option<u32>,
    pub num_results: Option<u32>,
    /// In hundredths of a percent.
    pub min_similarity: Option<u32>,
    pub empty_filter_enabled: Option<bool>,
}

/// A builder to create a handler.
#[derive(Debug)]
pub struct HandlerBuilder {
    api_key: Option<String>,
    testmode: Option<bool>,
    db_mask: Option<Vec<u32>>,
    db_mask_i: Option<Vec<u32>>,
    db: Option<u32>,
    num_results: Option<u32>,
    min_similarity: Option<u32>,
    empty_filter_enabled: Option<bool>,
}

impl View for HandlerBuilder {
    type V = BuilderView;

    closed spec fn view(&self) -> BuilderView {
        BuilderView {
            api_key: match self.api_key {
                Some(k) => Some(k@),
                None => None,
            },
            testmode: self.testmode,
            db_mask: match self.db_mask {
                Some(m) => Some(m@),
                None => None,
            },
            db_mask_i: match self.db_mask_i {
                Some(m) => Some(m@),
                None => None,
            },
            db: self.db,
            num_results: self.num_results,
            min_similarity: self.min_similarity,
            empty_filter_enabled: self.empty_filter_enabled,
        }
    }
}

/// What the handler built from the settings `b` holds.
pub open spec fn built(b: BuilderView) -> HandlerView {
    HandlerView {
        api_key: match b.api_key {
            Some(k) => k,
            None => Seq::empty(),
        },
        output_type: 2,
        testmode: match b.testmode {
            Some(t) => Some(if t {
                1i32
            } else {
                0i32
            }),
            None => None,
        },
        db_mask: b.db_mask,
        db_mask_i: b.db_mask_i,
        db: b.db,
        num_results: match b.num_results {
            Some(n) => Some(#[verifier::truncate] (n as i32)),
            None => None,
        },
        short_limit: 12,
        long_limit: 200,
        short_left: 12,
        long_left: 200,
        min_similarity: match b.min_similarity {
            Some(m) => m,
            None => 0,
        },
        empty_filter_enabled: match b.empty_filter_enabled {
            Some(e) => e,
            None => false,
        },
    }
}

fn copy_indices(v: &Vec<u32>) -> (r: Vec<u32>)
    ensures
        r@ == v@,
{
    let mut r: Vec<u32> = Vec::new();
    let mut i: usize = 0;
    while i < v.len()
        invariant
            i <= v@.len(),
            r@ == v@.take(i as int),
        decreases v@.len() - i,
    {
        r.push(v[i]);
        assert(r@ =~= v@.take(i as int + 1));
        i = i + 1;
    }
    assert(r@ =~= v@);
    r
}

fn copy_mask(m: &Option<Vec<u32>>) -> (r: Option<Vec<u32>>)
    ensures
        match r {
            Some(c) => m matches Some(v) && c@ == v@,
            None => m is None,
        },
{
    match m {
        Some(v) => Some(copy_indices(v)),
        None => None,
    }
}

impl HandlerBuilder {
    /// Creates a builder with no setting given.
    pub fn new() -> (r: HandlerBuilder)
        ensures
            r@ == (BuilderView {
                api_key: None,
                testmode: None,
                db_mask: None,
                db_mask_i: None,
                db: None,
                num_results: None,
                min_similarity: None,
                empty_filter_enabled: None,
            }),
    {
        HandlerBuilder {
            api_key: None,
            testmode: None,
            db_mask: None,
            db_mask_i: None,
            db: None,
            num_results: None,
            min_similarity: None,
            empty_filter_enabled: None,
        }
    }

    /// Sets the key by which the service knows the caller.
    pub fn api_key(&mut self, api_key: &str) -> (r: &mut HandlerBuilder)
        ensures
            r@ == (BuilderView { api_key: Some(api_key@), ..old(self)@ }),
            final(self)@ == final(r)@,
    {
        self.api_key = Some(String::from_str(api_key));
        self
    }

    /// Sets whether the service answers in test mode.
    pub fn testmode(&mut self, testmode: bool) -> (r: &mut HandlerBuilder)
        ensures
            r@ == (BuilderView { testmode: Some(testmode), ..old(self)@ }),
            final(self)@ == final(r)@,
    {
        self.testmode = Some(testmode);
        self
    }

    /// Sets the database indices that a search includes.
    pub fn db_mask(&mut self, db_mask: Vec<u32>) -> (r: &mut HandlerBuilder)
        ensures
            r@ == (BuilderView { db_mask: Some(db_mask@), ..old(self)@ }),
            final(self)@ == final(r)@,
    {
        self.db_mask = Some(db_mask);
        self
    }

    /// Sets the database indices that a search excludes.
    pub fn db_mask_i(&mut self, db_mask_i: Vec<u32>) -> (r: &mut HandlerBuilder)
        ensures
            r@ == (BuilderView { db_mask_i: Some(db_mask_i@), ..old(self)@ }),
            final(self)@ == final(r)@,
    {
        self.db_mask_i = Some(db_mask_i);
        self
    }

    /// Sets the one database index that a search covers; 999 covers them all.
    pub fn db(&mut self, db: u32) -> (r: &mut HandlerBuilder)
        ensures
            r@ == (BuilderView { db: Some(db), ..old(self)@ }),
            final(self)@ == final(r)@,
    {
        self.db = Some(db);
        self
    }

    /// Sets the largest number of results that a search returns.
    pub fn num_results(&mut self, num_results: u32) -> (r: &mut HandlerBuilder)
        ensures
            r@ == (BuilderView { num_results: Some(num_results), ..old(self)@ }),
            final(self)@ == final(r)@,
    {
        self.num_results = Some(num_results);
        self
    }

    /// Sets the minimum similarity, in hundredths of a percent, that a result
    /// must reach.
    pub fn min_similarity(&mut self, min_similarity: u32) -> (r: &mut HandlerBuilder)
        ensures
            r@ == (BuilderView { min_similarity: Some(min_similarity), ..old(self)@ }),
            final(self)@ == final(r)@,
    {
        self.min_similarity = Some(min_similarity);
        self
    }

    /// Sets whether results without URLs are left out.
    pub fn empty_filter_enabled(&mut self, empty_filter_enabled: bool) -> (r: &mut HandlerBuilder)
        ensures
            r@ == (BuilderView { empty_filter_enabled: Some(empty_filter_enabled), ..old(self)@ }),
            final(self)@ == final(r)@,
    {
        self.empty_filter_enabled = Some(empty_filter_enabled);
        self
    }

    /// Builds a handler from the settings given; a setting not given keeps the
    /// handler's default.
    pub fn build(&mut self) -> (r: Handler)
        ensures
            r@ == built(old(self)@),
            final(self)@ == old(self)@,
    {
        let api_key: &str = match &self.api_key {
            Some(k) => k.as_str(),
            None => "",
        };
        proof {
            reveal_strlit("");
            assert(""@ =~= Seq::<char>::empty());
        }
        let testmode: Option<i32> = match self.testmode {
            Some(t) => Some(if t {
                1i32
            } else {
                0i32
            }),
            None => None,
        };
        let num_results: Option<i32> = match self.num_results {
            Some(n) => Some(#[verifier::truncate] (n as i32)),
            None => None,
        };
        let mut result = Handler::new(
            api_key,
            testmode,
            copy_mask(&self.db_mask),
            copy_mask(&self.db_mask_i),
            self.db,
            num_results,
        );
        match self.min_similarity {
            Some(m) => result.set_min_similarity(m),
            None => {},
        }
        match self.empty_filter_enabled {
            Some(e) => result.set_empty_filter(e),
            None => {},
        }
        result
    }
}

} // verus!
