use std::borrow::Cow;
use vstd::prelude::*;

verus! {

/// The kind of a token of the parsed query.
#[derive(Clone, Copy, Debug, PartialEq, Eq, Structural)]
pub enum QueryTokenKind {
    Term,
    Star,
    Starstar,
    StarAdj,
    StarAdp,
    StarAdv,
    StarConj,
    StarDet,
    StarNoun,
    StarNum,
    StarPron,
    StarPrt,
    StarVerb,
    SentenceStart,
    SentenceEnd,
    Slash,
    Prefix,
    TermGroup,
}

/// The kind of a token of an n-gram.
#[derive(Clone, Copy, Debug, PartialEq, Eq, Structural)]
pub enum NgramTokenKind {
    Term,
    TaggedAsAdj,
    TaggedAsAdp,
    TaggedAsAdv,
    TaggedAsConj,
    TaggedAsDet,
    TaggedAsNoun,
    TaggedAsNum,
    TaggedAsPron,
    TaggedAsPrt,
    TaggedAsVerb,
    SentenceStart,
    SentenceEnd,
}

/// A query token as a value: what a view and an owned token both stand for.
pub struct QueryTokenValue {
    pub kind: QueryTokenKind,
    pub text: Seq<char>,
}

/// A query token whose text may borrow from a response body.
#[derive(Debug)]
pub struct QueryTokenView<'a> {
    pub kind: QueryTokenKind,
    pub text: Cow<'a, str>,
}

/// A query token that owns its text.
#[derive(Debug)]
pub struct QueryToken {
    pub kind: QueryTokenKind,
    pub text: String,
}

impl<'a> View for QueryTokenView<'a> {
    type V = QueryTokenValue;

    open spec fn view(&self) -> QueryTokenValue {
        QueryTokenValue { kind: self.kind, text: self.text@ }
    }
}

impl View for QueryToken {
    type V = QueryTokenValue;

    open spec fn view(&self) -> QueryTokenValue {
        QueryTokenValue { kind: self.kind, text: self.text@ }
    }
}

impl PartialEq for QueryToken {
    fn eq(&self, other: &QueryToken) -> (r: bool)
        ensures
            r == (self@ == other@),
    {
        self.kind == other.kind && self.text == other.text
    }
}

impl vstd::std_specs::cmp::PartialEqSpecImpl for QueryToken {
    open spec fn obeys_eq_spec() -> bool {
        true
    }

    open spec fn eq_spec(&self, other: &QueryToken) -> bool {
        self@ == other@
    }
}

/// Whether two lists of query tokens hold the same tokens in the same order.
pub fn same_query_tokens(a: &Vec<QueryToken>, b: &Vec<QueryToken>) -> (r: bool)
    ensures
        r == (query_token_values(a@) == query_token_values(b@)),
{
    if a.len() != b.len() {
        assert(query_token_values(a@).len() != query_token_values(b@).len());
        return false;
    }
    let mut i: usize = 0;
    while i < a.len()
        invariant
            i <= a@.len(),
            a@.len() == b@.len(),
            forall|j: int| 0 <= j < i ==> a@[j]@ == b@[j]@,
        decreases a@.len() - i,
    {
        if a[i] != b[i] {
            assert(query_token_values(a@)[i as int] != query_token_values(b@)[i as int]);
            return false;
        }
        i += 1;
    }
    assert(query_token_values(a@) =~= query_token_values(b@));
    true
}

/// An owned copy of a text that may be borrowed.
fn owned_text(text: &Cow<'_, str>) -> (r: String)
    ensures
        r@ == text@,
{
    match text {
        Cow::Borrowed(s) => String::from_str(s),
        Cow::Owned(s) => s.clone(),
    }
}

impl<'a> QueryTokenView<'a> {
    /// Copies the token out of the response body.
    pub fn to_query_token(&self) -> (r: QueryToken)
        ensures
            r@ == self@,
    {
        QueryToken { kind: self.kind, text: owned_text(&self.text) }
    }
}

/// An n-gram token as a value: what a view and an owned token both stand for.
pub struct NgramTokenValue {
    pub kind: NgramTokenKind,
    pub text: Seq<char>,
    pub inserted: bool,
    pub completed: bool,
}

/// An n-gram token whose text may borrow from a response body.
#[derive(Debug)]
pub struct NgramTokenView<'a> {
    pub kind: NgramTokenKind,
    pub text: Cow<'a, str>,
    /// The token was not in the query; the server inserted it.
    pub inserted: bool,
    /// The token completes a prefix of the query.
    pub completed: bool,
}

/// An n-gram token that owns its text.
#[derive(Debug)]
pub struct NgramToken {
    pub kind: NgramTokenKind,
    pub text: String,
    pub inserted: bool,
    pub completed: bool,
}

impl<'a> View for NgramTokenView<'a> {
    type V = NgramTokenValue;

    open spec fn view(&self) -> NgramTokenValue {
        NgramTokenValue {
            kind: self.kind,
            text: self.text@,
            inserted: self.inserted,
            completed: self.completed,
        }
    }
}

impl View for NgramToken {
    type V = NgramTokenValue;

    open spec fn view(&self) -> NgramTokenValue {
        NgramTokenValue {
            kind: self.kind,
            text: self.text@,
            inserted: self.inserted,
            completed: self.completed,
        }
    }
}

impl PartialEq for NgramToken {
    fn eq(&self, other: &NgramToken) -> (r: bool)
        ensures
            r == (self@ == other@),
    {
        self.kind == other.kind && self.text == other.text && self.inserted == other.inserted
            && self.completed == other.completed
    }
}

impl vstd::std_specs::cmp::PartialEqSpecImpl for NgramToken {
    open spec fn obeys_eq_spec() -> bool {
        true
    }

    open spec fn eq_spec(&self, other: &NgramToken) -> bool {
        self@ == other@
    }
}

impl<'a> NgramTokenView<'a> {
    /// Copies the token out of the response body.
    pub fn to_ngram_token(&self) -> (r: NgramToken)
        ensures
            r@ == self@,
    {
        NgramToken {
            kind: self.kind,
            text: owned_text(&self.text),
            inserted: self.inserted,
            completed: self.completed,
        }
    }
}

/// The values of a sequence of borrowed n-gram tokens.
pub open spec fn ngram_token_view_values<'a>(ts: Seq<NgramTokenView<'a>>) -> Seq<NgramTokenValue> {
    ts.map_values(|t: NgramTokenView<'a>| t@)
}

/// The values of a sequence of owned n-gram tokens.
pub open spec fn ngram_token_values(ts: Seq<NgramToken>) -> Seq<NgramTokenValue> {
    ts.map_values(|t: NgramToken| t@)
}

/// Copies each token of `tokens` out of the response body.
fn to_ngram_tokens(tokens: &Vec<NgramTokenView<'_>>) -> (r: Vec<NgramToken>)
    ensures
        ngram_token_values(r@) == ngram_token_view_values(tokens@),
{
    let mut out: Vec<NgramToken> = Vec::new();
    let mut i: usize = 0;
    while i < tokens.len()
        invariant
            i <= tokens@.len(),
            out@.len() == i,
            forall|j: int| 0 <= j < i ==> out@[j]@ == tokens@[j]@,
        decreases tokens@.len() - i,
    {
        out.push(tokens[i].to_ngram_token());
        i += 1;
    }
    assert(ngram_token_values(out@) =~= ngram_token_view_values(tokens@));
    out
}

/// An n-gram of a result page as a value: what a view and an owned record both
/// stand for.
pub struct NgramLiteValue {
    pub id: Seq<char>,
    pub abs_total_match_count: u64,
    pub rel_total_match_count_bits: u64,
    pub tokens: Seq<NgramTokenValue>,
    pub is_abstract: bool,
}

/// An n-gram of a result page whose text borrows from the response body.
///
/// The relative match count is a binary64 number, held as its bit pattern.
#[derive(Debug)]
pub struct NgramLiteView<'a> {
    pub id: &'a str,
    pub abs_total_match_count: u64,
    pub rel_total_match_count_bits: u64,
    pub tokens: Vec<NgramTokenView<'a>>,
    /// The n-gram is a pattern rather than a sequence of concrete terms.
    pub is_abstract: bool,
}

/// An n-gram of a result page that owns its text.
#[derive(Debug)]
pub struct NgramLite {
    pub id: String,
    pub abs_total_match_count: u64,
    pub rel_total_match_count_bits: u64,
    pub tokens: Vec<NgramToken>,
    pub is_abstract: bool,
}

impl<'a> View for NgramLiteView<'a> {
    type V = NgramLiteValue;

    open spec fn view(&self) -> NgramLiteValue {
        NgramLiteValue {
            id: self.id@,
            abs_total_match_count: self.abs_total_match_count,
            rel_total_match_count_bits: self.rel_total_match_count_bits,
            tokens: ngram_token_view_values(self.tokens@),
            is_abstract: self.is_abstract,
        }
    }
}

impl View for NgramLite {
    type V = NgramLiteValue;

    open spec fn view(&self) -> NgramLiteValue {
        NgramLiteValue {
            id: self.id@,
            abs_total_match_count: self.abs_total_match_count,
            rel_total_match_count_bits: self.rel_total_match_count_bits,
            tokens: ngram_token_values(self.tokens@),
            is_abstract: self.is_abstract,
        }
    }
}

impl<'a> NgramLiteView<'a> {
    /// Copies the n-gram out of the response body.
    pub fn to_ngram_lite(&self) -> (r: NgramLite)
        ensures
            r@ == self@,
    {
        NgramLite {
            id: String::from_str(self.id),
            abs_total_match_count: self.abs_total_match_count,
            rel_total_match_count_bits: self.rel_total_match_count_bits,
            tokens: to_ngram_tokens(&self.tokens),
            is_abstract: self.is_abstract,
        }
    }
}

/// A result page as a value: what a view and an owned page both stand for.
pub struct PageValue {
    pub query_tokens: Seq<QueryTokenValue>,
    pub ngrams: Seq<NgramLiteValue>,
}

/// One page of search results whose text borrows from the response body.
#[derive(Debug)]
pub struct PageView<'a> {
    pub query_tokens: Vec<QueryTokenView<'a>>,
    pub ngrams: Vec<NgramLiteView<'a>>,
}

/// One page of search results that owns its text.
#[derive(Debug)]
pub struct Page {
    pub query_tokens: Vec<QueryToken>,
    pub ngrams: Vec<NgramLite>,
}

/// The values of a sequence of borrowed query tokens.
pub open spec fn query_token_view_values<'a>(ts: Seq<QueryTokenView<'a>>) -> Seq<QueryTokenValue> {
    ts.map_values(|t: QueryTokenView<'a>| t@)
}

/// The values of a sequence of owned query tokens.
pub open spec fn query_token_values(ts: Seq<QueryToken>) -> Seq<QueryTokenValue> {
    ts.map_values(|t: QueryToken| t@)
}

/// The values of a sequence of borrowed n-grams.
pub open spec fn ngram_lite_view_values<'a>(ns: Seq<NgramLiteView<'a>>) -> Seq<NgramLiteValue> {
    ns.map_values(|n: NgramLiteView<'a>| n@)
}

/// The values of a sequence of owned n-grams.
pub open spec fn ngram_lite_values(ns: Seq<NgramLite>) -> Seq<NgramLiteValue> {
    ns.map_values(|n: NgramLite| n@)
}

impl<'a> View for PageView<'a> {
    type V = PageValue;

    open spec fn view(&self) -> PageValue {
        PageValue {
            query_tokens: query_token_view_values(self.query_tokens@),
            ngrams: ngram_lite_view_values(self.ngrams@),
        }
    }
}

impl View for Page {
    type V = PageValue;

    open spec fn view(&self) -> PageValue {
        PageValue {
            query_tokens: query_token_values(self.query_tokens@),
            ngrams: ngram_lite_values(self.ngrams@),
        }
    }
}

/// Copies each token of `tokens` out of the response body.
pub fn to_query_tokens(tokens: &Vec<QueryTokenView<'_>>) -> (r: Vec<QueryToken>)
    ensures
        query_token_values(r@) == query_token_view_values(tokens@),
        r@.len() == tokens@.len(),
{
    let mut out: Vec<QueryToken> = Vec::new();
    let mut i: usize = 0;
    while i < tokens.len()
        invariant
            i <= tokens@.len(),
            out@.len() == i,
            forall|j: int| 0 <= j < i ==> out@[j]@ == tokens@[j]@,
        decreases tokens@.len() - i,
    {
        out.push(tokens[i].to_query_token());
        i += 1;
    }
    assert(query_token_values(out@) =~= query_token_view_values(tokens@));
    out
}

/// Copies each n-gram of `ngrams` out of the response body.
fn to_ngram_lites(ngrams: &Vec<NgramLiteView<'_>>) -> (r: Vec<NgramLite>)
    ensures
        ngram_lite_values(r@) == ngram_lite_view_values(ngrams@),
        r@.len() == ngrams@.len(),
{
    let mut out: Vec<NgramLite> = Vec::new();
    let mut i: usize = 0;
    while i < ngrams.len()
        invariant
            i <= ngrams@.len(),
            out@.len() == i,
            forall|j: int| 0 <= j < i ==> out@[j]@ == ngrams@[j]@,
        decreases ngrams@.len() - i,
    {
        out.push(ngrams[i].to_ngram_lite());
        i += 1;
    }
    assert(ngram_lite_values(out@) =~= ngram_lite_view_values(ngrams@));
    out
}

impl<'a> PageView<'a> {
    /// Copies the whole page out of the response body, so that it may outlive
    /// the next fetch.
    pub fn to_page(&self) -> (r: Page)
        ensures
            r@ == self@,
            r.query_tokens@.len() == self.query_tokens@.len(),
            r.ngrams@.len() == self.ngrams@.len(),
    {
        Page { query_tokens: to_query_tokens(&self.query_tokens), ngrams: to_ngram_lites(&self.ngrams) }
    }
}

/// The statistics of an n-gram for one year.
///
/// The relative match count is a binary64 number, held as its bit pattern.
#[derive(Clone, Copy, Debug)]
pub struct NgramStat {
    pub year: u16,
    pub abs_match_count: u64,
    pub rel_match_count_bits: u64,
}

impl NgramStat {
    pub fn new(year: u16, abs_match_count: u64, rel_match_count_bits: u64) -> (r: NgramStat)
        ensures
            r.year == year,
            r.abs_match_count == abs_match_count,
            r.rel_match_count_bits == rel_match_count_bits,
    {
        NgramStat { year, abs_match_count, rel_match_count_bits }
    }
}

/// An n-gram with its statistics year by year.
#[derive(Debug)]
pub struct Ngram {
    pub id: String,
    pub abs_total_match_count: u64,
    pub rel_total_match_count_bits: u64,
    pub tokens: Vec<NgramToken>,
    pub stats: Vec<NgramStat>,
}

} // verus!
