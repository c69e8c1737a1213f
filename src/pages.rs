use crate::corpus::{corpus_label, Corpus};
use crate::error::{BadInputError, Error, ErrorKind, ErrorSource};
use crate::model::{
    ngram_lite_view_values, query_token_view_values, NgramLiteView, PageView, PageValue,
    QueryTokenView,
};
use crate::options::{any_flag, decimal, decimal_string, flags_of, SearchOptions};
use std::borrow::Cow;
use vstd::prelude::*;

verus! {

/// The address of the API, without a trailing slash.
pub const BASE_URL: &'static str = "https://api.ngrams.dev";

/// The address of the API as characters.
pub open spec fn base_url() -> Seq<char> {
    seq![
        'h', 't', 't', 'p', 's', ':', '/', '/', 'a', 'p', 'i', '.', 'n', 'g', 'r', 'a', 'm', 's',
        '.', 'd', 'e', 'v',
    ]
}

/// The URL of a resource of a corpus: `{base}/{label}/{resource}`.
pub open spec fn resource_url(corpus: Corpus, resource: Seq<char>) -> Seq<char> {
    base_url() + seq!['/'] + corpus_label(corpus) + seq!['/'] + resource
}

/// Builds the URL of `resource` in `corpus`.
pub fn request_url(corpus: Corpus, resource: &str) -> (r: String)
    ensures
        r@ == resource_url(corpus, resource@),
{
    proof {
        reveal_strlit("https://api.ngrams.dev");
        reveal_strlit("/");
    }
    let mut url = String::from_str(BASE_URL);
    assert(url@ =~= base_url());
    url.append("/");
    url.append(corpus.label());
    url.append("/");
    url.append(resource);
    url
}

/// A GET request to send: its URL and its query parameters, in order.
#[derive(Debug)]
pub struct SearchRequest {
    pub url: String,
    pub params: Vec<(String, String)>,
}

/// The characters of a list of parameters.
pub open spec fn param_values(ps: Seq<(String, String)>) -> Seq<(Seq<char>, Seq<char>)> {
    ps.map_values(|p: (String, String)| (p.0@, p.1@))
}

/// What a search page was answered with, once the transport has done its part.
#[derive(Debug)]
pub enum FetchOutcome<'a> {
    /// The request did not reach the server, or no response came back.
    ConnectionFailed(String),
    /// The response body did not have the expected shape.
    Malformed(String),
    /// The server answered with a status the protocol does not define.
    UnexpectedStatus(u16),
    /// The server rejected the request.
    Rejected(BadInputError),
    /// A page of results, decoded from the response body.
    Page(SearchResult<'a>),
}

/// A successful search response: a page and, unless it was the last, the token
/// that resumes the search after it.
#[derive(Debug)]
pub struct SearchResult<'a> {
    pub query_tokens: Vec<QueryTokenView<'a>>,
    pub ngrams: Vec<NgramLiteView<'a>>,
    pub next_page_token: Option<Cow<'a, str>>,
}

/// The page a successful response carries, as a value.
pub open spec fn result_page<'a>(res: SearchResult<'a>) -> PageValue {
    PageValue {
        query_tokens: query_token_view_values(res.query_tokens@),
        ngrams: ngram_lite_view_values(res.ngrams@),
    }
}

/// The state of a search cursor, as a value.
pub struct CursorState {
    pub query: Seq<char>,
    pub corpus: Corpus,
    pub options: SearchOptions,
    pub next: Option<Seq<char>>,
}

/// No further page will be requested.
pub open spec fn exhausted(s: CursorState) -> bool {
    s.options.max_page_count == 0
}

/// The cursor with a new page budget and continuation token.
pub open spec fn with_budget(s: CursorState, budget: u32, next: Option<Seq<char>>) -> CursorState {
    CursorState {
        options: SearchOptions { max_page_count: budget, ..s.options },
        next,
        ..s
    }
}

/// The state after an outcome: a page with a token spends one page of the
/// budget and keeps the token; a page without one, or a rejection, ends the
/// search; any other failure leaves the state as it was.
pub open spec fn after<'a>(s: CursorState, outcome: FetchOutcome<'a>) -> CursorState {
    match outcome {
        FetchOutcome::Page(res) => match res.next_page_token {
            Some(token) => with_budget(
                s,
                (s.options.max_page_count - 1) as u32,
                Some(token@),
            ),
            None => with_budget(s, 0, None),
        },
        FetchOutcome::Rejected(_) => with_budget(s, 0, s.next),
        _ => s,
    }
}

/// The parameters of the next search request: the query, the page size, the
/// flags when any is set, and the continuation token when there is one.
pub open spec fn search_params(s: CursorState) -> Seq<(Seq<char>, Seq<char>)> {
    let base = seq![
        (seq!['q', 'u', 'e', 'r', 'y'], s.query),
        (seq!['l', 'i', 'm', 'i', 't'], decimal(s.options.max_page_size as nat)),
    ];
    let with_flags = if any_flag(s.options) {
        base.push((seq!['f', 'l', 'a', 'g', 's'], flags_of(s.options)))
    } else {
        base
    };
    match s.next {
        Some(token) => with_flags.push((seq!['s', 't', 'a', 'r', 't'], token)),
        None => with_flags,
    }
}

/// The page a caller receives for an outcome, or the error that it receives
/// instead.
pub open spec fn outcome_result<'a>(outcome: FetchOutcome<'a>, r: Result<PageView<'a>, Error>) -> bool {
    match (outcome, r) {
        (FetchOutcome::Page(res), Ok(page)) => {
            &&& page@ == result_page(res)
            &&& page.query_tokens@.len() == res.query_tokens@.len()
            &&& page.ngrams@.len() == res.ngrams@.len()
        },
        (FetchOutcome::ConnectionFailed(detail), Err(e)) => {
            &&& e.spec_kind() == ErrorKind::Connection
            &&& e.spec_source() == Some(ErrorSource::Transport(detail))
        },
        (FetchOutcome::Malformed(detail), Err(e)) => {
            &&& e.spec_kind() == ErrorKind::Exception
            &&& e.spec_source() == Some(ErrorSource::Malformed(detail))
        },
        (FetchOutcome::UnexpectedStatus(code), Err(e)) => {
            &&& e.spec_kind() == ErrorKind::Exception
            &&& match e.spec_source() {
                Some(ErrorSource::UnexpectedStatusCode(c)) => c.spec_code() == code,
                _ => false,
            }
        },
        (FetchOutcome::Rejected(err), Err(e)) => {
            &&& e.spec_kind() == ErrorKind::BadInput
            &&& e.spec_source() == Some(ErrorSource::BadInput(err))
        },
        _ => false,
    }
}

/// A cursor over the pages of one search.
///
/// The cursor decides what to request and what an answer means; the transport
/// that sends the request and decodes the response is the caller's.
#[derive(Debug)]
pub struct Pages {
    query: String,
    corpus: Corpus,
    options: SearchOptions,
    next: Option<String>,
}

impl View for Pages {
    type V = CursorState;

    closed spec fn view(&self) -> CursorState {
        CursorState {
            query: self.query@,
            corpus: self.corpus,
            options: self.options,
            next: match self.next {
                Some(t) => Some(t@),
                None => None,
            },
        }
    }
}

impl Pages {
    /// A cursor before its first page.
    pub fn new(query: String, corpus: Corpus, options: SearchOptions) -> (r: Pages)
        ensures
            r@ == (CursorState { query: query@, corpus, options, next: None }),
    {
        Pages { query, corpus, options, next: None }
    }

    /// The request for the next page, or `None` once the search is over.
    pub fn request(&self) -> (r: Option<SearchRequest>)
        ensures
            r is None <==> exhausted(self@),
            r matches Some(req) ==> req.url@ == resource_url(
                self@.corpus,
                seq!['s', 'e', 'a', 'r', 'c', 'h'],
            ) && param_values(req.params@) == search_params(self@),
    {
        if self.options.max_page_count == 0 {
            return None;
        }
        proof {
            reveal_strlit("search");
            reveal_strlit("query");
            reveal_strlit("limit");
            reveal_strlit("flags");
            reveal_strlit("start");
            assert("query"@ =~= seq!['q', 'u', 'e', 'r', 'y']);
            assert("limit"@ =~= seq!['l', 'i', 'm', 'i', 't']);
            assert("flags"@ =~= seq!['f', 'l', 'a', 'g', 's']);
            assert("start"@ =~= seq!['s', 't', 'a', 'r', 't']);
            assert("search"@ =~= seq!['s', 'e', 'a', 'r', 'c', 'h']);
        }
        let url = request_url(self.corpus, "search");
        let mut params: Vec<(String, String)> = Vec::new();
        let ghost p0 = params@;
        assert(param_values(p0) =~= Seq::empty());
        params.push((String::from_str("query"), self.query.clone()));
        proof { lemma_param_values_push(p0, params@.last()); }
        let ghost p1 = params@;
        params.push((String::from_str("limit"), decimal_string(self.options.max_page_size)));
        proof { lemma_param_values_push(p1, params@.last()); }
        let flags = self.options.to_flags();
        let ghost p2 = params@;
        if !flags.as_str().is_empty() {
            params.push((String::from_str("flags"), flags));
            proof { lemma_param_values_push(p2, params@.last()); }
        }
        let ghost p3 = params@;
        match &self.next {
            Some(token) => {
                params.push((String::from_str("start"), token.clone()));
                proof { lemma_param_values_push(p3, params@.last()); }
            },
            None => {},
        }
        assert(param_values(params@) =~= search_params(self@));
        Some(SearchRequest { url, params })
    }

    /// Takes in the outcome of the request for the next page, and gives the
    /// caller the page or the error.
    pub fn advance<'a>(&mut self, outcome: FetchOutcome<'a>) -> (r: Result<PageView<'a>, Error>)
        requires
            !exhausted(old(self)@),
        ensures
            final(self)@ == after(old(self)@, outcome),
            outcome_result(outcome, r),
    {
        match outcome {
            FetchOutcome::ConnectionFailed(detail) => Err(Error::connection(detail)),
            FetchOutcome::Malformed(detail) => Err(Error::exception(detail)),
            FetchOutcome::UnexpectedStatus(code) => Err(Error::unexpected_status_code(code)),
            FetchOutcome::Rejected(err) => {
                self.options.max_page_count = 0;
                Err(Error::bad_input(err))
            },
            FetchOutcome::Page(res) => {
                let SearchResult { query_tokens, ngrams, next_page_token } = res;
                match next_page_token {
                    Some(token) => {
                        self.options.max_page_count = self.options.max_page_count - 1;
                        self.next = Some(owned_token(&token));
                    },
                    None => {
                        self.options.max_page_count = 0;
                        self.next = None;
                    },
                }
                Ok(PageView { query_tokens, ngrams })
            },
        }
    }
}

/// The number of pages a cursor in state `s` hands out when `outcomes` answer
/// its requests in turn. Once exhausted it sends no request, so the outcomes
/// left over answer nothing.
pub open spec fn pages_handed_out<'a>(s: CursorState, outcomes: Seq<FetchOutcome<'a>>) -> nat
    decreases outcomes.len(),
{
    if outcomes.len() == 0 || exhausted(s) {
        0
    } else {
        (if outcomes[0] is Page {
            1nat
        } else {
            0nat
        }) + pages_handed_out(after(s, outcomes[0]), outcomes.drop_first())
    }
}

/// A cursor hands out at most as many pages as its budget, whatever the
/// server answers; with a budget of zero it hands out none.
pub proof fn lemma_pages_within_budget<'a>(s: CursorState, outcomes: Seq<FetchOutcome<'a>>)
    ensures
        pages_handed_out(s, outcomes) <= s.options.max_page_count,
        s.options.max_page_count == 0 ==> pages_handed_out(s, outcomes) == 0,
    decreases outcomes.len(),
{
    if outcomes.len() > 0 && !exhausted(s) {
        lemma_pages_within_budget(after(s, outcomes[0]), outcomes.drop_first());
    }
}

/// After a page, the search is over exactly when the page carried no
/// continuation token, or when it used the last page of the budget.
pub proof fn lemma_exhausted_after_page<'a>(s: CursorState, res: SearchResult<'a>)
    requires
        !exhausted(s),
    ensures
        exhausted(after(s, FetchOutcome::Page(res))) <==> (res.next_page_token is None
            || s.options.max_page_count == 1),
        res.next_page_token is None ==> after(s, FetchOutcome::Page(res)).next is None,
{
}

proof fn lemma_param_values_push(ps: Seq<(String, String)>, p: (String, String))
    ensures
        param_values(ps.push(p)) == param_values(ps).push((p.0@, p.1@)),
{
    assert(param_values(ps.push(p)) =~= param_values(ps).push((p.0@, p.1@)));
}

/// An owned copy of a continuation token.
fn owned_token(token: &Cow<'_, str>) -> (r: String)
    ensures
        r@ == token@,
{
    match token {
        Cow::Borrowed(s) => String::from_str(s),
        Cow::Owned(s) => s.clone(),
    }
}

} // verus!
