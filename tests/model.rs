use ngrams::{
    lookup_status, request_url, resource_status, search_status, BadInputError, Corpus, CorpusInfo,
    CorpusStat, Error, ErrorCode, ErrorKind, ErrorSource, NgramLiteView, NgramStat, NgramToken,
    NgramTokenKind, NgramTokenView, PageView, QueryToken, QueryTokenKind, QueryTokenView,
    SearchOptions, SearchStatus, TotalCountsByYear, TOTAL_COUNTS_BY_YEAR_LEN,
};
use std::borrow::Cow;

#[test]
fn corpus_labels() {
    assert_eq!(Corpus::English.label(), "eng");
    assert_eq!(Corpus::German.label(), "ger");
    assert_eq!(Corpus::Russian.label(), "rus");
}

#[test]
fn resource_urls() {
    assert_eq!(request_url(Corpus::German, "info"), "https://api.ngrams.dev/ger/info");
    assert_eq!(
        request_url(Corpus::English, "f2036997e2ba2ab5ba39ecc6c8d5a19f"),
        "https://api.ngrams.dev/eng/f2036997e2ba2ab5ba39ecc6c8d5a19f"
    );
}

#[test]
fn flags_none_set() {
    assert_eq!(SearchOptions::default().to_flags(), "");
}

#[test]
fn flags_all_set_in_order() {
    let options = SearchOptions {
        case_sensitive: true,
        collapse_result: true,
        exclude_punctuation_marks: true,
        exclude_sentence_boundary_tags: true,
        dont_interpret_query_operators: true,
        dont_tokenize_query_terms: true,
        dont_unicode_normalize_query: true,
        ..Default::default()
    };
    assert_eq!(options.to_flags(), "cscrepesrirtrn");
}

#[test]
fn flags_some_set() {
    let options = SearchOptions {
        collapse_result: true,
        exclude_sentence_boundary_tags: true,
        dont_unicode_normalize_query: true,
        ..Default::default()
    };
    assert_eq!(options.to_flags(), "cresrn");
}

#[test]
fn default_options() {
    let o = SearchOptions::default();
    assert_eq!(o.max_page_size, 100);
    assert_eq!(o.max_page_count, 10);
    assert!(!o.case_sensitive && !o.collapse_result && !o.exclude_punctuation_marks);
    assert!(!o.exclude_sentence_boundary_tags && !o.dont_interpret_query_operators);
    assert!(!o.dont_tokenize_query_terms && !o.dont_unicode_normalize_query);
}

#[test]
fn decimal_limits() {
    assert_eq!(ngrams::options::decimal_string(0), "0");
    assert_eq!(ngrams::options::decimal_string(9), "9");
    assert_eq!(ngrams::options::decimal_string(10), "10");
    assert_eq!(ngrams::options::decimal_string(100), "100");
    assert_eq!(ngrams::options::decimal_string(101), "101");
    assert_eq!(ngrams::options::decimal_string(255), "255");
}

#[test]
fn view_to_owned_keeps_every_field() {
    let body = String::from("{\"text\":\"hello\",\"id\":\"abc\"}");
    let hello = &body[9..14];
    let id = &body[22..25];
    let view = PageView {
        query_tokens: vec![
            QueryTokenView { kind: QueryTokenKind::Term, text: Cow::Borrowed(hello) },
            QueryTokenView { kind: QueryTokenKind::StarNoun, text: Cow::Owned("*_NOUN".to_string()) },
        ],
        ngrams: vec![NgramLiteView {
            id,
            abs_total_match_count: 15751,
            rel_total_match_count_bits: (7.502425888716453e-9f64).to_bits(),
            tokens: vec![
                NgramTokenView {
                    kind: NgramTokenKind::Term,
                    text: Cow::Borrowed(hello),
                    inserted: false,
                    completed: true,
                },
                NgramTokenView {
                    kind: NgramTokenKind::TaggedAsNoun,
                    text: Cow::Owned("world".to_string()),
                    inserted: true,
                    completed: false,
                },
            ],
            is_abstract: true,
        }],
    };
    let page = view.to_page();
    assert_eq!(
        page.query_tokens,
        vec![
            QueryToken { kind: QueryTokenKind::Term, text: "hello".to_string() },
            QueryToken { kind: QueryTokenKind::StarNoun, text: "*_NOUN".to_string() },
        ]
    );
    let ngram = &page.ngrams[0];
    assert_eq!(ngram.id, "abc");
    assert_eq!(ngram.abs_total_match_count, 15751);
    assert_eq!(f64::from_bits(ngram.rel_total_match_count_bits), 7.502425888716453e-9);
    assert!(ngram.is_abstract);
    assert_eq!(
        ngram.tokens,
        vec![
            NgramToken { kind: NgramTokenKind::Term, text: "hello".to_string(), inserted: false, completed: true },
            NgramToken { kind: NgramTokenKind::TaggedAsNoun, text: "world".to_string(), inserted: true, completed: false },
        ]
    );
    assert_eq!(view.query_tokens[0].to_query_token().text, "hello");
    assert_eq!(view.ngrams[0].tokens[1].to_ngram_token().text, "world");
    assert_eq!(view.ngrams[0].to_ngram_lite().tokens.len(), 2);
}

#[test]
fn empty_page_converts_to_empty_page() {
    let view = PageView { query_tokens: vec![], ngrams: vec![] };
    let page = view.to_page();
    assert!(page.query_tokens.is_empty() && page.ngrams.is_empty());
}

#[test]
fn error_constructors() {
    let e = Error::connection("timed out".to_string());
    assert_eq!(e.kind(), ErrorKind::Connection);
    assert_eq!(e.message(), "connection error");
    let e = Error::exception("expected value".to_string());
    assert_eq!(e.kind(), ErrorKind::Exception);
    assert_eq!(e.message(), "unexpected error");
    let e = Error::unexpected_status_code(500);
    assert_eq!(e.kind(), ErrorKind::Exception);
    assert!(matches!(e.source(), Some(ErrorSource::UnexpectedStatusCode(c)) if c.code() == 500));
    let e = Error::bad_input(BadInputError { code: ErrorCode::InvalidQueryTooExpensive, query_tokens: None });
    assert_eq!(e.kind(), ErrorKind::BadInput);
    assert_eq!(e.message(), "bad input");
    let e = Error::new(ErrorKind::Exception, None);
    assert!(e.source().is_none());
}

#[test]
fn rejections_compare_code_and_tokens() {
    let token = || QueryToken { kind: QueryTokenKind::Term, text: "x".to_string() };
    let a = BadInputError { code: ErrorCode::InvalidQueryBadAlternation, query_tokens: Some(vec![token()]) };
    let b = BadInputError { code: ErrorCode::InvalidQueryBadAlternation, query_tokens: Some(vec![token()]) };
    let c = BadInputError { code: ErrorCode::InvalidQueryBadAlternation, query_tokens: None };
    let d = BadInputError { code: ErrorCode::InvalidQueryBadCompletion, query_tokens: Some(vec![token()]) };
    let e = BadInputError { code: ErrorCode::InvalidQueryBadAlternation, query_tokens: Some(vec![]) };
    assert!(a == b);
    assert!(a != c);
    assert!(a != d);
    assert!(a != e);
}

#[test]
fn status_classification() {
    assert_eq!(search_status(200), SearchStatus::Page);
    assert_eq!(search_status(400), SearchStatus::Rejection);
    assert_eq!(search_status(404), SearchStatus::Unexpected);
    assert!(matches!(lookup_status(200), Ok(true)));
    assert!(matches!(lookup_status(404), Ok(false)));
    assert!(matches!(lookup_status(400), Err(e) if e.kind() == ErrorKind::Exception));
    assert!(resource_status(200).is_ok());
    assert!(matches!(resource_status(404), Err(e) if e.kind() == ErrorKind::Exception));
}

#[test]
fn get_total_counts() {
    let values: Vec<u64> = (1..=TOTAL_COUNTS_BY_YEAR_LEN as u64).collect();
    let counts = TotalCountsByYear::from_slice(&values).unwrap();
    assert_eq!(counts.as_slice().len(), 550);
    assert_ne!(*counts.as_slice().last().unwrap(), 0);
    assert_eq!(counts.as_slice(), values.as_slice());
}

#[test]
fn total_counts_of_wrong_length_are_refused() {
    let short = vec![1u64; 549];
    assert_eq!(TotalCountsByYear::from_slice(&short).unwrap_err().len, 549);
    let long = vec![1u64; 551];
    assert_eq!(TotalCountsByYear::from_slice(&long).unwrap_err().len, 551);
    assert_eq!(TotalCountsByYear::from_slice(&[]).unwrap_err().len, 0);
}

#[test]
fn corpus_info_equality() {
    let stat = CorpusStat {
        num_ngrams: 76_862_879,
        min_year: 1470,
        max_year: 2019,
        min_match_count: 1,
        max_match_count: 1_922_716_631,
        min_total_match_count: 40,
        max_total_match_count: 115_513_165_249,
    };
    let info = || CorpusInfo { name: "English".into(), label: "eng".into(), stats: [stat; 5] };
    assert!(info() == info());
    let mut other = info();
    other.stats[4].max_year = 2020;
    assert!(info() != other);
    let mut renamed = info();
    renamed.label = "ger".into();
    assert!(info() != renamed);
}

#[test]
fn ngram_stat_fields() {
    let s = NgramStat::new(1880, 21, (4.889791590572001e-9f64).to_bits());
    assert_eq!(s.year, 1880);
    assert_eq!(s.abs_match_count, 21);
    assert_eq!(f64::from_bits(s.rel_match_count_bits), 4.889791590572001e-9);
}
