//! Client-side logic for a paginated, read-only n-gram search API: the
//! request parameters, the record model (borrowed views and owned records),
//! the error taxonomy and the pagination cursor.
//!
//! Sending requests and decoding response bodies is the transport's part; the
//! cursor tells it what to request and turns what came back into a page or an
//! error.

pub mod corpus;
pub mod counts;
pub mod error;
pub mod model;
pub mod options;
pub mod pages;
pub mod status;

pub use corpus::Corpus;
pub use counts::{CorpusInfo, CorpusStat, InvalidLength, TotalCounts, TotalCountsByYear, TOTAL_COUNTS_BY_YEAR_LEN};
pub use error::{BadInputError, Error, ErrorCode, ErrorKind, ErrorSource, UnexpectedStatusCode};
pub use model::{
    Ngram, NgramLite, NgramLiteView, NgramStat, NgramToken, NgramTokenKind, NgramTokenView, Page,
    PageView, QueryToken, QueryTokenKind, QueryTokenView,
};
pub use options::SearchOptions;
pub use pages::{request_url, FetchOutcome, Pages, SearchRequest, SearchResult, BASE_URL};
pub use status::{lookup_status, resource_status, search_status, SearchStatus};
