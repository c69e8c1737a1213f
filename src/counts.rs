use vstd::prelude::*;

verus! {

/// The number of years that the per-year match counts cover.
pub const TOTAL_COUNTS_BY_YEAR_LEN: usize = 550;

/// Statistics of the n-grams of one length in a corpus.
#[derive(Clone, Copy, Debug, PartialEq, Eq, Structural)]
pub struct CorpusStat {
    pub num_ngrams: u64,
    pub min_year: u16,
    pub max_year: u16,
    pub min_match_count: u32,
    pub max_match_count: u32,
    pub min_total_match_count: u64,
    pub max_total_match_count: u64,
}

/// A corpus: its name, its label, and statistics for n-grams of length one
/// to five.
#[derive(Debug)]
pub struct CorpusInfo {
    pub name: String,
    pub label: String,
    pub stats: [CorpusStat; 5],
}

impl PartialEq for CorpusInfo {
    fn eq(&self, other: &CorpusInfo) -> (r: bool)
        ensures
            r == (self.name@ == other.name@ && self.label@ == other.label@
                && self.stats@ == other.stats@),
    {
        if self.name != other.name || self.label != other.label {
            return false;
        }
        let mut i: usize = 0;
        while i < 5
            invariant
                i <= 5,
                forall|j: int| 0 <= j < i ==> self.stats@[j] == other.stats@[j],
            decreases 5 - i,
        {
            if self.stats[i] != other.stats[i] {
                return false;
            }
            i += 1;
        }
        assert(self.stats@ =~= other.stats@);
        true
    }
}

impl vstd::std_specs::cmp::PartialEqSpecImpl for CorpusInfo {
    open spec fn obeys_eq_spec() -> bool {
        true
    }

    open spec fn eq_spec(&self, other: &CorpusInfo) -> bool {
        self.name@ == other.name@ && self.label@ == other.label@ && self.stats@ == other.stats@
    }
}

/// The match counts of a corpus for each year, oldest first.
#[derive(Debug)]
pub struct TotalCountsByYear([u64; TOTAL_COUNTS_BY_YEAR_LEN]);

/// A list of per-year counts whose length is not the number of years covered.
#[derive(Clone, Copy, Debug, PartialEq, Eq, Structural)]
pub struct InvalidLength {
    /// The length found.
    pub len: usize,
}

impl View for TotalCountsByYear {
    type V = Seq<u64>;

    closed spec fn view(&self) -> Seq<u64> {
        self.0@
    }
}

impl TotalCountsByYear {
    /// The counts of a list that holds one per year covered; a list of any
    /// other length is refused.
    pub fn from_slice(values: &[u64]) -> (r: Result<TotalCountsByYear, InvalidLength>)
        ensures
            r is Ok <==> values@.len() == TOTAL_COUNTS_BY_YEAR_LEN,
            r matches Ok(c) ==> c@ == values@,
            r matches Err(e) ==> e.len == values@.len(),
    {
        if values.len() != TOTAL_COUNTS_BY_YEAR_LEN {
            return Err(InvalidLength { len: values.len() });
        }
        let mut counts: [u64; TOTAL_COUNTS_BY_YEAR_LEN] = [0u64; TOTAL_COUNTS_BY_YEAR_LEN];
        let mut i: usize = 0;
        while i < TOTAL_COUNTS_BY_YEAR_LEN
            invariant
                i <= TOTAL_COUNTS_BY_YEAR_LEN,
                values@.len() == TOTAL_COUNTS_BY_YEAR_LEN,
                counts@.len() == TOTAL_COUNTS_BY_YEAR_LEN,
                forall|j: int| 0 <= j < i ==> counts@[j] == values@[j],
            decreases TOTAL_COUNTS_BY_YEAR_LEN - i,
        {
            counts[i] = values[i];
            i += 1;
        }
        assert(counts@ =~= values@);
        Ok(TotalCountsByYear(counts))
    }

    /// The counts, one per year.
    pub fn as_slice(&self) -> (r: &[u64])
        ensures
            r@ == self@,
            r@.len() == TOTAL_COUNTS_BY_YEAR_LEN,
    {
        self.0.as_slice()
    }
}

/// The total match counts of a corpus, year by year, for n-grams of length
/// one to five.
#[derive(Debug)]
pub struct TotalCounts {
    pub min_year: u16,
    pub max_year: u16,
    pub match_counts: [TotalCountsByYear; 5],
}

} // verus!
