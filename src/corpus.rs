use vstd::prelude::*;

verus! {

/// The text collections that the API serves.
#[derive(Clone, Copy, Debug, PartialEq, Eq, Structural)]
pub enum Corpus {
    English,
    German,
    Russian,
}

/// The path segment that names a corpus in request URLs.
pub open spec fn corpus_label(corpus: Corpus) -> Seq<char> {
    match corpus {
        Corpus::English => seq!['e', 'n', 'g'],
        Corpus::German => seq!['g', 'e', 'r'],
        Corpus::Russian => seq!['r', 'u', 's'],
    }
}

impl Corpus {
    /// The three-letter label of the corpus.
    pub fn label(&self) -> (r: &'static str)
        ensures
            r@ == corpus_label(*self),
    {
        match self {
            Corpus::English => {
                proof { reveal_strlit("eng"); }
                "eng"
            },
            Corpus::German => {
                proof { reveal_strlit("ger"); }
                "ger"
            },
            Corpus::Russian => {
                proof { reveal_strlit("rus"); }
                "rus"
            },
        }
    }
}

} // verus!
