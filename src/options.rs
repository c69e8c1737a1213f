use vstd::prelude::*;

verus! {

/// What a search asks of the server, and how many pages the cursor may fetch.
#[derive(Clone, Copy, Debug, PartialEq, Eq, Structural)]
pub struct SearchOptions {
    /// Number of n-grams per page; the server accepts 1 to 100.
    pub max_page_size: u8,
    /// Number of pages the cursor fetches at most; 0 fetches none.
    pub max_page_count: u32,
    pub case_sensitive: bool,
    pub collapse_result: bool,
    pub exclude_punctuation_marks: bool,
    pub exclude_sentence_boundary_tags: bool,
    pub dont_interpret_query_operators: bool,
    pub dont_tokenize_query_terms: bool,
    pub dont_unicode_normalize_query: bool,
}

/// The abbreviation of one modifier if it is set, nothing otherwise.
pub open spec fn flag_text(set: bool, abbreviation: Seq<char>) -> Seq<char> {
    if set {
        abbreviation
    } else {
        Seq::empty()
    }
}

/// The flag string: the abbreviations of the set modifiers, in declaration order.
pub open spec fn flags_of(o: SearchOptions) -> Seq<char> {
    flag_text(o.case_sensitive, seq!['c', 's'])
        + flag_text(o.collapse_result, seq!['c', 'r'])
        + flag_text(o.exclude_punctuation_marks, seq!['e', 'p'])
        + flag_text(o.exclude_sentence_boundary_tags, seq!['e', 's'])
        + flag_text(o.dont_interpret_query_operators, seq!['r', 'i'])
        + flag_text(o.dont_tokenize_query_terms, seq!['r', 't'])
        + flag_text(o.dont_unicode_normalize_query, seq!['r', 'n'])
}

/// Whether any modifier is set.
pub open spec fn any_flag(o: SearchOptions) -> bool {
    o.case_sensitive || o.collapse_result || o.exclude_punctuation_marks
        || o.exclude_sentence_boundary_tags || o.dont_interpret_query_operators
        || o.dont_tokenize_query_terms || o.dont_unicode_normalize_query
}

/// Appends `abbreviation` to `flags` when `set` holds.
fn push_flag(flags: &mut String, set: bool, abbreviation: &str)
    ensures
        final(flags)@ == old(flags)@ + flag_text(set, abbreviation@),
{
    if set {
        flags.append(abbreviation);
    } else {
        assert(old(flags)@ + Seq::<char>::empty() =~= old(flags)@);
    }
}

impl SearchOptions {
    /// The compact flag string sent as the `flags` parameter.
    pub fn to_flags(self) -> (r: String)
        ensures
            r@ == flags_of(self),
            r@.len() == 0 <==> !any_flag(self),
    {
        let mut flags = String::new();
        proof {
            reveal_strlit("cs");
            reveal_strlit("cr");
            reveal_strlit("ep");
            reveal_strlit("es");
            reveal_strlit("ri");
            reveal_strlit("rt");
            reveal_strlit("rn");
        }
        push_flag(&mut flags, self.case_sensitive, "cs");
        push_flag(&mut flags, self.collapse_result, "cr");
        push_flag(&mut flags, self.exclude_punctuation_marks, "ep");
        push_flag(&mut flags, self.exclude_sentence_boundary_tags, "es");
        push_flag(&mut flags, self.dont_interpret_query_operators, "ri");
        push_flag(&mut flags, self.dont_tokenize_query_terms, "rt");
        push_flag(&mut flags, self.dont_unicode_normalize_query, "rn");
        assert(flags@ =~= flags_of(self));
        flags
    }
}

/// The options a search starts from: full pages, ten of them, no modifier.
pub open spec fn default_options() -> SearchOptions {
    SearchOptions {
        max_page_size: 100,
        max_page_count: 10,
        case_sensitive: false,
        collapse_result: false,
        exclude_punctuation_marks: false,
        exclude_sentence_boundary_tags: false,
        dont_interpret_query_operators: false,
        dont_tokenize_query_terms: false,
        dont_unicode_normalize_query: false,
    }
}

impl Default for SearchOptions {
    fn default() -> (r: SearchOptions)
        ensures
            r == default_options(),
    {
        SearchOptions {
            max_page_size: 100,
            max_page_count: 10,
            case_sensitive: false,
            collapse_result: false,
            exclude_punctuation_marks: false,
            exclude_sentence_boundary_tags: false,
            dont_interpret_query_operators: false,
            dont_tokenize_query_terms: false,
            dont_unicode_normalize_query: false,
        }
    }
}

/// The decimal digit for `d`.
pub open spec fn digit_char(d: nat) -> char {
    seq!['0', '1', '2', '3', '4', '5', '6', '7', '8', '9'][d as int]
}

/// The decimal notation of `n`, without leading zeros.
pub open spec fn decimal(n: nat) -> Seq<char>
    decreases n,
{
    if n < 10 {
        seq![digit_char(n)]
    } else {
        decimal(n / 10).push(digit_char(n % 10))
    }
}

/// The one-character string for the digit `d`.
fn digit_str(d: u8) -> (r: &'static str)
    requires
        d < 10,
    ensures
        r@ == seq![digit_char(d as nat)],
{
    proof {
        reveal_strlit("0");
        reveal_strlit("1");
        reveal_strlit("2");
        reveal_strlit("3");
        reveal_strlit("4");
        reveal_strlit("5");
        reveal_strlit("6");
        reveal_strlit("7");
        reveal_strlit("8");
        reveal_strlit("9");
    }
    let r = match d {
        0 => "0",
        1 => "1",
        2 => "2",
        3 => "3",
        4 => "4",
        5 => "5",
        6 => "6",
        7 => "7",
        8 => "8",
        _ => "9",
    };
    assert(r@ =~= seq![digit_char(d as nat)]);
    r
}

/// The decimal notation of a byte value, as sent in the `limit` parameter.
pub fn decimal_string(n: u8) -> (r: String)
    ensures
        r@ == decimal(n as nat),
{
    let mut s = String::new();
    if n >= 100 {
        s.append(digit_str(n / 100));
    }
    if n >= 10 {
        s.append(digit_str((n / 10) % 10));
    }
    s.append(digit_str(n % 10));
    proof {
        let m = n as nat;
        if m >= 100 {
            assert(decimal(m / 100) == seq![digit_char(m / 100)]);
            assert(decimal(m / 10) =~= seq![digit_char(m / 100), digit_char((m / 10) % 10)]);
        } else if m >= 10 {
            assert(decimal(m / 10) == seq![digit_char((m / 10) % 10)]);
        }
        assert(s@ =~= decimal(m));
    }
    s
}

} // verus!
