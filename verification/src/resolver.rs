//! Deriving the connection state from the query of the page location.

use vstd::prelude::*;
use vstd::string::*;

verus! {

/// Mathematical value of a list of decoded query parameters.
pub type Pairs = Seq<(Seq<char>, Seq<char>)>;

/// The pairs of a list, each by the views of its two strings.
pub open spec fn pairs_of(list: Seq<(String, String)>) -> Pairs {
    Seq::new(list.len(), |i: int| (list[i].0@, list[i].1@))
}

/// The pairs of an optional list.
pub open spec fn parsed_pairs(parsed: Option<Vec<(String, String)>>) -> Option<Pairs> {
    match parsed {
        Some(list) => Some(pairs_of(list@)),
        None => None,
    }
}

/// What `serde_urlencoded` makes of `query` when asked for a list of pairs:
/// the decoded names and values in their order, or `None` where it reports an
/// error.
pub uninterp spec fn url_query_pairs(query: Seq<char>) -> Option<Pairs>;

/// Position `i` of `pairs` holds a parameter named `code`.
pub open spec fn is_code_at(pairs: Pairs, i: int) -> bool {
    0 <= i < pairs.len() && pairs[i].0 == "code"@
}

/// Position `i` holds the only parameter named `code`.
pub open spec fn sole_code_at(pairs: Pairs, i: int) -> bool {
    &&& is_code_at(pairs, i)
    &&& forall|j: int| #[trigger] is_code_at(pairs, j) ==> j == i
}

/// The authorization code that a list of parameters carries: the value of
/// `code` where exactly one parameter has that name, else empty.
pub open spec fn code_of(pairs: Pairs) -> Seq<char> {
    if exists|i: int| sole_code_at(pairs, i) {
        pairs[choose|i: int| sole_code_at(pairs, i)].1
    } else {
        Seq::empty()
    }
}

/// The authorization code of an optional list of parameters; empty where the
/// query could not be parsed.
pub open spec fn code_of_parsed(parsed: Option<Pairs>) -> Seq<char> {
    match parsed {
        Some(pairs) => code_of(pairs),
        None => Seq::empty(),
    }
}

/// The query without the question mark that a page location puts before it.
pub open spec fn without_question_mark(location_query: Seq<char>) -> Seq<char> {
    if location_query.len() > 0 && location_query[0] == '?' {
        location_query.subrange(1, location_query.len() as int)
    } else {
        Seq::empty()
    }
}

/// Calls `serde_urlencoded::from_str` for a `Vec<(String, String)>`. The
/// contract only names the outcome: it is a function of `query`.
#[verifier::external_body]
fn parse_query(query: &str) -> (parsed: Option<Vec<(String, String)>>)
    ensures
        parsed_pairs(parsed) == url_query_pairs(query@),
{
    match serde_urlencoded::from_str::<Vec<(String, String)>>(query) {
        Ok(pairs) => Some(pairs),
        Err(_) => None,
    }
}

/// Picks the authorization code out of decoded query parameters.
pub fn code_from_pairs(pairs: &Vec<(String, String)>) -> (code: String)
    ensures
        code@ == code_of(pairs_of(pairs@)),
{
    let ghost all = pairs_of(pairs@);
    let name = String::from_str("code");
    let mut hits: usize = 0;
    let mut first: usize = 0;
    let mut i: usize = 0;
    while i < pairs.len()
        invariant
            i <= pairs.len(),
            all == pairs_of(pairs@),
            name@ == "code"@,
            hits <= 2,
            hits == 0 ==> forall|j: int| 0 <= j < i ==> !is_code_at(all, j),
            hits >= 1 ==> first < i && is_code_at(all, first as int),
            hits == 1 ==> forall|j: int| 0 <= j < i && is_code_at(all, j) ==> j == first,
            hits == 2 ==> exists|j: int| 0 <= j < i && j != first && is_code_at(all, j),
        decreases pairs.len() - i,
    {
        if pairs[i].0 == name {
            assert(is_code_at(all, i as int));
            if hits == 0 {
                first = i;
                hits = 1;
            } else {
                hits = 2;
            }
        } else {
            assert(!is_code_at(all, i as int));
        }
        i += 1;
    }
    if hits == 1 {
        assert(sole_code_at(all, first as int));
        let ghost c = choose|c: int| sole_code_at(all, c);
        assert(c == first);
        pairs[first].1.clone()
    } else {
        assert forall|c: int| !sole_code_at(all, c) by {
            if hits == 2 && sole_code_at(all, c) {
                let j = choose|j: int| 0 <= j < i && j != first && is_code_at(all, j);
                assert(is_code_at(all, j));
                assert(is_code_at(all, first as int));
            }
        }
        String::new()
    }
}

/// The authorization code for parsed query parameters, empty where parsing
/// failed.
pub fn code_from_parsed(parsed: Option<Vec<(String, String)>>) -> (code: String)
    ensures
        code@ == code_of_parsed(parsed_pairs(parsed)),
{
    match parsed {
        Some(pairs) => code_from_pairs(&pairs),
        None => String::new(),
    }
}

/// The authorization code in a query string such as `code=abc&state=`.
pub fn resolve_query(query: &str) -> (code: String)
    ensures
        code@ == code_of_parsed(url_query_pairs(query@)),
{
    code_from_parsed(parse_query(query))
}

/// The authorization code in the query of a page location, which starts with
/// a question mark where it is not empty. An empty result means "not
/// connected".
pub fn resolve(location_query: &str) -> (code: String)
    ensures
        code@ == code_of_parsed(url_query_pairs(without_question_mark(location_query@))),
{
    let n = location_query.unicode_len();
    if n > 0 && location_query.get_char(0) == '?' {
        resolve_query(location_query.substring_char(1, n))
    } else {
        proof {
            reveal_strlit("");
            assert(""@ =~= Seq::<char>::empty());
        }
        resolve_query("")
    }
}

/// Parameters without a `code` resolve to the empty string.
pub proof fn lemma_no_code_resolves_empty(pairs: Pairs)
    requires
        forall|i: int| 0 <= i < pairs.len() ==> (#[trigger] pairs[i]).0 != "code"@,
    ensures
        code_of(pairs) == Seq::<char>::empty(),
{
    assert forall|i: int| !sole_code_at(pairs, i) by {
        if 0 <= i < pairs.len() {
            assert(pairs[i].0 != "code"@);
        }
    }
}

/// Parameters with exactly one `code`, at position `at`, resolve to its value.
pub proof fn lemma_one_code_resolves_value(pairs: Pairs, at: int)
    requires
        0 <= at < pairs.len(),
        pairs[at].0 == "code"@,
        forall|i: int| 0 <= i < pairs.len() && i != at ==> (#[trigger] pairs[i]).0 != "code"@,
    ensures
        code_of(pairs) == pairs[at].1,
{
    assert(sole_code_at(pairs, at)) by {
        assert forall|j: int| #[trigger] is_code_at(pairs, j) implies j == at by {
            if j != at {
                assert(pairs[j].0 != "code"@);
            }
        }
    }
    assert(is_code_at(pairs, at));
}

/// An unparsable query resolves to the empty string.
pub proof fn lemma_unparsable_resolves_empty()
    ensures
        code_of_parsed(None) == Seq::<char>::empty(),
{
}

} // verus!
