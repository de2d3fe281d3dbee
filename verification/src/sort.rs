//! The sorting options that the API takes with a listing.

use crate::error::LocalError;
use crate::text::decimal;
use crate::text::decimal_digits;
use vstd::prelude::*;
use vstd::string::StringExecFns;

verus! {

/// How a listing is to be sorted and which page of it is asked for. A field
/// that is not set is left to the server.
pub struct SortOptions<'a> {
    pub sort: Option<&'a str>,
    pub order: Option<&'a str>,
    pub page: Option<u64>,
}

impl<'a> Default for SortOptions<'a> {
    fn default() -> (options: Self)
        ensures
            options.sort is None,
            options.order is None,
            options.page is None,
    {
        SortOptions { sort: None, order: None, page: None }
    }
}

/// What `serde_qs::to_string` writes for a map whose one entry leads from
/// `key` to `value`.
pub uninterp spec fn encoded_pair(key: Seq<char>, value: Seq<char>) -> Seq<char>;

/// `parts`, each two neighbours with an `&` between them.
pub open spec fn joined(parts: Seq<Seq<char>>) -> Seq<char>
    decreases parts.len(),
{
    if parts.len() == 0 {
        Seq::empty()
    } else if parts.len() == 1 {
        parts[0]
    } else {
        joined(parts.drop_last()) + seq!['&'] + parts.last()
    }
}

/// The views of `parts`, in order.
pub open spec fn views(parts: Seq<String>) -> Seq<Seq<char>> {
    Seq::new(parts.len(), |i: int| parts[i]@)
}

impl<'a> SortOptions<'a> {
    /// The key and the value of each field that is set, in the order `sort`,
    /// `order`, `page`; the page in decimal notation.
    pub open spec fn pairs(self) -> Seq<(Seq<char>, Seq<char>)> {
        let sort: Seq<(Seq<char>, Seq<char>)> = match self.sort {
            Some(value) => seq![("sort"@, value@)],
            None => seq![],
        };
        let order: Seq<(Seq<char>, Seq<char>)> = match self.order {
            Some(value) => seq![("order"@, value@)],
            None => seq![],
        };
        let page: Seq<(Seq<char>, Seq<char>)> = match self.page {
            Some(value) => seq![("page"@, decimal_digits(value as nat))],
            None => seq![],
        };
        sort + order + page
    }

    /// The query string of the options: the encoded pairs of the fields that
    /// are set, with `&` between them.
    pub open spec fn query(self) -> Seq<char> {
        joined(Seq::new(self.pairs().len(), |i: int| encoded_pair(self.pairs()[i].0, self.pairs()[i].1)))
    }

    /// Sets the field to sort by.
    pub fn sort(self, sort: &'a str) -> (options: Self)
        ensures
            options.sort == Some(sort),
            options.order == self.order,
            options.page == self.page,
    {
        let mut options = self;
        options.sort = Some(sort);
        options
    }

    /// Sets the order to sort in.
    pub fn order(self, order: &'a str) -> (options: Self)
        ensures
            options.sort == self.sort,
            options.order == Some(order),
            options.page == self.page,
    {
        let mut options = self;
        options.order = Some(order);
        options
    }

    /// Sets the page to ask for.
    pub fn page(self, page: u64) -> (options: Self)
        ensures
            options.sort == self.sort,
            options.order == self.order,
            options.page == Some(page),
    {
        let mut options = self;
        options.page = Some(page);
        options
    }

    /// Writes the options as a query string: the query of the options, which
    /// is the empty string where no field is set. The encoder has no error for
    /// a pair of texts, so there is always a result.
    pub fn to_query_string(&self) -> (query: Result<String, LocalError>)
        ensures
            query matches Ok(text) && text@ == self.query(),
    {
        let mut parts: Vec<String> = Vec::new();
        let ghost pairs = self.pairs();
        if let Some(value) = self.sort {
            match encode_pair("sort", value) {
                Ok(part) => parts.push(part),
                Err(_) => {
                    return Err(LocalError::Query);
                },
            }
        }
        let ghost after_sort: Seq<(Seq<char>, Seq<char>)> = match self.sort {
            Some(value) => seq![("sort"@, value@)],
            None => seq![],
        };
        assert(views(parts@) =~= Seq::new(
            after_sort.len(),
            |i: int| encoded_pair(after_sort[i].0, after_sort[i].1),
        ));
        if let Some(value) = self.order {
            match encode_pair("order", value) {
                Ok(part) => parts.push(part),
                Err(_) => {
                    return Err(LocalError::Query);
                },
            }
        }
        let ghost after_order: Seq<(Seq<char>, Seq<char>)> = after_sort + match self.order {
            Some(value) => seq![("order"@, value@)],
            None => seq![],
        };
        assert(views(parts@) =~= Seq::new(
            after_order.len(),
            |i: int| encoded_pair(after_order[i].0, after_order[i].1),
        ));
        if let Some(value) = self.page {
            let digits = decimal(value);
            match encode_pair("page", digits.as_str()) {
                Ok(part) => parts.push(part),
                Err(_) => {
                    return Err(LocalError::Query);
                },
            }
        }
        assert(views(parts@) =~= Seq::new(pairs.len(), |i: int| encoded_pair(pairs[i].0, pairs[i].1)));
        Ok(join_parts(&parts))
    }
}

/// Joins `parts` with an `&` between each two neighbours.
pub fn join_parts(parts: &Vec<String>) -> (text: String)
    ensures
        text@ == joined(views(parts@)),
{
    let mut text = String::new();
    let mut i: usize = 0;
    while i < parts.len()
        invariant
            i <= parts.len(),
            text@ == joined(views(parts@).take(i as int)),
        decreases parts.len() - i,
    {
        proof {
            let all = views(parts@);
            assert(all.take(i + 1).drop_last() == all.take(i as int));
            assert(all.take(i + 1).last() == parts@[i as int]@);
            if i == 1 {
                assert(all.take(1)[0] == all.take(1).last());
                assert(all.take(1).drop_last().len() == 0);
            }
        }
        if i > 0 {
            text.append("&");
            proof {
                reveal_strlit("&");
                assert("&"@ =~= seq!['&']);
            }
        }
        text.append(parts[i].as_str());
        proof {
            if i == 0 {
                assert(text@ =~= parts@[0]@);
            }
        }
        i = i + 1;
    }
    assert(views(parts@).take(parts.len() as int) == views(parts@));
    text
}

/// `serde_qs::Error`: the encoder's error, which `to_query_string` turns
/// into its own.
#[verifier::external_type_specification]
#[verifier::external_body]
pub struct ExQsError(serde_qs::Error);

/// `serde_qs::to_string`, on a map with the one entry from `key` to `value`:
/// the query string of that entry, which the same key and value always give.
/// The call succeeds: for a map from text to text the encoder has a key for
/// every value, writes into memory, and writes ASCII only, so none of its
/// errors can arise.
#[verifier::external_body]
fn encode_pair(key: &str, value: &str) -> (written: Result<String, serde_qs::Error>)
    ensures
        written is Ok,
        written matches Ok(text) ==> text@ == encoded_pair(key@, value@),
{
    let mut entry = std::collections::BTreeMap::new();
    entry.insert(key, value);
    serde_qs::to_string(&entry)
}

} // verus!
