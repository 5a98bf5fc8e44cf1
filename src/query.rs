//! Query parameters and request headers as ordered lists of name/value pairs.
use vstd::prelude::*;

verus! {

/// The mathematical view of an ordered list of name/value pairs.
pub open spec fn pairs_view(v: Seq<(String, String)>) -> Seq<(Seq<char>, Seq<char>)> {
    v.map_values(|p: (String, String)| (p.0@, p.1@))
}

/// The query parameters of a request, in the order in which they were given,
/// repeated names kept.
pub struct QueryString {
    pairs: Vec<(String, String)>,
}

impl View for QueryString {
    type V = Seq<(Seq<char>, Seq<char>)>;

    closed spec fn view(&self) -> Self::V {
        pairs_view(self.pairs@)
    }
}

impl QueryString {
    /// The empty context into which the fields of a query string are collected.
    pub fn init() -> (r: Vec<(String, String)>)
        ensures
            r@.len() == 0,
    {
        Vec::new()
    }

    /// Appends one decoded field: neither earlier fields nor a field of the same
    /// name are touched.
    pub fn push_value(ctxt: &mut Vec<(String, String)>, name: &str, value: &str)
        ensures
            pairs_view(final(ctxt)@) == pairs_view(old(ctxt)@).push((name@, value@)),
    {
        ctxt.push((name.to_owned(), value.to_owned()));
        proof {
            assert(pairs_view(final(ctxt)@) =~= pairs_view(old(ctxt)@).push((name@, value@)));
        }
    }

    /// The query string made of the collected fields, as they stand.
    pub fn finalize(ctxt: Vec<(String, String)>) -> (r: QueryString)
        ensures
            r@ == pairs_view(ctxt@),
    {
        QueryString { pairs: ctxt }
    }

    /// The fields, in order.
    pub fn as_pairs(&self) -> (r: &Vec<(String, String)>)
        ensures
            pairs_view(r@) == self@,
    {
        &self.pairs
    }

    /// The fields, in order, taken out of the query string.
    pub fn into_pairs(self) -> (r: Vec<(String, String)>)
        ensures
            pairs_view(r@) == self@,
    {
        self.pairs
    }
}

/// Every header of a request, in the order received, names neither
/// deduplicated nor case-normalized.
pub struct AllHeaders {
    pairs: Vec<(String, String)>,
}

impl View for AllHeaders {
    type V = Seq<(Seq<char>, Seq<char>)>;

    closed spec fn view(&self) -> Self::V {
        pairs_view(self.pairs@)
    }
}

impl AllHeaders {
    /// The headers of a request, taken as they were received.
    pub fn from_request(headers: Vec<(String, String)>) -> (r: AllHeaders)
        ensures
            r@ == pairs_view(headers@),
    {
        AllHeaders { pairs: headers }
    }

    /// The headers, in order.
    pub fn as_pairs(&self) -> (r: &Vec<(String, String)>)
        ensures
            pairs_view(r@) == self@,
    {
        &self.pairs
    }

    /// The headers, in order, taken out.
    pub fn into_pairs(self) -> (r: Vec<(String, String)>)
        ensures
            pairs_view(r@) == self@,
    {
        self.pairs
    }
}

} // verus!
