//! Ordered query parameters and their wire serialization. The server matches
//! profile clauses textually, so the order in which parameters are appended
//! is part of the contract.

use vstd::prelude::*;
use vstd::string::StringSliceAdditionalSpecFns;
use crate::text::{append_pct_encoded, pct_bytes, push_char};

verus! {

/// The percent-encoding of a character sequence, applied to its UTF-8 bytes.
pub open spec fn pct_chars(s: Seq<char>) -> Seq<char> {
    pct_bytes(vstd::utf8::encode_utf8(s))
}

/// The wire form `key=value` of one parameter, both sides percent-encoded.
pub open spec fn spec_pair_string(p: (Seq<char>, Seq<char>)) -> Seq<char> {
    pct_chars(p.0) + seq!['='] + pct_chars(p.1)
}

/// The wire form of a parameter list: pairs joined with `&`.
pub open spec fn spec_query_string(ps: Seq<(Seq<char>, Seq<char>)>) -> Seq<char>
    decreases ps.len(),
{
    if ps.len() == 0 {
        Seq::empty()
    } else if ps.len() == 1 {
        spec_pair_string(ps[0])
    } else {
        spec_query_string(ps.drop_last()) + seq!['&'] + spec_pair_string(ps.last())
    }
}

/// An ordered list of query parameters.
#[derive(Debug)]
pub struct Query {
    params: Vec<(String, String)>,
}

impl View for Query {
    type V = Seq<(Seq<char>, Seq<char>)>;

    closed spec fn view(&self) -> Seq<(Seq<char>, Seq<char>)> {
        Seq::new(self.params@.len(), |i: int| (self.params@[i].0@, self.params@[i].1@))
    }
}

impl Query {
    /// An empty parameter list.
    pub fn new() -> (r: Query)
        ensures
            r@ == Seq::<(Seq<char>, Seq<char>)>::empty(),
    {
        let r = Query { params: Vec::new() };
        proof {
            assert(r@ =~= Seq::<(Seq<char>, Seq<char>)>::empty());
        }
        r
    }

    /// Appends one parameter at the end of the list.
    pub fn param(self, key: &str, value: &str) -> (r: Query)
        ensures
            r@ == self@.push((key@, value@)),
    {
        let mut params = self.params;
        params.push((key.to_owned(), value.to_owned()));
        let r = Query { params };
        proof {
            assert(r@ =~= self@.push((key@, value@)));
        }
        r
    }

    /// Appends one parameter given as owned strings.
    pub fn param_owned(self, key: String, value: String) -> (r: Query)
        ensures
            r@ == self@.push((key@, value@)),
    {
        let ghost k = key@;
        let ghost v = value@;
        let mut params = self.params;
        params.push((key, value));
        let r = Query { params };
        proof {
            assert(r@ =~= self@.push((k, v)));
        }
        r
    }

    /// An independent copy with the same parameters.
    pub fn duplicate(&self) -> (r: Query)
        ensures
            r@ == self@,
    {
        let mut params: Vec<(String, String)> = Vec::new();
        let n = self.params.len();
        let mut i: usize = 0;
        while i < n
            invariant
                i <= n,
                n == self.params@.len(),
                params@.len() == i,
                forall|j: int| 0 <= j < i ==> (#[trigger] params@[j]).0@ == self.params@[j].0@
                    && params@[j].1@ == self.params@[j].1@,
            decreases n - i,
        {
            let k = self.params[i].0.clone();
            let v = self.params[i].1.clone();
            params.push((k, v));
            i = i + 1;
        }
        let r = Query { params };
        proof {
            assert(r@ =~= self@);
        }
        r
    }

    /// Whether the list holds no parameter.
    pub fn is_empty(&self) -> (r: bool)
        ensures
            r <==> self@.len() == 0,
    {
        self.params.len() == 0
    }

    /// Serializes the parameters for the wire: `k=v` pairs joined with `&`,
    /// keys and values percent-encoded.
    pub fn to_query_string(&self) -> (s: String)
        ensures
            s@ == spec_query_string(self@),
    {
        let mut s = String::new();
        let n = self.params.len();
        let mut i: usize = 0;
        while i < n
            invariant
                i <= n,
                n == self.params@.len(),
                s@ =~= spec_query_string(self@.subrange(0, i as int)),
            decreases n - i,
        {
            proof {
                assert(self@.subrange(0, i + 1 as int).drop_last() =~= self@.subrange(0, i as int));
                assert(self@.subrange(0, i + 1 as int).last() == self@[i as int]);
            }
            if i > 0 {
                push_char(&mut s, '&');
            }
            let p0 = self.params[i].0.as_str();
            append_pct_encoded(&mut s, p0);
            push_char(&mut s, '=');
            let p1 = self.params[i].1.as_str();
            append_pct_encoded(&mut s, p1);
            proof {
                assert(s@ =~= spec_query_string(self@.subrange(0, i + 1 as int)));
            }
            i = i + 1;
        }
        proof {
            assert(self@.subrange(0, n as int) =~= self@);
        }
        s
    }
}

} // verus!
