//! Normalized request parameters: an ordered key/value multimap abstracting
//! query-string and form-body encoding, and its decoder.

use vstd::prelude::*;

verus! {

/// What `application/x-www-form-urlencoded` text decodes to: the ordered
/// key/value pairs, or nothing where the text is not a valid encoding.
/// The result depends on the text alone.
pub uninterp spec fn urldecoded_pairs(s: Seq<char>) -> Option<Seq<(Seq<char>, Seq<char>)>>;

/// The mathematical contents of a list of owned key/value pairs.
pub open spec fn pairs_view(v: Vec<(String, String)>) -> Seq<(Seq<char>, Seq<char>)> {
    v@.map_values(|p: (String, String)| (p.0@, p.1@))
}

/// Relies on serde_urlencoded::from_str: decoding urlencoded text into
/// ordered key/value pairs, a function of the text alone. A decode error
/// is turned into `None`.
#[verifier::external_body]
fn parse_urlencoded(input: &str) -> (r: Option<Vec<(String, String)>>)
    ensures
        match r {
            Some(v) => urldecoded_pairs(input@) matches Some(p) && pairs_view(v) == p,
            None => urldecoded_pairs(input@) is None,
        },
{
    serde_urlencoded::from_str::<Vec<(String, String)>>(input).ok()
}

/// An ordered key-to-value multimap, as a query string or form body decodes
/// to one. Absence of a whole multimap is a distinct state from an empty
/// one and is represented by the surrounding `Option` at its uses.
#[derive(Clone, Debug)]
pub struct NormalizedParameter {
    /// The key/value pairs, in decoding order.
    pub pairs: Vec<(String, String)>,
}

impl View for NormalizedParameter {
    type V = Seq<(Seq<char>, Seq<char>)>;

    open spec fn view(&self) -> Seq<(Seq<char>, Seq<char>)> {
        pairs_view(self.pairs)
    }
}

impl NormalizedParameter {
    /// An empty parameter map.
    pub fn new() -> (r: Self)
        ensures
            r@ == Seq::<(Seq<char>, Seq<char>)>::empty(),
    {
        let r = NormalizedParameter { pairs: Vec::new() };
        proof {
            assert(r@ =~= Seq::<(Seq<char>, Seq<char>)>::empty());
        }
        r
    }

    /// Wraps already-decoded pairs.
    pub fn from_pairs(pairs: Vec<(String, String)>) -> (r: Self)
        ensures
            r@ == pairs_view(pairs),
    {
        NormalizedParameter { pairs }
    }

    /// Decodes urlencoded text; `None` where the text is not a valid
    /// encoding.
    pub fn from_urlencoded(input: &str) -> (r: Option<Self>)
        ensures
            match r {
                Some(p) => urldecoded_pairs(input@) == Some(p@),
                None => urldecoded_pairs(input@) is None,
            },
    {
        match parse_urlencoded(input) {
            Some(v) => Some(NormalizedParameter { pairs: v }),
            None => None,
        }
    }

    /// The number of key/value pairs.
    pub fn len(&self) -> (n: usize)
        ensures
            n == self@.len(),
    {
        self.pairs.len()
    }

    /// Appends one key/value pair at the end.
    pub fn push(&mut self, key: String, value: String)
        ensures
            final(self)@ == old(self)@.push((key@, value@)),
    {
        self.pairs.push((key, value));
        proof {
            assert(final(self)@ =~= old(self)@.push((key@, value@)));
        }
    }

    /// The pair at a position, in decoding order.
    pub fn pair(&self, i: usize) -> (r: &(String, String))
        requires
            i < self@.len(),
        ensures
            (r.0@, r.1@) == self@[i as int],
    {
        &self.pairs[i]
    }

    /// The value bound to a key that appears exactly once; a key that is
    /// absent or appears more than once yields nothing.
    pub fn unique_value(&self, key: &str) -> (r: Option<&str>)
        ensures
            match r {
                Option::Some(v) => unique_value_spec(self@, key@) == Some(v@),
                Option::None => unique_value_spec(self@, key@) is None,
            },
    {
        let ghost m = self@;
        let ghost k = key@;
        let key_owned = key.to_owned();
        let n = self.pairs.len();
        let mut found: Option<usize> = None;
        let mut i: usize = 0;
        while i < n
            invariant
                n == m.len(),
                0 <= i <= n,
                m == self@,
                k == key@,
                k == key_owned@,
                match found {
                    Option::Some(f) => 0 <= f < i && m[f as int].0 == k && (forall|j: int|
                        0 <= j < i && j != f ==> m[j].0 != k),
                    Option::None => forall|j: int| 0 <= j < i ==> m[j].0 != k,
                },
            decreases n - i,
        {
            if self.pairs[i].0 == key_owned {
                match found {
                    Some(f) => {
                        proof {
                            assert(m[i as int].0 == k);
                            assert forall|idx: int| !unique_index(m, k, idx) by {
                                if unique_index(m, k, idx) {
                                    if idx != f {
                                        assert(m[f as int].0 != k);
                                    } else {
                                        assert(m[i as int].0 != k);
                                    }
                                }
                            }
                            assert(unique_value_spec(m, k) is None);
                        }
                        return None;
                    },
                    None => {
                        found = Some(i);
                    },
                }
            }
            i += 1;
        }
        match found {
            Some(f) => {
                proof {
                    assert(unique_index(m, k, f as int));
                    let c = choose|idx: int| unique_index(m, k, idx);
                    assert(c == f as int);
                }
                Some(self.pairs[f].1.as_str())
            },
            None => {
                proof {
                    assert forall|idx: int| !unique_index(m, k, idx) by {
                        if unique_index(m, k, idx) {
                            assert(m[idx].0 != k);
                        }
                    }
                }
                None
            },
        }
    }
}

/// Whether a key appears at exactly one position of a parameter map: it
/// stands there and nowhere else.
pub open spec fn unique_index(m: Seq<(Seq<char>, Seq<char>)>, k: Seq<char>, i: int) -> bool {
    &&& 0 <= i < m.len()
    &&& m[i].0 == k
    &&& forall|j: int| 0 <= j < m.len() && j != i ==> m[j].0 != k
}

/// The value bound to a key of a parameter map, where the key appears
/// exactly once; nothing where it is absent or repeated.
pub open spec fn unique_value_spec(m: Seq<(Seq<char>, Seq<char>)>, k: Seq<char>) -> Option<
    Seq<char>,
> {
    if exists|i: int| unique_index(m, k, i) {
        Some(m[choose|i: int| unique_index(m, k, i)].1)
    } else {
        None
    }
}

} // verus!
