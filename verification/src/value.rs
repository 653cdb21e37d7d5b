//! The structured document values exchanged with the device.
//!
//! A document is an ordered-key, typed-value tree: strings, unsigned
//! integers, byte blobs, ordered sequences, and keyed mappings whose
//! entries keep their insertion order. `Value` is the executable form;
//! `Doc` is its mathematical model, used by every contract.

use vstd::prelude::*;

verus! {

/// Mathematical model of a document value.
pub enum Doc {
    /// A character string.
    Text(Seq<char>),
    /// An unsigned integer.
    Integer(u64),
    /// An uninterpreted byte blob.
    Data(Seq<u8>),
    /// An ordered sequence of values.
    Array(Seq<Doc>),
    /// An ordered-key mapping; entries keep their insertion order.
    Dict(Seq<(Seq<char>, Doc)>),
}

/// Executable document value.
#[derive(Debug, PartialEq, Eq)]
pub enum Value {
    /// A character string.
    Text(String),
    /// An unsigned integer.
    Integer(u64),
    /// An uninterpreted byte blob.
    Data(Vec<u8>),
    /// An ordered sequence of values.
    Array(Vec<Value>),
    /// An ordered-key mapping; entries keep their insertion order.
    Dict(Vec<(String, Value)>),
}

impl Value {
    /// The mathematical document this value represents.
    pub open spec fn dv(self) -> Doc
        decreases self,
    {
        match self {
            Value::Text(s) => Doc::Text(s@),
            Value::Integer(n) => Doc::Integer(n),
            Value::Data(b) => Doc::Data(b@),
            Value::Array(vs) => Doc::Array(dv_seq(vs@)),
            Value::Dict(es) => Doc::Dict(dv_entries(es@)),
        }
    }
}

/// The models of a sequence of values, element by element.
pub open spec fn dv_seq(vs: Seq<Value>) -> Seq<Doc>
    decreases vs,
{
    if vs.len() == 0 {
        Seq::empty()
    } else {
        dv_seq(vs.drop_last()).push(vs.last().dv())
    }
}

/// The models of a sequence of mapping entries, keys viewed as character
/// sequences.
pub open spec fn dv_entries(es: Seq<(String, Value)>) -> Seq<(Seq<char>, Doc)>
    decreases es,
{
    if es.len() == 0 {
        Seq::empty()
    } else {
        dv_entries(es.drop_last()).push((es.last().0@, es.last().1.dv()))
    }
}

/// `dv_entries` models an entry sequence entry by entry.
pub proof fn lemma_dv_entries(es: Seq<(String, Value)>)
    ensures
        dv_entries(es).len() == es.len(),
        forall|i: int|
            0 <= i < es.len() ==> dv_entries(es)[i] == (#[trigger] es[i].0@, es[i].1.dv()),
    decreases es,
{
    if es.len() > 0 {
        lemma_dv_entries(es.drop_last());
        assert forall|i: int|
            0 <= i < es.len() implies dv_entries(es)[i] == (#[trigger] es[i].0@, es[i].1.dv()) by {
            if i < es.len() - 1 {
                assert(es.drop_last()[i] == es[i]);
            }
        }
    }
}

/// The value under the first entry of `es` whose key is `key`, if any.
pub open spec fn lookup_entries(es: Seq<(Seq<char>, Doc)>, key: Seq<char>) -> Option<Doc>
    decreases es.len(),
{
    if es.len() == 0 {
        None
    } else if es[0].0 == key {
        Some(es[0].1)
    } else {
        lookup_entries(es.drop_first(), key)
    }
}

impl Doc {
    /// Field lookup: the value under `key` if this document is a mapping
    /// with such an entry; `None` on every other document.
    pub open spec fn lookup(self, key: Seq<char>) -> Option<Doc> {
        match self {
            Doc::Dict(es) => lookup_entries(es, key),
            _ => None,
        }
    }
}

/// When no entry among the first `i` carries `key`, the lookup is decided
/// by the remaining entries alone.
pub proof fn lemma_lookup_skip(es: Seq<(Seq<char>, Doc)>, key: Seq<char>, i: int)
    requires
        0 <= i <= es.len(),
        forall|j: int| 0 <= j < i ==> (#[trigger] es[j].0) != key,
    ensures
        lookup_entries(es, key) == lookup_entries(es.skip(i), key),
    decreases i,
{
    if i > 0 {
        lemma_lookup_skip(es, key, i - 1);
        assert(es.skip(i - 1)[0] == es[i - 1]);
        assert(es.skip(i - 1).drop_first() =~= es.skip(i));
    } else {
        assert(es.skip(0) =~= es);
    }
}

impl Value {
    /// Borrow the value under the first entry carrying `key`, if this
    /// value is a mapping with such an entry.
    pub fn get<'a>(&'a self, key: &str) -> (r: Option<&'a Value>)
        ensures
            match r {
                Some(v) => self.dv().lookup(key@) == Some(v.dv()),
                None => self.dv().lookup(key@) is None,
            },
    {
        match self {
            Value::Dict(es) => {
                let k: String = key.to_owned();
                let ghost ges = dv_entries(es@);
                proof {
                    lemma_dv_entries(es@);
                    assert(self.dv() == Doc::Dict(ges));
                }
                let n: usize = es.len();
                let mut i: usize = 0;
                while i < n
                    invariant
                        n == es.len(),
                        i <= n,
                        self.dv() == Doc::Dict(ges),
                        ges == dv_entries(es@),
                        ges.len() == es@.len(),
                        forall|j: int| 0 <= j < es@.len() ==> ges[j] == (#[trigger] es@[j].0@, es@[j].1.dv()),
                        k@ == key@,
                        forall|j: int| 0 <= j < i ==> (#[trigger] ges[j].0) != key@,
                    decreases n - i,
                {
                    if es[i].0 == k {
                        proof {
                            assert(ges[i as int] == (es@[i as int].0@, es@[i as int].1.dv()));
                            assert(ges[i as int].0 == key@);
                            lemma_lookup_skip(ges, key@, i as int);
                            assert(ges.skip(i as int)[0] == ges[i as int]);
                            assert(lookup_entries(ges, key@) == Some(ges[i as int].1));
                        }
                        return Some(&es[i].1);
                    }
                    i += 1;
                }
                proof {
                    lemma_lookup_skip(ges, key@, n as int);
                    assert(ges.skip(n as int) =~= Seq::empty());
                }
                None
            },
            _ => None,
        }
    }

    /// Take the value under the first entry carrying `key` out of this
    /// value, if it is a mapping with such an entry; the rest of the
    /// document is discarded.
    pub fn take(self, key: &str) -> (r: Option<Value>)
        ensures
            match r {
                Some(v) => self.dv().lookup(key@) == Some(v.dv()),
                None => self.dv().lookup(key@) is None,
            },
    {
        match self {
            Value::Dict(mut es) => {
                let k: String = key.to_owned();
                let ghost orig = es@;
                let ghost ges = dv_entries(es@);
                proof {
                    lemma_dv_entries(es@);
                    assert(self.dv() == Doc::Dict(ges));
                }
                let n: usize = es.len();
                let mut i: usize = 0;
                while i < n
                    invariant
                        n == es.len(),
                        i <= n,
                        es@ == orig,
                        self.dv() == Doc::Dict(ges),
                        ges == dv_entries(orig),
                        ges.len() == orig.len(),
                        forall|j: int| 0 <= j < orig.len() ==> ges[j] == (#[trigger] orig[j].0@, orig[j].1.dv()),
                        k@ == key@,
                        forall|j: int| 0 <= j < i ==> (#[trigger] ges[j].0) != key@,
                    decreases n - i,
                {
                    if es[i].0 == k {
                        proof {
                            assert(ges[i as int] == (orig[i as int].0@, orig[i as int].1.dv()));
                            assert(ges[i as int].0 == key@);
                            lemma_lookup_skip(ges, key@, i as int);
                            assert(ges.skip(i as int)[0] == ges[i as int]);
                            assert(lookup_entries(ges, key@) == Some(ges[i as int].1));
                        }
                        let entry = es.remove(i);
                        return Some(entry.1);
                    }
                    i += 1;
                }
                proof {
                    lemma_lookup_skip(ges, key@, n as int);
                    assert(ges.skip(n as int) =~= Seq::empty());
                }
                None
            },
            _ => None,
        }
    }
}

} // verus!
