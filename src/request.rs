use vstd::prelude::*;

use crate::kv::KvPair;

verus! {

/// The HTTP methods this client issues.
#[derive(Debug, Clone, Copy, PartialEq, Eq, Structural)]
pub enum Method {
    Get,
    Post,
}

/// A parsed command line: what to request and, for POST, the body fields.
#[derive(Debug, Clone)]
pub enum Command {
    Get { url: String },
    Post { url: String, body: Vec<KvPair> },
}

/// A request ready for the transport. The body, when present, stands for a
/// JSON object: its entries have distinct keys.
#[derive(Debug, Clone)]
pub struct RequestDescriptor {
    pub method: Method,
    pub url: String,
    pub body: Option<Vec<KvPair>>,
}

/// The value that `k` ends up with once the pairs are inserted in order into
/// a map, a later pair overwriting an earlier one; `None` if no pair has key `k`.
pub open spec fn last_value(pairs: Seq<KvPair>, k: Seq<char>) -> Option<Seq<char>>
    decreases pairs.len(),
{
    if pairs.len() == 0 {
        None
    } else if pairs.last().key@ == k {
        Some(pairs.last().value@)
    } else {
        last_value(pairs.drop_last(), k)
    }
}

/// No key occurs twice.
pub open spec fn keys_distinct(pairs: Seq<KvPair>) -> bool {
    forall|i: int, j: int| 0 <= i < j < pairs.len() ==> pairs[i].key@ != pairs[j].key@
}

/// `body` is the JSON object that inserting `pairs` in order yields.
pub open spec fn is_object_of(body: Seq<KvPair>, pairs: Seq<KvPair>) -> bool {
    &&& keys_distinct(body)
    &&& forall|k: Seq<char>| #[trigger] last_value(body, k) == last_value(pairs, k)
}

proof fn lemma_last_value_at(e: Seq<KvPair>, i: int)
    requires
        keys_distinct(e),
        0 <= i < e.len(),
    ensures
        last_value(e, e[i].key@) == Some(e[i].value@),
    decreases e.len(),
{
    if i < e.len() - 1 {
        assert(e.last().key@ != e[i].key@);
        assert(e.drop_last()[i] == e[i]);
        lemma_last_value_at(e.drop_last(), i);
    }
}

proof fn lemma_last_value_absent(e: Seq<KvPair>, k: Seq<char>)
    requires
        forall|i: int| 0 <= i < e.len() ==> e[i].key@ != k,
    ensures
        last_value(e, k) is None,
    decreases e.len(),
{
    if e.len() > 0 {
        assert(e.last().key@ != k);
        let d = e.drop_last();
        assert forall|i: int| 0 <= i < d.len() implies d[i].key@ != k by {
            assert(d[i] == e[i]);
        }
        lemma_last_value_absent(d, k);
    }
}

proof fn lemma_overwrite(e: Seq<KvPair>, idx: int, p: KvPair)
    requires
        keys_distinct(e),
        0 <= idx < e.len(),
        e[idx].key@ == p.key@,
    ensures
        keys_distinct(e.update(idx, p)),
        forall|k: Seq<char>|
            #[trigger] last_value(e.update(idx, p), k) == if k == p.key@ {
                Some(p.value@)
            } else {
                last_value(e, k)
            },
{
    let u = e.update(idx, p);
    assert(keys_distinct(u)) by {
        assert forall|i: int, j: int| 0 <= i < j < u.len() implies u[i].key@ != u[j].key@ by {
            assert(e[i].key@ != e[j].key@);
        }
    }
    assert forall|k: Seq<char>|
        #[trigger] last_value(u, k) == if k == p.key@ {
            Some(p.value@)
        } else {
            last_value(e, k)
        } by {
        if k == p.key@ {
            lemma_last_value_at(u, idx);
        } else if exists|j: int| 0 <= j < e.len() && e[j].key@ == k {
            let j = choose|j: int| 0 <= j < e.len() && e[j].key@ == k;
            lemma_last_value_at(u, j);
            lemma_last_value_at(e, j);
        } else {
            lemma_last_value_absent(e, k);
            assert forall|i: int| 0 <= i < u.len() implies u[i].key@ != k by {
                if i != idx {
                    assert(u[i] == e[i]);
                }
            }
            lemma_last_value_absent(u, k);
        }
    }
}

/// Inserts the pairs in order into a JSON-object body: a repeated key keeps
/// the value of its last occurrence.
pub fn merge_pairs(pairs: &Vec<KvPair>) -> (r: Vec<KvPair>)
    ensures
        is_object_of(r@, pairs@),
{
    let mut out: Vec<KvPair> = Vec::new();
    let mut i: usize = 0;
    while i < pairs.len()
        invariant
            i <= pairs.len(),
            is_object_of(out@, pairs@.take(i as int)),
        decreases pairs.len() - i,
    {
        let p = KvPair { key: pairs[i].key.clone(), value: pairs[i].value.clone() };
        let ghost prev = out@;
        let ghost before = pairs@.take(i as int);
        let ghost after = pairs@.take(i + 1);
        assert(after.drop_last() =~= before);
        assert(after.last() == pairs@[i as int]);
        let mut j: usize = 0;
        while j < out.len() && !(out[j].key == p.key)
            invariant
                j <= out.len(),
                forall|m: int| 0 <= m < j ==> out@[m].key@ != p.key@,
            decreases out.len() - j,
        {
            j = j + 1;
        }
        if j < out.len() {
            proof {
                lemma_overwrite(out@, j as int, p);
            }
            out.set(j, p);
        } else {
            out.push(p);
            proof {
                assert(out@.drop_last() =~= prev);
                assert(keys_distinct(out@)) by {
                    assert forall|a: int, b: int| 0 <= a < b < out@.len() implies out@[a].key@
                        != out@[b].key@ by {
                        assert(out@[a] == prev[a]);
                        if b < prev.len() {
                            assert(out@[b] == prev[b]);
                            assert(prev[a].key@ != prev[b].key@);
                        }
                    }
                }
            }
        }
        assert forall|k: Seq<char>| #[trigger] last_value(out@, k) == last_value(after, k) by {
            assert(last_value(prev, k) == last_value(before, k));
        }
        i = i + 1;
    }
    assert(pairs@.take(pairs.len() as int) =~= pairs@);
    out
}

/// Turns a command into a request: GET has no body; POST carries the JSON
/// object that its pairs make.
pub fn build(command: Command) -> (r: RequestDescriptor)
    ensures
        match command {
            Command::Get { url } => {
                &&& r.method == Method::Get
                &&& r.url@ == url@
                &&& r.body is None
            },
            Command::Post { url, body } => {
                &&& r.method == Method::Post
                &&& r.url@ == url@
                &&& r.body matches Some(b) && is_object_of(b@, body@)
            },
        },
{
    match command {
        Command::Get { url } => RequestDescriptor { method: Method::Get, url, body: None },
        Command::Post { url, body } => {
            let merged = merge_pairs(&body);
            RequestDescriptor { method: Method::Post, url, body: Some(merged) }
        },
    }
}

} // verus!
