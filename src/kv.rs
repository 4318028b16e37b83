use vstd::prelude::*;
use vstd::string::StrSliceExecFns;
use vstd::string::StringExecFns;

verus! {

/// One `key=value` token of a POST body, split at its first `=`.
#[derive(Debug, Clone)]
pub struct KvPair {
    pub key: String,
    pub value: String,
}

impl View for KvPair {
    type V = (Seq<char>, Seq<char>);

    open spec fn view(&self) -> (Seq<char>, Seq<char>) {
        (self.key@, self.value@)
    }
}

/// Why a token could not be read as a key/value pair.
#[derive(Debug, Clone)]
pub enum ParseError {
    /// The token holds no `=`, or its key or value is empty; it carries
    /// the token itself.
    MalformedPair(String),
}

impl ParseError {
    /// The user-facing text of the error.
    pub fn message(&self) -> (r: String)
        ensures
            r@ == error_message(self),
    {
        match self {
            ParseError::MalformedPair(token) => {
                let prefix = String::from_str("Invalid Key-Value pair: ");
                prefix.concat(token.as_str())
            },
        }
    }
}

pub open spec fn error_message(e: &ParseError) -> Seq<char> {
    match e {
        ParseError::MalformedPair(token) => "Invalid Key-Value pair: "@ + token@,
    }
}

/// Splits `s` at its first `=`: the text before it, and everything after it.
/// `None` when `s` holds no `=`.
pub open spec fn split_at_first_eq(s: Seq<char>) -> Option<(Seq<char>, Seq<char>)>
    decreases s.len(),
{
    if s.len() == 0 {
        None
    } else if s[0] == '=' {
        Some((Seq::empty(), s.skip(1)))
    } else {
        match split_at_first_eq(s.skip(1)) {
            Some(kv) => Some((seq![s[0]] + kv.0, kv.1)),
            None => None,
        }
    }
}

/// What parsing a token yields: the pair, or the offending token. A token
/// with no `=`, or whose key or value would be empty, is rejected.
pub open spec fn parse_token(s: Seq<char>) -> Result<(Seq<char>, Seq<char>), Seq<char>> {
    match split_at_first_eq(s) {
        Some(kv) => if kv.0.len() > 0 && kv.1.len() > 0 {
            Ok(kv)
        } else {
            Err(s)
        },
        None => Err(s),
    }
}

proof fn lemma_split_at_index(s: Seq<char>, i: int)
    requires
        0 <= i < s.len(),
        s[i] == '=',
        forall|j: int| 0 <= j < i ==> s[j] != '=',
    ensures
        split_at_first_eq(s) == Some((s.take(i), s.skip(i + 1))),
    decreases i,
{
    if i > 0 {
        let t = s.skip(1);
        assert forall|j: int| 0 <= j < i - 1 implies t[j] != '=' by {
            assert(t[j] == s[j + 1]);
        }
        lemma_split_at_index(t, i - 1);
        assert(seq![s[0]] + t.take(i - 1) =~= s.take(i));
        assert(t.skip(i) =~= s.skip(i + 1));
    } else {
        assert(s.take(0) =~= Seq::<char>::empty());
    }
}

proof fn lemma_split_none(s: Seq<char>)
    requires
        !s.contains('='),
    ensures
        split_at_first_eq(s) is None,
    decreases s.len(),
{
    if s.len() > 0 {
        assert(s[0] != '=') by {
            if s[0] == '=' {
                assert(s.contains('='));
            }
        }
        let t = s.skip(1);
        assert(!t.contains('=')) by {
            if t.contains('=') {
                let j = choose|j: int| 0 <= j < t.len() && t[j] == '=';
                assert(s[j + 1] == '=');
                assert(s.contains('='));
            }
        }
        lemma_split_none(t);
    }
}

proof fn lemma_split_key_value(k: Seq<char>, v: Seq<char>)
    requires
        !k.contains('='),
    ensures
        split_at_first_eq(k + seq!['='] + v) == Some((k, v)),
{
    let s = k + seq!['='] + v;
    let i = k.len() as int;
    assert forall|j: int| 0 <= j < i implies s[j] != '=' by {
        assert(s[j] == k[j]);
        if k[j] == '=' {
            assert(k.contains('='));
        }
    }
    lemma_split_at_index(s, i);
    assert(s.take(i) =~= k);
    assert(s.skip(i + 1) =~= v);
}

/// A token whose key is non-empty and holds no `=`, and whose value is
/// non-empty, parses back into that key, and the value keeps everything after
/// the first `=`, further `=` characters included.
pub proof fn lemma_value_keeps_rest(k: Seq<char>, v: Seq<char>)
    requires
        k.len() > 0,
        v.len() > 0,
        !k.contains('='),
    ensures
        parse_token(k + seq!['='] + v) == Ok::<(Seq<char>, Seq<char>), Seq<char>>((k, v)),
{
    lemma_split_key_value(k, v);
}

/// For a non-empty key and a non-empty value, neither holding `=`, the token
/// `key=value` parses into exactly that key and value.
pub proof fn lemma_parse_plain_pair(k: Seq<char>, v: Seq<char>)
    requires
        k.len() > 0,
        v.len() > 0,
        !k.contains('='),
        !v.contains('='),
    ensures
        parse_token(k + seq!['='] + v) == Ok::<(Seq<char>, Seq<char>), Seq<char>>((k, v)),
{
    lemma_value_keeps_rest(k, v);
}

/// A token with no `=` is rejected, and the error carries the token.
pub proof fn lemma_no_separator_rejected(s: Seq<char>)
    requires
        !s.contains('='),
    ensures
        parse_token(s) == Err::<(Seq<char>, Seq<char>), Seq<char>>(s),
{
    lemma_split_none(s);
}

/// A token that starts with `=`, or whose only `=` ends it, is rejected:
/// a pair needs a non-empty key and a non-empty value.
pub proof fn lemma_empty_part_rejected(k: Seq<char>, v: Seq<char>)
    requires
        !k.contains('='),
        k.len() == 0 || v.len() == 0,
    ensures
        parse_token(k + seq!['='] + v) == Err::<(Seq<char>, Seq<char>), Seq<char>>(
            k + seq!['='] + v,
        ),
{
    lemma_split_key_value(k, v);
}

impl KvPair {
    /// Parses a `key=value` token: the key is the text before the first `=`,
    /// the value all that follows it. Nothing is trimmed or decoded. A token
    /// with no `=`, an empty key or an empty value is a `MalformedPair`.
    pub fn parse(s: &str) -> (r: Result<KvPair, ParseError>)
        ensures
            match r {
                Ok(p) => parse_token(s@) == Ok::<(Seq<char>, Seq<char>), Seq<char>>(p@),
                Err(ParseError::MalformedPair(t)) => parse_token(s@) == Err::<
                    (Seq<char>, Seq<char>),
                    Seq<char>,
                >(t@),
            },
    {
        let n = s.unicode_len();
        let mut i: usize = 0;
        while i < n
            invariant
                n == s@.len(),
                i <= n,
                forall|j: int| 0 <= j < i ==> s@[j] != '=',
            decreases n - i,
        {
            if s.get_char(i) == '=' {
                proof {
                    lemma_split_at_index(s@, i as int);
                }
                if i == 0 || i + 1 == n {
                    return Err(ParseError::MalformedPair(String::from_str(s)));
                }
                let key = String::from_str(s.substring_char(0, i));
                let value = String::from_str(s.substring_char(i + 1, n));
                return Ok(KvPair { key, value });
            }
            i = i + 1;
        }
        proof {
            assert(!s@.contains('=')) by {
                if s@.contains('=') {
                    let j = choose|j: int| 0 <= j < s@.len() && s@[j] == '=';
                    assert(s@[j] != '=');
                }
            }
            lemma_split_none(s@);
        }
        Err(ParseError::MalformedPair(String::from_str(s)))
    }
}

impl std::str::FromStr for KvPair {
    type Err = ParseError;

    fn from_str(s: &str) -> (r: Result<KvPair, ParseError>)
        ensures
            match r {
                Ok(p) => parse_token(s@) == Ok::<(Seq<char>, Seq<char>), Seq<char>>(p@),
                Err(ParseError::MalformedPair(t)) => parse_token(s@) == Err::<
                    (Seq<char>, Seq<char>),
                    Seq<char>,
                >(t@),
            },
    {
        KvPair::parse(s)
    }
}

} // verus!
