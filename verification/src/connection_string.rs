use crate::errors::Error;
use crate::errors::ErrorKind;
use vstd::prelude::*;

verus! {

/// The character index of the first occurrence of `c` in `s`, or `s.len()`
/// when `c` does not occur.
pub open spec fn first_idx(s: Seq<char>, c: char) -> nat
    decreases s.len(),
{
    if s.len() == 0 {
        0
    } else if s[0] == c {
        0
    } else {
        1 + first_idx(s.drop_first(), c)
    }
}

/// `first_idx` finds an occurrence of `c`, and nothing before it is one.
pub proof fn lemma_first_idx(s: Seq<char>, c: char)
    ensures
        first_idx(s, c) <= s.len(),
        first_idx(s, c) < s.len() ==> s[first_idx(s, c) as int] == c,
        forall|i: int| 0 <= i < first_idx(s, c) ==> s[i] != c,
    decreases s.len(),
{
    if s.len() == 0 {
    } else if s[0] == c {
    } else {
        lemma_first_idx(s.drop_first(), c);
        assert forall|i: int| 0 <= i < first_idx(s, c) implies s[i] != c by {
            if i > 0 {
                assert(s.drop_first()[i - 1] == s[i]);
            }
        }
    }
}

/// Any position before which `c` does not occur, and at which `c` occurs or
/// the sequence ends, is `first_idx`.
pub proof fn lemma_first_idx_unique(s: Seq<char>, c: char, k: int)
    requires
        0 <= k <= s.len(),
        forall|i: int| 0 <= i < k ==> s[i] != c,
        k < s.len() ==> s[k] == c,
    ensures
        first_idx(s, c) == k,
{
    lemma_first_idx(s, c);
}

/// How `first_idx` behaves on a prefix of `s`.
pub proof fn lemma_first_idx_prefix(s: Seq<char>, c: char, n: int)
    requires
        0 <= n <= s.len(),
    ensures
        first_idx(s, c) < n ==> first_idx(s.take(n), c) == first_idx(s, c),
        first_idx(s, c) >= n ==> first_idx(s.take(n), c) == n,
{
    lemma_first_idx(s, c);
    if first_idx(s, c) < n {
        lemma_first_idx_unique(s.take(n), c, first_idx(s, c) as int);
    } else {
        lemma_first_idx_unique(s.take(n), c, n);
    }
}

/// The key of one `key=value` entry: the text before the first `=`.
pub open spec fn entry_key(seg: Seq<char>) -> Seq<char> {
    seg.take(first_idx(seg, '=') as int)
}

/// The value of one `key=value` entry: the text after the first `=`.
pub open spec fn entry_value(seg: Seq<char>) -> Seq<char> {
    seg.skip(first_idx(seg, '=') as int + 1)
}

/// Whether one `;`-separated piece is a `key=value` entry at all.
pub open spec fn entry_has_value(seg: Seq<char>) -> bool {
    first_idx(seg, '=') < seg.len()
}

/// The value of the first entry for `key` in the `;`-separated `key=value`
/// list `s`, or `None` when no entry carries that key.
pub open spec fn cs_lookup(s: Seq<char>, key: Seq<char>) -> Option<Seq<char>>
    decreases s.len(),
{
    let j = first_idx(s, ';');
    let seg = s.take(j as int);
    if entry_has_value(seg) && entry_key(seg) == key {
        Some(entry_value(seg))
    } else if j < s.len() {
        cs_lookup(s.skip(j as int + 1), key)
    } else {
        None
    }
}

/// The endpoint a connection string describes: its protocol, account name
/// and endpoint suffix entries combine into
/// `protocol://account.blob.suffix`.  `None` when an ingredient is missing.
pub open spec fn cs_endpoint(s: Seq<char>) -> Option<Seq<char>> {
    match (
        cs_lookup(s, "DefaultEndpointsProtocol"@),
        cs_lookup(s, "AccountName"@),
        cs_lookup(s, "EndpointSuffix"@),
    ) {
        (Some(p), Some(a), Some(x)) => Some(p + "://"@ + a + ".blob."@ + x),
        _ => None,
    }
}

/// The character index of the first occurrence of `c` in `s`, or the
/// character length of `s` when `c` does not occur.
fn find_char(s: &str, c: char) -> (r: usize)
    ensures
        r == first_idx(s@, c),
{
    let n: usize = s.unicode_len();
    let mut i: usize = 0;
    while i < n
        invariant
            0 <= i <= n,
            n == s@.len(),
            forall|k: int| 0 <= k < i ==> s@[k] != c,
        decreases n - i,
    {
        if s.get_char(i) == c {
            proof {
                lemma_first_idx_unique(s@, c, i as int);
            }
            return i;
        }
        i = i + 1;
    }
    proof {
        lemma_first_idx_unique(s@, c, n as int);
    }
    n
}

/// Whether the first `to` characters of `s` are exactly `t`.
fn prefix_matches(s: &str, to: usize, t: &str) -> (r: bool)
    requires
        to <= s@.len(),
    ensures
        r == (s@.take(to as int) == t@),
{
    let tn: usize = t.unicode_len();
    if tn != to {
        return false;
    }
    let mut i: usize = 0;
    while i < to
        invariant
            0 <= i <= to,
            to <= s@.len(),
            tn == t@.len(),
            tn == to,
            forall|k: int| 0 <= k < i ==> s@[k] == t@[k],
        decreases to - i,
    {
        if s.get_char(i) != t.get_char(i) {
            assert(s@.take(to as int)[i as int] != t@[i as int]);
            return false;
        }
        i = i + 1;
    }
    proof {
        assert(s@.take(to as int) =~= t@);
    }
    true
}

/// Looks up `key` in the `;`-separated `key=value` list `s`, returning the
/// value of the first entry that carries it.
fn cs_find(s: &str, key: &str) -> (r: Option<String>)
    ensures
        r is Some <==> cs_lookup(s@, key@) is Some,
        r matches Some(v) ==> cs_lookup(s@, key@) matches Some(w) && v@ == w,
    decreases s@.len(),
{
    let n: usize = s.unicode_len();
    let j: usize = find_char(s, ';');
    let e: usize = find_char(s, '=');
    proof {
        lemma_first_idx(s@, ';');
        lemma_first_idx(s@, '=');
        lemma_first_idx_prefix(s@, '=', j as int);
    }
    let ghost seg = s@.take(j as int);
    if e < j && prefix_matches(s, e, key) {
        proof {
            assert(entry_key(seg) =~= s@.take(e as int));
            assert(entry_value(seg) =~= s@.subrange(e as int + 1, j as int));
        }
        let v: String = s.substring_char(e + 1, j).to_owned();
        Some(v)
    } else if j == n {
        proof {
            assert(seg =~= s@);
            if e < j {
                assert(entry_key(seg) =~= s@.take(e as int));
            }
        }
        None
    } else {
        proof {
            if e < j {
                assert(entry_key(seg) =~= s@.take(e as int));
            }
        }
        let rest = s.substring_char(j + 1, n);
        proof {
            assert(rest@ =~= s@.skip(j as int + 1));
        }
        cs_find(rest, key)
    }
}

/// The pieces of a parsed connection string that this library reads: the
/// endpoint its entries describe, and the account key it carries.
#[derive(Debug)]
pub struct ConnectionString {
    /// The endpoint composed from the protocol, account name and endpoint
    /// suffix entries, not yet validated as a URL.
    pub endpoint: String,
    /// The account key entry, when present.
    pub account_key: Option<String>,
}

impl ConnectionString {
    /// Decomposes the `;`-separated `key=value` entries of
    /// `connection_string` and derives the endpoint they describe.  Fails
    /// when one of the three endpoint ingredients is absent; whether the
    /// derived endpoint is a well-formed URL is decided later, at finalize
    /// time.
    pub fn parse(connection_string: &str) -> (r: Result<ConnectionString, Error>)
        ensures
            r is Ok <==> cs_endpoint(connection_string@) is Some,
            r matches Ok(c) ==> cs_endpoint(connection_string@) matches Some(e) && c.endpoint@
                == e,
            r matches Ok(c) ==> c.account_key.deep_view() == cs_lookup(
                connection_string@,
                "AccountKey"@,
            ),
            r matches Err(e) ==> e@.kind == ErrorKind::InvalidEndpoint && e@.input
                == connection_string@,
    {
        let protocol = cs_find(connection_string, "DefaultEndpointsProtocol");
        let account = cs_find(connection_string, "AccountName");
        let suffix = cs_find(connection_string, "EndpointSuffix");
        match (protocol, account, suffix) {
            (Some(protocol), Some(account), Some(suffix)) => {
                let endpoint = protocol.concat("://").concat(account.as_str()).concat(
                    ".blob.",
                ).concat(suffix.as_str());
                Ok(
                    ConnectionString {
                        endpoint,
                        account_key: cs_find(connection_string, "AccountKey"),
                    },
                )
            },
            _ => Err(Error::invalid_endpoint(String::from_str(connection_string))),
        }
    }
}

} // verus!
