use crate::decimal::{
    decimal_of, is_digit_char, lemma_decimal_digits, lemma_decimal_injective, u64_to_decimal,
};
use vstd::prelude::*;

verus! {

/// Everything the signer reads for one outbound request.
///
/// A context is built fresh per request — the timestamp must reflect the send
/// time — and is never reused. The query and body are the empty string, not
/// absent, when the request carries none.
pub struct SigningContext {
    /// The caller's public API key.
    pub api_key: String,
    /// Seconds since the Unix epoch at send time.
    pub timestamp: u64,
    /// The host the request goes to.
    pub host: String,
    /// The uppercase HTTP verb.
    pub method: String,
    /// The request path, from the root.
    pub path: String,
    /// The raw query string, empty when there is none.
    pub query: String,
    /// The raw serialized request body, empty when there is none.
    pub body: String,
}

/// The canonical signing string: the seven fields joined by single colons, in
/// this fixed order. Absent fields stay in as empty strings, so the six
/// separators are always present; the server recomputes this exact string.
pub open spec fn canonical_parts(
    api_key: Seq<char>,
    timestamp: u64,
    host: Seq<char>,
    method: Seq<char>,
    path: Seq<char>,
    query: Seq<char>,
    body: Seq<char>,
) -> Seq<char> {
    api_key + seq![':'] + decimal_of(timestamp as nat) + seq![':'] + host + seq![':'] + method
        + seq![':'] + path + seq![':'] + query + seq![':'] + body
}

impl SigningContext {
    /// The canonical signing string of this context.
    pub open spec fn canonical_view(&self) -> Seq<char> {
        canonical_parts(
            self.api_key@,
            self.timestamp,
            self.host@,
            self.method@,
            self.path@,
            self.query@,
            self.body@,
        )
    }

    /// Builds the canonical signing string of this context.
    pub fn canonical_string(&self) -> (s: String)
        ensures
            s@ == self.canonical_view(),
    {
        let mut s = self.api_key.clone();
        let ts = u64_to_decimal(self.timestamp);
        s.append(":");
        s.append(ts.as_str());
        s.append(":");
        s.append(self.host.as_str());
        s.append(":");
        s.append(self.method.as_str());
        s.append(":");
        s.append(self.path.as_str());
        s.append(":");
        s.append(self.query.as_str());
        s.append(":");
        s.append(self.body.as_str());
        proof {
            reveal_strlit(":");
            assert(":"@ =~= seq![':']);
            assert(s@ =~= self.canonical_view());
        }
        s
    }
}

/// How many times `c` occurs in `s`.
pub open spec fn count_char(s: Seq<char>, c: char) -> nat
    decreases s.len(),
{
    if s.len() == 0 {
        0
    } else {
        count_char(s.drop_last(), c) + (if s.last() == c {
            1nat
        } else {
            0nat
        })
    }
}

/// Whether `s` is free of the separator character.
pub open spec fn colon_free(s: Seq<char>) -> bool {
    forall|i: int| 0 <= i < s.len() ==> s[i] != ':'
}

/// Occurrences in a concatenation are the occurrences in the parts.
pub proof fn lemma_count_char_concat(x: Seq<char>, y: Seq<char>, c: char)
    ensures
        count_char(x + y, c) == count_char(x, c) + count_char(y, c),
    decreases y.len(),
{
    if y.len() == 0 {
        assert(x + y =~= x);
    } else {
        assert((x + y).drop_last() =~= x + y.drop_last());
        assert((x + y).last() == y.last());
        lemma_count_char_concat(x, y.drop_last(), c);
    }
}

/// A string in which a character does not occur counts it zero times.
pub proof fn lemma_count_char_absent(s: Seq<char>, c: char)
    requires
        forall|i: int| 0 <= i < s.len() ==> s[i] != c,
    ensures
        count_char(s, c) == 0,
    decreases s.len(),
{
    if s.len() > 0 {
        assert(forall|i: int| 0 <= i < s.drop_last().len() ==> s.drop_last()[i] == s[i]);
        lemma_count_char_absent(s.drop_last(), c);
    }
}

/// The lone separator counts itself once.
proof fn lemma_count_char_single_colon()
    ensures
        count_char(seq![':'], ':') == 1,
{
    let colon = seq![':'];
    assert(colon.drop_last() =~= Seq::<char>::empty());
    assert(count_char(Seq::<char>::empty(), ':') == 0);
    assert(count_char(colon, ':') == 1);
}

/// The canonical string contains exactly six colons whenever no field holds
/// one itself — in particular however many of the optional fields are empty.
/// (The timestamp renders to digits alone and can never add a colon.)
pub proof fn lemma_canonical_six_colons(
    api_key: Seq<char>,
    timestamp: u64,
    host: Seq<char>,
    method: Seq<char>,
    path: Seq<char>,
    query: Seq<char>,
    body: Seq<char>,
)
    requires
        colon_free(api_key),
        colon_free(host),
        colon_free(method),
        colon_free(path),
        colon_free(query),
        colon_free(body),
    ensures
        count_char(canonical_parts(api_key, timestamp, host, method, path, query, body), ':') == 6,
{
    let c = seq![':'];
    let d = decimal_of(timestamp as nat);
    lemma_decimal_digits(timestamp as nat);
    assert(colon_free(d)) by {
        assert(forall|i: int| 0 <= i < d.len() ==> is_digit_char(#[trigger] d[i]));
    }
    lemma_count_char_single_colon();
    lemma_count_char_absent(api_key, ':');
    lemma_count_char_absent(d, ':');
    lemma_count_char_absent(host, ':');
    lemma_count_char_absent(method, ':');
    lemma_count_char_absent(path, ':');
    lemma_count_char_absent(query, ':');
    lemma_count_char_absent(body, ':');
    let s1 = api_key + c;
    let s2 = s1 + d;
    let s3 = s2 + c;
    let s4 = s3 + host;
    let s5 = s4 + c;
    let s6 = s5 + method;
    let s7 = s6 + c;
    let s8 = s7 + path;
    let s9 = s8 + c;
    let s10 = s9 + query;
    let s11 = s10 + c;
    let s12 = s11 + body;
    lemma_count_char_concat(api_key, c, ':');
    lemma_count_char_concat(s1, d, ':');
    lemma_count_char_concat(s2, c, ':');
    lemma_count_char_concat(s3, host, ':');
    lemma_count_char_concat(s4, c, ':');
    lemma_count_char_concat(s5, method, ':');
    lemma_count_char_concat(s6, c, ':');
    lemma_count_char_concat(s7, path, ':');
    lemma_count_char_concat(s8, c, ':');
    lemma_count_char_concat(s9, query, ':');
    lemma_count_char_concat(s10, c, ':');
    lemma_count_char_concat(s11, body, ':');
    assert(canonical_parts(api_key, timestamp, host, method, path, query, body) == s12);
}

/// Two concatenations around differing middle segments differ: the
/// surrounding parts have fixed lengths, so the middle cannot be repaired by
/// shifting. This is what makes the canonical string injective in each
/// single field while the others are held fixed.
pub proof fn lemma_middle_segment_injective(
    prefix: Seq<char>,
    mid1: Seq<char>,
    mid2: Seq<char>,
    suffix: Seq<char>,
)
    requires
        mid1 != mid2,
    ensures
        prefix + mid1 + suffix != prefix + mid2 + suffix,
{
    if prefix + mid1 + suffix == prefix + mid2 + suffix {
        assert(mid1.len() == mid2.len()) by {
            assert((prefix + mid1 + suffix).len() == prefix.len() + mid1.len() + suffix.len());
            assert((prefix + mid2 + suffix).len() == prefix.len() + mid2.len() + suffix.len());
        }
        assert forall|i: int| 0 <= i < mid1.len() implies mid1[i] == mid2[i] by {
            assert((prefix + mid1 + suffix)[prefix.len() + i] == (prefix + mid1)[prefix.len() + i]);
            assert((prefix + mid1)[prefix.len() + i] == mid1[i]);
            assert((prefix + mid2 + suffix)[prefix.len() + i] == (prefix + mid2)[prefix.len() + i]);
            assert((prefix + mid2)[prefix.len() + i] == mid2[i]);
        }
        assert(mid1 =~= mid2);
        assert(false);
    }
}

/// Contexts that differ only in the timestamp have different canonical
/// strings: the signature is bound to the send time already at the level of
/// the signed text.
pub proof fn lemma_canonical_timestamp_injective(
    api_key: Seq<char>,
    t1: u64,
    t2: u64,
    host: Seq<char>,
    method: Seq<char>,
    path: Seq<char>,
    query: Seq<char>,
    body: Seq<char>,
)
    requires
        t1 != t2,
    ensures
        canonical_parts(api_key, t1, host, method, path, query, body) != canonical_parts(
            api_key,
            t2,
            host,
            method,
            path,
            query,
            body,
        ),
{
    let c = seq![':'];
    let p = api_key + c;
    let d1 = decimal_of(t1 as nat);
    let d2 = decimal_of(t2 as nat);
    let tail = c + host + c + method + c + path + c + query + c + body;
    let s1 = canonical_parts(api_key, t1, host, method, path, query, body);
    let s2 = canonical_parts(api_key, t2, host, method, path, query, body);
    assert(s1 =~= p + d1 + tail);
    assert(s2 =~= p + d2 + tail);
    assert(d1 != d2) by {
        if d1 == d2 {
            lemma_decimal_injective(t1 as nat, t2 as nat);
        }
    }
    lemma_middle_segment_injective(p, d1, d2, tail);
}

/// Contexts that differ only in the body have different canonical strings:
/// what is signed pins the exact bytes that will be sent.
pub proof fn lemma_canonical_body_injective(
    api_key: Seq<char>,
    timestamp: u64,
    host: Seq<char>,
    method: Seq<char>,
    path: Seq<char>,
    query: Seq<char>,
    body1: Seq<char>,
    body2: Seq<char>,
)
    requires
        body1 != body2,
    ensures
        canonical_parts(api_key, timestamp, host, method, path, query, body1) != canonical_parts(
            api_key,
            timestamp,
            host,
            method,
            path,
            query,
            body2,
        ),
{
    let front = api_key + seq![':'] + decimal_of(timestamp as nat) + seq![':'] + host + seq![':']
        + method + seq![':'] + path + seq![':'] + query + seq![':'];
    let s1 = canonical_parts(api_key, timestamp, host, method, path, query, body1);
    let s2 = canonical_parts(api_key, timestamp, host, method, path, query, body2);
    assert(s1 =~= front + body1 + Seq::<char>::empty());
    assert(s2 =~= front + body2 + Seq::<char>::empty());
    lemma_middle_segment_injective(front, body1, body2, Seq::<char>::empty());
}

} // verus!
