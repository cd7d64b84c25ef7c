//! The topic naming convention: the schema-type identifier that a topic names.
//!
//! A routable topic reads `<a>/<b>/<c>/make87_messages-<Schema>/<rest>`: after at
//! least three separators comes a segment that starts with `make87_messages-` and
//! is followed by another separator. The identifier is the non-empty text between
//! that marker and the next `/`. Where several segments qualify, the first one counts.

use vstd::prelude::*;

verus! {

/// The marker that opens the schema segment of a topic.
pub open spec fn schema_marker() -> Seq<char> {
    "make87_messages-"@
}

pub open spec fn count_slashes(s: Seq<char>) -> nat
    decreases s.len(),
{
    if s.len() == 0 {
        0
    } else {
        count_slashes(s.drop_last()) + if s.last() == '/' {
            1nat
        } else {
            0nat
        }
    }
}

/// The index of the first `/` at or after `k`, or the length when there is none.
pub open spec fn next_slash(t: Seq<char>, k: int) -> int
    decreases t.len() - k,
{
    if k < 0 || k >= t.len() {
        t.len() as int
    } else if t[k] == '/' {
        k
    } else {
        next_slash(t, k + 1)
    }
}

/// A schema segment starts at `p`: it follows the third or a later separator, begins
/// with the marker, and a non-empty identifier and a separator follow the marker.
pub open spec fn schema_segment_at(t: Seq<char>, p: int) -> bool {
    let m = schema_marker().len() as int;
    &&& 1 <= p
    &&& p + m <= t.len()
    &&& t[p - 1] == '/'
    &&& count_slashes(t.take(p)) >= 3
    &&& t.subrange(p, p + m) == schema_marker()
    &&& p + m < next_slash(t, p + m) < t.len()
}

/// The first schema segment at or after `from`.
pub open spec fn first_schema_segment(t: Seq<char>, from: int) -> Option<int>
    decreases t.len() + 1 - from,
{
    if from < 0 || from > t.len() {
        None
    } else if schema_segment_at(t, from) {
        Some(from)
    } else {
        first_schema_segment(t, from + 1)
    }
}

/// The schema-type identifier that topic `t` names, if it follows the convention.
pub open spec fn topic_schema(t: Seq<char>) -> Option<Seq<char>> {
    match first_schema_segment(t, 0) {
        Some(p) => {
            let start = p + schema_marker().len();
            Some(t.subrange(start, next_slash(t, start)))
        },
        None => None,
    }
}

fn find_slash(cs: &Vec<char>, k: usize) -> (r: usize)
    requires
        k <= cs@.len(),
    ensures
        r == next_slash(cs@, k as int),
{
    let mut j = k;
    while j < cs.len()
        invariant
            k <= j <= cs@.len(),
            next_slash(cs@, k as int) == next_slash(cs@, j as int),
        decreases cs@.len() - j,
    {
        if cs[j] == '/' {
            return j;
        }
        j = j + 1;
    }
    j
}

fn marker_at(cs: &Vec<char>, p: usize) -> (r: bool)
    ensures
        r == (p + schema_marker().len() <= cs@.len() && cs@.subrange(
            p as int,
            p + schema_marker().len(),
        ) == schema_marker()),
{
    let marker = "make87_messages-";
    proof {
        reveal_strlit("make87_messages-");
    }
    let m = marker.unicode_len();
    let len = cs.len();
    if p > len || len - p < m {
        return false;
    }
    let mut j: usize = 0;
    while j < m
        invariant
            m == marker@.len(),
            marker@ == schema_marker(),
            len == cs@.len(),
            p + m <= len,
            j <= m,
            forall|i: int| 0 <= i < j ==> cs@[p + i] == marker@[i],
        decreases m - j,
    {
        if cs[p + j] != marker.get_char(j) {
            assert(cs@.subrange(p as int, p + m)[j as int] != schema_marker()[j as int]);
            return false;
        }
        j = j + 1;
    }
    assert(cs@.subrange(p as int, p + m) =~= schema_marker());
    true
}

fn chars_of(s: &str) -> (r: Vec<char>)
    ensures
        r@ == s@,
{
    let n = s.unicode_len();
    let mut out: Vec<char> = Vec::new();
    let mut i: usize = 0;
    while i < n
        invariant
            n == s@.len(),
            i <= n,
            out@ == s@.take(i as int),
        decreases n - i,
    {
        out.push(s.get_char(i));
        i = i + 1;
        assert(out@ =~= s@.take(i as int));
    }
    assert(out@ =~= s@);
    out
}

/// Extracts the schema-type identifier from a topic, or `None` when the topic does
/// not follow the naming convention.
pub fn extract_message_type_from_topic_key<'a>(topic_key: &'a str) -> (r: Option<&'a str>)
    ensures
        match topic_schema(topic_key@) {
            Some(id) => r is Some && r->Some_0@ == id,
            None => r is None,
        },
{
    let cs = chars_of(topic_key);
    let n = cs.len();
    let ghost t = cs@;
    proof {
        reveal_strlit("make87_messages-");
    }
    let m: usize = 16;
    let mut p: usize = 0;
    let mut slashes: usize = 0;
    while p < n
        invariant
            t == cs@,
            t == topic_key@,
            n == t.len(),
            m == schema_marker().len(),
            p <= n,
            slashes <= p,
            slashes == count_slashes(t.take(p as int)),
            first_schema_segment(t, 0) == first_schema_segment(t, p as int),
        decreases n - p,
    {
        if p >= 1 && cs[p - 1] == '/' && slashes >= 3 && marker_at(&cs, p) {
            let e = find_slash(&cs, p + m);
            if p + m < e && e < n {
                assert(schema_segment_at(t, p as int));
                return Some(topic_key.substring_char(p + m, e));
            }
        }
        assert(!schema_segment_at(t, p as int));
        assert(t.take(p + 1).drop_last() =~= t.take(p as int));
        if cs[p] == '/' {
            slashes = slashes + 1;
        }
        p = p + 1;
    }
    assert(first_schema_segment(t, n as int) is None) by {
        assert(!schema_segment_at(t, n as int));
        assert(first_schema_segment(t, n + 1) is None);
    }
    None
}

pub open spec fn slash_free(s: Seq<char>) -> bool {
    forall|i: int| 0 <= i < s.len() ==> s[i] != '/'
}

/// The topic `a/b/c/make87_messages-<id>/<rest>`.
pub open spec fn conventional_topic(
    a: Seq<char>,
    b: Seq<char>,
    c: Seq<char>,
    id: Seq<char>,
    rest: Seq<char>,
) -> Seq<char> {
    a + seq!['/'] + b + seq!['/'] + c + seq!['/'] + schema_marker() + id + seq!['/'] + rest
}

proof fn lemma_count_concat(s1: Seq<char>, s2: Seq<char>)
    ensures
        count_slashes(s1 + s2) == count_slashes(s1) + count_slashes(s2),
    decreases s2.len(),
{
    if s2.len() > 0 {
        assert((s1 + s2).drop_last() =~= s1 + s2.drop_last());
        lemma_count_concat(s1, s2.drop_last());
    } else {
        assert(s1 + s2 =~= s1);
    }
}

proof fn lemma_count_slash_free(s: Seq<char>)
    requires
        slash_free(s),
    ensures
        count_slashes(s) == 0,
    decreases s.len(),
{
    if s.len() > 0 {
        lemma_count_slash_free(s.drop_last());
    }
}

proof fn lemma_count_monotone(t: Seq<char>, p: int, q: int)
    requires
        0 <= p <= q <= t.len(),
    ensures
        count_slashes(t.take(p)) <= count_slashes(t.take(q)),
    decreases q - p,
{
    if p < q {
        assert(t.take(q).drop_last() =~= t.take(q - 1));
        lemma_count_monotone(t, p, q - 1);
    }
}

proof fn lemma_next_slash_at(t: Seq<char>, k: int, e: int)
    requires
        0 <= k <= e < t.len(),
        t[e] == '/',
        forall|i: int| k <= i < e ==> t[i] != '/',
    ensures
        next_slash(t, k) == e,
    decreases e - k,
{
    if k < e {
        lemma_next_slash_at(t, k + 1, e);
    }
}

proof fn lemma_first_segment_from(t: Seq<char>, from: int, p: int)
    requires
        0 <= from <= p <= t.len(),
        schema_segment_at(t, p),
        forall|q: int| from <= q < p ==> !schema_segment_at(t, q),
    ensures
        first_schema_segment(t, from) == Some(p),
    decreases p - from,
{
    if from < p {
        lemma_first_segment_from(t, from + 1, p);
    }
}

/// A topic `a/b/c/make87_messages-<id>/<rest>` whose segments `a`, `b`, `c` and
/// non-empty `id` hold no separator names `id`.
pub proof fn lemma_conventional_topic_names_schema(
    a: Seq<char>,
    b: Seq<char>,
    c: Seq<char>,
    id: Seq<char>,
    rest: Seq<char>,
)
    requires
        slash_free(a),
        slash_free(b),
        slash_free(c),
        slash_free(id),
        id.len() > 0,
    ensures
        topic_schema(conventional_topic(a, b, c, id, rest)) == Some(id),
{
    reveal_strlit("make87_messages-");
    let m = schema_marker();
    let t = conventional_topic(a, b, c, id, rest);
    let head2 = a + seq!['/'] + b + seq!['/'] + c;
    let head = head2 + seq!['/'];
    let p0 = head.len() as int;
    let start = p0 + m.len();
    let e = start + id.len();
    assert(t =~= head + m + id + seq!['/'] + rest);
    assert(t.take(p0) =~= head);
    assert(t.take(p0 - 1) =~= head2);
    lemma_count_slash_free(a);
    lemma_count_slash_free(b);
    lemma_count_slash_free(c);
    lemma_count_slash_free(seq!['/'].drop_last());
    lemma_count_concat(a, seq!['/']);
    lemma_count_concat(a + seq!['/'], b);
    lemma_count_concat(a + seq!['/'] + b, seq!['/']);
    lemma_count_concat(a + seq!['/'] + b + seq!['/'], c);
    lemma_count_concat(head2, seq!['/']);
    assert(count_slashes(head2) == 2);
    assert(count_slashes(head) == 3);
    assert(t.subrange(p0, p0 + m.len()) =~= m);
    assert forall|i: int| start <= i < e implies t[i] != '/' by {
        assert(t[i] == id[i - start]);
    }
    lemma_next_slash_at(t, start, e);
    assert(schema_segment_at(t, p0));
    assert forall|q: int| 0 <= q < p0 implies !schema_segment_at(t, q) by {
        lemma_count_monotone(t, q, p0 - 1);
    }
    lemma_first_segment_from(t, 0, p0);
    assert(t.subrange(start, e) =~= id);
}

} // verus!
