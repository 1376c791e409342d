//! A JSON document model and JSON-Pointer (RFC 6901) lookup on it.
//!
//! Incoming payloads are arbitrary JSON; the library holds them as
//! [`JsonValue`] and extracts fields with [`JsonValue::pointer`], which
//! follows the lookup rules of `serde_json::Value::pointer`.

use vstd::prelude::*;
use crate::text::{
    all_digits, chars_of, is_digit, parse_unsigned, str_eq, string_from_chars, sub_chars, unsigned_parse,
};

verus! {

/// A JSON value.
///
/// Numbers keep what the library reads of them: their value when it is a
/// non-negative integer that fits in `u64` (`Number(None)` for any other
/// number).  Object members keep their document order; a lookup takes the
/// first member with the key.
#[derive(Debug)]
pub enum JsonValue {
    Null,
    Bool(bool),
    Number(Option<u64>),
    String(String),
    Array(Vec<JsonValue>),
    Object(Vec<(String, JsonValue)>),
}

/// The value of the first member of `entries` whose key is `key`.
pub open spec fn object_get_spec(entries: Seq<(String, JsonValue)>, key: Seq<char>) -> Option<JsonValue>
    decreases entries.len(),
{
    if entries.len() == 0 {
        None
    } else if entries[0].0@ == key {
        Some(entries[0].1)
    } else {
        object_get_spec(entries.drop_first(), key)
    }
}

/// The array index that a pointer token denotes: decimal digits without a
/// leading `'+'` and without a leading zero (but `"0"` itself), fitting in
/// `usize`.
pub open spec fn array_index_spec(token: Seq<char>) -> Option<nat> {
    if token.len() > 0 && token[0] == '+' {
        None
    } else if token.len() > 0 && token[0] == '0' && token.len() != 1 {
        None
    } else {
        unsigned_parse(token, usize::MAX as nat)
    }
}

/// Replaces each non-overlapping occurrence, left to right, of the two
/// characters `a b` with `r`.
pub open spec fn replace_pair_spec(s: Seq<char>, a: char, b: char, r: char) -> Seq<char>
    decreases s.len(),
{
    if s.len() == 0 {
        s
    } else if s.len() >= 2 && s[0] == a && s[1] == b {
        seq![r] + replace_pair_spec(s.skip(2), a, b, r)
    } else {
        seq![s[0]] + replace_pair_spec(s.drop_first(), a, b, r)
    }
}

/// A pointer token with its escapes resolved: `~1` becomes `/`, then `~0`
/// becomes `~`.
pub open spec fn unescape_spec(token: Seq<char>) -> Seq<char> {
    replace_pair_spec(replace_pair_spec(token, '~', '1', '/'), '~', '0', '~')
}

/// Splits `s` at every `'/'` (a string with `n` slashes gives `n + 1`
/// pieces).
pub open spec fn split_slash(s: Seq<char>) -> Seq<Seq<char>>
    decreases s.len(),
{
    if s.len() == 0 {
        seq![Seq::<char>::empty()]
    } else if s[0] == '/' {
        seq![Seq::<char>::empty()] + split_slash(s.drop_first())
    } else {
        let rest = split_slash(s.drop_first());
        seq![seq![s[0]] + rest[0]] + rest.drop_first()
    }
}

/// One lookup step: a member of an object, or an element of an array.
pub open spec fn step_spec(v: JsonValue, token: Seq<char>) -> Option<JsonValue> {
    match v {
        JsonValue::Object(m) => object_get_spec(m@, token),
        JsonValue::Array(a) => match array_index_spec(token) {
            Some(i) => if i < a@.len() {
                Some(a@[i as int])
            } else {
                None
            },
            None => None,
        },
        _ => None,
    }
}

/// Follows the (still escaped) tokens from `v`.
pub open spec fn resolve_spec(v: JsonValue, tokens: Seq<Seq<char>>) -> Option<JsonValue>
    decreases tokens.len(),
{
    if tokens.len() == 0 {
        Some(v)
    } else {
        match step_spec(v, unescape_spec(tokens[0])) {
            Some(c) => resolve_spec(c, tokens.drop_first()),
            None => None,
        }
    }
}

/// The value that the JSON Pointer `path` denotes in `v`: `v` itself for
/// the empty pointer, nothing for a pointer that does not start with `'/'`,
/// and otherwise the value reached through the `'/'`-separated tokens.
pub open spec fn pointer_spec(v: JsonValue, path: Seq<char>) -> Option<JsonValue> {
    if path.len() == 0 {
        Some(v)
    } else if path[0] != '/' {
        None
    } else {
        resolve_spec(v, split_slash(path.drop_first()))
    }
}

/// An optional reference, as an optional value.
pub open spec fn deref_opt(r: Option<&JsonValue>) -> Option<JsonValue> {
    match r {
        Some(c) => Some(*c),
        None => None,
    }
}

proof fn lemma_split_slash_nonempty(s: Seq<char>)
    ensures
        split_slash(s).len() >= 1,
    decreases s.len(),
{
    if s.len() > 0 {
        lemma_split_slash_nonempty(s.drop_first());
    }
}

/// Splitting at the first slash (or at the end): the first piece is
/// `s[..k]`, the others are the pieces of `s[k + 1..]`.
pub(crate) proof fn lemma_split_slash_first(s: Seq<char>, k: int)
    requires
        0 <= k <= s.len(),
        forall|i: int| 0 <= i < k ==> s[i] != '/',
        k == s.len() || s[k] == '/',
    ensures
        split_slash(s) == seq![s.take(k)] + (if k == s.len() {
            Seq::<Seq<char>>::empty()
        } else {
            split_slash(s.skip(k + 1))
        }),
    decreases k,
{
    if k == 0 {
        if s.len() == 0 {
            assert(s.take(0) =~= Seq::<char>::empty());
            assert(split_slash(s) =~= seq![s.take(0)]);
        } else {
            assert(s.take(0) =~= Seq::<char>::empty());
            assert(s.drop_first() =~= s.skip(1));
        }
    } else {
        let t = s.drop_first();
        assert forall|i: int| 0 <= i < k - 1 implies t[i] != '/' by {
            assert(t[i] == s[i + 1]);
        }
        lemma_split_slash_first(t, k - 1);
        lemma_split_slash_nonempty(t);
        assert(seq![s[0]] + t.take(k - 1) =~= s.take(k));
        if k < s.len() {
            assert(t.skip(k) =~= s.skip(k + 1));
        }
        let rest = split_slash(t);
        assert(rest[0] == t.take(k - 1));
        assert(split_slash(s) =~= seq![s.take(k)] + (if k == s.len() {
            Seq::<Seq<char>>::empty()
        } else {
            split_slash(s.skip(k + 1))
        }));
    }
}

/// Replaces each non-overlapping occurrence of `a b` with `r`.
fn replace_pair(v: &Vec<char>, a: char, b: char, r: char) -> (out: Vec<char>)
    ensures
        out@ == replace_pair_spec(v@, a, b, r),
{
    let mut out: Vec<char> = Vec::new();
    let mut i: usize = 0;
    assert(v@.skip(0) =~= v@);
    while i < v.len()
        invariant
            i <= v.len(),
            replace_pair_spec(v@, a, b, r) == out@ + replace_pair_spec(v@.skip(i as int), a, b, r),
        decreases v.len() - i,
    {
        let ghost rest = v@.skip(i as int);
        if i + 1 < v.len() && v[i] == a && v[i + 1] == b {
            assert(rest.skip(2) =~= v@.skip(i + 2));
            out.push(r);
            assert(replace_pair_spec(v@, a, b, r) =~= out@ + replace_pair_spec(v@.skip(i + 2), a, b, r));
            i += 2;
        } else {
            assert(rest.drop_first() =~= v@.skip(i + 1));
            out.push(v[i]);
            assert(replace_pair_spec(v@, a, b, r) =~= out@ + replace_pair_spec(v@.skip(i + 1), a, b, r));
            i += 1;
        }
    }
    assert(out@ + replace_pair_spec(v@.skip(i as int), a, b, r) =~= out@);
    out
}

/// Resolves the escapes of a pointer token.
fn unescape(token: &Vec<char>) -> (out: String)
    ensures
        out@ == unescape_spec(token@),
{
    let once = replace_pair(token, '~', '1', '/');
    let twice = replace_pair(&once, '~', '0', '~');
    string_from_chars(&twice, 0, twice.len())
}

/// Parses an array index token.
fn array_index(token: &str) -> (r: Option<usize>)
    ensures
        match r {
            Some(i) => array_index_spec(token@) == Some(i as nat),
            None => array_index_spec(token@) is None,
        },
{
    let t = chars_of(token);
    if t.len() > 0 && t[0] == '+' {
        return None;
    }
    if t.len() > 0 && t[0] == '0' && t.len() != 1 {
        return None;
    }
    match parse_unsigned(token, usize::MAX as u64) {
        Some(n) => Some(n as usize),
        None => None,
    }
}

impl JsonValue {
    /// The first member of an object with the given key.
    fn object_get<'a>(entries: &'a Vec<(String, JsonValue)>, key: &str) -> (r: Option<&'a JsonValue>)
        ensures
            deref_opt(r) == object_get_spec(entries@, key@),
    {
        let mut i: usize = 0;
        assert(entries@.skip(0) =~= entries@);
        while i < entries.len()
            invariant
                i <= entries.len(),
                object_get_spec(entries@, key@) == object_get_spec(entries@.skip(i as int), key@),
            decreases entries.len() - i,
        {
            assert(entries@.skip(i as int).drop_first() =~= entries@.skip(i + 1));
            if str_eq(entries[i].0.as_str(), key) {
                return Some(&entries[i].1);
            }
            i += 1;
        }
        None
    }

    /// One lookup step from this value with an unescaped token.
    pub fn step(&self, token: &str) -> (r: Option<&JsonValue>)
        ensures
            deref_opt(r) == step_spec(*self, token@),
    {
        match self {
            JsonValue::Object(m) => JsonValue::object_get(m, token),
            JsonValue::Array(a) => match array_index(token) {
                Some(i) => if i < a.len() {
                    Some(&a[i])
                } else {
                    None
                },
                None => None,
            },
            _ => None,
        }
    }

    /// `serde_json::Value::pointer`: looks up a value by a JSON Pointer.
    pub fn pointer(&self, path: &str) -> (r: Option<&JsonValue>)
        ensures
            deref_opt(r) == pointer_spec(*self, path@),
    {
        let p = chars_of(path);
        let n = p.len();
        if n == 0 {
            return Some(self);
        }
        if p[0] != '/' {
            return None;
        }
        let mut cur: &JsonValue = self;
        let mut i: usize = 1;
        assert(p@.drop_first() =~= p@.skip(1));
        loop
            invariant
                p@ == path@,
                n == p.len(),
                1 <= i <= n,
                n > 0,
                p@[0] == '/',
                pointer_spec(*self, path@) == resolve_spec(*cur, split_slash(p@.skip(i as int))),
            decreases n - i,
        {
            let mut j: usize = i;
            while j < n && p[j] != '/'
                invariant
                    i <= j <= n,
                    n == p.len(),
                    forall|k: int| i <= k < j ==> p@[k] != '/',
                decreases n - j,
            {
                j += 1;
            }
            let ghost s = p@.skip(i as int);
            let ghost toks = split_slash(s);
            let ghost before: JsonValue = *cur;
            proof {
                assert forall|k: int| 0 <= k < j - i implies s[k] != '/' by {
                    assert(s[k] == p@[i + k]);
                }
                lemma_split_slash_first(s, j - i);
                assert(s.take(j - i) =~= p@.subrange(i as int, j as int));
                if j < n {
                    assert(s.skip(j - i + 1) =~= p@.skip(j + 1));
                }
                assert(toks[0] == p@.subrange(i as int, j as int));
                assert(toks.drop_first() =~= (if j == n {
                    Seq::<Seq<char>>::empty()
                } else {
                    split_slash(p@.skip(j + 1))
                }));
            }
            let tok = unescape(&sub_chars(&p, i, j));
            match cur.step(tok.as_str()) {
                Some(c) => {
                    assert(resolve_spec(before, toks) == resolve_spec(*c, toks.drop_first()));
                    cur = c;
                },
                None => {
                    return None;
                },
            }
            if j == n {
                return Some(cur);
            }
            i = j + 1;
        }
    }
}

} // verus!

verus! {

/// The first token of a pointer that starts with `'/'`, unescaped.
pub open spec fn first_token(path: Seq<char>) -> Seq<char> {
    unescape_spec(split_slash(path.drop_first())[0])
}

/// Replacing pairs that start with a character `s` does not hold leaves `s`
/// unchanged.
proof fn lemma_replace_pair_absent(s: Seq<char>, a: char, b: char, r: char)
    requires
        forall|i: int| 0 <= i < s.len() ==> s[i] != a,
    ensures
        replace_pair_spec(s, a, b, r) == s,
    decreases s.len(),
{
    if s.len() > 0 {
        let t = s.drop_first();
        assert forall|i: int| 0 <= i < t.len() implies t[i] != a by {
            assert(t[i] == s[i + 1]);
        }
        lemma_replace_pair_absent(t, a, b, r);
        assert(seq![s[0]] + t =~= s);
    }
}

/// The first token of `/name…` where `name` holds no `/` or `~` and ends the
/// pointer or is followed by `/`.
pub(crate) proof fn lemma_first_token_plain(path: Seq<char>, n: int)
    requires
        1 <= n <= path.len(),
        path[0] == '/',
        forall|j: int| 1 <= j < n ==> path[j] != '/' && path[j] != '~',
        n == path.len() || path[n] == '/',
    ensures
        first_token(path) == path.subrange(1, n),
{
    let s = path.drop_first();
    assert forall|i: int| 0 <= i < n - 1 implies s[i] != '/' by {
        assert(s[i] == path[i + 1]);
    }
    lemma_split_slash_first(s, n - 1);
    let tok = s.take(n - 1);
    assert(tok =~= path.subrange(1, n));
    assert forall|i: int| 0 <= i < tok.len() implies tok[i] != '~' by {
        assert(tok[i] == path[i + 1]);
    }
    lemma_replace_pair_absent(tok, '~', '1', '/');
    lemma_replace_pair_absent(tok, '~', '0', '~');
}

/// Adding a member does not change the lookup of another key.
proof fn lemma_object_get_insert(m: Seq<(String, JsonValue)>, i: int, e: (String, JsonValue), t: Seq<char>)
    requires
        0 <= i <= m.len(),
        e.0@ != t,
    ensures
        object_get_spec(m.insert(i, e), t) == object_get_spec(m, t),
    decreases m.len(),
{
    let m2 = m.insert(i, e);
    if i == 0 {
        assert(m2[0] == e);
        assert(m2.drop_first() =~= m);
    } else {
        assert(m2[0] == m[0]);
        if m[0].0@ != t {
            assert(m2.drop_first() =~= m.drop_first().insert(i - 1, e));
            lemma_object_get_insert(m.drop_first(), i - 1, e, t);
        }
    }
}

/// Replacing the value of a member does not change the lookup of another
/// key.
proof fn lemma_object_get_update(m: Seq<(String, JsonValue)>, i: int, e: (String, JsonValue), t: Seq<char>)
    requires
        0 <= i < m.len(),
        e.0@ != t,
        m[i].0@ != t,
    ensures
        object_get_spec(m.update(i, e), t) == object_get_spec(m, t),
    decreases m.len(),
{
    let m2 = m.update(i, e);
    if i == 0 {
        assert(m2.drop_first() =~= m.drop_first());
    } else {
        assert(m2[0] == m[0]);
        if m[0].0@ != t {
            assert(m2.drop_first() =~= m.drop_first().update(i - 1, e));
            lemma_object_get_update(m.drop_first(), i - 1, e, t);
        }
    }
}

/// Two values whose first lookup step agrees agree on the whole pointer.
proof fn lemma_pointer_same_first_step(v: JsonValue, v2: JsonValue, path: Seq<char>)
    requires
        path.len() > 0,
        path[0] == '/',
        step_spec(v, first_token(path)) == step_spec(v2, first_token(path)),
    ensures
        pointer_spec(v2, path) == pointer_spec(v, path),
{
    lemma_split_slash_nonempty(path.drop_first());
}

/// Adding a member with key `k` to an object does not change what a pointer
/// whose first token is not `k` denotes.
pub proof fn law_added_member_keeps_other_lookups(
    m: Vec<(String, JsonValue)>,
    m2: Vec<(String, JsonValue)>,
    i: int,
    k: String,
    x: JsonValue,
    path: Seq<char>,
)
    requires
        0 <= i <= m@.len(),
        m2@ == m@.insert(i, (k, x)),
        path.len() > 0,
        path[0] == '/',
        first_token(path) != k@,
    ensures
        pointer_spec(JsonValue::Object(m2), path) == pointer_spec(JsonValue::Object(m), path),
{
    lemma_object_get_insert(m@, i, (k, x), first_token(path));
    lemma_pointer_same_first_step(JsonValue::Object(m), JsonValue::Object(m2), path);
}

/// Replacing the value of the member with key `k` does not change what a
/// pointer whose first token is not `k` denotes.
pub proof fn law_replaced_member_keeps_other_lookups(
    m: Vec<(String, JsonValue)>,
    m2: Vec<(String, JsonValue)>,
    i: int,
    x: JsonValue,
    path: Seq<char>,
)
    requires
        0 <= i < m@.len(),
        m2@ == m@.update(i, (m@[i].0, x)),
        path.len() > 0,
        path[0] == '/',
        first_token(path) != m@[i].0@,
    ensures
        pointer_spec(JsonValue::Object(m2), path) == pointer_spec(JsonValue::Object(m), path),
{
    lemma_object_get_update(m@, i, (m@[i].0, x), first_token(path));
    lemma_pointer_same_first_step(JsonValue::Object(m), JsonValue::Object(m2), path);
}

/// The lookup of a key in an object finds the first member with that key.
pub(crate) proof fn lemma_object_get_first(m: Seq<(String, JsonValue)>, i: int, t: Seq<char>)
    requires
        0 <= i < m.len(),
        m[i].0@ == t,
        forall|j: int| 0 <= j < i ==> m[j].0@ != t,
    ensures
        object_get_spec(m, t) == Some(m[i].1),
    decreases i,
{
    if i > 0 {
        let rest = m.drop_first();
        assert forall|j: int| 0 <= j < i - 1 implies rest[j].0@ != t by {
            assert(rest[j] == m[j + 1]);
        }
        assert(m[0].0@ != t);
        lemma_object_get_first(rest, i - 1, t);
    }
}

/// A pointer of one plain token (no `/` or `~`) looks that key up in an
/// object.
pub(crate) proof fn lemma_pointer_single_key(m: Vec<(String, JsonValue)>, path: Seq<char>)
    requires
        path.len() > 0,
        path[0] == '/',
        forall|j: int| 1 <= j < path.len() ==> path[j] != '/' && path[j] != '~',
    ensures
        pointer_spec(JsonValue::Object(m), path) == match object_get_spec(m@, path.drop_first()) {
            Some(c) => Some(c),
            None => None,
        },
{
    let s = path.drop_first();
    assert forall|i: int| 0 <= i < s.len() implies s[i] != '/' by {
        assert(s[i] == path[i + 1]);
    }
    lemma_split_slash_first(s, s.len() as int);
    assert(s.take(s.len() as int) =~= s);
    lemma_first_token_plain(path, path.len() as int);
    assert(path.subrange(1, path.len() as int) =~= s);
    let toks = split_slash(s);
    assert(toks.drop_first() =~= Seq::<Seq<char>>::empty());
    assert(toks[0] == s);
    assert(unescape_spec(toks[0]) == s);
    let v = JsonValue::Object(m);
    assert(step_spec(v, s) == object_get_spec(m@, s));
    match object_get_spec(m@, s) {
        Some(c) => {
            assert(resolve_spec(c, toks.drop_first()) == Some(c));
        },
        None => {},
    }
}

/// The string held by the first member of an object with the given key.
pub open spec fn member_string(entries: Seq<(String, JsonValue)>, key: Seq<char>) -> Option<Seq<char>> {
    match object_get_spec(entries, key) {
        Some(JsonValue::String(s)) => Some(s@),
        _ => None,
    }
}

/// The `u64` number held by the first member of an object with the given key.
pub open spec fn member_u64(entries: Seq<(String, JsonValue)>, key: Seq<char>) -> Option<u64> {
    match object_get_spec(entries, key) {
        Some(JsonValue::Number(Some(n))) => Some(n),
        _ => None,
    }
}

/// The string held by the member `key` of the object held by the member
/// `outer` of an object.
pub open spec fn nested_member_string(entries: Seq<(String, JsonValue)>, outer: Seq<char>, key: Seq<char>) -> Option<Seq<char>> {
    match object_get_spec(entries, outer) {
        Some(JsonValue::Object(inner)) => member_string(inner@, key),
        _ => None,
    }
}

/// A key free of `/` and `~`.
pub open spec fn plain_key(key: Seq<char>) -> bool {
    forall|j: int| 0 <= j < key.len() ==> key[j] != '/' && key[j] != '~'
}

/// The pointer `/key` looks `key` up in an object.
pub(crate) proof fn lemma_plain_path(m: Vec<(String, JsonValue)>, path: Seq<char>, key: Seq<char>)
    requires
        path == seq!['/'] + key,
        plain_key(key),
    ensures
        pointer_spec(JsonValue::Object(m), path) == object_get_spec(m@, key),
{
    assert forall|j: int| 1 <= j < path.len() implies path[j] != '/' && path[j] != '~' by {
        assert(path[j] == key[j - 1]);
    }
    assert(path.drop_first() =~= key);
    lemma_pointer_single_key(m, path);
}

/// The pointer `/outer/key` looks `outer` up in an object, then `key` in
/// the object found there (an array or scalar there gives nothing, as `key`
/// does not start with a digit).
pub(crate) proof fn lemma_plain_two_keys(m: Vec<(String, JsonValue)>, path: Seq<char>, outer: Seq<char>, key: Seq<char>)
    requires
        path == seq!['/'] + outer + seq!['/'] + key,
        plain_key(outer),
        plain_key(key),
        key.len() > 0,
        !('0' <= key[0] && key[0] <= '9'),
    ensures
        pointer_spec(JsonValue::Object(m), path) == match object_get_spec(m@, outer) {
            Some(JsonValue::Object(inner)) => object_get_spec(inner@, key),
            _ => None,
        },
{
    let s = path.drop_first();
    let n = outer.len() as int;
    assert(s =~= outer + seq!['/'] + key);
    assert forall|i: int| 0 <= i < n implies s[i] != '/' by {
        assert(s[i] == outer[i]);
    }
    assert(s[n] == '/');
    lemma_split_slash_first(s, n);
    assert(s.take(n) =~= outer);
    assert(s.skip(n + 1) =~= key);
    lemma_split_slash_first(key, key.len() as int);
    assert(key.take(key.len() as int) =~= key);
    let toks = split_slash(s);
    assert(toks[0] == outer);
    assert(toks.drop_first() =~= seq![key]);
    lemma_replace_pair_absent(outer, '~', '1', '/');
    lemma_replace_pair_absent(outer, '~', '0', '~');
    lemma_replace_pair_absent(key, '~', '1', '/');
    lemma_replace_pair_absent(key, '~', '0', '~');
    assert(unescape_spec(outer) == outer);
    assert(unescape_spec(key) == key);
    assert(!all_digits(key) || key.len() == 0) by {
        assert(!is_digit(key[0]));
    }
    assert(array_index_spec(key) is None);
    let rest = toks.drop_first();
    assert(rest[0] == key);
    assert(rest.drop_first() =~= Seq::<Seq<char>>::empty());
    match object_get_spec(m@, outer) {
        Some(c) => {
            assert(resolve_spec(JsonValue::Object(m), toks) == resolve_spec(c, rest));
            match step_spec(c, key) {
                Some(d) => {
                    assert(resolve_spec(d, rest.drop_first()) == Some(d));
                },
                None => {},
            }
        },
        None => {},
    }
}

} // verus!
