use vstd::prelude::*;

use crate::text::str_eq;

verus! {

/// A JSON number as the JSON reader classifies it: a non-negative
/// integer, a negative integer, or any other number, kept as the text
/// that the JSON writer prints for it.
#[derive(Debug)]
pub enum JsonNumber {
    PosInt(u64),
    NegInt(i64),
    Float(String),
}

/// A JSON value. An object is a list of members; the messages the
/// library builds hold each key at most once (see `json_wf`).
#[derive(Debug)]
pub enum Json {
    Null,
    Bool(bool),
    Number(JsonNumber),
    Text(String),
    Array(Vec<Json>),
    Object(Vec<(String, Json)>),
}

/// The mathematical value of a `JsonNumber`.
pub enum NumberView {
    PosInt(u64),
    NegInt(i64),
    Float(Seq<char>),
}

/// The mathematical value of a `Json`.
#[verifier::ext_equal]
pub enum JsonView {
    Null,
    Bool(bool),
    Number(NumberView),
    Text(Seq<char>),
    Array(Seq<JsonView>),
    Object(Seq<(Seq<char>, JsonView)>),
}

pub open spec fn number_view(n: &JsonNumber) -> NumberView {
    match n {
        JsonNumber::PosInt(u) => NumberView::PosInt(*u),
        JsonNumber::NegInt(i) => NumberView::NegInt(*i),
        JsonNumber::Float(s) => NumberView::Float(s@),
    }
}

pub open spec fn json_view(j: &Json) -> JsonView
    decreases j,
{
    match j {
        Json::Null => JsonView::Null,
        Json::Bool(b) => JsonView::Bool(*b),
        Json::Number(n) => JsonView::Number(number_view(n)),
        Json::Text(s) => JsonView::Text(s@),
        Json::Array(v) => JsonView::Array(
            Seq::new(
                v@.len(),
                |i: int|
                    if 0 <= i < v@.len() {
                        json_view(&v@[i])
                    } else {
                        JsonView::Null
                    },
            ),
        ),
        Json::Object(e) => JsonView::Object(
            Seq::new(
                e@.len(),
                |i: int|
                    if 0 <= i < e@.len() {
                        (e@[i].0@, json_view(&e@[i].1))
                    } else {
                        (Seq::empty(), JsonView::Null)
                    },
            ),
        ),
    }
}

impl View for Json {
    type V = JsonView;

    open spec fn view(&self) -> JsonView {
        json_view(self)
    }
}

impl View for JsonNumber {
    type V = NumberView;

    open spec fn view(&self) -> NumberView {
        number_view(self)
    }
}

/// The view of a list of object members.
pub open spec fn entries_view(e: Seq<(String, Json)>) -> Seq<(Seq<char>, JsonView)> {
    Seq::new(e.len(), |i: int| (e[i].0@, json_view(&e[i].1)))
}

/// The index of the first member of `e` whose key is `k`.
pub open spec fn find_key(e: Seq<(Seq<char>, JsonView)>, k: Seq<char>) -> Option<int>
    decreases e.len(),
{
    if e.len() == 0 {
        None
    } else if e[0].0 == k {
        Some(0)
    } else {
        match find_key(e.subrange(1, e.len() as int), k) {
            Some(i) => Some(i + 1),
            None => None,
        }
    }
}

/// The value of the first member of `e` whose key is `k`.
pub open spec fn lookup(e: Seq<(Seq<char>, JsonView)>, k: Seq<char>) -> Option<JsonView> {
    match find_key(e, k) {
        Some(i) => Some(e[i].1),
        None => None,
    }
}

/// No key occurs twice among the members `e`.
pub open spec fn keys_unique(e: Seq<(Seq<char>, JsonView)>) -> bool {
    forall|i: int, j: int| 0 <= i < e.len() && 0 <= j < e.len() && i != j ==> e[i].0 != e[j].0
}

/// Every object inside `j`, at any depth, holds each key at most once,
/// as the objects of the JSON reader do.
pub open spec fn json_wf(j: JsonView) -> bool
    decreases j,
{
    match j {
        JsonView::Array(xs) => forall|i: int| 0 <= i < xs.len() ==> json_wf(#[trigger] xs[i]),
        JsonView::Object(e) => keys_unique(e) && forall|i: int|
            0 <= i < e.len() ==> json_wf(#[trigger] e[i].1),
        _ => true,
    }
}

/// Recursive merge: objects are merged member by member, arrays are
/// concatenated, and in every other case the second value wins.
pub open spec fn merge_spec(a: JsonView, b: JsonView) -> JsonView
    decreases b, 1int,
{
    match (a, b) {
        (JsonView::Object(ea), JsonView::Object(eb)) => JsonView::Object(merge_entries(ea, eb)),
        (JsonView::Array(xa), JsonView::Array(xb)) => JsonView::Array(xa + xb),
        (_, b) => b,
    }
}

/// Merges the members `eb`, first to last, into the members `acc`: a key
/// already present gets its value merged with the new one, a new key is
/// appended.
pub open spec fn merge_entries(
    acc: Seq<(Seq<char>, JsonView)>,
    eb: Seq<(Seq<char>, JsonView)>,
) -> Seq<(Seq<char>, JsonView)>
    decreases eb, 0int,
{
    if eb.len() == 0 {
        acc
    } else {
        let k = eb[0].0;
        let vb = eb[0].1;
        let next = match find_key(acc, k) {
            Some(i) => acc.update(i, (k, merge_spec(acc[i].1, vb))),
            None => acc.push((k, vb)),
        };
        merge_entries(next, eb.subrange(1, eb.len() as int))
    }
}


/// The view of a list of array elements.
pub open spec fn array_view(v: Seq<Json>) -> Seq<JsonView> {
    Seq::new(v.len(), |i: int| json_view(&v[i]))
}

/// The view of an object is the view of its members.
pub proof fn lemma_object_view(e: Vec<(String, Json)>)
    ensures
        Json::Object(e)@ == JsonView::Object(entries_view(e@)),
{
    let jv = json_view(&Json::Object(e));
    assert(jv->Object_0 =~= entries_view(e@));
}

/// The view of an array is the view of its elements.
pub proof fn lemma_array_view(v: Vec<Json>)
    ensures
        Json::Array(v)@ == JsonView::Array(array_view(v@)),
{
    let jv = json_view(&Json::Array(v));
    assert(jv->Array_0 =~= array_view(v@));
}

/// Facts about `find_key`: the index it returns holds the key and no
/// earlier member does; it returns `None` exactly when no member does.
pub proof fn lemma_find_key(e: Seq<(Seq<char>, JsonView)>, k: Seq<char>)
    ensures
        find_key(e, k) matches Some(i) ==> 0 <= i < e.len() && e[i].0 == k && forall|j: int|
            0 <= j < i ==> e[j].0 != k,
        find_key(e, k) is None <==> forall|j: int| 0 <= j < e.len() ==> e[j].0 != k,
    decreases e.len(),
{
    if e.len() > 0 {
        let t = e.subrange(1, e.len() as int);
        lemma_find_key(t, k);
        if e[0].0 != k {
            assert forall|j: int| 0 < j < e.len() implies e[j].0 == t[j - 1].0 by {}
            if find_key(e, k) is None {
                assert forall|j: int| 0 <= j < e.len() implies e[j].0 != k by {
                    if j > 0 {
                        assert(t[j - 1] == e[j]);
                    }
                }
            }
        }
    }
}

/// Finds the first member of `e` whose key is `k`.
fn find_member(e: &Vec<(String, Json)>, k: &str) -> (r: Option<usize>)
    ensures
        match r {
            Some(i) => find_key(entries_view(e@), k@) == Some(i as int),
            None => find_key(entries_view(e@), k@) is None,
        },
{
    let ghost ev = entries_view(e@);
    proof {
        lemma_find_key(ev, k@);
    }
    let mut i: usize = 0;
    while i < e.len()
        invariant
            i <= e.len(),
            ev == entries_view(e@),
            forall|j: int| 0 <= j < i ==> ev[j].0 != k@,
            find_key(ev, k@) matches Some(x) ==> 0 <= x < ev.len() && ev[x].0 == k@ && forall|j: int|
                0 <= j < x ==> ev[j].0 != k@,
            find_key(ev, k@) is None <==> forall|j: int| 0 <= j < ev.len() ==> ev[j].0 != k@,
        decreases e.len() - i,
    {
        if str_eq(e[i].0.as_str(), k) {
            assert(ev[i as int].0 == k@);
            return Some(i);
        }
        i = i + 1;
    }
    None
}

/// Merges `b` into `a`: members of two objects are merged key by key,
/// two arrays are concatenated, and otherwise `b` is the result.
pub fn merge_json(a: Json, b: Json) -> (r: Json)
    ensures
        r@ == merge_spec(a@, b@),
        json_wf(a@) && json_wf(b@) ==> json_wf(r@),
    decreases b,
{
    proof {
        if json_wf(a@) && json_wf(b@) {
            lemma_merge_wf(a@, b@);
        }
    }
    match a {
        Json::Object(ma) => match b {
            Json::Object(mb) => {
                proof {
                    lemma_object_view(ma);
                    lemma_object_view(mb);
                }
                let merged = merge_members(ma, mb);
                let r = Json::Object(merged);
                proof {
                    lemma_object_view(merged);
                }
                r
            },
            other => other,
        },
        Json::Array(xa) => match b {
            Json::Array(xb) => {
                proof {
                    lemma_array_view(xa);
                    lemma_array_view(xb);
                }
                let ghost va = array_view(xa@);
                let ghost vb = array_view(xb@);
                let mut xa = xa;
                let mut xb = xb;
                xa.append(&mut xb);
                let r = Json::Array(xa);
                proof {
                    lemma_array_view(xa);
                    assert(array_view(xa@) =~= va + vb);
                }
                r
            },
            other => other,
        },
        _ => b,
    }
}

/// Merges the members `eb`, first to last, into the members `acc`.
#[verifier::loop_isolation(false)]
fn merge_members(acc: Vec<(String, Json)>, eb: Vec<(String, Json)>) -> (r: Vec<(String, Json)>)
    ensures
        entries_view(r@) == merge_entries(entries_view(acc@), entries_view(eb@)),
    decreases eb,
{
    let ghost eb0 = eb;
    let n = eb.len();
    let ghost ebs = eb@;
    let ghost target = merge_entries(entries_view(acc@), entries_view(eb@));
    // Reverse the members, so that popping yields them first to last.
    let mut src = eb;
    let mut rev: Vec<(String, Json)> = Vec::new();
    while src.len() > 0
        invariant
            n == ebs.len(),
            src.len() + rev.len() == n,
            src@ == ebs.subrange(0, src.len() as int),
            forall|j: int| 0 <= j < rev.len() ==> rev@[j] == ebs[n - 1 - j],
        decreases src.len(),
    {
        let x = src.pop().unwrap();
        rev.push(x);
    }
    let mut acc = acc;
    assert(ebs.subrange(n - rev.len(), n as int) == ebs);
    while rev.len() > 0
        invariant
            n == ebs.len(),
            eb0@ == ebs,
            rev.len() <= n,
            forall|j: int| 0 <= j < rev.len() ==> rev@[j] == ebs[n - 1 - j],
            target == merge_entries(
                entries_view(acc@),
                entries_view(ebs.subrange(n - rev.len(), n as int)),
            ),
        decreases rev.len(),
    {
        let m = rev.len();
        let ghost rest = ebs.subrange(n - m, n as int);
        let ghost accv = entries_view(acc@);
        let (k, vb) = rev.pop().unwrap();
        assert((k, vb) == ebs[n - m]);
        assert(entries_view(rest)[0] == (k@, vb@));
        assert(entries_view(rest).subrange(1, m as int) =~= entries_view(
            ebs.subrange(n - (m - 1), n as int),
        ));
        match find_member(&acc, k.as_str()) {
            Some(i) => {
                proof {
                    lemma_find_key(accv, k@);
                }
                assert(accv[i as int].0 == k@);
                let (ka, va) = acc.remove(i);
                proof {
                    assert(decreases_to!(eb0 => eb0@));
                    assert(eb0@ == ebs);
                    assert(decreases_to!(eb0 => vb));
                }
                let merged = merge_json(va, vb);
                acc.insert(i, (ka, merged));
                assert(entries_view(acc@) =~= accv.update(i as int, (k@, merge_spec(accv[i as int].1, vb@))));
            },
            None => {
                acc.push((k, vb));
                assert(entries_view(acc@) =~= accv.push((k@, vb@)));
            },
        }
    }
    assert(entries_view(ebs.subrange(n as int, n as int)) =~= Seq::empty());
    acc
}

/// What a merged object holds under one key, given what the first and
/// the second object hold under it.
pub open spec fn merged_member(x: Option<JsonView>, y: Option<JsonView>) -> Option<JsonView> {
    match (x, y) {
        (Some(a), Some(b)) => Some(merge_spec(a, b)),
        (Some(a), None) => Some(a),
        (None, y) => y,
    }
}

/// `find_key` depends on the keys alone.
pub proof fn lemma_find_key_same_keys(
    e1: Seq<(Seq<char>, JsonView)>,
    e2: Seq<(Seq<char>, JsonView)>,
    k: Seq<char>,
)
    requires
        e1.len() == e2.len(),
        forall|i: int| 0 <= i < e1.len() ==> e1[i].0 == e2[i].0,
    ensures
        find_key(e1, k) == find_key(e2, k),
{
    lemma_find_key(e1, k);
    lemma_find_key(e2, k);
    if let Some(i1) = find_key(e1, k) {
        if let Some(i2) = find_key(e2, k) {
            if i1 < i2 {
                assert(e2[i1].0 == k);
            } else if i2 < i1 {
                assert(e1[i2].0 == k);
            }
        }
    }
}

/// `find_key` after a member is appended.
pub proof fn lemma_find_key_push(e: Seq<(Seq<char>, JsonView)>, p: (Seq<char>, JsonView), k: Seq<char>)
    ensures
        find_key(e.push(p), k) == match find_key(e, k) {
            Some(i) => Some(i),
            None => if p.0 == k {
                Some(e.len() as int)
            } else {
                None
            },
        },
{
    let f = e.push(p);
    lemma_find_key(e, k);
    lemma_find_key(f, k);
    assert forall|j: int| 0 <= j < e.len() implies f[j] == e[j] by {}
    if let Some(i) = find_key(e, k) {
        if let Some(i2) = find_key(f, k) {
            if i2 < i {
                assert(e[i2].0 == k);
            }
            if i < i2 {
                assert(f[i].0 == k);
            }
        }
    } else {
        if p.0 == k {
            assert(f[e.len() as int].0 == k);
            if let Some(i2) = find_key(f, k) {
                if i2 < e.len() {
                    assert(e[i2].0 == k);
                }
            }
        } else {
            if let Some(i2) = find_key(f, k) {
                if i2 < e.len() {
                    assert(e[i2].0 == k);
                }
            }
        }
    }
}

/// One step of `merge_entries`: merging the member `(k0, v0)` into `acc`.
pub open spec fn merge_one(acc: Seq<(Seq<char>, JsonView)>, k0: Seq<char>, v0: JsonView) -> Seq<
    (Seq<char>, JsonView),
> {
    match find_key(acc, k0) {
        Some(i) => acc.update(i, (k0, merge_spec(acc[i].1, v0))),
        None => acc.push((k0, v0)),
    }
}

proof fn lemma_merge_one_lookup(
    acc: Seq<(Seq<char>, JsonView)>,
    k0: Seq<char>,
    v0: JsonView,
    k: Seq<char>,
)
    ensures
        lookup(merge_one(acc, k0, v0), k) == if k == k0 {
            merged_member(lookup(acc, k0), Some(v0))
        } else {
            lookup(acc, k)
        },
        keys_unique(acc) ==> keys_unique(merge_one(acc, k0, v0)),
{
    lemma_find_key(acc, k0);
    lemma_find_key(acc, k);
    let m = merge_one(acc, k0, v0);
    match find_key(acc, k0) {
        Some(i) => {
            lemma_find_key_same_keys(acc, m, k);
            lemma_find_key(m, k);
        },
        None => {
            lemma_find_key_push(acc, (k0, v0), k);
            if keys_unique(acc) {
                assert forall|x: int, y: int|
                    0 <= x < m.len() && 0 <= y < m.len() && x != y implies m[x].0 != m[y].0 by {
                    if x < acc.len() && y < acc.len() {
                        assert(m[x] == acc[x] && m[y] == acc[y]);
                    } else if x < acc.len() {
                        assert(m[x] == acc[x]);
                    } else if y < acc.len() {
                        assert(m[y] == acc[y]);
                    }
                }
            }
        },
    }
}

/// Merging objects, key by key: the merged object holds a key exactly
/// when one of the two does; under a key that only one holds it keeps
/// that value, and under a key that both hold it holds the merge of the
/// two values. (The second object must hold each key once, as every
/// object that the JSON reader produces does.)
pub proof fn lemma_merge_entries_lookup(
    acc: Seq<(Seq<char>, JsonView)>,
    eb: Seq<(Seq<char>, JsonView)>,
    k: Seq<char>,
)
    requires
        keys_unique(eb),
    ensures
        lookup(merge_entries(acc, eb), k) == merged_member(lookup(acc, k), lookup(eb, k)),
        keys_unique(acc) ==> keys_unique(merge_entries(acc, eb)),
    decreases eb.len(),
{
    if eb.len() > 0 {
        let k0 = eb[0].0;
        let v0 = eb[0].1;
        let rest = eb.subrange(1, eb.len() as int);
        assert(merge_one(acc, k0, v0) == match find_key(acc, k0) {
            Some(i) => acc.update(i, (k0, merge_spec(acc[i].1, v0))),
            None => acc.push((k0, v0)),
        });
        lemma_merge_one_lookup(acc, k0, v0, k);
        lemma_merge_entries_lookup(merge_one(acc, k0, v0), rest, k);
        lemma_find_key(rest, k0);
        assert forall|j: int| 0 <= j < rest.len() implies rest[j].0 != k0 by {
            assert(rest[j] == eb[j + 1]);
        }
        assert(lookup(rest, k0) is None);
        if k != k0 {
            lemma_find_key(rest, k);
            if let Some(i) = find_key(rest, k) {
                assert(eb[i + 1] == rest[i]);
            }
        }
        assert(lookup(eb, k) == if k == k0 {
            Some(v0)
        } else {
            lookup(rest, k)
        });
    }
}

/// Merging two objects gives an object whose members are merged key by
/// key (see `lemma_merge_entries_lookup`).
pub proof fn lemma_merge_objects(ea: Seq<(Seq<char>, JsonView)>, eb: Seq<(Seq<char>, JsonView)>, k: Seq<char>)
    requires
        keys_unique(eb),
    ensures
        merge_spec(JsonView::Object(ea), JsonView::Object(eb)) matches JsonView::Object(er)
            && lookup(er, k) == merged_member(lookup(ea, k), lookup(eb, k)),
{
    lemma_merge_entries_lookup(ea, eb, k);
}

/// Merging two arrays concatenates them.
pub proof fn lemma_merge_arrays(xa: Seq<JsonView>, xb: Seq<JsonView>)
    ensures
        merge_spec(JsonView::Array(xa), JsonView::Array(xb)) == JsonView::Array(xa + xb),
{
}

/// Unless both values are objects or both are arrays, the second value
/// wins.
pub proof fn lemma_merge_second_wins(a: JsonView, b: JsonView)
    requires
        !(a is Object && b is Object),
        !(a is Array && b is Array),
    ensures
        merge_spec(a, b) == b,
{
}

/// A value that is neither an object nor an array always wins.
pub proof fn lemma_merge_scalar_wins(a: JsonView, b: JsonView)
    requires
        !(b is Object),
        !(b is Array),
    ensures
        merge_spec(a, b) == b,
{
}

proof fn lemma_merge_entries_fresh(acc: Seq<(Seq<char>, JsonView)>, eb: Seq<(Seq<char>, JsonView)>)
    requires
        keys_unique(eb),
        forall|i: int, j: int| 0 <= i < acc.len() && 0 <= j < eb.len() ==> acc[i].0 != eb[j].0,
    ensures
        merge_entries(acc, eb) == acc + eb,
    decreases eb.len(),
{
    if eb.len() == 0 {
        assert(acc + eb =~= acc);
    } else {
        let rest = eb.subrange(1, eb.len() as int);
        lemma_find_key(acc, eb[0].0);
        let next = acc.push((eb[0].0, eb[0].1));
        assert(next == acc.push(eb[0]));
        assert forall|i: int, j: int| 0 <= i < next.len() && 0 <= j < rest.len() implies next[i].0
            != rest[j].0 by {
            assert(rest[j] == eb[j + 1]);
            if i == acc.len() {
                assert(next[i] == eb[0]);
            }
        }
        assert forall|x: int, y: int|
            0 <= x < rest.len() && 0 <= y < rest.len() && x != y implies rest[x].0 != rest[y].0 by {
            assert(rest[x] == eb[x + 1] && rest[y] == eb[y + 1]);
        }
        lemma_merge_entries_fresh(next, rest);
        assert(next + rest =~= acc + eb);
    }
}

/// Merging with an empty object or an empty array changes nothing: an
/// empty first value gives the second (an object holding each key once),
/// an empty second value gives the first.
pub proof fn lemma_merge_empty(ea: Seq<(Seq<char>, JsonView)>, xa: Seq<JsonView>)
    requires
        keys_unique(ea),
    ensures
        merge_spec(JsonView::Object(Seq::empty()), JsonView::Object(ea)) == JsonView::Object(ea),
        merge_spec(JsonView::Object(ea), JsonView::Object(Seq::empty())) == JsonView::Object(ea),
        merge_spec(JsonView::Array(Seq::empty()), JsonView::Array(xa)) == JsonView::Array(xa),
        merge_spec(JsonView::Array(xa), JsonView::Array(Seq::empty())) == JsonView::Array(xa),
{
    lemma_merge_entries_fresh(Seq::empty(), ea);
    assert(Seq::<(Seq<char>, JsonView)>::empty() + ea =~= ea);
    assert(Seq::<JsonView>::empty() + xa =~= xa);
    assert(xa + Seq::<JsonView>::empty() =~= xa);
}

/// Merging keeps every object free of repeated keys.
pub proof fn lemma_merge_wf(a: JsonView, b: JsonView)
    requires
        json_wf(a),
        json_wf(b),
    ensures
        json_wf(merge_spec(a, b)),
    decreases b, 1int,
{
    match (a, b) {
        (JsonView::Object(ea), JsonView::Object(eb)) => {
            lemma_merge_entries_wf(ea, eb);
        },
        (JsonView::Array(xa), JsonView::Array(xb)) => {
            let r = xa + xb;
            assert forall|i: int| 0 <= i < r.len() implies json_wf(#[trigger] r[i]) by {
                if i < xa.len() {
                    assert(r[i] == xa[i]);
                } else {
                    assert(r[i] == xb[i - xa.len()]);
                }
            }
        },
        _ => {},
    }
}

proof fn lemma_merge_entries_wf(acc: Seq<(Seq<char>, JsonView)>, eb: Seq<(Seq<char>, JsonView)>)
    requires
        keys_unique(acc),
        keys_unique(eb),
        forall|i: int| 0 <= i < acc.len() ==> json_wf(#[trigger] acc[i].1),
        forall|i: int| 0 <= i < eb.len() ==> json_wf(#[trigger] eb[i].1),
    ensures
        keys_unique(merge_entries(acc, eb)),
        forall|i: int|
            0 <= i < merge_entries(acc, eb).len() ==> json_wf(#[trigger] merge_entries(acc, eb)[i].1),
    decreases eb, 0int,
{
    if eb.len() > 0 {
        let k0 = eb[0].0;
        let v0 = eb[0].1;
        let rest = eb.subrange(1, eb.len() as int);
        let m = merge_one(acc, k0, v0);
        lemma_merge_one_lookup(acc, k0, v0, k0);
        lemma_find_key(acc, k0);
        match find_key(acc, k0) {
            Some(i) => {
                assert(decreases_to!(eb => eb[0]));
                lemma_merge_wf(acc[i].1, v0);
                assert forall|j: int| 0 <= j < m.len() implies json_wf(#[trigger] m[j].1) by {
                    if j != i {
                        assert(m[j] == acc[j]);
                    }
                }
            },
            None => {
                assert forall|j: int| 0 <= j < m.len() implies json_wf(#[trigger] m[j].1) by {
                    if j < acc.len() {
                        assert(m[j] == acc[j]);
                    }
                }
            },
        }
        assert forall|x: int, y: int|
            0 <= x < rest.len() && 0 <= y < rest.len() && x != y implies rest[x].0 != rest[y].0 by {
            assert(rest[x] == eb[x + 1] && rest[y] == eb[y + 1]);
        }
        assert forall|j: int| 0 <= j < rest.len() implies json_wf(#[trigger] rest[j].1) by {
            assert(rest[j] == eb[j + 1]);
        }
        lemma_merge_entries_wf(m, rest);
    }
}

/// What a JSON value holds under the key `k`: the member of an object
/// with that key, and nothing for any other kind of value.
pub open spec fn json_get(j: JsonView, k: Seq<char>) -> Option<JsonView> {
    match j {
        JsonView::Object(e) => lookup(e, k),
        _ => None,
    }
}

/// A number as an `i64`, when it is an integer in the range of `i64`.
pub open spec fn number_as_i64(n: NumberView) -> Option<i64> {
    match n {
        NumberView::PosInt(u) => if u <= i64::MAX {
            Some(u as i64)
        } else {
            None
        },
        NumberView::NegInt(i) => Some(i),
        NumberView::Float(_) => None,
    }
}

impl JsonNumber {
    /// The number as an `i64`, when it is an integer in the range of `i64`.
    pub fn as_i64(&self) -> (r: Option<i64>)
        ensures
            r == number_as_i64(self@),
    {
        match self {
            JsonNumber::PosInt(u) => if *u <= 0x7fff_ffff_ffff_ffffu64 {
                Some(*u as i64)
            } else {
                None
            },
            JsonNumber::NegInt(i) => Some(*i),
            JsonNumber::Float(_) => None,
        }
    }
}

impl Json {
    /// The member of an object with the key `key`; `None` when there is
    /// no such member or the value is not an object.
    pub fn get(&self, key: &str) -> (r: Option<&Json>)
        ensures
            match r {
                Some(v) => json_get(self@, key@) == Some(v@),
                None => json_get(self@, key@) is None,
            },
    {
        match self {
            Json::Object(e) => {
                proof {
                    lemma_object_view(*e);
                }
                match find_member(e, key) {
                    Some(i) => {
                        proof {
                            lemma_find_key(entries_view(e@), key@);
                        }
                        Some(&e[i].1)
                    },
                    None => None,
                }
            },
            _ => None,
        }
    }
}

impl JsonNumber {
    /// A copy of the number.
    pub fn deep_copy(&self) -> (r: JsonNumber)
        ensures
            r@ == self@,
    {
        match self {
            JsonNumber::PosInt(u) => JsonNumber::PosInt(*u),
            JsonNumber::NegInt(i) => JsonNumber::NegInt(*i),
            JsonNumber::Float(s) => JsonNumber::Float(s.clone()),
        }
    }
}

impl Json {
    /// A copy of the value.
    #[verifier::loop_isolation(false)]
    pub fn deep_copy(&self) -> (r: Json)
        ensures
            r@ == self@,
        decreases self,
    {
        match self {
            Json::Null => Json::Null,
            Json::Bool(b) => Json::Bool(*b),
            Json::Number(n) => Json::Number(n.deep_copy()),
            Json::Text(s) => Json::Text(s.clone()),
            Json::Array(v) => {
                let mut out: Vec<Json> = Vec::new();
                let mut i: usize = 0;
                while i < v.len()
                    invariant
                        i <= v.len(),
                        out.len() == i,
                        forall|j: int| 0 <= j < i ==> (#[trigger] out@[j])@ == v@[j]@,
                    decreases v.len() - i,
                {
                    proof {
                        assert(decreases_to!(v => v@));
                        assert(decreases_to!(v@ => v@[i as int]));
                    }
                    out.push(v[i].deep_copy());
                    i = i + 1;
                }
                proof {
                    lemma_array_view(*v);
                    lemma_array_view(out);
                    assert(array_view(out@) =~= array_view(v@));
                }
                Json::Array(out)
            },
            Json::Object(e) => {
                let mut out: Vec<(String, Json)> = Vec::new();
                let mut i: usize = 0;
                while i < e.len()
                    invariant
                        i <= e.len(),
                        out.len() == i,
                        forall|j: int|
                            0 <= j < i ==> (#[trigger] out@[j]).0@ == e@[j].0@ && out@[j].1@
                                == e@[j].1@,
                    decreases e.len() - i,
                {
                    proof {
                        assert(decreases_to!(e => e@));
                        assert(decreases_to!(e@ => e@[i as int]));
                        assert(decreases_to!(e@[i as int] => e@[i as int].1));
                    }
                    let k = e[i].0.clone();
                    let x = e[i].1.deep_copy();
                    out.push((k, x));
                    i = i + 1;
                }
                proof {
                    lemma_object_view(*e);
                    lemma_object_view(out);
                    assert(entries_view(out@) =~= entries_view(e@));
                }
                Json::Object(out)
            },
        }
    }
}

} // verus!
