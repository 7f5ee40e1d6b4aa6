//! Object keys embedded in article bodies, and the keys an edit leaves behind.
//!
//! A body refers to a stored object by the text `img/` followed by the key:
//! a name of letters, digits, `_` and `-`, a dot, and an extension of letters
//! and digits. The longest such name and extension are taken, so
//! `<img src="img/cat_01.png">` refers to the key `cat_01.png`.
use vstd::prelude::*;

verus! {

pub open spec fn is_alnum(c: char) -> bool {
    ('a' <= c && c <= 'z') || ('A' <= c && c <= 'Z') || ('0' <= c && c <= '9')
}

pub open spec fn is_name_char(c: char) -> bool {
    is_alnum(c) || c == '_' || c == '-'
}

/// The marker that introduces a key in a body.
pub open spec fn key_marker() -> Seq<char> {
    seq!['i', 'm', 'g', '/']
}

/// End of the run of name characters of `b` that starts at `j`.
pub open spec fn name_end(b: Seq<char>, j: int) -> int
    decreases b.len() - j,
{
    if 0 <= j < b.len() && is_name_char(b[j]) {
        name_end(b, j + 1)
    } else {
        j
    }
}

/// End of the run of extension characters of `b` that starts at `j`.
pub open spec fn ext_end(b: Seq<char>, j: int) -> int
    decreases b.len() - j,
{
    if 0 <= j < b.len() && is_alnum(b[j]) {
        ext_end(b, j + 1)
    } else {
        j
    }
}

/// Whether a key reference starts at position `i` of `b`.
pub open spec fn key_starts_at(b: Seq<char>, i: int) -> bool {
    let s = i + 4;
    let n = name_end(b, s);
    &&& 0 <= i
    &&& s <= b.len()
    &&& b.subrange(i, s) == key_marker()
    &&& n > s
    &&& n < b.len()
    &&& b[n] == '.'
    &&& ext_end(b, n + 1) > n + 1
}

/// The key referred to at position `i` of `b`, where one starts there.
pub open spec fn key_at(b: Seq<char>, i: int) -> Seq<char> {
    b.subrange(i + 4, ext_end(b, name_end(b, i + 4) + 1))
}

/// Every key that body `b` refers to.
pub open spec fn extract(b: Seq<char>) -> Set<Seq<char>> {
    Set::new(|k: Seq<char>| exists|i: int| 0 <= i < b.len() && key_starts_at(b, i) && key_at(b, i) == k)
}

/// Keys referred to before an edit and no longer after it.
pub open spec fn orphaned(old: Set<Seq<char>>, new: Set<Seq<char>>) -> Set<Seq<char>> {
    old.difference(new)
}

/// The set of texts held by a list of strings.
pub open spec fn key_set(v: Seq<String>) -> Set<Seq<char>> {
    Set::new(|k: Seq<char>| exists|j: int| 0 <= j < v.len() && v[j]@ == k)
}

/// No text occurs twice in the list.
pub open spec fn distinct(v: Seq<String>) -> bool {
    forall|a: int, b: int| 0 <= a < b < v.len() ==> v[a]@ != v[b]@
}

/// Relies on str::chars: the characters of the string, in order.
#[verifier::external_body]
fn chars_of(s: &str) -> (r: Vec<char>)
    ensures
        r@ == s@,
{
    s.chars().collect()
}

fn is_alnum_exec(c: char) -> (r: bool)
    ensures
        r == is_alnum(c),
{
    ('a' <= c && c <= 'z') || ('A' <= c && c <= 'Z') || ('0' <= c && c <= '9')
}

/// End of the run that starts at `j`: of name characters, or of extension
/// characters where `ext` holds.
fn run_end(b: &Vec<char>, j: usize, ext: bool) -> (r: usize)
    requires
        j <= b@.len(),
    ensures
        ext ==> r == ext_end(b@, j as int),
        !ext ==> r == name_end(b@, j as int),
        j <= r <= b@.len(),
{
    let mut k: usize = j;
    while k < b.len()
        invariant
            j <= k <= b@.len(),
            ext ==> ext_end(b@, k as int) == ext_end(b@, j as int),
            !ext ==> name_end(b@, k as int) == name_end(b@, j as int),
        decreases b@.len() - k,
    {
        let c = b[k];
        let more = if ext {
            is_alnum_exec(c)
        } else {
            is_alnum_exec(c) || c == '_' || c == '-'
        };
        if !more {
            return k;
        }
        k = k + 1;
    }
    k
}

/// Where a key starts at `i`, the end of that key.
fn key_end_at(b: &Vec<char>, i: usize) -> (r: Option<usize>)
    requires
        i < b@.len(),
    ensures
        r.is_some() == key_starts_at(b@, i as int),
        r.is_some() ==> r.unwrap() == ext_end(b@, name_end(b@, i + 4) + 1) && r.unwrap()
            <= b@.len(),
{
    let len = b.len();
    if len - i < 4 {
        return None;
    }
    if !(b[i] == 'i' && b[i + 1] == 'm' && b[i + 2] == 'g' && b[i + 3] == '/') {
        assert(b@.subrange(i as int, i + 4)[0] == b@[i as int]);
        assert(b@.subrange(i as int, i + 4)[1] == b@[i + 1]);
        assert(b@.subrange(i as int, i + 4)[2] == b@[i + 2]);
        assert(b@.subrange(i as int, i + 4)[3] == b@[i + 3]);
        return None;
    }
    assert(b@.subrange(i as int, i + 4) =~= key_marker());
    let s = i + 4;
    let n = run_end(b, s, false);
    if n == s || n >= len || b[n] != '.' {
        return None;
    }
    let e = run_end(b, n + 1, true);
    if e == n + 1 {
        return None;
    }
    Some(e)
}

pub(crate) fn contains_text(v: &Vec<String>, k: &String) -> (r: bool)
    ensures
        r == key_set(v@).contains(k@),
{
    let mut j: usize = 0;
    while j < v.len()
        invariant
            j <= v@.len(),
            forall|a: int| 0 <= a < j ==> v@[a]@ != k@,
        decreases v@.len() - j,
    {
        if v[j] == *k {
            assert(v@[j as int]@ == k@);
            return true;
        }
        j = j + 1;
    }
    false
}

/// The keys that `body` refers to, each once.
pub fn extract_keys(body: &str) -> (r: Vec<String>)
    ensures
        key_set(r@) == extract(body@),
        distinct(r@),
{
    let b = chars_of(body);
    let mut keys: Vec<String> = Vec::new();
    let mut i: usize = 0;
    while i < b.len()
        invariant
            b@ == body@,
            i <= b@.len(),
            distinct(keys@),
            forall|k: Seq<char>|
                key_set(keys@).contains(k) <==> (exists|p: int|
                    0 <= p < i && key_starts_at(b@, p) && key_at(b@, p) == k),
        decreases b@.len() - i,
    {
        let ghost prev = keys@;
        match key_end_at(&b, i) {
            Some(e) => {
                let key = String::from_str(body.substring_char(i + 4, e));
                assert(key@ == key_at(b@, i as int));
                if !contains_text(&keys, &key) {
                    keys.push(key);
                    assert forall|k: Seq<char>| key_set(keys@).contains(k) <==> (key_set(prev).contains(k)
                        || k == key@) by {
                        if key_set(keys@).contains(k) {
                            let j = choose|j: int| 0 <= j < keys@.len() && keys@[j]@ == k;
                            if j < prev.len() {
                                assert(prev[j] == keys@[j]);
                            }
                        }
                        if key_set(prev).contains(k) {
                            let j = choose|j: int| 0 <= j < prev.len() && prev[j]@ == k;
                            assert(keys@[j] == prev[j]);
                        }
                        if k == key@ {
                            assert(keys@[prev.len() as int]@ == k);
                        }
                    }
                }
                assert(forall|k: Seq<char>| key_set(keys@).contains(k) <==> (key_set(prev).contains(k)
                    || (key_starts_at(b@, i as int) && k == key_at(b@, i as int))));
            },
            None => {
                assert(forall|k: Seq<char>| key_set(keys@).contains(k) <==> (key_set(prev).contains(k)
                    || (key_starts_at(b@, i as int) && k == key_at(b@, i as int))));
            },
        }
        assert forall|k: Seq<char>|
            key_set(keys@).contains(k) <==> (exists|p: int|
                0 <= p < i + 1 && key_starts_at(b@, p) && key_at(b@, p) == k) by {
            if exists|p: int| 0 <= p < i + 1 && key_starts_at(b@, p) && key_at(b@, p) == k {
                let p = choose|p: int| 0 <= p < i + 1 && key_starts_at(b@, p) && key_at(b@, p) == k;
                if p < i {
                    assert(key_set(prev).contains(k));
                }
            }
            if key_set(keys@).contains(k) {
                if key_set(prev).contains(k) {
                    let p = choose|p: int| 0 <= p < i && key_starts_at(b@, p) && key_at(b@, p) == k;
                    assert(0 <= p < i + 1 && key_starts_at(b@, p) && key_at(b@, p) == k);
                } else {
                    assert(0 <= i < i + 1 && key_starts_at(b@, i as int) && key_at(b@, i as int) == k);
                }
            }
        }
        i = i + 1;
    }
    assert(key_set(keys@) =~= extract(body@));
    keys
}

/// The keys of `old` that `new` does not hold.
pub fn orphaned_keys(old: &Vec<String>, new: &Vec<String>) -> (r: Vec<String>)
    ensures
        key_set(r@) == orphaned(key_set(old@), key_set(new@)),
        distinct(old@) ==> distinct(r@),
        r@.len() <= old@.len(),
{
    let mut out: Vec<String> = Vec::new();
    let mut i: usize = 0;
    while i < old.len()
        invariant
            i <= old@.len(),
            out@.len() <= i,
            distinct(old@) ==> distinct(out@),
            forall|j: int| 0 <= j < out@.len() ==> exists|p: int| 0 <= p < i && old@[p]@ == (#[trigger] out@[j])@,
            forall|k: Seq<char>|
                key_set(out@).contains(k) <==> ((exists|p: int| 0 <= p < i && old@[p]@ == k)
                    && !key_set(new@).contains(k)),
        decreases old@.len() - i,
    {
        let ghost prev = out@;
        if !contains_text(new, &old[i]) {
            let item = old[i].clone();
            out.push(item);
            assert forall|a: int, b: int| distinct(old@) && 0 <= a < b < out@.len() implies out@[a]@
                != out@[b]@ by {
                if b == prev.len() {
                    let p = choose|p: int| 0 <= p < i && old@[p]@ == prev[a]@;
                    assert(out@[a] == prev[a]);
                } else {
                    assert(out@[a] == prev[a] && out@[b] == prev[b]);
                }
            }
            assert forall|j: int| 0 <= j < out@.len() implies exists|p: int|
                0 <= p < i + 1 && old@[p]@ == (#[trigger] out@[j])@ by {
                if j < prev.len() {
                    assert(out@[j] == prev[j]);
                    let p = choose|p: int| 0 <= p < i && old@[p]@ == prev[j]@;
                    assert(old@[p]@ == out@[j]@);
                } else {
                    assert(old@[i as int]@ == out@[j]@);
                }
            }
            assert forall|k: Seq<char>| key_set(out@).contains(k) <==> (key_set(prev).contains(k)
                || k == old@[i as int]@) by {
                if key_set(out@).contains(k) {
                    let j = choose|j: int| 0 <= j < out@.len() && out@[j]@ == k;
                    if j < prev.len() {
                        assert(prev[j] == out@[j]);
                    }
                }
                if key_set(prev).contains(k) {
                    let j = choose|j: int| 0 <= j < prev.len() && prev[j]@ == k;
                    assert(out@[j] == prev[j]);
                }
                if k == old@[i as int]@ {
                    assert(out@[prev.len() as int]@ == k);
                }
            }
        }
        assert forall|k: Seq<char>|
            key_set(out@).contains(k) <==> ((exists|p: int| 0 <= p < i + 1 && old@[p]@ == k)
                && !key_set(new@).contains(k)) by {
            if exists|p: int| 0 <= p < i + 1 && old@[p]@ == k {
                let p = choose|p: int| 0 <= p < i + 1 && old@[p]@ == k;
                if p < i {
                    assert(exists|p: int| 0 <= p < i && old@[p]@ == k);
                }
            }
        }
        i = i + 1;
    }
    assert(key_set(out@) =~= orphaned(key_set(old@), key_set(new@)));
    out
}

/// The keys that `old_body` refers to and `new_body` no longer does, each once.
pub fn keys_to_delete(old_body: &str, new_body: &str) -> (r: Vec<String>)
    ensures
        key_set(r@) == orphaned(extract(old_body@), extract(new_body@)),
        distinct(r@),
{
    let old_keys = extract_keys(old_body);
    let new_keys = extract_keys(new_body);
    orphaned_keys(&old_keys, &new_keys)
}

/// A list holds no text exactly when it is empty.
pub proof fn lemma_key_set_empty(v: Seq<String>)
    ensures
        (v.len() == 0) == (key_set(v) == Set::<Seq<char>>::empty()),
{
    if v.len() == 0 {
        assert(key_set(v) =~= Set::<Seq<char>>::empty());
    } else {
        assert(key_set(v).contains(v[0]@));
    }
}

/// A body's keys minus themselves leave nothing.
pub proof fn lemma_self_diff_empty(b: Seq<char>)
    ensures
        orphaned(extract(b), extract(b)) == Set::<Seq<char>>::empty(),
{
    assert(orphaned(extract(b), extract(b)) =~= Set::<Seq<char>>::empty());
}

/// Removing a set from its union with a set disjoint from it gives that set back.
pub proof fn lemma_disjoint_union_diff(a: Set<Seq<char>>, b: Set<Seq<char>>)
    requires
        a.disjoint(b),
    ensures
        orphaned(a.union(b), b) == a,
{
    assert(orphaned(a.union(b), b) =~= a);
}

} // verus!
