//! The reorder engine: a stable partition that moves the items matching a
//! query before the others, and the matching keys of each collection.
use vstd::prelude::*;
use crate::journal::{JournalLog, LogRecord};
use crate::system::{ServiceUnitFiles, ServiceUnits, UnitFileRecord, UnitRecord};
use crate::text::{chars_of, contains_text, lower_of, lowercase, occurs_in};

verus! {

pub open spec fn negate<T>(f: spec_fn(T) -> bool) -> spec_fn(T) -> bool {
    |x: T| !f(x)
}

/// The items satisfying `f`, then the others, each group in its original order.
pub open spec fn stable_partition<T>(s: Seq<T>, f: spec_fn(T) -> bool) -> Seq<T> {
    s.filter(f) + s.filter(negate(f))
}

/// The items of `s` whose mark equals `side`, in order.
pub open spec fn picked<T>(s: Seq<T>, m: Seq<bool>, side: bool) -> Seq<T>
    decreases s.len(),
{
    if s.len() == 0 {
        s
    } else {
        let prev = picked(s.drop_last(), m.take(s.len() - 1), side);
        if m[s.len() - 1] == side {
            prev.push(s.last())
        } else {
            prev
        }
    }
}

proof fn lemma_filter_all<T>(s: Seq<T>, f: spec_fn(T) -> bool)
    requires
        forall|i: int| 0 <= i < s.len() ==> f(#[trigger] s[i]),
    ensures
        s.filter(f) == s,
    decreases s.len(),
{
    reveal(Seq::filter);
    if s.len() > 0 {
        let t = s.drop_last();
        assert forall|i: int| 0 <= i < t.len() implies f(#[trigger] t[i]) by {
            assert(t[i] == s[i]);
        }
        lemma_filter_all(t, f);
        assert(s =~= t.push(s.last()));
    }
}

proof fn lemma_filter_none<T>(s: Seq<T>, f: spec_fn(T) -> bool)
    requires
        forall|i: int| 0 <= i < s.len() ==> !f(#[trigger] s[i]),
    ensures
        s.filter(f) == Seq::<T>::empty(),
    decreases s.len(),
{
    reveal(Seq::filter);
    if s.len() > 0 {
        let t = s.drop_last();
        assert forall|i: int| 0 <= i < t.len() implies !f(#[trigger] t[i]) by {
            assert(t[i] == s[i]);
        }
        lemma_filter_none(t, f);
    }
}

proof fn lemma_filter_sides<T>(s: Seq<T>, f: spec_fn(T) -> bool)
    ensures
        s.filter(f).filter(f) == s.filter(f),
        s.filter(f).filter(negate(f)) == Seq::<T>::empty(),
        s.filter(negate(f)).filter(f) == Seq::<T>::empty(),
        s.filter(negate(f)).filter(negate(f)) == s.filter(negate(f)),
{
    let a = s.filter(f);
    let b = s.filter(negate(f));
    assert forall|i: int| 0 <= i < a.len() implies f(#[trigger] a[i]) by {
        s.lemma_filter_pred(f, i);
    }
    assert forall|i: int| 0 <= i < b.len() implies negate(f)(#[trigger] b[i]) by {
        s.lemma_filter_pred(negate(f), i);
    }
    lemma_filter_all(a, f);
    lemma_filter_none(a, negate(f));
    lemma_filter_none(b, f);
    lemma_filter_all(b, negate(f));
}

/// Reordering is idempotent: partitioning an already partitioned sequence
/// by the same predicate leaves it as it is.
pub proof fn lemma_reorder_idempotent<T>(s: Seq<T>, f: spec_fn(T) -> bool)
    ensures
        stable_partition(stable_partition(s, f), f) == stable_partition(s, f),
{
    let a = s.filter(f);
    let b = s.filter(negate(f));
    Seq::filter_distributes_over_add(a, b, f);
    Seq::filter_distributes_over_add(a, b, negate(f));
    lemma_filter_sides(s, f);
    assert(a + Seq::<T>::empty() =~= a);
    assert(Seq::<T>::empty() + b =~= b);
}

proof fn lemma_picked_filter<T>(s: Seq<T>, m: Seq<bool>, f: spec_fn(T) -> bool)
    requires
        m.len() == s.len(),
        forall|i: int| 0 <= i < s.len() ==> m[i] == f(#[trigger] s[i]),
    ensures
        picked(s, m, true) == s.filter(f),
        picked(s, m, false) == s.filter(negate(f)),
    decreases s.len(),
{
    reveal(Seq::filter);
    if s.len() > 0 {
        let t = s.drop_last();
        let n = m.take(s.len() - 1);
        assert forall|i: int| 0 <= i < t.len() implies n[i] == f(#[trigger] t[i]) by {
            assert(t[i] == s[i]);
        }
        lemma_picked_filter(t, n, f);
    }
}

/// Moves the items marked `true` before those marked `false`, keeping the
/// order within each group.
pub fn partition_by_marks<T>(v: &mut Vec<T>, marks: &Vec<bool>)
    requires
        marks.len() == old(v).len(),
    ensures
        final(v)@ == picked(old(v)@, marks@, true) + picked(old(v)@, marks@, false),
{
    let ghost s = old(v)@;
    let mut items: Vec<T> = Vec::new();
    std::mem::swap(v, &mut items);
    let mut yes: Vec<T> = Vec::new();
    let mut no: Vec<T> = Vec::new();
    proof {
        assert(s.take(0) =~= Seq::<T>::empty());
        assert(marks@.take(0) =~= Seq::<bool>::empty());
    }
    let mut k: usize = 0;
    for x in it: items
        invariant
            it.seq() == s,
            k == it.index(),
            k <= s.len(),
            s.len() == marks.len(),
            marks@.len() == s.len(),
            yes@ == picked(s.take(it.index() as int), marks@.take(it.index() as int), true),
            no@ == picked(s.take(it.index() as int), marks@.take(it.index() as int), false),
    {
        let ghost i = it.index() as int;
        proof {
            assert(s.take(i + 1).drop_last() =~= s.take(i));
            assert(marks@.take(i + 1).take(i) =~= marks@.take(i));
            assert(s.take(i + 1).last() == s[i]);
        }
        if marks[k] {
            yes.push(x);
        } else {
            no.push(x);
        }
        k = k + 1;
    }
    proof {
        assert(s.take(s.len() as int) =~= s);
        assert(marks@.take(s.len() as int) =~= marks@);
    }
    yes.append(&mut no);
    *v = yes;
}

/// Stable partition of `v` by `f`, given the marks that `f` gives its items.
pub(crate) fn partition_by<T>(v: &mut Vec<T>, marks: &Vec<bool>, Ghost(f): Ghost<spec_fn(T) -> bool>)
    requires
        marks.len() == old(v).len(),
        forall|i: int| 0 <= i < old(v).len() ==> marks@[i] == f(#[trigger] old(v)@[i]),
    ensures
        final(v)@ == stable_partition(old(v)@, f),
{
    proof {
        lemma_picked_filter(old(v)@, marks@, f);
    }
    partition_by_marks(v, marks);
}

/// A unit matches when the lower-cased query occurs in its lower-cased
/// name and description, joined by a space.
pub open spec fn unit_matches(u: UnitRecord, q: Seq<char>) -> bool {
    occurs_in(q, lower_of(u.name) + seq![' '] + lower_of(u.description))
}

/// A unit file matches when the lower-cased query occurs in its lower-cased name.
pub open spec fn unit_file_matches(f: UnitFileRecord, q: Seq<char>) -> bool {
    occurs_in(q, lower_of(f.name))
}

/// An entry matches when the lower-cased query occurs in its lower-cased
/// timestamp and service, joined by a space.
pub open spec fn log_matches(e: LogRecord, q: Seq<char>) -> bool {
    occurs_in(q, lower_of(e.timestamp) + seq![' '] + lower_of(e.service))
}

/// The characters of `a`, a space, then those of `b`.
fn spaced_key(a: &String, b: &String) -> (r: Vec<char>)
    ensures
        r@ == a@ + seq![' '] + b@,
{
    let mut key = chars_of(a.as_str());
    key.push(' ');
    let mut rest = chars_of(b.as_str());
    key.append(&mut rest);
    key
}

/// For each unit, whether it matches the lower-cased query `q`.
pub fn unit_marks(units: &Vec<ServiceUnits>, q: &Vec<char>) -> (r: Vec<bool>)
    ensures
        r.len() == units.len(),
        forall|i: int| 0 <= i < units.len() ==> r@[i] == unit_matches(#[trigger] units@[i]@, q@),
{
    let mut out: Vec<bool> = Vec::new();
    let mut i: usize = 0;
    while i < units.len()
        invariant
            i <= units.len(),
            out.len() == i,
            forall|j: int| 0 <= j < i ==> out@[j] == unit_matches(#[trigger] units@[j]@, q@),
        decreases units.len() - i,
    {
        let name = lowercase(units[i].name.as_str());
        let desc = lowercase(units[i].description.as_str());
        let key = spaced_key(&name, &desc);
        out.push(contains_text(&key, q));
        i = i + 1;
    }
    out
}

/// For each unit file, whether it matches the lower-cased query `q`.
pub fn unit_file_marks(files: &Vec<ServiceUnitFiles>, q: &Vec<char>) -> (r: Vec<bool>)
    ensures
        r.len() == files.len(),
        forall|i: int| 0 <= i < files.len() ==> r@[i] == unit_file_matches(#[trigger] files@[i]@, q@),
{
    let mut out: Vec<bool> = Vec::new();
    let mut i: usize = 0;
    while i < files.len()
        invariant
            i <= files.len(),
            out.len() == i,
            forall|j: int| 0 <= j < i ==> out@[j] == unit_file_matches(#[trigger] files@[j]@, q@),
        decreases files.len() - i,
    {
        let name = lowercase(files[i].name.as_str());
        let key = chars_of(name.as_str());
        out.push(contains_text(&key, q));
        i = i + 1;
    }
    out
}

/// For each entry, whether it matches the lower-cased query `q`.
pub fn log_marks(entries: &Vec<JournalLog>, q: &Vec<char>) -> (r: Vec<bool>)
    ensures
        r.len() == entries.len(),
        forall|i: int| 0 <= i < entries.len() ==> r@[i] == log_matches(#[trigger] entries@[i]@, q@),
{
    let mut out: Vec<bool> = Vec::new();
    let mut i: usize = 0;
    while i < entries.len()
        invariant
            i <= entries.len(),
            out.len() == i,
            forall|j: int| 0 <= j < i ==> out@[j] == log_matches(#[trigger] entries@[j]@, q@),
        decreases entries.len() - i,
    {
        let ts = lowercase(entries[i].timestamp.as_str());
        let service = lowercase(entries[i].service.as_str());
        let key = spaced_key(&ts, &service);
        out.push(contains_text(&key, q));
        i = i + 1;
    }
    out
}

} // verus!
