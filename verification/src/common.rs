//! The values that messages carry.

use vstd::prelude::*;
use crate::text::{comes_before, precedes, same_text};
use crate::text::{lemma_precedes_one_way, lemma_precedes_total, lemma_precedes_transitive};

verus! {

/// An identifier of a session, a request, a subscription, a registration or a
/// publication.
pub type WampId = u64;

/// A name of a realm, a topic, a procedure or an error.
pub type WampUri = String;

pub type WampString = String;

pub type WampInteger = u64;

pub type WampBool = bool;

/// A list of values.
pub type WampList = Vec<Arg>;

/// A dictionary: keys with their values. The dictionaries that this library
/// builds hold their entries in the order of their keys, each key once.
pub type WampDict = Vec<(String, Arg)>;

/// A value as it stands in a message before its position gives it a meaning.
#[derive(Debug, PartialEq, Eq)]
pub enum Arg {
    Null,
    Bool(WampBool),
    Integer(WampInteger),
    String(WampString),
    List(WampList),
    Dict(WampDict),
}

/// What an [`Arg`] holds.
pub enum ArgModel {
    Null,
    Bool(bool),
    Integer(u64),
    String(Seq<char>),
    List(Seq<ArgModel>),
    Dict(Seq<(Seq<char>, ArgModel)>),
}

/// What a value holds: texts by their characters, lists and dictionaries by
/// what their items hold.
pub open spec fn arg_model(v: Arg) -> ArgModel
    decreases v,
{
    match v {
        Arg::Null => ArgModel::Null,
        Arg::Bool(b) => ArgModel::Bool(b),
        Arg::Integer(n) => ArgModel::Integer(n),
        Arg::String(s) => ArgModel::String(s@),
        Arg::List(items) => ArgModel::List(
            Seq::new(
                items@.len(),
                |i: int|
                    if 0 <= i < items@.len() {
                        arg_model(items@[i])
                    } else {
                        ArgModel::Null
                    },
            ),
        ),
        Arg::Dict(entries) => ArgModel::Dict(
            Seq::new(
                entries@.len(),
                |i: int|
                    if 0 <= i < entries@.len() {
                        (entries@[i].0@, arg_model(entries@[i].1))
                    } else {
                        (Seq::empty(), ArgModel::Null)
                    },
            ),
        ),
    }
}

/// What the items of a list hold, in order.
pub open spec fn list_model(items: Seq<Arg>) -> Seq<ArgModel> {
    Seq::new(items.len(), |i: int| arg_model(items[i]))
}

/// What the entries of a dictionary hold, in order.
pub open spec fn dict_model(entries: Seq<(String, Arg)>) -> Seq<(Seq<char>, ArgModel)> {
    Seq::new(entries.len(), |i: int| (entries[i].0@, arg_model(entries[i].1)))
}

/// A list value holds what its items hold.
pub proof fn lemma_list_model(items: Vec<Arg>)
    ensures
        arg_model(Arg::List(items)) == ArgModel::List(list_model(items@)),
{
    assert(arg_model(Arg::List(items))->List_0 =~= list_model(items@));
}

/// A dictionary value holds what its entries hold.
pub proof fn lemma_dict_model(entries: Vec<(String, Arg)>)
    ensures
        arg_model(Arg::Dict(entries)) == ArgModel::Dict(dict_model(entries@)),
{
    assert(arg_model(Arg::Dict(entries))->Dict_0 =~= dict_model(entries@));
}

/// Copies a value.
pub fn copy_arg(v: &Arg) -> (r: Arg)
    ensures
        arg_model(r) == arg_model(*v),
    decreases *v,
{
    match v {
        Arg::Null => Arg::Null,
        Arg::Bool(b) => Arg::Bool(*b),
        Arg::Integer(n) => Arg::Integer(*n),
        Arg::String(s) => Arg::String(s.clone()),
        Arg::List(items) => {
            let mut out: Vec<Arg> = Vec::new();
            let mut i: usize = 0;
            while i < items.len()
                invariant
                    i <= items.len(),
                    out@.len() == i,
                    forall|j: int|
                        0 <= j < i ==> arg_model(#[trigger] out@[j]) == arg_model(items@[j]),
                    v is List && v->List_0 == *items,
                decreases items.len() - i,
            {
                proof {
                    vstd::std_specs::vec::axiom_vec_index_decreases(*items, i as int);
                    assert(decreases_to!(*v => v->List_0));
                }
                let c = copy_arg(&items[i]);
                out.push(c);
                i += 1;
            }
            proof {
                lemma_list_model(out);
                lemma_list_model(*items);
                assert(list_model(out@) =~= list_model(items@));
            }
            Arg::List(out)
        },
        Arg::Dict(entries) => {
            let mut out: Vec<(String, Arg)> = Vec::new();
            let mut i: usize = 0;
            while i < entries.len()
                invariant
                    i <= entries.len(),
                    out@.len() == i,
                    forall|j: int|
                        0 <= j < i ==> (#[trigger] out@[j]).0@ == entries@[j].0@ && arg_model(
                            out@[j].1,
                        ) == arg_model(entries@[j].1),
                    v is Dict && v->Dict_0 == *entries,
                decreases entries.len() - i,
            {
                proof {
                    vstd::std_specs::vec::axiom_vec_index_decreases(*entries, i as int);
                    assert(decreases_to!(*v => v->Dict_0));
                    assert(decreases_to!(entries[i as int] => entries[i as int].1));
                }
                let c = copy_arg(&entries[i].1);
                out.push((entries[i].0.clone(), c));
                i += 1;
            }
            proof {
                lemma_dict_model(out);
                lemma_dict_model(*entries);
                assert(dict_model(out@) =~= dict_model(entries@));
            }
            Arg::Dict(out)
        },
    }
}

/// Copies a dictionary.
pub fn copy_dict(d: &WampDict) -> (r: WampDict)
    ensures
        dict_model(r@) == dict_model(d@),
{
    let mut out: Vec<(String, Arg)> = Vec::new();
    let mut i: usize = 0;
    while i < d.len()
        invariant
            i <= d.len(),
            out@.len() == i,
            forall|j: int|
                0 <= j < i ==> (#[trigger] out@[j]).0@ == d@[j].0@ && arg_model(out@[j].1)
                    == arg_model(d@[j].1),
        decreases d.len() - i,
    {
        let c = copy_arg(&d[i].1);
        out.push((d[i].0.clone(), c));
        i += 1;
    }
    assert(dict_model(out@) =~= dict_model(d@));
    out
}

/// The value under a key: that of the first entry with the key.
pub open spec fn entry_under(entries: Seq<(Seq<char>, ArgModel)>, key: Seq<char>) -> Option<
    ArgModel,
>
    decreases entries.len(),
{
    if entries.len() == 0 {
        None
    } else if entries[0].0 == key {
        Some(entries[0].1)
    } else {
        entry_under(entries.drop_first(), key)
    }
}

/// Whether the entries stand in the order of their keys, each key before
/// every greater one. No key then stands twice.
pub open spec fn sorted_keys(entries: Seq<(Seq<char>, ArgModel)>) -> bool {
    forall|i: int, j: int|
        0 <= i < j < entries.len() ==> precedes(
            (#[trigger] entries[i]).0,
            (#[trigger] entries[j]).0,
        )
}

/// A dictionary after a value is put under a key: the entry goes behind the
/// leading entries whose keys stand before the key. Where the entry that
/// follows them has the key, the new entry takes its place; else it stands
/// in front of it. Among entries in the order of their keys this keeps the
/// order, and what two dictionaries hold no longer shows in which order
/// their entries were put.
pub open spec fn with_entry(
    entries: Seq<(Seq<char>, ArgModel)>,
    key: Seq<char>,
    value: ArgModel,
) -> Seq<(Seq<char>, ArgModel)>
    decreases entries.len(),
{
    if entries.len() == 0 {
        seq![(key, value)]
    } else if precedes(entries[0].0, key) {
        seq![entries[0]] + with_entry(entries.drop_first(), key, value)
    } else if entries[0].0 == key {
        seq![(key, value)] + entries.drop_first()
    } else {
        seq![(key, value)] + entries
    }
}

/// The dictionary that putting the entries one after another into an empty
/// dictionary gives: in the order of the keys, each key once, with the
/// value that was put last under it.
pub open spec fn canonical(entries: Seq<(Seq<char>, ArgModel)>) -> Seq<(Seq<char>, ArgModel)>
    decreases entries.len(),
{
    if entries.len() == 0 {
        Seq::empty()
    } else {
        with_entry(canonical(entries.drop_last()), entries.last().0, entries.last().1)
    }
}

/// How many leading entries have keys that stand before the key.
pub open spec fn place_for(entries: Seq<(Seq<char>, ArgModel)>, key: Seq<char>) -> int
    decreases entries.len(),
{
    if entries.len() > 0 && precedes(entries[0].0, key) {
        1 + place_for(entries.drop_first(), key)
    } else {
        0
    }
}

/// The place for a key lies behind exactly the leading entries whose keys
/// stand before the key.
pub proof fn lemma_place_for(entries: Seq<(Seq<char>, ArgModel)>, key: Seq<char>)
    ensures
        0 <= place_for(entries, key) <= entries.len(),
        forall|j: int|
            0 <= j < place_for(entries, key) ==> precedes((#[trigger] entries[j]).0, key),
        place_for(entries, key) < entries.len() ==> !precedes(
            entries[place_for(entries, key)].0,
            key,
        ),
    decreases entries.len(),
{
    if entries.len() > 0 && precedes(entries[0].0, key) {
        let rest = entries.drop_first();
        lemma_place_for(rest, key);
        assert forall|j: int| 0 <= j < place_for(entries, key) implies precedes(
            (#[trigger] entries[j]).0,
            key,
        ) by {
            if j > 0 {
                assert(entries[j] == rest[j - 1]);
            }
        }
        if place_for(entries, key) < entries.len() {
            assert(entries[place_for(entries, key)] == rest[place_for(rest, key)]);
        }
    }
}

/// Putting a value under a key changes the dictionary at one place: behind
/// the leading entries whose keys stand before the key, the entry with the
/// key holds the new value, or the new entry is put in.
pub proof fn lemma_with_entry_at(
    entries: Seq<(Seq<char>, ArgModel)>,
    at: int,
    key: Seq<char>,
    value: ArgModel,
)
    requires
        0 <= at <= entries.len(),
        forall|j: int| 0 <= j < at ==> precedes((#[trigger] entries[j]).0, key),
        at < entries.len() ==> !precedes(entries[at].0, key),
    ensures
        with_entry(entries, key, value) == if at < entries.len() && entries[at].0 == key {
            entries.update(at, (key, value))
        } else {
            entries.insert(at, (key, value))
        },
    decreases at,
{
    if at == 0 {
        if entries.len() == 0 {
            assert(seq![(key, value)] =~= entries.insert(0, (key, value)));
        } else if entries[0].0 == key {
            assert(seq![(key, value)] + entries.drop_first() =~= entries.update(0, (key, value)));
        } else {
            assert(seq![(key, value)] + entries =~= entries.insert(0, (key, value)));
        }
    } else {
        let rest = entries.drop_first();
        assert(precedes(entries[0].0, key));
        assert forall|j: int| 0 <= j < at - 1 implies precedes((#[trigger] rest[j]).0, key) by {
            assert(rest[j] == entries[j + 1]);
        }
        lemma_with_entry_at(rest, at - 1, key, value);
        if at < entries.len() && entries[at].0 == key {
            assert(seq![entries[0]] + rest.update(at - 1, (key, value)) =~= entries.update(
                at,
                (key, value),
            ));
        } else {
            assert(seq![entries[0]] + rest.insert(at - 1, (key, value)) =~= entries.insert(
                at,
                (key, value),
            ));
        }
    }
}

/// After a value is put under a key, the key leads to that value and every
/// other key leads where it led before.
pub proof fn lemma_with_entry_lookup(
    entries: Seq<(Seq<char>, ArgModel)>,
    key: Seq<char>,
    value: ArgModel,
    other: Seq<char>,
)
    ensures
        entry_under(with_entry(entries, key, value), key) == Some(value),
        other != key ==> entry_under(with_entry(entries, key, value), other) == entry_under(
            entries,
            other,
        ),
    decreases entries.len(),
{
    let after = with_entry(entries, key, value);
    if entries.len() == 0 {
        assert(after.drop_first() =~= Seq::empty());
        assert(entry_under(after.drop_first(), other) is None);
    } else if precedes(entries[0].0, key) {
        lemma_precedes_one_way(key, key);
        lemma_with_entry_lookup(entries.drop_first(), key, value, other);
        assert(after.drop_first() =~= with_entry(entries.drop_first(), key, value));
    } else if entries[0].0 == key {
        assert(after.drop_first() =~= entries.drop_first());
    } else {
        assert(after.drop_first() =~= entries);
    }
}

/// Putting a value under a key leaves the entries in the order of their
/// keys.
pub proof fn lemma_with_entry_sorted(
    entries: Seq<(Seq<char>, ArgModel)>,
    key: Seq<char>,
    value: ArgModel,
)
    requires
        sorted_keys(entries),
    ensures
        sorted_keys(with_entry(entries, key, value)),
{
    let at = place_for(entries, key);
    let after = with_entry(entries, key, value);
    lemma_place_for(entries, key);
    lemma_with_entry_at(entries, at, key, value);
    if at < entries.len() && entries[at].0 == key {
        assert forall|i: int, j: int| 0 <= i < j < after.len() implies precedes(
            (#[trigger] after[i]).0,
            (#[trigger] after[j]).0,
        ) by {
            assert(after[i].0 == entries[i].0);
            assert(after[j].0 == entries[j].0);
        }
    } else {
        assert forall|j: int| at <= j < entries.len() implies precedes(
            key,
            (#[trigger] entries[j]).0,
        ) by {
            lemma_precedes_total(key, entries[at].0);
            if j > at {
                assert(precedes(entries[at].0, entries[j].0));
                lemma_precedes_transitive(key, entries[at].0, entries[j].0);
            }
        }
        assert forall|i: int, j: int| 0 <= i < j < after.len() implies precedes(
            (#[trigger] after[i]).0,
            (#[trigger] after[j]).0,
        ) by {
            let a = if i < at { i } else { i - 1 };
            let b = if j < at { j } else { j - 1 };
            if i != at {
                assert(after[i] == entries[a]);
            }
            if j != at {
                assert(after[j] == entries[b]);
            }
            if i != at && j != at {
                assert(precedes(entries[a].0, entries[b].0));
            }
        }
    }
}

/// A key that no entry has leads nowhere.
pub proof fn lemma_absent_key(entries: Seq<(Seq<char>, ArgModel)>, key: Seq<char>)
    requires
        forall|j: int| 0 <= j < entries.len() ==> (#[trigger] entries[j]).0 != key,
    ensures
        entry_under(entries, key) is None,
    decreases entries.len(),
{
    if entries.len() > 0 {
        let rest = entries.drop_first();
        assert(entries[0].0 != key);
        assert forall|j: int| 0 <= j < rest.len() implies (#[trigger] rest[j]).0 != key by {
            assert(rest[j] == entries[j + 1]);
        }
        lemma_absent_key(rest, key);
    }
}

/// Among entries in the order of their keys, a key that stands before the
/// first key, or is the first key, leads nowhere in the entries that follow
/// the first.
pub proof fn lemma_least_key(entries: Seq<(Seq<char>, ArgModel)>, key: Seq<char>)
    requires
        sorted_keys(entries),
        entries.len() > 0,
        key == entries[0].0 || precedes(key, entries[0].0),
    ensures
        entry_under(entries.drop_first(), key) is None,
        sorted_keys(entries.drop_first()),
        key != entries[0].0 ==> entry_under(entries, key) is None,
{
    let rest = entries.drop_first();
    assert forall|j: int| 0 <= j < rest.len() implies (#[trigger] rest[j]).0 != key by {
        assert(rest[j] == entries[j + 1]);
        assert(precedes(entries[0].0, entries[j + 1].0));
        if key != entries[0].0 {
            lemma_precedes_transitive(key, entries[0].0, rest[j].0);
        }
        lemma_precedes_one_way(key, key);
    }
    lemma_absent_key(rest, key);
    assert forall|i: int, j: int| 0 <= i < j < rest.len() implies precedes(
        (#[trigger] rest[i]).0,
        (#[trigger] rest[j]).0,
    ) by {
        assert(rest[i] == entries[i + 1]);
        assert(rest[j] == entries[j + 1]);
    }
}

/// Two dictionaries in the order of their keys that lead from every key to
/// the same value are the same dictionary.
pub proof fn lemma_sorted_equal(a: Seq<(Seq<char>, ArgModel)>, b: Seq<(Seq<char>, ArgModel)>)
    requires
        sorted_keys(a),
        sorted_keys(b),
        forall|key: Seq<char>| #[trigger] entry_under(a, key) == entry_under(b, key),
    ensures
        a == b,
    decreases a.len(),
{
    if a.len() == 0 {
        if b.len() > 0 {
            assert(entry_under(a, b[0].0) == entry_under(b, b[0].0));
        }
        assert(a =~= b);
    } else if b.len() == 0 {
        assert(entry_under(a, a[0].0) == entry_under(b, a[0].0));
    } else {
        let ka = a[0].0;
        let kb = b[0].0;
        assert(entry_under(a, ka) == entry_under(b, ka));
        assert(entry_under(a, kb) == entry_under(b, kb));
        if ka != kb {
            lemma_precedes_total(ka, kb);
            if precedes(ka, kb) {
                lemma_least_key(b, ka);
            } else {
                lemma_least_key(a, kb);
            }
        }
        lemma_least_key(a, ka);
        lemma_least_key(b, kb);
        let ta = a.drop_first();
        let tb = b.drop_first();
        assert forall|key: Seq<char>| #[trigger] entry_under(ta, key) == entry_under(tb, key) by {
            assert(entry_under(a, key) == entry_under(b, key));
        }
        lemma_sorted_equal(ta, tb);
        assert(a =~= seq![a[0]] + ta);
        assert(b =~= seq![b[0]] + tb);
    }
}

/// Among entries in the order of their keys, it does not matter in which
/// order values are put under two different keys.
pub proof fn lemma_with_entry_commutes(
    entries: Seq<(Seq<char>, ArgModel)>,
    first: (Seq<char>, ArgModel),
    second: (Seq<char>, ArgModel),
)
    requires
        sorted_keys(entries),
        first.0 != second.0,
    ensures
        with_entry(with_entry(entries, first.0, first.1), second.0, second.1) == with_entry(
            with_entry(entries, second.0, second.1),
            first.0,
            first.1,
        ),
{
    let one = with_entry(entries, first.0, first.1);
    let two = with_entry(entries, second.0, second.1);
    let a = with_entry(one, second.0, second.1);
    let b = with_entry(two, first.0, first.1);
    lemma_with_entry_sorted(entries, first.0, first.1);
    lemma_with_entry_sorted(entries, second.0, second.1);
    lemma_with_entry_sorted(one, second.0, second.1);
    lemma_with_entry_sorted(two, first.0, first.1);
    assert forall|key: Seq<char>| #[trigger] entry_under(a, key) == entry_under(b, key) by {
        lemma_with_entry_lookup(entries, first.0, first.1, key);
        lemma_with_entry_lookup(entries, second.0, second.1, key);
        lemma_with_entry_lookup(one, second.0, second.1, key);
        lemma_with_entry_lookup(two, first.0, first.1, key);
    }
    lemma_sorted_equal(a, b);
}

/// The canonical form of any entries stands in the order of its keys.
pub proof fn lemma_canonical_sorted(entries: Seq<(Seq<char>, ArgModel)>)
    ensures
        sorted_keys(canonical(entries)),
    decreases entries.len(),
{
    if entries.len() > 0 {
        lemma_canonical_sorted(entries.drop_last());
        lemma_with_entry_sorted(
            canonical(entries.drop_last()),
            entries.last().0,
            entries.last().1,
        );
    }
}

/// Entries that stand in the order of their keys are their own canonical
/// form.
pub proof fn lemma_canonical_of_sorted(entries: Seq<(Seq<char>, ArgModel)>)
    requires
        sorted_keys(entries),
    ensures
        canonical(entries) == entries,
    decreases entries.len(),
{
    if entries.len() > 0 {
        let front = entries.drop_last();
        let last = entries.last();
        assert forall|i: int, j: int| 0 <= i < j < front.len() implies precedes(
            (#[trigger] front[i]).0,
            (#[trigger] front[j]).0,
        ) by {
            assert(front[i] == entries[i]);
            assert(front[j] == entries[j]);
        }
        lemma_canonical_of_sorted(front);
        assert forall|j: int| 0 <= j < front.len() implies precedes(
            (#[trigger] front[j]).0,
            last.0,
        ) by {
            assert(front[j] == entries[j]);
            assert(precedes(entries[j].0, entries[entries.len() - 1].0));
        }
        lemma_with_entry_at(front, front.len() as int, last.0, last.1);
        assert(front.insert(front.len() as int, last) =~= entries);
    } else {
        assert(canonical(entries) =~= entries);
    }
}

/// Finds the place for a key: behind the leading entries whose keys stand
/// before the key.
fn place_in(d: &WampDict, key: &str) -> (at: usize)
    ensures
        at <= d@.len(),
        forall|j: int| 0 <= j < at ==> precedes((#[trigger] d@[j]).0@, key@),
        at < d@.len() ==> !precedes(d@[at as int].0@, key@),
{
    let mut i: usize = 0;
    while i < d.len()
        invariant
            i <= d.len(),
            forall|j: int| 0 <= j < i ==> precedes((#[trigger] d@[j]).0@, key@),
        decreases d.len() - i,
    {
        if !comes_before(d[i].0.as_str(), key) {
            return i;
        }
        i += 1;
    }
    i
}

/// Puts a value under a key of a dictionary.
pub fn dict_insert(d: &mut WampDict, key: String, value: Arg)
    ensures
        dict_model(final(d)@) == with_entry(dict_model(old(d)@), key@, arg_model(value)),
{
    let at = place_in(d, key.as_str());
    let ghost before = dict_model(d@);
    let ghost entry = (key@, arg_model(value));
    proof {
        assert forall|j: int| 0 <= j < at implies precedes((#[trigger] before[j]).0, key@) by {
            assert(precedes(d@[j].0@, key@));
        }
        lemma_with_entry_at(before, at as int, key@, arg_model(value));
    }
    if at < d.len() && same_text(d[at].0.as_str(), key.as_str()) {
        d.set(at, (key, value));
        assert(dict_model(d@) =~= before.update(at as int, entry));
    } else {
        d.insert(at, (key, value));
        assert(dict_model(d@) =~= before.insert(at as int, entry));
    }
}

/// Brings a dictionary into its canonical form: a copy with the entries in
/// the order of their keys, each key once, with the value that stood last
/// under it.
pub fn canonical_dict(d: &WampDict) -> (r: WampDict)
    ensures
        dict_model(r@) == canonical(dict_model(d@)),
        sorted_keys(dict_model(r@)),
{
    let mut out: Vec<(String, Arg)> = Vec::new();
    let mut i: usize = 0;
    assert(dict_model(out@) =~= canonical(dict_model(d@).take(0)));
    while i < d.len()
        invariant
            i <= d.len(),
            dict_model(out@) == canonical(dict_model(d@).take(i as int)),
        decreases d.len() - i,
    {
        proof {
            let upto = dict_model(d@).take(i + 1);
            assert(upto.drop_last() =~= dict_model(d@).take(i as int));
            assert(upto.last() == (d@[i as int].0@, arg_model(d@[i as int].1)));
        }
        let key = d[i].0.clone();
        let value = copy_arg(&d[i].1);
        dict_insert(&mut out, key, value);
        i += 1;
    }
    proof {
        assert(dict_model(d@).take(i as int) =~= dict_model(d@));
        lemma_canonical_sorted(dict_model(d@));
    }
    out
}

} // verus!
