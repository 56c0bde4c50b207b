//! Lists of records that are found by a text key, and bounded lists.

use crate::state::model::{
    AdapterInfo, AdapterInfoView, ApiRequest, ApiRequestView, AppInfo, AppInfoView, AppScope,
    AppScopeView, PluginInfo, PluginInfoView, PromptInfo, PromptInfoView, ResourceInfo,
    ResourceInfoView, ScopeInfo, ScopeInfoView, SessionInfo, SessionInfoView, SessionLog,
    SessionLogView, ToolInfo, ToolInfoView, ToolUsage, ToolUsageView,
};
use crate::text::{chars_of, lemma_text_le_total, lemma_text_le_transitive, str_eq, text_le, text_le_exec};
use vstd::prelude::*;

verus! {

/// The index of the first `key` in `keys` at or after `from`, if there is one.
pub open spec fn index_from(keys: Seq<Seq<char>>, key: Seq<char>, from: int) -> Option<int>
    decreases keys.len() - from,
{
    if from < 0 || from >= keys.len() {
        None
    } else if keys[from] == key {
        Some(from)
    } else {
        index_from(keys, key, from + 1)
    }
}

/// The index of the first `key` in `keys`, if there is one.
pub open spec fn index_of(keys: Seq<Seq<char>>, key: Seq<char>) -> Option<int> {
    index_from(keys, key, 0)
}

pub proof fn lemma_index_from(keys: Seq<Seq<char>>, key: Seq<char>, from: int)
    requires
        0 <= from,
    ensures
        match index_from(keys, key, from) {
            Some(i) => from <= i < keys.len() && keys[i] == key && forall|k: int|
                from <= k < i ==> keys[k] != key,
            None => forall|k: int| from <= k < keys.len() ==> keys[k] != key,
        },
    decreases keys.len() - from,
{
    if from < keys.len() && keys[from] != key {
        lemma_index_from(keys, key, from + 1);
    }
}

/// A key is found exactly when the list holds it.
pub proof fn lemma_index_of_contains(keys: Seq<Seq<char>>, key: Seq<char>)
    ensures
        index_of(keys, key) is Some <==> keys.contains(key),
        index_of(keys, key) matches Some(i) ==> 0 <= i < keys.len() && keys[i] == key,
{
    lemma_index_from(keys, key, 0);
    if keys.contains(key) {
        let k = choose|k: int| 0 <= k < keys.len() && keys[k] == key;
        assert(keys[k] == key);
    }
}

/// A record that is found by a text key.
pub trait Keyed: DeepView {
    /// The key of a record, read off its value.
    spec fn key_of(v: Self::V) -> Seq<char>;

    /// The key of the record.
    fn key(&self) -> (k: &String)
        ensures
            k@ == Self::key_of(self.deep_view()),
    ;
}

/// The keys of the records of a list, in order.
pub open spec fn keys_of<T: Keyed>(items: Seq<T::V>) -> Seq<Seq<char>> {
    Seq::new(items.len(), |i: int| T::key_of(items[i]))
}

/// The records of `items` whose key is none of `names`.
pub open spec fn without_keys<T: Keyed>(items: Seq<T::V>, names: Seq<Seq<char>>) -> Seq<T::V> {
    items.filter(|v: T::V| !names.contains(T::key_of(v)))
}

/// The index of the first record with the key, if there is one.
pub fn position<T: Keyed>(items: &Vec<T>, key: &str) -> (r: Option<usize>)
    ensures
        match r {
            Some(i) => index_of(keys_of::<T>(items.deep_view()), key@) == Some(i as int) && i
                < items.len(),
            None => index_of(keys_of::<T>(items.deep_view()), key@) is None,
        },
{
    let ghost keys = keys_of::<T>(items.deep_view());
    let mut i: usize = 0;
    while i < items.len()
        invariant
            i <= items.len(),
            keys == keys_of::<T>(items.deep_view()),
            index_from(keys, key@, 0) == index_from(keys, key@, i as int),
        decreases items.len() - i,
    {
        if str_eq(items[i].key().as_str(), key) {
            return Some(i);
        }
        i += 1;
    }
    None
}

/// The index of the first `key` among the texts, if there is one.
pub fn text_position(items: &Vec<String>, key: &str) -> (r: Option<usize>)
    ensures
        match r {
            Some(i) => index_of(items.deep_view(), key@) == Some(i as int) && i < items.len(),
            None => index_of(items.deep_view(), key@) is None,
        },
{
    let ghost keys = items.deep_view();
    let mut i: usize = 0;
    while i < items.len()
        invariant
            i <= items.len(),
            keys == items.deep_view(),
            index_from(keys, key@, 0) == index_from(keys, key@, i as int),
        decreases items.len() - i,
    {
        if str_eq(items[i].as_str(), key) {
            return Some(i);
        }
        i += 1;
    }
    None
}

/// Whether the texts hold `key`.
pub fn text_in_list(items: &Vec<String>, key: &str) -> (r: bool)
    ensures
        r == items.deep_view().contains(key@),
{
    proof {
        lemma_index_of_contains(items.deep_view(), key@);
    }
    text_position(items, key).is_some()
}

/// Takes out every record whose key is one of `names`; the others keep their order.
pub fn remove_keys<T: Keyed>(items: &mut Vec<T>, names: &Vec<String>)
    ensures
        final(items).deep_view() == without_keys::<T>(old(items).deep_view(), names.deep_view()),
{
    let ghost before = items.deep_view();
    let ghost pred = |v: T::V| !names.deep_view().contains(T::key_of(v));
    let ghost mut done: int = 0;
    let mut i: usize = 0;
    assert(before.take(0).filter(pred) =~= Seq::<T::V>::empty()) by {
        assert(before.take(0) =~= Seq::<T::V>::empty());
    }
    assert(items.deep_view().take(0) =~= Seq::<T::V>::empty());
    assert(before.skip(0) =~= before);
    assert(items.deep_view().skip(0) =~= before);
    while i < items.len()
        invariant
            0 <= done <= before.len(),
            i <= items.len(),
            items.len() - i == before.len() - done,
            items.deep_view().take(i as int) == before.take(done).filter(pred),
            items.deep_view().skip(i as int) == before.skip(done),
            pred == |v: T::V| !names.deep_view().contains(T::key_of(v)),
        decreases items.len() - i,
    {
        let ghost now = items.deep_view();
        proof {
            assert(now[i as int] == now.skip(i as int)[0]);
            assert(now[i as int] == before[done]);
            assert(before.take(done + 1) =~= before.take(done).push(before[done]));
            before.take(done).lemma_filter_push(before[done], pred);
        }
        if text_in_list(names, items[i].key().as_str()) {
            items.remove(i);
            proof {
                assert(items.deep_view() =~= now.remove(i as int));
                assert(items.deep_view().take(i as int) =~= now.take(i as int));
                assert(items.deep_view().skip(i as int) =~= now.skip(i as int).skip(1));
                assert(before.skip(done).skip(1) =~= before.skip(done + 1));
                done = done + 1;
            }
        } else {
            proof {
                assert(now.take(i + 1) =~= now.take(i as int).push(now[i as int]));
                assert(now.skip(i + 1) =~= now.skip(i as int).skip(1));
                assert(before.skip(done).skip(1) =~= before.skip(done + 1));
                done = done + 1;
            }
            i += 1;
        }
    }
    assert(items.deep_view().take(i as int) =~= items.deep_view());
    assert(before.take(done) =~= before);
}

/// After names were taken out, the list holds the keys that it held and
/// that are none of the names; keys that occurred once still do.
pub proof fn lemma_without_keys<T: Keyed>(items: Seq<T::V>, names: Seq<Seq<char>>, key: Seq<char>)
    ensures
        keys_of::<T>(without_keys::<T>(items, names)).contains(key) <==> (keys_of::<T>(
            items,
        ).contains(key) && !names.contains(key)),
        keys_of::<T>(items).no_duplicates() ==> keys_of::<T>(
            without_keys::<T>(items, names),
        ).no_duplicates(),
        without_keys::<T>(items, names).len() <= items.len(),
    decreases items.len(),
{
    let pred = |v: T::V| !names.contains(T::key_of(v));
    let kept = items.filter(pred);
    assert(kept == without_keys::<T>(items, names));
    if items.len() == 0 {
        assert(kept =~= Seq::<T::V>::empty());
    } else {
        let rest = items.drop_last();
        let last = items.last();
        lemma_without_keys::<T>(rest, names, key);
        lemma_without_keys::<T>(rest, names, T::key_of(last));
        assert(items =~= rest.push(last));
        rest.lemma_filter_push(last, pred);
        let kept_rest = rest.filter(pred);
        let keys = keys_of::<T>(items);
        let keys_rest = keys_of::<T>(rest);
        assert(keys =~= keys_rest.push(T::key_of(last)));
        if keys.contains(key) {
            let i = choose|i: int| 0 <= i < keys.len() && keys[i] == key;
            if i < keys_rest.len() {
                assert(keys_rest[i] == key);
            }
        }
        if keys_rest.contains(key) {
            let i = choose|i: int| 0 <= i < keys_rest.len() && keys_rest[i] == key;
            assert(keys[i] == key);
        }
        assert(keys[keys.len() - 1] == T::key_of(last));
        if pred(last) {
            let out = keys_of::<T>(kept_rest.push(last));
            assert(out =~= keys_of::<T>(kept_rest).push(T::key_of(last)));
            if out.contains(key) {
                let i = choose|i: int| 0 <= i < out.len() && out[i] == key;
                if i < kept_rest.len() {
                    assert(keys_of::<T>(kept_rest)[i] == key);
                }
            }
            if keys_of::<T>(kept_rest).contains(key) {
                let i = choose|i: int|
                    0 <= i < kept_rest.len() && keys_of::<T>(kept_rest)[i] == key;
                assert(out[i] == key);
            }
            assert(out[out.len() - 1] == T::key_of(last));
            if keys.no_duplicates() {
                assert forall|i: int, j: int| 0 <= i < keys_rest.len() && 0 <= j < keys_rest.len()
                    && i != j implies keys_rest[i] != keys_rest[j] by {
                    assert(keys[i] == keys_rest[i] && keys[j] == keys_rest[j]);
                }
                assert(!keys_rest.contains(T::key_of(last))) by {
                    if keys_rest.contains(T::key_of(last)) {
                        let i = choose|i: int|
                            0 <= i < keys_rest.len() && keys_rest[i] == T::key_of(last);
                        assert(keys[i] == keys[keys.len() - 1]);
                    }
                }
            }
        } else {
            if keys.no_duplicates() {
                assert forall|i: int, j: int| 0 <= i < keys_rest.len() && 0 <= j < keys_rest.len()
                    && i != j implies keys_rest[i] != keys_rest[j] by {
                    assert(keys[i] == keys_rest[i] && keys[j] == keys_rest[j]);
                }
            }
        }
    }
}

/// The records with one more, in the order of their keys; among records of
/// one key the new one comes last.
pub open spec fn key_inserted<T: Keyed>(items: Seq<T::V>, x: T::V) -> Seq<T::V>
    decreases items.len(),
{
    if items.len() == 0 {
        seq![x]
    } else if text_le(T::key_of(items.last()), T::key_of(x)) {
        items.push(x)
    } else {
        key_inserted::<T>(items.drop_last(), x).push(items.last())
    }
}

/// The records in the order of their keys; records of one key keep their order.
pub open spec fn sorted_by_key<T: Keyed>(items: Seq<T::V>) -> Seq<T::V>
    decreases items.len(),
{
    if items.len() == 0 {
        Seq::empty()
    } else {
        key_inserted::<T>(sorted_by_key::<T>(items.drop_last()), items.last())
    }
}

/// Whether the records stand in the order of their keys.
pub open spec fn in_key_order<T: Keyed>(items: Seq<T::V>) -> bool {
    forall|i: int, j: int|
        0 <= i < j < items.len() ==> text_le(T::key_of(items[i]), T::key_of(items[j]))
}

/// Inserting keeps the order of the keys, and adds the record and nothing else.
pub proof fn lemma_key_inserted<T: Keyed>(items: Seq<T::V>, x: T::V)
    requires
        in_key_order::<T>(items),
    ensures
        in_key_order::<T>(key_inserted::<T>(items, x)),
        key_inserted::<T>(items, x).len() == items.len() + 1,
        key_inserted::<T>(items, x).to_multiset() == items.to_multiset().insert(x),
    decreases items.len(),
{
    broadcast use vstd::seq_lib::group_to_multiset_ensures;

    let out = key_inserted::<T>(items, x);
    if items.len() == 0 {
        assert(items =~= Seq::<T::V>::empty());
        assert(out =~= Seq::<T::V>::empty().push(x));
    } else if text_le(T::key_of(items.last()), T::key_of(x)) {
        assert forall|i: int, j: int| 0 <= i < j < out.len() implies text_le(
            T::key_of(out[i]),
            T::key_of(out[j]),
        ) by {
            if j == items.len() {
                if i < items.len() - 1 {
                    lemma_text_le_transitive(
                        T::key_of(items[i]),
                        T::key_of(items.last()),
                        T::key_of(x),
                    );
                }
            }
        }
    } else {
        let rest = items.drop_last();
        assert forall|i: int, j: int| 0 <= i < j < rest.len() implies text_le(
            T::key_of(rest[i]),
            T::key_of(rest[j]),
        ) by {
            assert(rest[i] == items[i] && rest[j] == items[j]);
        }
        lemma_key_inserted::<T>(rest, x);
        let inner = key_inserted::<T>(rest, x);
        lemma_text_le_total(T::key_of(items.last()), T::key_of(x));
        assert forall|k: int| 0 <= k < inner.len() implies text_le(
            T::key_of(inner[k]),
            T::key_of(items.last()),
        ) by {
            assert(inner.to_multiset().count(inner[k]) > 0);
            if inner[k] == x {
            } else {
                assert(rest.to_multiset().count(inner[k]) > 0);
                assert(rest.contains(inner[k]));
                let m = choose|m: int| 0 <= m < rest.len() && rest[m] == inner[k];
                assert(items[m] == rest[m]);
                assert(text_le(T::key_of(items[m]), T::key_of(items[items.len() - 1])));
            }
        }
        assert forall|i: int, j: int| 0 <= i < j < out.len() implies text_le(
            T::key_of(out[i]),
            T::key_of(out[j]),
        ) by {
            if j < inner.len() {
                assert(out[i] == inner[i] && out[j] == inner[j]);
            } else {
                assert(out[i] == inner[i]);
            }
        }
        assert(items =~= rest.push(items.last()));
    }
}

/// The sorted records stand in the order of their keys, and are the same records.
pub proof fn lemma_sorted_by_key<T: Keyed>(items: Seq<T::V>)
    ensures
        in_key_order::<T>(sorted_by_key::<T>(items)),
        sorted_by_key::<T>(items).len() == items.len(),
        sorted_by_key::<T>(items).to_multiset() == items.to_multiset(),
    decreases items.len(),
{
    broadcast use vstd::seq_lib::group_to_multiset_ensures;

    if items.len() == 0 {
        assert(items =~= Seq::<T::V>::empty());
    } else {
        lemma_sorted_by_key::<T>(items.drop_last());
        lemma_key_inserted::<T>(sorted_by_key::<T>(items.drop_last()), items.last());
        assert(items =~= items.drop_last().push(items.last()));
    }
}

/// Records that stand in the order of their keys still do after some of
/// them were taken out.
pub proof fn lemma_filter_keeps_key_order<T: Keyed>(items: Seq<T::V>, keep: spec_fn(T::V) -> bool)
    requires
        in_key_order::<T>(items),
    ensures
        in_key_order::<T>(items.filter(keep)),
    decreases items.len(),
{
    let kept = items.filter(keep);
    if items.len() == 0 {
        assert(kept =~= Seq::<T::V>::empty());
    } else {
        let rest = items.drop_last();
        let last = items.last();
        assert(items =~= rest.push(last));
        assert forall|i: int, j: int| 0 <= i < j < rest.len() implies text_le(
            T::key_of(rest[i]),
            T::key_of(rest[j]),
        ) by {
            assert(rest[i] == items[i] && rest[j] == items[j]);
        }
        lemma_filter_keeps_key_order::<T>(rest, keep);
        rest.lemma_filter_push(last, keep);
        let kept_rest = rest.filter(keep);
        if keep(last) {
            assert forall|i: int, j: int| 0 <= i < j < kept.len() implies text_le(
                T::key_of(kept[i]),
                T::key_of(kept[j]),
            ) by {
                if j == kept_rest.len() {
                    assert(kept_rest.contains(kept_rest[i]));
                    rest.lemma_filter_contains_rev(keep, kept_rest[i]);
                    let m = choose|m: int| 0 <= m < rest.len() && rest[m] == kept_rest[i];
                    assert(items[m] == rest[m]);
                    assert(text_le(T::key_of(items[m]), T::key_of(items[items.len() - 1])));
                } else {
                    assert(kept[i] == kept_rest[i] && kept[j] == kept_rest[j]);
                }
            }
        }
    }
}

fn key_comes_first<T: Keyed>(item: &T, key: &Vec<char>) -> (r: bool)
    ensures
        r == text_le(T::key_of(item.deep_view()), key@),
{
    let own = chars_of(item.key().as_str());
    text_le_exec(&own, key)
}

fn insert_by_key<'a, T: Keyed>(sorted: &mut Vec<&'a T>, x: &'a T)
    ensures
        final(sorted).deep_view() == key_inserted::<T>(old(sorted).deep_view(), x.deep_view()),
{
    let ghost all = sorted.deep_view();
    let ghost xv = x.deep_view();
    let key = chars_of(x.key().as_str());
    let mut k: usize = sorted.len();
    assert(all.take(k as int) =~= all);
    assert(key_inserted::<T>(all, xv) + all.skip(k as int) =~= key_inserted::<T>(all, xv));
    while k > 0 && !key_comes_first(sorted[k - 1], &key)
        invariant
            k <= sorted.len(),
            all == sorted.deep_view(),
            key@ == T::key_of(xv),
            key_inserted::<T>(all, xv) == key_inserted::<T>(all.take(k as int), xv) + all.skip(
                k as int,
            ),
        decreases k,
    {
        proof {
            assert(all.take(k as int).last() == all[k - 1]);
            assert(all.take(k as int).drop_last() =~= all.take(k - 1));
            let inner = key_inserted::<T>(all.take(k - 1), xv);
            assert(inner.push(all[k - 1]) + all.skip(k as int) =~= inner + all.skip(k - 1));
        }
        k -= 1;
    }
    proof {
        if k == 0 {
            assert(all.take(0) =~= Seq::<T::V>::empty());
        } else {
            assert(all.take(k as int).last() == all[k - 1]);
        }
        assert(key_inserted::<T>(all.take(k as int), xv) =~= all.take(k as int).push(xv));
    }
    sorted.insert(k, x);
    assert(sorted.deep_view() =~= all.take(k as int).push(xv) + all.skip(k as int));
}

/// The records in the order of their keys.
pub fn sorted_refs<'a, T: Keyed>(items: &'a Vec<T>) -> (r: Vec<&'a T>)
    ensures
        r.deep_view() == sorted_by_key::<T>(items.deep_view()),
{
    let ghost all = items.deep_view();
    let mut out: Vec<&'a T> = Vec::new();
    let mut i: usize = 0;
    assert(all.take(0) =~= Seq::<T::V>::empty());
    assert(out.deep_view() =~= Seq::<T::V>::empty());
    while i < items.len()
        invariant
            i <= items.len(),
            all == items.deep_view(),
            out.deep_view() == sorted_by_key::<T>(all.take(i as int)),
        decreases items.len() - i,
    {
        proof {
            assert(all.take(i + 1).drop_last() =~= all.take(i as int));
            assert(all.take(i + 1).last() == all[i as int]);
        }
        insert_by_key(&mut out, &items[i]);
        i += 1;
    }
    assert(all.take(all.len() as int) =~= all);
    out
}

/// `s` with `x` at its end; where that makes more than `cap`, without its first.
pub open spec fn ring_push<T>(s: Seq<T>, x: T, cap: nat) -> Seq<T> {
    if s.len() + 1 > cap {
        s.push(x).drop_first()
    } else {
        s.push(x)
    }
}

/// `s` with `x` in front, cut to its first `cap`.
pub open spec fn push_front<T>(s: Seq<T>, x: T, cap: nat) -> Seq<T> {
    let t = seq![x] + s;
    if t.len() > cap {
        t.take(cap as int)
    } else {
        t
    }
}

/// A bounded list stays within its bound, keeps its order, and loses its
/// oldest item first.
pub proof fn lemma_ring_push<T>(s: Seq<T>, x: T, cap: nat)
    requires
        cap >= 1,
        s.len() <= cap,
    ensures
        ring_push(s, x, cap).len() <= cap,
        ring_push(s, x, cap).last() == x,
        s.len() < cap ==> ring_push(s, x, cap) == s.push(x),
        s.len() == cap ==> ring_push(s, x, cap) == s.skip(1).push(x),
{
    if s.len() == cap {
        assert(s.push(x).drop_first() =~= s.skip(1).push(x));
    }
}

/// A list that takes its newest item in front stays within its bound and
/// loses its oldest item first.
pub proof fn lemma_push_front<T>(s: Seq<T>, x: T, cap: nat)
    requires
        cap >= 1,
        s.len() <= cap,
    ensures
        push_front(s, x, cap).len() <= cap,
        push_front(s, x, cap)[0] == x,
        s.len() < cap ==> push_front(s, x, cap) == seq![x] + s,
        s.len() == cap ==> push_front(s, x, cap) == seq![x] + s.drop_last(),
{
    if s.len() == cap {
        assert((seq![x] + s).take(cap as int) =~= seq![x] + s.drop_last());
    }
}

impl Keyed for SessionInfo {
    open spec fn key_of(v: SessionInfoView) -> Seq<char> {
        v.id
    }

    fn key(&self) -> (k: &String) {
        &self.id
    }
}

impl Keyed for SessionLog {
    open spec fn key_of(v: SessionLogView) -> Seq<char> {
        v.session_id
    }

    fn key(&self) -> (k: &String) {
        &self.session_id
    }
}

impl Keyed for ToolInfo {
    open spec fn key_of(v: ToolInfoView) -> Seq<char> {
        v.name
    }

    fn key(&self) -> (k: &String) {
        &self.name
    }
}

impl Keyed for ResourceInfo {
    open spec fn key_of(v: ResourceInfoView) -> Seq<char> {
        v.name
    }

    fn key(&self) -> (k: &String) {
        &self.name
    }
}

impl Keyed for PromptInfo {
    open spec fn key_of(v: PromptInfoView) -> Seq<char> {
        v.name
    }

    fn key(&self) -> (k: &String) {
        &self.name
    }
}

impl Keyed for PluginInfo {
    open spec fn key_of(v: PluginInfoView) -> Seq<char> {
        v.name
    }

    fn key(&self) -> (k: &String) {
        &self.name
    }
}

impl Keyed for AdapterInfo {
    open spec fn key_of(v: AdapterInfoView) -> Seq<char> {
        v.name
    }

    fn key(&self) -> (k: &String) {
        &self.name
    }
}

impl Keyed for ToolUsage {
    open spec fn key_of(v: ToolUsageView) -> Seq<char> {
        v.name
    }

    fn key(&self) -> (k: &String) {
        &self.name
    }
}

impl Keyed for AppScope {
    open spec fn key_of(v: AppScopeView) -> Seq<char> {
        v.app_id
    }

    fn key(&self) -> (k: &String) {
        &self.app_id
    }
}

impl Keyed for ApiRequest {
    open spec fn key_of(v: ApiRequestView) -> Seq<char> {
        v.id
    }

    fn key(&self) -> (k: &String) {
        &self.id
    }
}

impl Keyed for ScopeInfo {
    open spec fn key_of(v: ScopeInfoView) -> Seq<char> {
        v.id
    }

    fn key(&self) -> (k: &String) {
        &self.id
    }
}

impl Keyed for AppInfo {
    open spec fn key_of(v: AppInfoView) -> Seq<char> {
        v.id
    }

    fn key(&self) -> (k: &String) {
        &self.id
    }
}

} // verus!
