//! The five registries: tools, resources, prompts, plugins and adapters.
//!
//! An entry is known by its name, which occurs once in its registry. Adding
//! a name that is there changes nothing; removing takes names out; a reset
//! replaces the whole registry.

use crate::json::{array_in, get_in, get_in_exec, text_in, Json, JsonView};
use crate::state::keyed::{keys_of, lemma_index_of_contains, position, Keyed};
use crate::state::model::{
    AdapterInfo, AdapterInfoView, EntryDetail, EntryDetailView, PluginInfo, PluginInfoView,
    PromptInfo, PromptInfoView, ResourceInfo, ResourceInfoView, ToolInfo, ToolInfoView,
};
use vstd::prelude::*;

verus! {

/// A record of a registry, made from what an event tells of an entry.
pub trait FromEntry: Keyed + Sized {
    /// The record that the detail gives.
    spec fn made(detail: EntryDetailView) -> Self::V;

    /// The record is known by the name of the entry.
    proof fn lemma_made_key(detail: EntryDetailView)
        ensures
            Self::key_of(Self::made(detail)) == detail.name,
    ;

    /// Makes the record.
    fn make(detail: &EntryDetail) -> (r: Self)
        ensures
            r.deep_view() == Self::made(detail@),
    ;
}

impl FromEntry for ToolInfo {
    open spec fn made(detail: EntryDetailView) -> ToolInfoView {
        ToolInfoView {
            name: detail.name,
            description: detail.description,
            input_schema: detail.input_schema,
            output_schema: None,
            owner_kind: detail.owner_kind,
            owner_id: detail.owner_id,
        }
    }

    proof fn lemma_made_key(detail: EntryDetailView) {
    }

    fn make(detail: &EntryDetail) -> (r: ToolInfo) {
        ToolInfo {
            name: detail.name.clone(),
            description: detail.description.clone(),
            input_schema: detail.input_schema.clone(),
            output_schema: None,
            owner_kind: detail.owner_kind.clone(),
            owner_id: detail.owner_id.clone(),
        }
    }
}

impl FromEntry for ResourceInfo {
    open spec fn made(detail: EntryDetailView) -> ResourceInfoView {
        ResourceInfoView {
            name: detail.name,
            uri: detail.uri,
            owner_kind: detail.owner_kind,
            owner_id: detail.owner_id,
        }
    }

    proof fn lemma_made_key(detail: EntryDetailView) {
    }

    fn make(detail: &EntryDetail) -> (r: ResourceInfo) {
        ResourceInfo {
            name: detail.name.clone(),
            uri: detail.uri.clone(),
            owner_kind: detail.owner_kind.clone(),
            owner_id: detail.owner_id.clone(),
        }
    }
}

impl FromEntry for PromptInfo {
    open spec fn made(detail: EntryDetailView) -> PromptInfoView {
        PromptInfoView {
            name: detail.name,
            owner_kind: detail.owner_kind,
            owner_id: detail.owner_id,
        }
    }

    proof fn lemma_made_key(detail: EntryDetailView) {
    }

    fn make(detail: &EntryDetail) -> (r: PromptInfo) {
        PromptInfo {
            name: detail.name.clone(),
            owner_kind: detail.owner_kind.clone(),
            owner_id: detail.owner_id.clone(),
        }
    }
}

impl FromEntry for PluginInfo {
    open spec fn made(detail: EntryDetailView) -> PluginInfoView {
        PluginInfoView { name: detail.name, version: detail.version, owner_id: detail.owner_id }
    }

    proof fn lemma_made_key(detail: EntryDetailView) {
    }

    fn make(detail: &EntryDetail) -> (r: PluginInfo) {
        PluginInfo {
            name: detail.name.clone(),
            version: detail.version.clone(),
            owner_id: detail.owner_id.clone(),
        }
    }
}

impl FromEntry for AdapterInfo {
    open spec fn made(detail: EntryDetailView) -> AdapterInfoView {
        AdapterInfoView {
            name: detail.name,
            description: detail.description,
            owner_id: detail.owner_id,
        }
    }

    proof fn lemma_made_key(detail: EntryDetailView) {
    }

    fn make(detail: &EntryDetail) -> (r: AdapterInfo) {
        AdapterInfo {
            name: detail.name.clone(),
            description: detail.description.clone(),
            owner_id: detail.owner_id.clone(),
        }
    }
}

/// The names of the entries, in order.
pub open spec fn names_of(entries: Seq<EntryDetailView>) -> Seq<Seq<char>> {
    Seq::new(entries.len(), |i: int| entries[i].name)
}

/// The registry after the entries were added in order: an entry whose name
/// is there already is passed over.
pub open spec fn with_entries<T: FromEntry>(items: Seq<T::V>, entries: Seq<EntryDetailView>) -> Seq<
    T::V,
>
    decreases entries.len(),
{
    if entries.len() == 0 {
        items
    } else {
        let before = with_entries::<T>(items, entries.drop_last());
        if keys_of::<T>(before).contains(entries.last().name) {
            before
        } else {
            before.push(T::made(entries.last()))
        }
    }
}

/// The registry that a reset to the entries leaves.
pub open spec fn reset_to<T: FromEntry>(entries: Seq<EntryDetailView>) -> Seq<T::V> {
    with_entries::<T>(Seq::empty(), entries)
}

/// Adds the entries in order, passing over each name that is there already.
pub fn add_entries<T: FromEntry>(items: &mut Vec<T>, entries: &Vec<EntryDetail>)
    ensures
        final(items).deep_view() == with_entries::<T>(old(items).deep_view(), entries.deep_view()),
{
    let ghost start = items.deep_view();
    let ghost all = entries.deep_view();
    let mut i: usize = 0;
    assert(all.take(0) =~= Seq::<EntryDetailView>::empty());
    while i < entries.len()
        invariant
            i <= entries.len(),
            all == entries.deep_view(),
            items.deep_view() == with_entries::<T>(start, all.take(i as int)),
        decreases entries.len() - i,
    {
        let ghost now = items.deep_view();
        proof {
            assert(all.take(i + 1).drop_last() =~= all.take(i as int));
            assert(all.take(i + 1).last() == all[i as int]);
            lemma_index_of_contains(keys_of::<T>(now), all[i as int].name);
        }
        if position(items, entries[i].name.as_str()).is_none() {
            items.push(T::make(&entries[i]));
            assert(items.deep_view() =~= now.push(T::made(all[i as int])));
        }
        i += 1;
    }
    assert(all.take(all.len() as int) =~= all);
}

/// Empties the registry and adds the entries in order.
pub fn reset_entries<T: FromEntry>(items: &mut Vec<T>, entries: &Vec<EntryDetail>)
    ensures
        final(items).deep_view() == reset_to::<T>(entries.deep_view()),
{
    items.clear();
    assert(items.deep_view() =~= Seq::<T::V>::empty());
    add_entries(items, entries);
}

/// Adding entries whose names are all there already changes nothing.
pub proof fn lemma_add_present_is_noop<T: FromEntry>(
    items: Seq<T::V>,
    entries: Seq<EntryDetailView>,
)
    requires
        forall|i: int| 0 <= i < entries.len() ==> keys_of::<T>(items).contains(entries[i].name),
    ensures
        with_entries::<T>(items, entries) == items,
    decreases entries.len(),
{
    if entries.len() > 0 {
        let rest = entries.drop_last();
        assert forall|i: int| 0 <= i < rest.len() implies keys_of::<T>(items).contains(
            rest[i].name,
        ) by {
            assert(rest[i] == entries[i]);
        }
        lemma_add_present_is_noop::<T>(items, rest);
        assert(keys_of::<T>(items).contains(entries[entries.len() - 1].name));
    }
}

/// Adding the same entries a second time changes nothing.
pub proof fn lemma_add_twice<T: FromEntry>(items: Seq<T::V>, entries: Seq<EntryDetailView>)
    ensures
        with_entries::<T>(with_entries::<T>(items, entries), entries) == with_entries::<T>(
            items,
            entries,
        ),
{
    let once = with_entries::<T>(items, entries);
    assert forall|i: int| 0 <= i < entries.len() implies keys_of::<T>(once).contains(
        entries[i].name,
    ) by {
        assert(names_of(entries)[i] == entries[i].name);
        assert(names_of(entries).contains(entries[i].name));
        lemma_added_name::<T>(items, entries, entries[i].name);
    }
    lemma_add_present_is_noop::<T>(once, entries);
}

/// A list with one more item holds what it held and the item.
pub proof fn lemma_push_contains(keys: Seq<Seq<char>>, key: Seq<char>, name: Seq<char>)
    ensures
        keys.push(key).contains(name) <==> (keys.contains(name) || name == key),
{
    if keys.push(key).contains(name) {
        let k = choose|k: int| 0 <= k < keys.push(key).len() && keys.push(key)[k] == name;
        if k < keys.len() {
            assert(keys[k] == name);
        }
    }
    if keys.contains(name) {
        let k = choose|k: int| 0 <= k < keys.len() && keys[k] == name;
        assert(keys.push(key)[k] == name);
    }
    if name == key {
        assert(keys.push(key)[keys.len() as int] == name);
    }
}

/// After entries were added the registry holds `name` exactly when it held
/// it or an entry has it.
pub proof fn lemma_added_name<T: FromEntry>(
    items: Seq<T::V>,
    entries: Seq<EntryDetailView>,
    name: Seq<char>,
)
    ensures
        keys_of::<T>(with_entries::<T>(items, entries)).contains(name) <==> (keys_of::<T>(
            items,
        ).contains(name) || names_of(entries).contains(name)),
    decreases entries.len(),
{
    if entries.len() == 0 {
        assert(!names_of(entries).contains(name));
    } else {
        let rest = entries.drop_last();
        let last = entries.last();
        let before = with_entries::<T>(items, rest);
        let after = with_entries::<T>(items, entries);
        lemma_added_name::<T>(items, rest, name);
        lemma_added_name::<T>(items, rest, last.name);
        T::lemma_made_key(last);
        assert(names_of(entries) =~= names_of(rest).push(last.name));
        lemma_push_contains(names_of(rest), last.name, name);
        if !keys_of::<T>(before).contains(last.name) {
            assert(keys_of::<T>(after) =~= keys_of::<T>(before).push(last.name));
            lemma_push_contains(keys_of::<T>(before), last.name, name);
        }
    }
}

/// After entries were added the registry holds the names that it held and
/// the names of the entries, and no others; names that occurred once still do.
pub proof fn lemma_added_names<T: FromEntry>(items: Seq<T::V>, entries: Seq<EntryDetailView>)
    ensures
        keys_of::<T>(with_entries::<T>(items, entries)).to_set() == keys_of::<T>(
            items,
        ).to_set().union(names_of(entries).to_set()),
        keys_of::<T>(items).no_duplicates() ==> keys_of::<T>(
            with_entries::<T>(items, entries),
        ).no_duplicates(),
        items.len() <= with_entries::<T>(items, entries).len() <= items.len() + entries.len(),
    decreases entries.len(),
{
    let after = with_entries::<T>(items, entries);
    assert forall|name: Seq<char>|
        keys_of::<T>(after).to_set().contains(name) <==> keys_of::<T>(items).to_set().union(
            names_of(entries).to_set(),
        ).contains(name) by {
        lemma_added_name::<T>(items, entries, name);
    }
    assert(keys_of::<T>(after).to_set() =~= keys_of::<T>(items).to_set().union(
        names_of(entries).to_set(),
    ));
    if entries.len() > 0 {
        let rest = entries.drop_last();
        let last = entries.last();
        let before = with_entries::<T>(items, rest);
        lemma_added_names::<T>(items, rest);
        T::lemma_made_key(last);
        if !keys_of::<T>(before).contains(last.name) {
            assert(keys_of::<T>(after) =~= keys_of::<T>(before).push(last.name));
        }
    }
}

/// After a reset the registry holds exactly the names of the entries, each once.
pub proof fn lemma_reset_names<T: FromEntry>(entries: Seq<EntryDetailView>)
    ensures
        keys_of::<T>(reset_to::<T>(entries)).to_set() == names_of(entries).to_set(),
        keys_of::<T>(reset_to::<T>(entries)).no_duplicates(),
{
    let none = Seq::<T::V>::empty();
    lemma_added_names::<T>(none, entries);
    assert(keys_of::<T>(none) =~= Seq::<Seq<char>>::empty());
    assert(keys_of::<T>(none).to_set() =~= Set::<Seq<char>>::empty());
    assert(Set::<Seq<char>>::empty().union(names_of(entries).to_set()) =~= names_of(
        entries,
    ).to_set());
}

// ---------------------------------------------------------------------------
// What an event tells of entries
// ---------------------------------------------------------------------------

/// The texts among the items, in order; an item that is no text is passed over.
pub open spec fn texts_among(items: Seq<JsonView>) -> Seq<Seq<char>>
    decreases items.len(),
{
    if items.len() == 0 {
        Seq::empty()
    } else {
        match items.last().as_text() {
            Some(t) => texts_among(items.drop_last()).push(t),
            None => texts_among(items.drop_last()),
        }
    }
}

/// The names in the field `entryNames` of the payload of a trace event.
pub open spec fn entry_names(data: Option<JsonView>) -> Seq<Seq<char>> {
    match array_in(data, "entryNames"@) {
        Some(items) => texts_among(items),
        None => Seq::empty(),
    }
}

/// The kind and the id in the field `owner` of the payload of a trace event,
/// where both are texts.
pub open spec fn entry_owner(data: Option<JsonView>) -> Option<(Seq<char>, Seq<char>)> {
    let owner = get_in(data, "owner"@);
    match (text_in(owner, "kind"@), text_in(owner, "id"@)) {
        (Some(kind), Some(id)) => Some((kind, id)),
        _ => None,
    }
}

/// The kind of an owner, where there is one.
pub open spec fn owner_kind(owner: Option<(Seq<char>, Seq<char>)>) -> Option<Seq<char>> {
    match owner {
        Some(o) => Some(o.0),
        None => None,
    }
}

/// The id of an owner, where there is one.
pub open spec fn owner_id(owner: Option<(Seq<char>, Seq<char>)>) -> Option<Seq<char>> {
    match owner {
        Some(o) => Some(o.1),
        None => None,
    }
}

/// An entry of which only the name and the owner are known.
pub open spec fn bare_entry(name: Seq<char>, owner: Option<(Seq<char>, Seq<char>)>) -> EntryDetailView {
    EntryDetailView {
        name,
        description: None,
        input_schema: None,
        uri: None,
        version: None,
        owner_kind: owner_kind(owner),
        owner_id: owner_id(owner),
    }
}

/// The names as entries of the owner.
pub open spec fn bare_entries(names: Seq<Seq<char>>, owner: Option<(Seq<char>, Seq<char>)>) -> Seq<
    EntryDetailView,
> {
    Seq::new(names.len(), |i: int| bare_entry(names[i], owner))
}

/// The entry that an item of the field `entries` denotes: it must name
/// itself by a text; its description, input schema, URI and version count
/// where they are texts.
pub open spec fn detailed_entry(item: JsonView, owner: Option<(Seq<char>, Seq<char>)>) -> Option<
    EntryDetailView,
> {
    match text_in(Some(item), "name"@) {
        Some(name) => Some(
            EntryDetailView {
                name,
                description: text_in(Some(item), "description"@),
                input_schema: text_in(Some(item), "inputSchema"@),
                uri: text_in(Some(item), "uri"@),
                version: text_in(Some(item), "version"@),
                owner_kind: owner_kind(owner),
                owner_id: owner_id(owner),
            },
        ),
        None => None,
    }
}

/// The entries that the items denote, in order; an item that denotes none is
/// passed over.
pub open spec fn entries_among(items: Seq<JsonView>, owner: Option<(Seq<char>, Seq<char>)>) -> Seq<
    EntryDetailView,
>
    decreases items.len(),
{
    if items.len() == 0 {
        Seq::empty()
    } else {
        match detailed_entry(items.last(), owner) {
            Some(e) => entries_among(items.drop_last(), owner).push(e),
            None => entries_among(items.drop_last(), owner),
        }
    }
}

/// The entries that the payload of a trace event carries, for a registry of
/// any kind: those of its field `entries` where that is a list, else those
/// that its field `entryNames` names.
pub open spec fn detailed_entries(data: Option<JsonView>) -> Seq<EntryDetailView> {
    match array_in(data, "entries"@) {
        Some(items) => entries_among(items, entry_owner(data)),
        None => bare_entries(entry_names(data), entry_owner(data)),
    }
}

pub fn texts_among_exec(items: &Vec<Json>) -> (r: Vec<String>)
    ensures
        r.deep_view() == texts_among(items.deep_view()),
{
    let ghost all = items.deep_view();
    let mut out: Vec<String> = Vec::new();
    let mut i: usize = 0;
    assert(all.take(0) =~= Seq::<JsonView>::empty());
    assert(out.deep_view() =~= Seq::<Seq<char>>::empty());
    while i < items.len()
        invariant
            i <= items.len(),
            all == items.deep_view(),
            out.deep_view() == texts_among(all.take(i as int)),
        decreases items.len() - i,
    {
        let ghost o = out.deep_view();
        proof {
            assert(all.take(i + 1).drop_last() =~= all.take(i as int));
            assert(all.take(i + 1).last() == all[i as int]);
        }
        match items[i].as_str() {
            Some(s) => {
                out.push(s.to_owned());
                assert(out.deep_view() =~= o.push(s@));
            },
            None => {},
        }
        i += 1;
    }
    assert(all.take(all.len() as int) =~= all);
    out
}

/// The names in the field `entryNames` of the payload of a trace event.
pub fn extract_entry_names(data: Option<&Json>) -> (r: Vec<String>)
    ensures
        r.deep_view() == entry_names(data.deep_view()),
{
    match crate::json::array_in_exec(data, "entryNames") {
        Some(items) => texts_among_exec(items),
        None => {
            let out: Vec<String> = Vec::new();
            assert(out.deep_view() =~= Seq::<Seq<char>>::empty());
            out
        },
    }
}

/// The kind and the id in the field `owner` of the payload of a trace event.
pub fn extract_owner(data: Option<&Json>) -> (r: Option<(String, String)>)
    ensures
        r.deep_view() == entry_owner(data.deep_view()),
{
    let owner = get_in_exec(data, "owner");
    let kind = crate::json::text_in_exec(owner, "kind");
    let id = crate::json::text_in_exec(owner, "id");
    match (kind, id) {
        (Some(kind), Some(id)) => Some((kind, id)),
        _ => None,
    }
}

fn clone_owner_kind(owner: &Option<(String, String)>) -> (r: Option<String>)
    ensures
        r.deep_view() == owner_kind(owner.deep_view()),
{
    match owner {
        Some(o) => Some(o.0.clone()),
        None => None,
    }
}

fn clone_owner_id(owner: &Option<(String, String)>) -> (r: Option<String>)
    ensures
        r.deep_view() == owner_id(owner.deep_view()),
{
    match owner {
        Some(o) => Some(o.1.clone()),
        None => None,
    }
}

/// The names as entries of the owner.
pub fn bare_entries_exec(names: &Vec<String>, owner: &Option<(String, String)>) -> (r: Vec<
    EntryDetail,
>)
    ensures
        r.deep_view() == bare_entries(names.deep_view(), owner.deep_view()),
{
    let mut out: Vec<EntryDetail> = Vec::new();
    let mut i: usize = 0;
    while i < names.len()
        invariant
            i <= names.len(),
            out.len() == i,
            forall|k: int|
                0 <= k < i ==> (#[trigger] out@[k])@ == bare_entry(names@[k]@, owner.deep_view()),
        decreases names.len() - i,
    {
        out.push(
            EntryDetail {
                name: names[i].clone(),
                description: None,
                input_schema: None,
                uri: None,
                version: None,
                owner_kind: clone_owner_kind(owner),
                owner_id: clone_owner_id(owner),
            },
        );
        i += 1;
    }
    assert(out.deep_view() =~= bare_entries(names.deep_view(), owner.deep_view()));
    out
}

fn detailed_entry_exec(item: &Json, owner: &Option<(String, String)>) -> (r: Option<EntryDetail>)
    ensures
        r.deep_view() == detailed_entry(item@, owner.deep_view()),
{
    match crate::json::text_in_exec(Some(item), "name") {
        Some(name) => Some(
            EntryDetail {
                name,
                description: crate::json::text_in_exec(Some(item), "description"),
                input_schema: crate::json::text_in_exec(Some(item), "inputSchema"),
                uri: crate::json::text_in_exec(Some(item), "uri"),
                version: crate::json::text_in_exec(Some(item), "version"),
                owner_kind: clone_owner_kind(owner),
                owner_id: clone_owner_id(owner),
            },
        ),
        None => None,
    }
}

/// The entries that the payload of a trace event carries.
pub fn extract_entries(data: Option<&Json>) -> (r: Vec<EntryDetail>)
    ensures
        r.deep_view() == detailed_entries(data.deep_view()),
{
    let owner = extract_owner(data);
    match crate::json::array_in_exec(data, "entries") {
        Some(items) => {
            let ghost all = items.deep_view();
            let mut out: Vec<EntryDetail> = Vec::new();
            let mut i: usize = 0;
            assert(all.take(0) =~= Seq::<JsonView>::empty());
            assert(out.deep_view() =~= Seq::<EntryDetailView>::empty());
            while i < items.len()
                invariant
                    i <= items.len(),
                    all == items.deep_view(),
                    out.deep_view() == entries_among(all.take(i as int), owner.deep_view()),
                decreases items.len() - i,
            {
                let ghost o = out.deep_view();
                proof {
                    assert(all.take(i + 1).drop_last() =~= all.take(i as int));
                    assert(all.take(i + 1).last() == all[i as int]);
                }
                match detailed_entry_exec(&items[i], &owner) {
                    Some(e) => {
                        let ghost ev = e@;
                        out.push(e);
                        assert(out.deep_view() =~= o.push(ev));
                    },
                    None => {},
                }
                i += 1;
            }
            assert(all.take(all.len() as int) =~= all);
            out
        },
        None => {
            let names = extract_entry_names(data);
            bare_entries_exec(&names, &owner)
        },
    }
}

/// The names of the entries, in order.
pub fn names_of_exec(entries: &Vec<EntryDetail>) -> (r: Vec<String>)
    ensures
        r.deep_view() == names_of(entries.deep_view()),
{
    let mut out: Vec<String> = Vec::new();
    let mut i: usize = 0;
    while i < entries.len()
        invariant
            i <= entries.len(),
            out.len() == i,
            forall|k: int| 0 <= k < i ==> (#[trigger] out@[k])@ == entries@[k].name@,
        decreases entries.len() - i,
    {
        out.push(entries[i].name.clone());
        i += 1;
    }
    assert(out.deep_view() =~= names_of(entries.deep_view()));
    out
}

} // verus!
