//! The editor's settings, of which this crate reads and extends one member:
//! the array of linked projects. Every other member is carried through as it
//! was found.

use vstd::prelude::*;
use serde_json::Value;
use crate::error::KataError;
use crate::json::{
    array_items, array_value, into_items, into_members, into_text, items_value, member_views,
    members_value, object_members, object_value, parse_value, parsed_value, pretty_text,
    string_text, string_value, text_value, write_pretty,
};
use crate::languages::rust::{manifest_name, rust_manifest_name};
use crate::paths::{same_path, same_place};
use crate::workspace::{join, joined};

verus! {

/// The key under which the editor keeps its linked projects.
pub open spec fn linked_projects_key() -> Seq<char> {
    "rust-analyzer.linkedProjects"@
}

/// One item of the array of linked projects.
#[derive(Debug, PartialEq, Eq)]
pub enum Entry {
    /// The path of a project's manifest.
    Path(String),
    /// Anything else the user has put there.
    Other(Value),
}

/// An `Entry` as contracts speak of it.
pub ghost enum EntryView {
    Path(Seq<char>),
    Other(Value),
}

impl View for Entry {
    type V = EntryView;

    open spec fn view(&self) -> EntryView {
        match self {
            Entry::Path(path) => EntryView::Path(path@),
            Entry::Other(value) => EntryView::Other(*value),
        }
    }
}

impl EntryView {
    /// Whether this entry is a path to the place that `path` names.
    pub open spec fn names(self, path: Seq<char>) -> bool {
        match self {
            EntryView::Path(own) => same_place(own, path),
            EntryView::Other(_) => false,
        }
    }
}

/// The entries in `entries` as contracts speak of them.
pub open spec fn entry_views(entries: Seq<Entry>) -> Seq<EntryView> {
    entries.map_values(|e: Entry| e@)
}

/// The editor's settings: the linked projects, and the members that stand
/// before and after them in the document.
#[derive(Debug, PartialEq, Eq)]
pub struct Settings {
    pub before: Vec<(String, Value)>,
    pub linked: Vec<Entry>,
    pub after: Vec<(String, Value)>,
}

/// `Settings` as contracts speak of them.
pub ghost struct SettingsView {
    pub before: Seq<(Seq<char>, Value)>,
    pub linked: Seq<EntryView>,
    pub after: Seq<(Seq<char>, Value)>,
}

impl View for Settings {
    type V = SettingsView;

    open spec fn view(&self) -> SettingsView {
        SettingsView {
            before: member_views(self.before@),
            linked: entry_views(self.linked@),
            after: member_views(self.after@),
        }
    }
}

/// Whether one of the entries is a path to the place that `path` names.
pub open spec fn is_linked(linked: Seq<EntryView>, path: Seq<char>) -> bool {
    exists|i: int| 0 <= i < linked.len() && (#[trigger] linked[i]).names(path)
}

/// How many of the entries are a path to the place that `path` names.
pub open spec fn times_linked(linked: Seq<EntryView>, path: Seq<char>) -> nat
    decreases linked.len(),
{
    if linked.len() == 0 {
        0
    } else {
        times_linked(linked.drop_last(), path) + if linked.last().names(path) {
            1nat
        } else {
            0nat
        }
    }
}

impl SettingsView {
    /// Settings that link the one project at `manifest` and hold nothing else.
    pub open spec fn only(manifest: Seq<char>) -> SettingsView {
        SettingsView {
            before: Seq::empty(),
            linked: seq![EntryView::Path(manifest)],
            after: Seq::empty(),
        }
    }

    /// These settings with the project at `manifest` linked: as they are where
    /// an entry names that place already, else with the path as the last entry.
    pub open spec fn with_project(self, manifest: Seq<char>) -> SettingsView {
        if is_linked(self.linked, manifest) {
            self
        } else {
            SettingsView { linked: self.linked.push(EntryView::Path(manifest)), ..self }
        }
    }
}

/// Settings for a working directory whose editor has none yet.
pub fn default_settings(manifest: &str) -> (r: Settings)
    ensures
        r@ == SettingsView::only(manifest@),
{
    let mut linked: Vec<Entry> = Vec::new();
    linked.push(Entry::Path(manifest.to_owned()));
    let r = Settings { before: Vec::new(), linked, after: Vec::new() };
    assert(r@.before =~= Seq::empty());
    assert(r@.linked =~= seq![EntryView::Path(manifest@)]);
    r
}

/// Whether one of the entries is a path to the place that `path` names.
pub fn has_project(linked: &Vec<Entry>, path: &str) -> (r: bool)
    ensures
        r == is_linked(entry_views(linked@), path@),
{
    let mut i: usize = 0;
    while i < linked.len()
        invariant
            i <= linked.len(),
            forall|j: int| 0 <= j < i ==> !(#[trigger] entry_views(linked@)[j]).names(path@),
        decreases linked.len() - i,
    {
        let found = match &linked[i] {
            Entry::Path(own) => same_path(own.as_str(), path),
            Entry::Other(_) => false,
        };
        if found {
            assert(entry_views(linked@)[i as int].names(path@));
            return true;
        }
        i += 1;
    }
    false
}

/// Links the project at `manifest`. Nothing is removed or moved: where no entry
/// names that place yet, the path becomes the last entry.
pub fn link_project(settings: Settings, manifest: &str) -> (r: Settings)
    ensures
        r@ == settings@.with_project(manifest@),
{
    if has_project(&settings.linked, manifest) {
        settings
    } else {
        let Settings { before, mut linked, after } = settings;
        let ghost old_linked = entry_views(linked@);
        linked.push(Entry::Path(manifest.to_owned()));
        assert(entry_views(linked@) =~= old_linked.push(EntryView::Path(manifest@)));
        Settings { before, linked, after }
    }
}

/// Where the first member with the given key stands at or after `start`; the
/// number of members where there is none.
pub open spec fn key_position(members: Seq<(Seq<char>, Value)>, key: Seq<char>, start: int) -> int
    decreases members.len() - start,
{
    if start < 0 || start >= members.len() {
        members.len() as int
    } else if members[start].0 == key {
        start
    } else {
        key_position(members, key, start + 1)
    }
}

/// An item of the array as an entry: a path where it is a string.
pub open spec fn entry_of(item: Value) -> EntryView {
    match string_text(item) {
        Some(path) => EntryView::Path(path),
        None => EntryView::Other(item),
    }
}

/// An entry as an item of the array.
pub open spec fn item_of(entry: EntryView) -> Value {
    match entry {
        EntryView::Path(path) => string_value(path),
        EntryView::Other(value) => value,
    }
}

/// The settings that a JSON object's members make up: without linked
/// projects where no member has their key, and `None` where the member with
/// that key is no array.
pub open spec fn taken_apart(members: Seq<(Seq<char>, Value)>) -> Option<SettingsView> {
    let at = key_position(members, linked_projects_key(), 0);
    if at >= members.len() {
        Some(SettingsView { before: members, linked: Seq::empty(), after: Seq::empty() })
    } else {
        match array_items(members[at].1) {
            None => None,
            Some(items) => Some(
                SettingsView {
                    before: members.subrange(0, at),
                    linked: items.map_values(|item: Value| entry_of(item)),
                    after: members.subrange(at + 1, members.len() as int),
                },
            ),
        }
    }
}

/// The settings that a JSON document holds, or `None` where the document is
/// no object, or an object whose linked projects are no array.
pub open spec fn document_settings(document: Value) -> Option<SettingsView> {
    match object_members(document) {
        None => None,
        Some(members) => taken_apart(members),
    }
}

/// The settings that a text holds, or `None` where the text is no JSON or
/// its document holds no settings.
pub open spec fn read_settings(text: Seq<char>) -> Option<SettingsView> {
    match parsed_value(text) {
        None => None,
        Some(document) => document_settings(document),
    }
}

/// The JSON object that holds the settings: the members before, the linked
/// projects under their key, the members after.
pub open spec fn put_together(settings: SettingsView) -> Value {
    object_value(
        settings.before.push(
            (linked_projects_key(), array_value(settings.linked.map_values(|e: EntryView| item_of(e)))),
        ) + settings.after,
    )
}

/// The text of the settings, or `None` where they cannot be written.
pub open spec fn written_settings(settings: SettingsView) -> Option<Seq<char>> {
    pretty_text(put_together(settings))
}

/// Where the first member with the given key stands; the number of members
/// where there is none.
fn find_member(members: &Vec<(String, Value)>, key: &str) -> (r: usize)
    ensures
        r == key_position(member_views(members@), key@, 0),
{
    let mut i: usize = 0;
    while i < members.len()
        invariant
            i <= members.len(),
            key_position(member_views(members@), key@, 0) == key_position(
                member_views(members@),
                key@,
                i as int,
            ),
        decreases members.len() - i,
    {
        if crate::text::same_text(members[i].0.as_str(), key) {
            return i;
        }
        i += 1;
    }
    i
}

/// The items of the array as entries.
fn entries_of(items: Vec<Value>) -> (r: Vec<Entry>)
    ensures
        entry_views(r@) == items@.map_values(|item: Value| entry_of(item)),
{
    let mut entries: Vec<Entry> = Vec::new();
    let ghost all = items@;
    for item in it: items
        invariant
            it.seq() == all,
            entry_views(entries@) == all.subrange(0, it.index() as int).map_values(
                |item: Value| entry_of(item),
            ),
    {
        let ghost before = entry_views(entries@);
        let entry = match into_text(item) {
            Ok(path) => Entry::Path(path),
            Err(other) => Entry::Other(other),
        };
        entries.push(entry);
        assert(entry_views(entries@) =~= before.push(entry_of(item)));
    }
    entries
}

/// The entries as items of the array.
fn items_of(entries: Vec<Entry>) -> (r: Vec<Value>)
    ensures
        r@ == entry_views(entries@).map_values(|e: EntryView| item_of(e)),
{
    let mut items: Vec<Value> = Vec::new();
    let ghost all = entry_views(entries@);
    let ghost source = entries@;
    for entry in it: entries
        invariant
            it.seq() == source,
            all == entry_views(source),
            items@ == all.subrange(0, it.index() as int).map_values(|e: EntryView| item_of(e)),
    {
        let item = match entry {
            Entry::Path(path) => text_value(path),
            Entry::Other(value) => value,
        };
        items.push(item);
    }
    items
}

/// Takes a JSON document apart into the editor's settings.
///
/// A document that says nothing of linked projects is read as linking none.
///
/// Fails with `ConfigFormat` where the document is no object, or the member
/// with the key of the linked projects is no array.
pub fn settings_from_document(document: Value) -> (r: Result<Settings, KataError>)
    ensures
        match r {
            Ok(settings) => document_settings(document) == Some(settings@),
            Err(e) => e == KataError::ConfigFormat && document_settings(document) is None,
        },
{
    let mut members = match into_members(document) {
        Ok(members) => members,
        Err(_) => {
            return Err(KataError::ConfigFormat);
        },
    };
    let ghost all = member_views(members@);
    let at = find_member(&members, "rust-analyzer.linkedProjects");
    if at >= members.len() {
        let r = Settings { before: members, linked: Vec::new(), after: Vec::new() };
        assert(r@.linked =~= Seq::empty());
        assert(r@.after =~= Seq::empty());
        return Ok(r);
    }
    let mut after = members.split_off(at + 1);
    let found = members.pop().unwrap();
    assert(member_views(members@) =~= all.subrange(0, at as int));
    assert(member_views(after@) =~= all.subrange(at + 1, all.len() as int));
    match into_items(found.1) {
        Ok(items) => Ok(Settings { before: members, linked: entries_of(items), after }),
        Err(_) => Err(KataError::ConfigFormat),
    }
}

/// Puts the editor's settings together as a JSON document: the members
/// before, the linked projects under their key, the members after.
pub fn document_from_settings(settings: Settings) -> (r: Value)
    ensures
        r == put_together(settings@),
{
    let Settings { before, linked, after } = settings;
    let ghost view = settings@;
    let array = items_value(items_of(linked));
    let mut members = before;
    let mut after = after;
    members.push(("rust-analyzer.linkedProjects".to_owned(), array));
    members.append(&mut after);
    assert(member_views(members@) =~= view.before.push((linked_projects_key(), array))
        + view.after);
    members_value(members)
}

/// Reads the editor's settings from the text of their file.
///
/// Fails with `ConfigFormat` where the text is no JSON, or the document
/// cannot be taken apart as `settings_from_document` does.
pub fn parse_settings(text: &str) -> (r: Result<Settings, KataError>)
    ensures
        match r {
            Ok(settings) => read_settings(text@) == Some(settings@),
            Err(e) => e == KataError::ConfigFormat && read_settings(text@) is None,
        },
{
    match parse_value(text) {
        Ok(document) => settings_from_document(document),
        Err(_) => Err(KataError::ConfigFormat),
    }
}

/// Writes the editor's settings as the text of their file, pretty-printed.
///
/// Fails with `ConfigFormat` where `serde_json` reports that the document
/// cannot be written.
pub fn render_settings(settings: Settings) -> (r: Result<String, KataError>)
    ensures
        match r {
            Ok(text) => written_settings(settings@) == Some(text@),
            Err(e) => e == KataError::ConfigFormat && written_settings(settings@) is None,
        },
{
    let document = document_from_settings(settings);
    match write_pretty(&document) {
        Ok(text) => Ok(text),
        Err(_) => Err(KataError::ConfigFormat),
    }
}

/// The manifest of the workspace in a day folder.
pub open spec fn manifest_path(day_folder: Seq<char>) -> Seq<char> {
    joined(day_folder, manifest_name())
}

/// The settings after the workspace in `day_folder` has been linked, given
/// the text of the settings file or `None` where there is no such file yet.
pub open spec fn linked_settings(existing: Option<Seq<char>>, day_folder: Seq<char>) -> Option<
    SettingsView,
> {
    match existing {
        None => Some(SettingsView::only(manifest_path(day_folder))),
        Some(text) => match read_settings(text) {
            None => None,
            Some(settings) => Some(settings.with_project(manifest_path(day_folder))),
        },
    }
}

/// The text of the settings after the workspace in `day_folder` has been
/// linked, or `None` where the existing settings cannot be read or the new
/// ones cannot be written.
pub open spec fn linked_text(existing: Option<Seq<char>>, day_folder: Seq<char>) -> Option<
    Seq<char>,
> {
    match linked_settings(existing, day_folder) {
        None => None,
        Some(settings) => written_settings(settings),
    }
}

/// The text of `existing`, where there is one.
pub open spec fn text_of(existing: Option<&str>) -> Option<Seq<char>> {
    match existing {
        Some(text) => Some(text@),
        None => None,
    }
}

/// The new text of the editor's settings once the workspace in
/// `day_folder_path` is linked. `existing` is the text of the settings file,
/// `None` where there is no such file yet.
///
/// Fails with `ConfigFormat` where the existing settings cannot be read as
/// `parse_settings` reads them, or the new ones cannot be written.
pub fn link_rust_analyzer(existing: Option<&str>, day_folder_path: &str) -> (r: Result<
    String,
    KataError,
>)
    ensures
        match r {
            Ok(text) => linked_text(text_of(existing), day_folder_path@) == Some(text@),
            Err(e) => e == KataError::ConfigFormat && linked_text(
                text_of(existing),
                day_folder_path@,
            ) is None,
        },
{
    let manifest = join(day_folder_path, rust_manifest_name());
    let settings = match existing {
        None => default_settings(manifest.as_str()),
        Some(text) => match parse_settings(text) {
            Ok(settings) => link_project(settings, manifest.as_str()),
            Err(e) => {
                return Err(e);
            },
        },
    };
    render_settings(settings)
}

/// Linking a project leaves every other member of the settings, and every
/// entry that was there, as and where it was.
pub proof fn lemma_link_keeps_what_was_there(settings: SettingsView, manifest: Seq<char>)
    ensures
        settings.with_project(manifest).before == settings.before,
        settings.with_project(manifest).after == settings.after,
        settings.linked.len() <= settings.with_project(manifest).linked.len(),
        settings.with_project(manifest).linked.subrange(0, settings.linked.len() as int)
            == settings.linked,
{
}

/// Once a project is linked, linking it again changes nothing.
pub proof fn lemma_link_is_idempotent(settings: SettingsView, manifest: Seq<char>)
    ensures
        is_linked(settings.with_project(manifest).linked, manifest),
        settings.with_project(manifest).with_project(manifest) == settings.with_project(manifest),
{
    let after = settings.with_project(manifest);
    if !is_linked(settings.linked, manifest) {
        let last = settings.linked.len() as int;
        assert(after.linked[last] == EntryView::Path(manifest));
    }
}

/// No entry names the place exactly when the count of such entries is zero.
pub proof fn lemma_times_linked_zero(linked: Seq<EntryView>, path: Seq<char>)
    ensures
        is_linked(linked, path) <==> times_linked(linked, path) > 0,
    decreases linked.len(),
{
    if linked.len() > 0 {
        let front = linked.drop_last();
        lemma_times_linked_zero(front, path);
        if is_linked(front, path) {
            let i = choose|i: int| 0 <= i < front.len() && (#[trigger] front[i]).names(path);
            assert(linked[i].names(path));
        }
        if linked.last().names(path) {
            assert(linked[linked.len() - 1].names(path));
        }
        if is_linked(linked, path) && !linked.last().names(path) {
            let i = choose|i: int| 0 <= i < linked.len() && (#[trigger] linked[i]).names(path);
            assert(front[i].names(path));
        }
    }
}

/// Settings in which a project was linked at most once link it exactly once
/// after it has been linked, however often that is done.
pub proof fn lemma_linked_exactly_once(settings: SettingsView, manifest: Seq<char>)
    requires
        times_linked(settings.linked, manifest) <= 1,
    ensures
        times_linked(settings.with_project(manifest).linked, manifest) == 1,
        times_linked(settings.with_project(manifest).with_project(manifest).linked, manifest) == 1,
{
    lemma_times_linked_zero(settings.linked, manifest);
    if !is_linked(settings.linked, manifest) {
        let after = settings.linked.push(EntryView::Path(manifest));
        assert(after.drop_last() =~= settings.linked);
    }
}

/// Settings made for a working directory that had none link exactly one
/// project, the one they were made for, and hold no other member.
pub proof fn lemma_default_links_one(manifest: Seq<char>)
    ensures
        SettingsView::only(manifest).linked.len() == 1,
        SettingsView::only(manifest).linked[0] == EntryView::Path(manifest),
        SettingsView::only(manifest).before.len() == 0,
        SettingsView::only(manifest).after.len() == 0,
        times_linked(SettingsView::only(manifest).linked, manifest) == 1,
{
    let linked = SettingsView::only(manifest).linked;
    assert(times_linked(linked.drop_last(), manifest) == 0);
}

} // verus!
