//! Decoding of task-search responses.
//!
//! The model functions say which page a JSON value stands for; the functions
//! beside them read that page out of a `serde_json::Value`. A response is an
//! envelope around an inner value. Reading the inner value is strict: one
//! member that cannot be read, and no page comes of it. The envelope then
//! falls back on the bare page, as it does where it has no inner value at
//! all, so that only a missing success flag can make decoding fail.

use crate::config::text_of;
use crate::json::{
    as_bool, as_i64, as_items, as_members, as_text, as_u64, field_of, is_null, member, shape,
    JsonModel,
};
use crate::params::{put, Pairs, Params};
use crate::tasks::search::{
    CatalogEntry, CatalogEntryView, HistoryEntry, HistoryEntryView, ResponseView, SearchResponse,
    Summary,
};
use crate::tasks::Status;
use vstd::prelude::*;
use vstd::string::*;

verus! {

/// The text under `name`, where the member is there and is a text.
pub open spec fn text_field(value: JsonModel, name: Seq<char>) -> Option<Seq<char>> {
    match field_of(value, name) {
        Some(JsonModel::Text(s)) => Some(s),
        _ => None,
    }
}

/// The text under `name`, absent where the member is missing or null; nothing
/// where the member is anything else.
pub open spec fn optional_text_field(value: JsonModel, name: Seq<char>) -> Option<
    Option<Seq<char>>,
> {
    match field_of(value, name) {
        None => Some(None),
        Some(JsonModel::Null) => Some(None),
        Some(JsonModel::Text(s)) => Some(Some(s)),
        Some(_) => None,
    }
}

/// The boolean under `name`.
pub open spec fn bool_field(value: JsonModel, name: Seq<char>) -> Option<bool> {
    match field_of(value, name) {
        Some(JsonModel::Bool(b)) => Some(b),
        _ => None,
    }
}

/// The count under `name`: a whole number from 0 to the largest `usize`.
pub open spec fn count_field(value: JsonModel, name: Seq<char>) -> Option<usize> {
    match field_of(value, name) {
        Some(JsonModel::Number { unsigned: Some(n), .. }) => if n <= usize::MAX {
            Some(n as usize)
        } else {
            None
        },
        _ => None,
    }
}

/// The signed number under `name`: a whole number in the range of `isize`.
pub open spec fn signed_field(value: JsonModel, name: Seq<char>) -> Option<isize> {
    match field_of(value, name) {
        Some(JsonModel::Number { signed: Some(n), .. }) => if isize::MIN <= n <= isize::MAX {
            Some(n as isize)
        } else {
            None
        },
        _ => None,
    }
}

/// The status that a text names.
pub open spec fn status_named(name: Seq<char>) -> Option<Status> {
    if name == "queued"@ {
        Some(Status::Queued)
    } else if name == "running"@ {
        Some(Status::Running)
    } else if name == "error"@ {
        Some(Status::Error)
    } else if name == "paused"@ {
        Some(Status::Paused)
    } else {
        None
    }
}

/// The status under `name`.
pub open spec fn status_field(value: JsonModel, name: Seq<char>) -> Option<Status> {
    match text_field(value, name) {
        Some(s) => status_named(s),
        None => None,
    }
}

/// The argument list made of the first `upto` members, each of them a text.
pub open spec fn args_upto(members: Seq<(Seq<char>, JsonModel)>, upto: int) -> Pairs
    decreases upto,
{
    if upto <= 0 {
        Seq::empty()
    } else {
        put(args_upto(members, upto - 1), members[upto - 1].0, members[upto - 1].1->Text_0)
    }
}

/// The argument list under `name`: an object whose members are all texts.
pub open spec fn args_field(value: JsonModel, name: Seq<char>) -> Option<Pairs> {
    match field_of(value, name) {
        Some(JsonModel::Object(members)) => if forall|i: int|
            0 <= i < members.len() ==> (#[trigger] members[i]).1 is Text {
            Some(args_upto(members, members.len() as int))
        } else {
            None
        },
        _ => None,
    }
}

/// The catalog entry that an object stands for. Every member but `server` is
/// needed; members of other names are passed over.
pub open spec fn catalog_entry(value: JsonModel) -> Option<CatalogEntryView> {
    if args_field(value, "args"@) is Some && text_field(value, "cmd"@) is Some && text_field(
        value,
        "identifier"@,
    ) is Some && signed_field(value, "priority"@) is Some && optional_text_field(
        value,
        "server"@,
    ) is Some && status_field(value, "status"@) is Some && text_field(value, "submitter"@) is Some
        && text_field(value, "submittime"@) is Some && count_field(value, "task_id"@) is Some {
        Some(
            CatalogEntryView {
                args: args_field(value, "args"@)->Some_0,
                cmd: text_field(value, "cmd"@)->Some_0,
                identifier: text_field(value, "identifier"@)->Some_0,
                priority: signed_field(value, "priority"@)->Some_0,
                server: optional_text_field(value, "server"@)->Some_0,
                status: status_field(value, "status"@)->Some_0,
                submitter: text_field(value, "submitter"@)->Some_0,
                submit_time: text_field(value, "submittime"@)->Some_0,
                task_id: count_field(value, "task_id"@)->Some_0,
            },
        )
    } else {
        None
    }
}

/// The history entry that an object stands for. Every member is needed;
/// members of other names are passed over.
pub open spec fn history_entry(value: JsonModel) -> Option<HistoryEntryView> {
    if args_field(value, "args"@) is Some && text_field(value, "cmd"@) is Some && count_field(
        value,
        "finished"@,
    ) is Some && text_field(value, "identifier"@) is Some && signed_field(value, "priority"@)
        is Some && text_field(value, "server"@) is Some && text_field(value, "submitter"@) is Some
        && text_field(value, "submittime"@) is Some && count_field(value, "task_id"@) is Some {
        Some(
            HistoryEntryView {
                args: args_field(value, "args"@)->Some_0,
                cmd: text_field(value, "cmd"@)->Some_0,
                finished: count_field(value, "finished"@)->Some_0,
                identifier: text_field(value, "identifier"@)->Some_0,
                priority: signed_field(value, "priority"@)->Some_0,
                server: text_field(value, "server"@)->Some_0,
                submitter: text_field(value, "submitter"@)->Some_0,
                submit_time: text_field(value, "submittime"@)->Some_0,
                task_id: count_field(value, "task_id"@)->Some_0,
            },
        )
    } else {
        None
    }
}

/// The counts that an object stands for.
pub open spec fn summary_entry(value: JsonModel) -> Option<Summary> {
    if count_field(value, "queued"@) is Some && count_field(value, "running"@) is Some
        && count_field(value, "error"@) is Some && count_field(value, "paused"@) is Some {
        Some(
            Summary {
                queued: count_field(value, "queued"@)->Some_0,
                running: count_field(value, "running"@)->Some_0,
                error: count_field(value, "error"@)->Some_0,
                paused: count_field(value, "paused"@)->Some_0,
            },
        )
    } else {
        None
    }
}

/// The catalog of an inner value: empty where the member is missing, the
/// entries of the array where each of them is an entry, nothing otherwise.
pub open spec fn catalog_field(inner: JsonModel) -> Option<Seq<CatalogEntryView>> {
    match field_of(inner, "catalog"@) {
        None => Some(Seq::empty()),
        Some(JsonModel::Array(items)) => if forall|i: int|
            0 <= i < items.len() ==> catalog_entry(#[trigger] items[i]) is Some {
            Some(Seq::new(items.len(), |i: int| catalog_entry(items[i])->Some_0))
        } else {
            None
        },
        Some(_) => None,
    }
}

/// The history of an inner value, read as the catalog is.
pub open spec fn history_field(inner: JsonModel) -> Option<Seq<HistoryEntryView>> {
    match field_of(inner, "history"@) {
        None => Some(Seq::empty()),
        Some(JsonModel::Array(items)) => if forall|i: int|
            0 <= i < items.len() ==> history_entry(#[trigger] items[i]) is Some {
            Some(Seq::new(items.len(), |i: int| history_entry(items[i])->Some_0))
        } else {
            None
        },
        Some(_) => None,
    }
}

/// The summary of an inner value: absent where the member is missing or null,
/// the counts where it holds them, nothing otherwise.
pub open spec fn summary_field(inner: JsonModel) -> Option<Option<Summary>> {
    match field_of(inner, "summary"@) {
        None => Some(None),
        Some(JsonModel::Null) => Some(None),
        Some(counts) => match summary_entry(counts) {
            Some(summary) => Some(Some(summary)),
            None => None,
        },
    }
}

/// The page that an inner value stands for, under a given success flag:
/// nothing unless the value is an object whose four members can all be read.
pub open spec fn inner_page(inner: JsonModel, success: bool) -> Option<ResponseView> {
    if inner is Object && catalog_field(inner) is Some && history_field(inner) is Some
        && summary_field(inner) is Some && optional_text_field(inner, "cursor"@) is Some {
        Some(
            ResponseView {
                success,
                catalog: catalog_field(inner)->Some_0,
                history: history_field(inner)->Some_0,
                summary: summary_field(inner)->Some_0,
                cursor: optional_text_field(inner, "cursor"@)->Some_0,
            },
        )
    } else {
        None
    }
}

/// The page without any task: what stands in for an inner value that cannot
/// be read.
pub open spec fn bare_page(success: bool) -> ResponseView {
    ResponseView {
        success,
        catalog: Seq::empty(),
        history: Seq::empty(),
        summary: None,
        cursor: None,
    }
}

/// The page that an envelope stands for. An envelope is an object with a
/// boolean `success`. Whatever else it holds, it gives a page: the one that
/// its `value` stands for, or the bare one where the `value` is missing or
/// cannot be read.
pub open spec fn envelope_page(envelope: JsonModel) -> Option<ResponseView> {
    match bool_field(envelope, "success"@) {
        Some(success) => Some(
            match field_of(envelope, "value"@) {
                Some(inner) => match inner_page(inner, success) {
                    Some(page) => page,
                    None => bare_page(success),
                },
                None => bare_page(success),
            },
        ),
        None => None,
    }
}

/// Every envelope with a success flag decodes, whatever its value holds and
/// whether or not it has one; without a value that can be read, the page is
/// the bare one.
pub proof fn lemma_any_inner_value_decodes(envelope: JsonModel)
    requires
        bool_field(envelope, "success"@) is Some,
    ensures
        envelope_page(envelope) is Some,
        envelope_page(envelope)->Some_0.success == bool_field(envelope, "success"@)->Some_0,
        field_of(envelope, "value"@) is None ==> envelope_page(envelope)->Some_0 == bare_page(
            bool_field(envelope, "success"@)->Some_0,
        ),
        field_of(envelope, "value"@) is Some && inner_page(
            field_of(envelope, "value"@)->Some_0,
            bool_field(envelope, "success"@)->Some_0,
        ) is None ==> envelope_page(envelope)->Some_0 == bare_page(
            bool_field(envelope, "success"@)->Some_0,
        ),
{
}

fn text_member(value: &serde_json::Value, name: &str) -> (r: Option<String>)
    ensures
        text_of(r) == text_field(shape(*value), name@),
{
    match member(value, name) {
        Some(found) => match as_text(found) {
            Some(s) => Some(String::from_str(s)),
            None => None,
        },
        None => None,
    }
}

fn optional_text_member(value: &serde_json::Value, name: &str) -> (r: Option<Option<String>>)
    ensures
        r is Some <==> optional_text_field(shape(*value), name@) is Some,
        r is Some ==> text_of(r->Some_0) == optional_text_field(shape(*value), name@)->Some_0,
{
    match member(value, name) {
        Some(found) => {
            if is_null(found) {
                Some(None)
            } else {
                match as_text(found) {
                    Some(s) => Some(Some(String::from_str(s))),
                    None => None,
                }
            }
        },
        None => Some(None),
    }
}

pub(crate) fn bool_member(value: &serde_json::Value, name: &str) -> (r: Option<bool>)
    ensures
        r == bool_field(shape(*value), name@),
{
    match member(value, name) {
        Some(found) => as_bool(found),
        None => None,
    }
}

fn count_member(value: &serde_json::Value, name: &str) -> (r: Option<usize>)
    ensures
        r == count_field(shape(*value), name@),
{
    match member(value, name) {
        Some(found) => match as_u64(found) {
            Some(n) => {
                if n <= usize::MAX as u64 {
                    Some(n as usize)
                } else {
                    None
                }
            },
            None => None,
        },
        None => None,
    }
}

fn signed_member(value: &serde_json::Value, name: &str) -> (r: Option<isize>)
    ensures
        r == signed_field(shape(*value), name@),
{
    match member(value, name) {
        Some(found) => match as_i64(found) {
            Some(n) => {
                if isize::MIN as i64 <= n && n <= isize::MAX as i64 {
                    Some(n as isize)
                } else {
                    None
                }
            },
            None => None,
        },
        None => None,
    }
}

fn status_member(value: &serde_json::Value, name: &str) -> (r: Option<Status>)
    ensures
        r == status_field(shape(*value), name@),
{
    match text_member(value, name) {
        Some(s) => {
            if s == String::from_str("queued") {
                Some(Status::Queued)
            } else if s == String::from_str("running") {
                Some(Status::Running)
            } else if s == String::from_str("error") {
                Some(Status::Error)
            } else if s == String::from_str("paused") {
                Some(Status::Paused)
            } else {
                None
            }
        },
        None => None,
    }
}

fn args_member(value: &serde_json::Value, name: &str) -> (r: Option<Params>)
    ensures
        r is Some <==> args_field(shape(*value), name@) is Some,
        r is Some ==> r->Some_0@ == args_field(shape(*value), name@)->Some_0,
{
    let found = match member(value, name) {
        Some(found) => found,
        None => { return None; },
    };
    let members = match as_members(found) {
        Some(members) => members,
        None => { return None; },
    };
    let ghost model = shape(*found)->Object_0;
    let mut list = Params::new();
    let mut i: usize = 0;
    while i < members.len()
        invariant
            i <= members.len(),
            field_of(shape(*value), name@) == Some(shape(*found)),
            shape(*found) is Object,
            model == shape(*found)->Object_0,
            members@.len() == model.len(),
            forall|k: int|
                0 <= k < members@.len() ==> (#[trigger] members@[k]).0@ == model[k].0 && shape(
                    *members@[k].1,
                ) == model[k].1,
            forall|k: int| 0 <= k < i ==> (#[trigger] model[k]).1 is Text,
            list@ == args_upto(model, i as int),
        decreases members.len() - i,
    {
        let entry = &members[i];
        match as_text(entry.1) {
            Some(s) => {
                list = list.insert(entry.0.clone(), String::from_str(s));
            },
            None => {
                assert(!(model[i as int].1 is Text));
                return None;
            },
        }
        i += 1;
    }
    Some(list)
}

fn catalog_entry_of(value: &serde_json::Value) -> (r: Option<CatalogEntry>)
    ensures
        r is Some <==> catalog_entry(shape(*value)) is Some,
        r is Some ==> r->Some_0@ == catalog_entry(shape(*value))->Some_0,
{
    let args = args_member(value, "args");
    let cmd = text_member(value, "cmd");
    let identifier = text_member(value, "identifier");
    let priority = signed_member(value, "priority");
    let server = optional_text_member(value, "server");
    let status = status_member(value, "status");
    let submitter = text_member(value, "submitter");
    let submit_time = text_member(value, "submittime");
    let task_id = count_member(value, "task_id");
    match (args, cmd, identifier, priority, server, status, submitter, submit_time, task_id) {
        (
            Some(args),
            Some(cmd),
            Some(identifier),
            Some(priority),
            Some(server),
            Some(status),
            Some(submitter),
            Some(submit_time),
            Some(task_id),
        ) => Some(
            CatalogEntry {
                args,
                cmd,
                identifier,
                priority,
                server,
                status,
                submitter,
                submit_time,
                task_id,
            },
        ),
        _ => None,
    }
}

fn history_entry_of(value: &serde_json::Value) -> (r: Option<HistoryEntry>)
    ensures
        r is Some <==> history_entry(shape(*value)) is Some,
        r is Some ==> r->Some_0@ == history_entry(shape(*value))->Some_0,
{
    let args = args_member(value, "args");
    let cmd = text_member(value, "cmd");
    let finished = count_member(value, "finished");
    let identifier = text_member(value, "identifier");
    let priority = signed_member(value, "priority");
    let server = text_member(value, "server");
    let submitter = text_member(value, "submitter");
    let submit_time = text_member(value, "submittime");
    let task_id = count_member(value, "task_id");
    match (args, cmd, finished, identifier, priority, server, submitter, submit_time, task_id) {
        (
            Some(args),
            Some(cmd),
            Some(finished),
            Some(identifier),
            Some(priority),
            Some(server),
            Some(submitter),
            Some(submit_time),
            Some(task_id),
        ) => Some(
            HistoryEntry {
                args,
                cmd,
                finished,
                identifier,
                priority,
                server,
                submitter,
                submit_time,
                task_id,
            },
        ),
        _ => None,
    }
}

fn summary_entry_of(value: &serde_json::Value) -> (r: Option<Summary>)
    ensures
        r == summary_entry(shape(*value)),
{
    let queued = count_member(value, "queued");
    let running = count_member(value, "running");
    let error = count_member(value, "error");
    let paused = count_member(value, "paused");
    match (queued, running, error, paused) {
        (Some(queued), Some(running), Some(error), Some(paused)) => Some(
            Summary { queued, running, error, paused },
        ),
        _ => None,
    }
}

/// The views of the entries of a catalog.
pub open spec fn catalog_views(entries: Seq<CatalogEntry>) -> Seq<CatalogEntryView> {
    Seq::new(entries.len(), |i: int| entries[i]@)
}

/// The views of the entries of a history.
pub open spec fn history_views(entries: Seq<HistoryEntry>) -> Seq<HistoryEntryView> {
    Seq::new(entries.len(), |i: int| entries[i]@)
}

fn catalog_member(inner: &serde_json::Value) -> (r: Option<Vec<CatalogEntry>>)
    ensures
        r is Some <==> catalog_field(shape(*inner)) is Some,
        r is Some ==> catalog_views(r->Some_0@) == catalog_field(shape(*inner))->Some_0,
{
    let found = match member(inner, "catalog") {
        Some(found) => found,
        None => {
            let empty: Vec<CatalogEntry> = Vec::new();
            assert(catalog_views(empty@) =~= Seq::empty());
            return Some(empty);
        },
    };
    let items = match as_items(found) {
        Some(items) => items,
        None => { return None; },
    };
    let ghost model = shape(*found)->Array_0;
    let mut entries: Vec<CatalogEntry> = Vec::new();
    let mut i: usize = 0;
    while i < items.len()
        invariant
            i <= items.len(),
            field_of(shape(*inner), "catalog"@) == Some(shape(*found)),
            shape(*found) is Array,
            model == shape(*found)->Array_0,
            items@.len() == model.len(),
            forall|k: int| 0 <= k < items@.len() ==> shape(#[trigger] items@[k]) == model[k],
            forall|k: int| 0 <= k < i ==> catalog_entry(#[trigger] model[k]) is Some,
            entries@.len() == i,
            forall|k: int|
                0 <= k < i ==> (#[trigger] entries@[k])@ == catalog_entry(model[k])->Some_0,
        decreases items.len() - i,
    {
        match catalog_entry_of(&items[i]) {
            Some(entry) => {
                entries.push(entry);
            },
            None => {
                assert(catalog_entry(model[i as int]) is None);
                return None;
            },
        }
        i += 1;
    }
    assert(catalog_views(entries@) =~= catalog_field(shape(*inner))->Some_0);
    Some(entries)
}

fn history_member(inner: &serde_json::Value) -> (r: Option<Vec<HistoryEntry>>)
    ensures
        r is Some <==> history_field(shape(*inner)) is Some,
        r is Some ==> history_views(r->Some_0@) == history_field(shape(*inner))->Some_0,
{
    let found = match member(inner, "history") {
        Some(found) => found,
        None => {
            let empty: Vec<HistoryEntry> = Vec::new();
            assert(history_views(empty@) =~= Seq::empty());
            return Some(empty);
        },
    };
    let items = match as_items(found) {
        Some(items) => items,
        None => { return None; },
    };
    let ghost model = shape(*found)->Array_0;
    let mut entries: Vec<HistoryEntry> = Vec::new();
    let mut i: usize = 0;
    while i < items.len()
        invariant
            i <= items.len(),
            field_of(shape(*inner), "history"@) == Some(shape(*found)),
            shape(*found) is Array,
            model == shape(*found)->Array_0,
            items@.len() == model.len(),
            forall|k: int| 0 <= k < items@.len() ==> shape(#[trigger] items@[k]) == model[k],
            forall|k: int| 0 <= k < i ==> history_entry(#[trigger] model[k]) is Some,
            entries@.len() == i,
            forall|k: int|
                0 <= k < i ==> (#[trigger] entries@[k])@ == history_entry(model[k])->Some_0,
        decreases items.len() - i,
    {
        match history_entry_of(&items[i]) {
            Some(entry) => {
                entries.push(entry);
            },
            None => {
                assert(history_entry(model[i as int]) is None);
                return None;
            },
        }
        i += 1;
    }
    assert(history_views(entries@) =~= history_field(shape(*inner))->Some_0);
    Some(entries)
}

fn summary_member(inner: &serde_json::Value) -> (r: Option<Option<Summary>>)
    ensures
        r == summary_field(shape(*inner)),
{
    match member(inner, "summary") {
        Some(found) => {
            if is_null(found) {
                Some(None)
            } else {
                match summary_entry_of(found) {
                    Some(summary) => Some(Some(summary)),
                    None => None,
                }
            }
        },
        None => Some(None),
    }
}

pub(crate) fn inner_page_of(inner: &serde_json::Value, success: bool) -> (r: Option<SearchResponse>)
    ensures
        r is Some <==> inner_page(shape(*inner), success) is Some,
        r is Some ==> r->Some_0@ == inner_page(shape(*inner), success)->Some_0,
{
    if as_members(inner).is_none() {
        return None;
    }
    let catalog = catalog_member(inner);
    let history = history_member(inner);
    let summary = summary_member(inner);
    let cursor = optional_text_member(inner, "cursor");
    match (catalog, history, summary, cursor) {
        (Some(catalog), Some(history), Some(summary), Some(cursor)) => {
            let page = SearchResponse { success, catalog, history, summary, cursor };
            assert(page@.catalog =~= catalog_views(catalog@));
            assert(page@.history =~= history_views(history@));
            Some(page)
        },
        _ => None,
    }
}

} // verus!
