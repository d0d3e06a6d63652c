//! Reading the compositor's snapshots out of the JSON text it answers with.

use crate::snapshot::{
    window_views, workspace_views, Window, WindowView, Workspace, WorkspaceView,
};
use vstd::prelude::*;

verus! {

/// A JSON value of `serde_json`, carried through as it is.
#[verifier::external_type_specification]
#[verifier::external_body]
pub struct ExValue(serde_json::Value);

/// The members of a JSON object that hold an integer in the range of `i64`,
/// by name. Empty for a value that is no object.
pub uninterp spec fn integer_members(v: serde_json::Value) -> Map<Seq<char>, i64>;

/// The members of a JSON object that hold `true` or `false`, by name. Empty
/// for a value that is no object.
pub uninterp spec fn boolean_members(v: serde_json::Value) -> Map<Seq<char>, bool>;

/// The members of a JSON object that hold a string, by name. Empty for a
/// value that is no object.
pub uninterp spec fn text_members(v: serde_json::Value) -> Map<Seq<char>, Seq<char>>;

/// What `serde_json` reads out of a byte string as a list of JSON values:
/// the elements of the array that the bytes spell, or `None` where it
/// refuses the bytes.
pub uninterp spec fn parsed_array(bytes: Seq<u8>) -> Option<Seq<serde_json::Value>>;

/// Calls `serde_json::from_slice` at the type `Vec<Value>` and drops the
/// error. Assumed, not proved: what comes back depends on the bytes alone,
/// so that it is `parsed_array` of them.
#[verifier::external_body]
fn parse_array(bytes: &[u8]) -> (r: Option<Vec<serde_json::Value>>)
    ensures
        match r {
            Some(values) => parsed_array(bytes@) == Some(values@),
            None => parsed_array(bytes@).is_none(),
        },
{
    serde_json::from_slice::<Vec<serde_json::Value>>(bytes).ok()
}

/// Calls `Value`'s index by a member name, then `Value::as_i64`. Assumed,
/// not proved: the result is the member's number where the value is an
/// object, has a member of this name, and that member holds an integer in
/// the range of `i64`; it is `None` in every other case.
#[verifier::external_body]
fn integer_member(v: &serde_json::Value, name: &str) -> (r: Option<i64>)
    ensures
        r == member(integer_members(*v), name@),
{
    v[name].as_i64()
}

/// Calls `Value`'s index by a member name, then `Value::as_bool`. Assumed,
/// not proved: the result is the member's value where the value is an
/// object, has a member of this name, and that member holds `true` or
/// `false`; it is `None` in every other case.
#[verifier::external_body]
fn boolean_member(v: &serde_json::Value, name: &str) -> (r: Option<bool>)
    ensures
        r == member(boolean_members(*v), name@),
{
    v[name].as_bool()
}

/// Calls `Value`'s index by a member name, then `Value::as_str`, and copies
/// the text. Assumed, not proved: the result holds the member's characters
/// where the value is an object, has a member of this name, and that member
/// holds a string; it is `None` in every other case.
#[verifier::external_body]
fn text_member(v: &serde_json::Value, name: &str) -> (r: Option<String>)
    ensures
        match r {
            Some(t) => member(text_members(*v), name@) == Some(t@),
            None => member(text_members(*v), name@).is_none(),
        },
{
    v[name].as_str().map(|t| t.to_owned())
}

/// What a map holds under a name, if it holds anything there.
pub open spec fn member<T>(members: Map<Seq<char>, T>, name: Seq<char>) -> Option<T> {
    if members.contains_key(name) {
        Some(members[name])
    } else {
        None
    }
}

/// The window that a JSON value describes. The id, the workspace id and
/// the two flags are required; the application identifier and the title
/// are taken where they are strings.
pub open spec fn window_of(v: serde_json::Value) -> Option<WindowView> {
    match (
        member(integer_members(v), "id"@),
        member(integer_members(v), "workspace_id"@),
        member(boolean_members(v), "is_focused"@),
        member(boolean_members(v), "is_floating"@),
    ) {
        (Some(id), Some(workspace_id), Some(is_focused), Some(is_floating)) => Some(
            WindowView {
                id,
                app_id: member(text_members(v), "app_id"@),
                title: member(text_members(v), "title"@),
                workspace_id,
                is_focused,
                is_floating,
            },
        ),
        _ => None,
    }
}

/// The workspace that a JSON value describes. All four attributes are
/// required.
pub open spec fn workspace_of(v: serde_json::Value) -> Option<WorkspaceView> {
    match (
        member(integer_members(v), "id"@),
        member(integer_members(v), "idx"@),
        member(text_members(v), "output"@),
        member(boolean_members(v), "is_focused"@),
    ) {
        (Some(id), Some(idx), Some(output), Some(is_focused)) => Some(
            WorkspaceView { id, idx, output, is_focused },
        ),
        _ => None,
    }
}

/// The windows that a list of JSON values describes, in order; `None` where
/// one of the values describes no window.
pub open spec fn windows_of(values: Seq<serde_json::Value>) -> Option<Seq<WindowView>> {
    if forall|i: int| 0 <= i < values.len() ==> window_of(#[trigger] values[i]).is_some() {
        Some(values.map_values(|v: serde_json::Value| window_of(v).unwrap()))
    } else {
        None
    }
}

/// The workspaces that a list of JSON values describes, in order; `None`
/// where one of the values describes no workspace.
pub open spec fn workspaces_of(values: Seq<serde_json::Value>) -> Option<Seq<WorkspaceView>> {
    if forall|i: int| 0 <= i < values.len() ==> workspace_of(#[trigger] values[i]).is_some() {
        Some(values.map_values(|v: serde_json::Value| workspace_of(v).unwrap()))
    } else {
        None
    }
}

/// The snapshot of the windows that a byte string spells.
pub open spec fn decoded_windows(bytes: Seq<u8>) -> Option<Seq<WindowView>> {
    match parsed_array(bytes) {
        Some(values) => windows_of(values),
        None => None,
    }
}

/// The snapshot of the workspaces that a byte string spells.
pub open spec fn decoded_workspaces(bytes: Seq<u8>) -> Option<Seq<WorkspaceView>> {
    match parsed_array(bytes) {
        Some(values) => workspaces_of(values),
        None => None,
    }
}

/// Reads one window out of a JSON value.
pub fn window_from_value(v: &serde_json::Value) -> (r: Option<Window>)
    ensures
        match r {
            Some(w) => window_of(*v) == Some(w@),
            None => window_of(*v).is_none(),
        },
{
    let id = integer_member(v, "id");
    let workspace_id = integer_member(v, "workspace_id");
    let is_focused = boolean_member(v, "is_focused");
    let is_floating = boolean_member(v, "is_floating");
    match (id, workspace_id, is_focused, is_floating) {
        (Some(id), Some(workspace_id), Some(is_focused), Some(is_floating)) => Some(
            Window {
                id,
                app_id: text_member(v, "app_id"),
                title: text_member(v, "title"),
                workspace_id,
                is_focused,
                is_floating,
            },
        ),
        _ => None,
    }
}

/// Reads one workspace out of a JSON value.
pub fn workspace_from_value(v: &serde_json::Value) -> (r: Option<Workspace>)
    ensures
        match r {
            Some(w) => workspace_of(*v) == Some(w@),
            None => workspace_of(*v).is_none(),
        },
{
    let id = integer_member(v, "id");
    let idx = integer_member(v, "idx");
    let output = text_member(v, "output");
    let is_focused = boolean_member(v, "is_focused");
    match (id, idx, output, is_focused) {
        (Some(id), Some(idx), Some(output), Some(is_focused)) => Some(
            Workspace { id, idx, output, is_focused },
        ),
        _ => None,
    }
}

/// Reads the windows out of a list of JSON values.
pub fn windows_from_values(values: &Vec<serde_json::Value>) -> (r: Option<Vec<Window>>)
    ensures
        match r {
            Some(windows) => windows_of(values@) == Some(window_views(windows@)),
            None => windows_of(values@).is_none(),
        },
{
    let mut windows: Vec<Window> = Vec::new();
    let mut i: usize = 0;
    while i < values.len()
        invariant
            i <= values.len(),
            windows.len() == i,
            forall|k: int| 0 <= k < i ==> window_of(#[trigger] values@[k]) == Some(windows@[k]@),
        decreases values.len() - i,
    {
        match window_from_value(&values[i]) {
            Some(w) => windows.push(w),
            None => {
                return None;
            },
        }
        i += 1;
    }
    assert(windows_of(values@).unwrap() =~= window_views(windows@));
    Some(windows)
}

/// Reads the workspaces out of a list of JSON values.
pub fn workspaces_from_values(values: &Vec<serde_json::Value>) -> (r: Option<Vec<Workspace>>)
    ensures
        match r {
            Some(workspaces) => workspaces_of(values@) == Some(workspace_views(workspaces@)),
            None => workspaces_of(values@).is_none(),
        },
{
    let mut workspaces: Vec<Workspace> = Vec::new();
    let mut i: usize = 0;
    while i < values.len()
        invariant
            i <= values.len(),
            workspaces.len() == i,
            forall|k: int|
                0 <= k < i ==> workspace_of(#[trigger] values@[k]) == Some(workspaces@[k]@),
        decreases values.len() - i,
    {
        match workspace_from_value(&values[i]) {
            Some(w) => workspaces.push(w),
            None => {
                return None;
            },
        }
        i += 1;
    }
    assert(workspaces_of(values@).unwrap() =~= workspace_views(workspaces@));
    Some(workspaces)
}

/// Reads the snapshot of the windows out of the compositor's answer;
/// `None` where the answer is no JSON array of windows.
pub fn parse_windows(bytes: &[u8]) -> (r: Option<Vec<Window>>)
    ensures
        match r {
            Some(windows) => decoded_windows(bytes@) == Some(window_views(windows@)),
            None => decoded_windows(bytes@).is_none(),
        },
{
    match parse_array(bytes) {
        Some(values) => windows_from_values(&values),
        None => None,
    }
}

/// Reads the snapshot of the workspaces out of the compositor's answer;
/// `None` where the answer is no JSON array of workspaces.
pub fn parse_workspaces(bytes: &[u8]) -> (r: Option<Vec<Workspace>>)
    ensures
        match r {
            Some(workspaces) => decoded_workspaces(bytes@) == Some(workspace_views(workspaces@)),
            None => decoded_workspaces(bytes@).is_none(),
        },
{
    match parse_array(bytes) {
        Some(values) => workspaces_from_values(&values),
        None => None,
    }
}

} // verus!
