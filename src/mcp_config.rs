//! Edits of the desktop assistant's configuration document: its
//! `mcpServers` object and the WayStation server entry in it.
use vstd::prelude::*;
use crate::json::{
    find_member, json_view, lemma_array_view, lemma_object_view, member, member_from, members_view, JsonValue, JsonView,
};

verus! {

/// The position of the first member named `key` at or after `i`, or the
/// length when there is none.
pub open spec fn index_from(ms: Seq<(Seq<char>, JsonView)>, key: Seq<char>, i: int) -> int
    decreases ms.len() - i,
{
    if i < 0 || i >= ms.len() {
        ms.len() as int
    } else if ms[i].0 == key {
        i
    } else {
        index_from(ms, key, i + 1)
    }
}

/// The members with `key` set to `v`: the first member of that name is
/// replaced in place, or a new one is appended.
pub open spec fn with_member(ms: Seq<(Seq<char>, JsonView)>, key: Seq<char>, v: JsonView) -> Seq<
    (Seq<char>, JsonView),
> {
    let i = index_from(ms, key, 0);
    if i < ms.len() {
        ms.update(i, (key, v))
    } else {
        ms.push((key, v))
    }
}

/// The members without the first one named `key`.
pub open spec fn without_member(ms: Seq<(Seq<char>, JsonView)>, key: Seq<char>) -> Seq<
    (Seq<char>, JsonView),
> {
    let i = index_from(ms, key, 0);
    if i < ms.len() {
        ms.remove(i)
    } else {
        ms
    }
}

/// The first member named `key` is the one `index_from` finds.
pub proof fn lemma_index_from(ms: Seq<(Seq<char>, JsonView)>, key: Seq<char>, i: int)
    requires
        0 <= i <= ms.len(),
    ensures
        i <= index_from(ms, key, i) <= ms.len(),
        index_from(ms, key, i) < ms.len() ==> ms[index_from(ms, key, i)].0 == key
            && member_from(ms, key, i) == Some(ms[index_from(ms, key, i)].1),
        index_from(ms, key, i) == ms.len() ==> member_from(ms, key, i) is None,
    decreases ms.len() - i,
{
    if i < ms.len() && ms[i].0 != key {
        lemma_index_from(ms, key, i + 1);
    }
}

/// The entry that runs the WayStation MCP server through `npx`.
pub open spec fn waystation_entry_json() -> JsonView {
    JsonView::Object(
        seq![
            ("command"@, JsonView::Str("npx"@)),
            ("args"@, JsonView::Array(seq![JsonView::Str("-y"@), JsonView::Str("@waystation/mcp"@)])),
        ],
    )
}

/// The document with an `mcpServers` object: a document that is not an
/// object becomes `{"mcpServers": {}}`; an object whose `mcpServers` is
/// missing or not an object gets an empty one; any other is kept.
pub open spec fn mcp_servers_ensured(j: JsonView) -> JsonView {
    match j {
        JsonView::Object(ms) => match member(ms, "mcpServers"@) {
            Some(JsonView::Object(_)) => j,
            _ => JsonView::Object(with_member(ms, "mcpServers"@, JsonView::Object(Seq::empty()))),
        },
        _ => JsonView::Object(seq![("mcpServers"@, JsonView::Object(Seq::empty()))]),
    }
}

/// The members of the document's `mcpServers` object, if it has one.
pub open spec fn mcp_servers_of(j: JsonView) -> Option<Seq<(Seq<char>, JsonView)>> {
    match j {
        JsonView::Object(ms) => match member(ms, "mcpServers"@) {
            Some(JsonView::Object(servers)) => Some(servers),
            _ => None,
        },
        _ => None,
    }
}

/// The document with its `mcpServers` object replaced by `servers`.
pub open spec fn with_mcp_servers(j: JsonView, servers: Seq<(Seq<char>, JsonView)>) -> JsonView {
    match j {
        JsonView::Object(ms) => JsonView::Object(
            with_member(ms, "mcpServers"@, JsonView::Object(servers)),
        ),
        _ => j,
    }
}

/// Finds the position of the first member named `key`, or the length.
pub fn member_index(ms: &Vec<(String, JsonValue)>, key: &str) -> (r: usize)
    ensures
        r as int == index_from(members_view(ms@), key@, 0),
        r <= ms.len(),
{
    let ghost mv = members_view(ms@);
    let wanted = key.to_owned();
    let mut i: usize = 0;
    while i < ms.len()
        invariant
            0 <= i <= ms.len(),
            mv == members_view(ms@),
            wanted@ == key@,
            index_from(mv, key@, 0) == index_from(mv, key@, i as int),
        decreases ms.len() - i,
    {
        if ms[i].0 == wanted {
            return i;
        }
        i = i + 1;
    }
    i
}

/// Sets member `key` to `value`, in place of the first member of that name
/// or appended.
pub fn set_member(ms: &mut Vec<(String, JsonValue)>, key: &str, value: JsonValue)
    ensures
        members_view(final(ms)@) == with_member(members_view(old(ms)@), key@, value@),
{
    let i = member_index(ms, key);
    if i < ms.len() {
        ms.remove(i);
        ms.insert(i, (key.to_owned(), value));
        assert(members_view(final(ms)@) =~= members_view(old(ms)@).update(i as int, (key@, value@)));
    } else {
        ms.push((key.to_owned(), value));
        assert(members_view(final(ms)@) =~= members_view(old(ms)@).push((key@, value@)));
    }
}

/// Removes the first member named `key`; tells whether there was one.
pub fn remove_member(ms: &mut Vec<(String, JsonValue)>, key: &str) -> (r: bool)
    ensures
        r == (index_from(members_view(old(ms)@), key@, 0) < old(ms)@.len()),
        members_view(final(ms)@) == without_member(members_view(old(ms)@), key@),
{
    let i = member_index(ms, key);
    if i < ms.len() {
        ms.remove(i);
        assert(members_view(final(ms)@) =~= members_view(old(ms)@).remove(i as int));
        true
    } else {
        false
    }
}

/// An empty object.
fn empty_object() -> (r: JsonValue)
    ensures
        r@ == JsonView::Object(Seq::empty()),
{
    let ms: Vec<(String, JsonValue)> = Vec::new();
    proof {
        lemma_object_view(ms);
        assert(members_view(ms@) =~= Seq::empty());
    }
    JsonValue::Object(ms)
}

/// The entry that runs the WayStation MCP server.
pub fn waystation_entry() -> (r: JsonValue)
    ensures
        r@ == waystation_entry_json(),
{
    let mut args: Vec<JsonValue> = Vec::new();
    args.push(JsonValue::Str("-y".to_owned()));
    args.push(JsonValue::Str("@waystation/mcp".to_owned()));
    let args_value = JsonValue::Array(args);
    proof {
        lemma_array_view(args);
        assert(args@.map_values(|x: JsonValue| json_view(x)) =~= seq![
            JsonView::Str("-y"@),
            JsonView::Str("@waystation/mcp"@),
        ]);
    }
    let mut ms: Vec<(String, JsonValue)> = Vec::new();
    ms.push(("command".to_owned(), JsonValue::Str("npx".to_owned())));
    ms.push(("args".to_owned(), args_value));
    proof {
        lemma_object_view(ms);
        assert(members_view(ms@) =~= seq![
            ("command"@, JsonView::Str("npx"@)),
            ("args"@, JsonView::Array(seq![JsonView::Str("-y"@), JsonView::Str("@waystation/mcp"@)])),
        ]);
    }
    JsonValue::Object(ms)
}

/// Makes sure the document has an `mcpServers` object.
pub fn ensure_mcp_servers(config_json: &mut JsonValue) -> (r: Result<(), String>)
    ensures
        r is Ok,
        final(config_json)@ == mcp_servers_ensured(old(config_json)@),
{
    let mut taken = JsonValue::Null;
    std::mem::swap(config_json, &mut taken);
    let result = match taken {
        JsonValue::Object(mut ms) => {
            proof {
                lemma_object_view(ms);
            }
            let has_object = match find_member(&ms, "mcpServers") {
                Some(JsonValue::Object(_)) => true,
                _ => false,
            };
            if !has_object {
                set_member(&mut ms, "mcpServers", empty_object());
            }
            proof {
                lemma_object_view(ms);
            }
            JsonValue::Object(ms)
        },
        _ => {
            let mut ms: Vec<(String, JsonValue)> = Vec::new();
            ms.push(("mcpServers".to_owned(), empty_object()));
            proof {
                lemma_object_view(ms);
                assert(members_view(ms@) =~= seq![("mcpServers"@, JsonView::Object(Seq::empty()))]);
            }
            JsonValue::Object(ms)
        },
    };
    *config_json = result;
    Ok(())
}

/// Sets member `key` of the document's `mcpServers` object to `entry`, or
/// removes it when `entry` is `None`. `None` when the document has no such
/// object (it is left as it was); otherwise whether the member was set or
/// found.
fn edit_mcp_servers(config_json: &mut JsonValue, key: &str, entry: Option<JsonValue>) -> (r: Option<
    bool,
>)
    ensures
        match mcp_servers_of(old(config_json)@) {
            None => r is None && final(config_json)@ == old(config_json)@,
            Some(servers) => match entry {
                Some(e) => r == Some(true) && final(config_json)@ == with_mcp_servers(
                    old(config_json)@,
                    with_member(servers, key@, e@),
                ),
                None => r == Some(index_from(servers, key@, 0) < servers.len())
                    && final(config_json)@ == with_mcp_servers(
                    old(config_json)@,
                    without_member(servers, key@),
                ),
            },
        },
{
    let mut taken = JsonValue::Null;
    std::mem::swap(config_json, &mut taken);
    let (result, outcome) = match taken {
        JsonValue::Object(mut ms) => {
            proof {
                lemma_object_view(ms);
            }
            let ghost old_ms = ms@;
            let i = member_index(&ms, "mcpServers");
            proof {
                lemma_index_from(members_view(ms@), "mcpServers"@, 0);
            }
            if i < ms.len() {
                let (name, value) = ms.remove(i);
                match value {
                    JsonValue::Object(mut servers) => {
                        proof {
                            lemma_object_view(servers);
                        }
                        let found = match entry {
                            Some(e) => {
                                set_member(&mut servers, key, e);
                                true
                            },
                            None => remove_member(&mut servers, key),
                        };
                        proof {
                            lemma_object_view(servers);
                        }
                        ms.insert(i, (name, JsonValue::Object(servers)));
                        proof {
                            assert(members_view(ms@) =~= members_view(old_ms).update(
                                i as int,
                                ("mcpServers"@, JsonValue::Object(servers)@),
                            ));
                            lemma_object_view(ms);
                        }
                        (JsonValue::Object(ms), Some(found))
                    },
                    other => {
                        ms.insert(i, (name, other));
                        proof {
                            assert(ms@ =~= old_ms);
                        }
                        (JsonValue::Object(ms), None)
                    },
                }
            } else {
                (JsonValue::Object(ms), None)
            }
        },
        other => (other, None),
    };
    *config_json = result;
    outcome
}

/// Adds the WayStation entry to the document's `mcpServers` object,
/// replacing an earlier one. Tells whether the document had such an object;
/// one without it is left as it was.
pub fn add_waystation_server(config_json: &mut JsonValue) -> (r: bool)
    ensures
        r == mcp_servers_of(old(config_json)@) is Some,
        r ==> final(config_json)@ == with_mcp_servers(
            old(config_json)@,
            with_member(mcp_servers_of(old(config_json)@)->Some_0, "WayStation"@, waystation_entry_json()),
        ),
        !r ==> final(config_json)@ == old(config_json)@,
{
    let outcome = edit_mcp_servers(config_json, "WayStation", Some(waystation_entry()));
    outcome.is_some()
}

/// Removes the WayStation entry from the document's `mcpServers` object.
/// `None` when the document has no such object (it is left as it was);
/// otherwise whether an entry was removed.
pub fn remove_waystation_server(config_json: &mut JsonValue) -> (r: Option<bool>)
    ensures
        match mcp_servers_of(old(config_json)@) {
            None => r is None && final(config_json)@ == old(config_json)@,
            Some(servers) => r == Some(index_from(servers, "WayStation"@, 0) < servers.len())
                && final(config_json)@ == with_mcp_servers(
                old(config_json)@,
                without_member(servers, "WayStation"@),
            ),
        },
{
    edit_mcp_servers(config_json, "WayStation", None)
}

} // verus!
