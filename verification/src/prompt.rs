//! Finding the prompt that an image generator left in the metadata of an
//! image.
//!
//! Generators write what they were asked to draw into the file in more than
//! one way: as plain text, as a JSON document that describes a workflow of
//! nodes, or as a JSON document in some other shape. The functions of this
//! module look through a parsed JSON document for the text that is most
//! likely the prompt. Parsing is left to the program, which hands over the
//! document as a `Json` value.

use vstd::prelude::*;
use vstd::utf8::encode_utf8;
use crate::text::{
    contains, copy_range, find_byte, occurs_at, opens_brace, replace_pair, skip_prefix,
    spec_contains, spec_find_byte, spec_occurs_at, spec_opens_brace, spec_replace_pair,
    spec_skip_prefix, spec_starts_with, spec_strip_byte, spec_tail, spec_trim, starts_with,
    strip_byte, trim,
};

verus! {

/// A member of a JSON object.
#[derive(Debug, PartialEq, Eq)]
pub struct Member {
    pub key: String,
    pub value: Json,
}

/// A JSON document. Numbers are kept without their value, which plays no
/// part in the search. The members of an object stand in the order in which
/// the parser hands them out.
#[derive(Debug, PartialEq, Eq)]
pub enum Json {
    Null,
    Bool(bool),
    Number,
    Text(String),
    Array(Vec<Json>),
    Object(Vec<Member>),
}

/// What `str::to_lowercase` makes of a text.
pub uninterp spec fn spec_lowercase(text: Seq<char>) -> Seq<char>;

/// Calls `str::to_lowercase`, which gives the text in lower case as Unicode
/// defines it. The result is a function of the text.
#[verifier::external_body]
fn str_to_lowercase(text: &str) -> (lower: String)
    ensures
        lower@ == spec_lowercase(text@),
{
    text.to_lowercase()
}

/// Position of the first member with the given key, from `from` on.
pub open spec fn spec_member_index(members: Seq<Member>, key: Seq<char>, from: int) -> Option<int>
    decreases members.len() - from,
{
    if from < 0 || from >= members.len() {
        None
    } else if members[from].key@ == key {
        Some(from)
    } else {
        spec_member_index(members, key, from + 1)
    }
}

/// The value of the member with the given key, if the document is an
/// object that has one.
pub open spec fn spec_get(json: Json, key: Seq<char>) -> Option<Json> {
    match json {
        Json::Object(members) => match spec_member_index(members@, key, 0) {
            Some(at) => Some(members@[at].value),
            None => None,
        },
        _ => None,
    }
}

/// Whether a node of a workflow holds text: its type names a text encoder
/// or has `Text` in it.
pub open spec fn spec_is_prompt_node(node: Json) -> bool {
    match spec_get(node, "type"@) {
        Some(Json::Text(kind)) => spec_contains(encode_utf8(kind@), encode_utf8("CLIPTextEncode"@))
            || spec_contains(encode_utf8(kind@), encode_utf8("Text"@)),
        _ => false,
    }
}

/// The first text of more than `longer_than` bytes among the values, from
/// `from` on.
pub open spec fn spec_first_long_text(values: Seq<Json>, longer_than: int, from: int) -> Option<
    Seq<char>,
>
    decreases values.len() - from,
{
    if from < 0 || from >= values.len() {
        None
    } else {
        match values[from] {
            Json::Text(text) => if encode_utf8(text@).len() > longer_than {
                Some(text@)
            } else {
                spec_first_long_text(values, longer_than, from + 1)
            },
            _ => spec_first_long_text(values, longer_than, from + 1),
        }
    }
}

/// The prompt of a workflow node: the first of its widget values that is a
/// text of more than ten bytes, if the node holds text.
pub open spec fn spec_node_prompt(node: Json) -> Option<Seq<char>> {
    if spec_is_prompt_node(node) {
        match spec_get(node, "widgets_values"@) {
            Some(Json::Array(values)) => spec_first_long_text(values@, 10, 0),
            _ => None,
        }
    } else {
        None
    }
}

/// The prompt of the first node that has one, from `from` on.
pub open spec fn spec_nodes_prompt(nodes: Seq<Json>, from: int) -> Option<Seq<char>>
    decreases nodes.len() - from,
{
    if from < 0 || from >= nodes.len() {
        None
    } else {
        match spec_node_prompt(nodes[from]) {
            Some(prompt) => Some(prompt),
            None => spec_nodes_prompt(nodes, from + 1),
        }
    }
}

/// The prompt of a document that lists the nodes of a workflow, under
/// `nodes` or, without that, under `prompt`.
pub open spec fn spec_workflow_prompt(json: Json) -> Option<Seq<char>> {
    let nodes = match spec_get(json, "nodes"@) {
        Some(found) => Some(found),
        None => spec_get(json, "prompt"@),
    };
    match nodes {
        Some(Json::Array(list)) => spec_nodes_prompt(list@, 0),
        _ => None,
    }
}

/// The text input of a node definition, if it is longer than twenty bytes.
pub open spec fn spec_input_text(definition: Json) -> Option<Seq<char>> {
    match spec_get(definition, "inputs"@) {
        Some(inputs) => match spec_get(inputs, "text"@) {
            Some(Json::Text(text)) => if encode_utf8(text@).len() > 20 {
                Some(text@)
            } else {
                None
            },
            _ => None,
        },
        None => None,
    }
}

/// The text input of the first member that has one, from `from` on.
pub open spec fn spec_inputs_prompt(members: Seq<Member>, from: int) -> Option<Seq<char>>
    decreases members.len() - from,
{
    if from < 0 || from >= members.len() {
        None
    } else {
        match spec_input_text(members[from].value) {
            Some(text) => Some(text),
            None => spec_inputs_prompt(members, from + 1),
        }
    }
}

/// The prompt of a document that maps node names to node definitions.
pub open spec fn spec_api_prompt(json: Json) -> Option<Seq<char>> {
    match json {
        Json::Object(members) => spec_inputs_prompt(members@, 0),
        _ => None,
    }
}

/// The prompt of a document that holds it as the text under `prompt`.
pub open spec fn spec_plain_prompt(json: Json) -> Option<Seq<char>> {
    match spec_get(json, "prompt"@) {
        Some(Json::Text(prompt)) => Some(prompt@),
        _ => None,
    }
}

/// Whether a text reads like a prompt: it is longer than twenty bytes and,
/// in lower case, holds one of the words that prompts are fond of.
pub open spec fn spec_reads_like_prompt(text: Seq<char>) -> bool {
    let lower = encode_utf8(spec_lowercase(text));
    &&& encode_utf8(text).len() > 20
    &&& (spec_contains(lower, encode_utf8("masterpiece"@)) || spec_contains(
        lower,
        encode_utf8("best quality"@),
    ) || spec_contains(lower, encode_utf8("8k"@)) || spec_contains(
        lower,
        encode_utf8("ultra detailed"@),
    ) || spec_contains(lower, encode_utf8("photorealistic"@)) || spec_contains(
        lower,
        encode_utf8("render"@),
    ))
}

/// The keys under which a prompt is looked for first, in this order.
pub open spec fn spec_likely_key(which: int) -> Seq<char> {
    if which == 0 {
        "prompt"@
    } else if which == 1 {
        "text"@
    } else if which == 2 {
        "description"@
    } else {
        "positive"@
    }
}

/// The first text anywhere in the document that reads like a prompt. In an
/// object the members with a likely key are searched first, then all
/// members in order; in an array the elements in order.
pub open spec fn spec_find_prompt(json: Json) -> Option<Seq<char>>
    decreases json, 0int,
{
    match json {
        Json::Text(text) => if spec_reads_like_prompt(text@) {
            Some(text@)
        } else {
            None
        },
        Json::Object(members) => match spec_find_by_key(members, 0) {
            Some(found) => Some(found),
            None => spec_find_in_members(members, 0),
        },
        Json::Array(items) => spec_find_in_items(items, 0),
        _ => None,
    }
}

/// The first prompt found under one of the likely keys, from the key with
/// number `which` on.
pub open spec fn spec_find_by_key(members: Vec<Member>, which: int) -> Option<Seq<char>>
    decreases members, 4 - which,
{
    if which < 0 || which >= 4 {
        None
    } else {
        match spec_member_index(members@, spec_likely_key(which), 0) {
            Some(at) => if 0 <= at < members.len() {
                match spec_find_prompt(members[at].value) {
                    Some(found) => Some(found),
                    None => spec_find_by_key(members, which + 1),
                }
            } else {
                spec_find_by_key(members, which + 1)
            },
            None => spec_find_by_key(members, which + 1),
        }
    }
}

/// The first prompt found in the value of a member, from member `from` on.
pub open spec fn spec_find_in_members(members: Vec<Member>, from: int) -> Option<Seq<char>>
    decreases members, members.len() - from,
{
    if from < 0 || from >= members.len() {
        None
    } else {
        match spec_find_prompt(members[from].value) {
            Some(found) => Some(found),
            None => spec_find_in_members(members, from + 1),
        }
    }
}

/// The first prompt found in an element, from element `from` on.
pub open spec fn spec_find_in_items(items: Vec<Json>, from: int) -> Option<Seq<char>>
    decreases items, items.len() - from,
{
    if from < 0 || from >= items.len() {
        None
    } else {
        match spec_find_prompt(items[from]) {
            Some(found) => Some(found),
            None => spec_find_in_items(items, from + 1),
        }
    }
}

/// The prompt of a document: that of a workflow, else that of a map of node
/// definitions, else the text under `prompt`, else the first text that
/// reads like a prompt.
pub open spec fn spec_extract_prompt(json: Json) -> Option<Seq<char>> {
    match spec_workflow_prompt(json) {
        Some(prompt) => Some(prompt),
        None => match spec_api_prompt(json) {
            Some(prompt) => Some(prompt),
            None => match spec_plain_prompt(json) {
                Some(prompt) => Some(prompt),
                None => spec_find_prompt(json),
            },
        },
    }
}

/// The text of an optional string.
pub open spec fn spec_some_text(found: Option<String>) -> Option<Seq<char>> {
    match found {
        Some(text) => Some(text@),
        None => None,
    }
}

/// The value of the member of `json` with the given key.
pub fn get<'a>(json: &'a Json, key: &str) -> (value: Option<&'a Json>)
    ensures
        match value {
            Some(found) => spec_get(*json, key@) == Some(*found),
            None => spec_get(*json, key@) is None,
        },
{
    match json {
        Json::Object(members) => {
            let mut at: usize = 0;
            while at < members.len()
                invariant
                    at <= members.len(),
                    *json == Json::Object(*members),
                    spec_member_index(members@, key@, 0) == spec_member_index(
                        members@,
                        key@,
                        at as int,
                    ),
                decreases members.len() - at,
            {
                if crate::paths::str_eq(members[at].key.as_str(), key) {
                    return Some(&members[at].value);
                }
                at = at + 1;
            }
            None
        },
        _ => None,
    }
}

/// Whether a node of a workflow holds text.
pub fn is_prompt_node(node: &Json) -> (holds: bool)
    ensures
        holds == spec_is_prompt_node(*node),
{
    match get(node, "type") {
        Some(Json::Text(kind)) => contains(kind.as_str().as_bytes(), "CLIPTextEncode".as_bytes())
            || contains(kind.as_str().as_bytes(), "Text".as_bytes()),
        _ => false,
    }
}

/// The first text of more than `longer_than` bytes among the values.
pub fn first_long_text(values: &Vec<Json>, longer_than: usize) -> (found: Option<String>)
    ensures
        spec_some_text(found) == spec_first_long_text(values@, longer_than as int, 0),
{
    let mut at: usize = 0;
    while at < values.len()
        invariant
            at <= values.len(),
            spec_first_long_text(values@, longer_than as int, 0) == spec_first_long_text(
                values@,
                longer_than as int,
                at as int,
            ),
        decreases values.len() - at,
    {
        match &values[at] {
            Json::Text(text) => {
                if text.as_str().as_bytes().len() > longer_than {
                    return Some(text.clone());
                }
            },
            _ => {},
        }
        at = at + 1;
    }
    None
}

/// The prompt of a workflow node.
pub fn node_prompt(node: &Json) -> (found: Option<String>)
    ensures
        spec_some_text(found) == spec_node_prompt(*node),
{
    if is_prompt_node(node) {
        match get(node, "widgets_values") {
            Some(Json::Array(values)) => first_long_text(values, 10),
            _ => None,
        }
    } else {
        None
    }
}

/// The prompt of a document that lists the nodes of a workflow.
pub fn workflow_prompt(json: &Json) -> (found: Option<String>)
    ensures
        spec_some_text(found) == spec_workflow_prompt(*json),
{
    let nodes = match get(json, "nodes") {
        Some(found) => Some(found),
        None => get(json, "prompt"),
    };
    match nodes {
        Some(Json::Array(list)) => {
            let mut at: usize = 0;
            while at < list.len()
                invariant
                    at <= list.len(),
                    spec_workflow_prompt(*json) == spec_nodes_prompt(list@, 0),
                    spec_nodes_prompt(list@, 0) == spec_nodes_prompt(list@, at as int),
                decreases list.len() - at,
            {
                match node_prompt(&list[at]) {
                    Some(prompt) => {
                        return Some(prompt);
                    },
                    None => {},
                }
                at = at + 1;
            }
            None
        },
        _ => None,
    }
}

/// The text input of a node definition, if it is longer than twenty bytes.
pub fn input_text(definition: &Json) -> (found: Option<String>)
    ensures
        spec_some_text(found) == spec_input_text(*definition),
{
    match get(definition, "inputs") {
        Some(inputs) => match get(inputs, "text") {
            Some(Json::Text(text)) => if text.as_str().as_bytes().len() > 20 {
                Some(text.clone())
            } else {
                None
            },
            _ => None,
        },
        None => None,
    }
}

/// The prompt of a document that maps node names to node definitions.
pub fn api_prompt(json: &Json) -> (found: Option<String>)
    ensures
        spec_some_text(found) == spec_api_prompt(*json),
{
    match json {
        Json::Object(members) => {
            let mut at: usize = 0;
            while at < members.len()
                invariant
                    at <= members.len(),
                    *json == Json::Object(*members),
                    spec_inputs_prompt(members@, 0) == spec_inputs_prompt(members@, at as int),
                decreases members.len() - at,
            {
                match input_text(&members[at].value) {
                    Some(text) => {
                        return Some(text);
                    },
                    None => {},
                }
                at = at + 1;
            }
            None
        },
        _ => None,
    }
}

/// The prompt of a document that holds it as the text under `prompt`.
pub fn plain_prompt(json: &Json) -> (found: Option<String>)
    ensures
        spec_some_text(found) == spec_plain_prompt(*json),
{
    match get(json, "prompt") {
        Some(Json::Text(prompt)) => Some(prompt.clone()),
        _ => None,
    }
}

/// Whether a text reads like a prompt.
pub fn reads_like_prompt(text: &str) -> (likely: bool)
    ensures
        likely == spec_reads_like_prompt(text@),
{
    if text.as_bytes().len() <= 20 {
        return false;
    }
    let lowered = str_to_lowercase(text);
    let lower = lowered.as_str().as_bytes();
    contains(lower, "masterpiece".as_bytes()) || contains(lower, "best quality".as_bytes())
        || contains(lower, "8k".as_bytes()) || contains(lower, "ultra detailed".as_bytes())
        || contains(lower, "photorealistic".as_bytes()) || contains(lower, "render".as_bytes())
}

/// One of the keys under which a prompt is looked for first.
fn likely_key(which: usize) -> (key: &'static str)
    ensures
        key@ == spec_likely_key(which as int),
{
    if which == 0 {
        "prompt"
    } else if which == 1 {
        "text"
    } else if which == 2 {
        "description"
    } else {
        "positive"
    }
}

/// Position of the first member with the given key.
fn member_index(members: &Vec<Member>, key: &str) -> (found: Option<usize>)
    ensures
        match found {
            Some(at) => spec_member_index(members@, key@, 0) == Some(at as int) && at
                < members.len(),
            None => spec_member_index(members@, key@, 0) is None,
        },
{
    let mut at: usize = 0;
    while at < members.len()
        invariant
            at <= members.len(),
            spec_member_index(members@, key@, 0) == spec_member_index(members@, key@, at as int),
        decreases members.len() - at,
    {
        if crate::paths::str_eq(members[at].key.as_str(), key) {
            return Some(at);
        }
        at = at + 1;
    }
    None
}

/// The first text anywhere in the document that reads like a prompt.
pub fn find_prompt_in_value(json: &Json) -> (found: Option<String>)
    ensures
        spec_some_text(found) == spec_find_prompt(*json),
    decreases json,
{
    match json {
        Json::Text(text) => if reads_like_prompt(text.as_str()) {
            Some(text.clone())
        } else {
            None
        },
        Json::Object(members) => {
            let mut which: usize = 0;
            while which < 4
                invariant
                    which <= 4,
                    *json == Json::Object(*members),
                    spec_find_by_key(*members, 0) == spec_find_by_key(*members, which as int),
                decreases 4 - which,
            {
                match member_index(members, likely_key(which)) {
                    Some(at) => {
                        match find_prompt_in_value(&members[at].value) {
                            Some(prompt) => {
                                return Some(prompt);
                            },
                            None => {},
                        }
                    },
                    None => {},
                }
                which = which + 1;
            }
            let mut at: usize = 0;
            while at < members.len()
                invariant
                    at <= members.len(),
                    *json == Json::Object(*members),
                    spec_find_by_key(*members, 0) is None,
                    spec_find_in_members(*members, 0) == spec_find_in_members(
                        *members,
                        at as int,
                    ),
                decreases members.len() - at,
            {
                match find_prompt_in_value(&members[at].value) {
                    Some(prompt) => {
                        return Some(prompt);
                    },
                    None => {},
                }
                at = at + 1;
            }
            None
        },
        Json::Array(items) => {
            let mut at: usize = 0;
            while at < items.len()
                invariant
                    at <= items.len(),
                    *json == Json::Array(*items),
                    spec_find_in_items(*items, 0) == spec_find_in_items(*items, at as int),
                decreases items.len() - at,
            {
                match find_prompt_in_value(&items[at]) {
                    Some(prompt) => {
                        return Some(prompt);
                    },
                    None => {},
                }
                at = at + 1;
            }
            None
        },
        _ => None,
    }
}

/// The prompt of a document, if one is found in it.
pub fn extract_comfyui_prompt(json: &Json) -> (found: Option<String>)
    ensures
        spec_some_text(found) == spec_extract_prompt(*json),
{
    match workflow_prompt(json) {
        Some(prompt) => Some(prompt),
        None => match api_prompt(json) {
            Some(prompt) => Some(prompt),
            None => match plain_prompt(json) {
                Some(prompt) => Some(prompt),
                None => find_prompt_in_value(json),
            },
        },
    }
}

/// The first prompt found in one of the documents, in order. A document
/// that is absent, because its text did not parse, is passed over.
pub open spec fn spec_first_extracted(parsed: Seq<Option<Json>>, from: int) -> Option<Seq<char>>
    decreases parsed.len() - from,
{
    if from < 0 || from >= parsed.len() {
        None
    } else {
        match parsed[from] {
            Some(json) => match spec_extract_prompt(json) {
                Some(prompt) => Some(prompt),
                None => spec_first_extracted(parsed, from + 1),
            },
            None => spec_first_extracted(parsed, from + 1),
        }
    }
}

/// The first prompt found in one of the documents, in order.
pub fn first_extracted(parsed: &Vec<Option<Json>>) -> (found: Option<String>)
    ensures
        spec_some_text(found) == spec_first_extracted(parsed@, 0),
{
    let mut at: usize = 0;
    while at < parsed.len()
        invariant
            at <= parsed.len(),
            spec_first_extracted(parsed@, 0) == spec_first_extracted(parsed@, at as int),
        decreases parsed.len() - at,
    {
        match &parsed[at] {
            Some(json) => {
                match extract_comfyui_prompt(json) {
                    Some(prompt) => {
                        return Some(prompt);
                    },
                    None => {},
                }
            },
            None => {},
        }
        at = at + 1;
    }
    None
}

/// A chunk of a PNG file: its four-letter kind and its contents.
#[derive(Debug, PartialEq, Eq)]
pub struct PngChunk {
    pub kind: [u8; 4],
    pub contents: Vec<u8>,
}

/// Calls `std::str::from_utf8` and says whether it took the bytes, which it
/// does exactly when they are well-formed UTF-8.
#[verifier::external_body]
fn str_is_utf8(bytes: &[u8]) -> (valid: bool)
    ensures
        valid == vstd::utf8::valid_utf8(bytes@),
{
    std::str::from_utf8(bytes).is_ok()
}

/// Whether a chunk kind is `tEXt`.
pub open spec fn spec_is_latin_text(kind: [u8; 4]) -> bool {
    kind[0] == 0x74 && kind[1] == 0x45 && kind[2] == 0x58 && kind[3] == 0x74
}

/// Whether a chunk kind is `iTXt`.
pub open spec fn spec_is_international_text(kind: [u8; 4]) -> bool {
    kind[0] == 0x69 && kind[1] == 0x54 && kind[2] == 0x58 && kind[3] == 0x74
}

/// The text of a chunk: its contents, if it is a text chunk of either kind
/// and its contents are well-formed UTF-8.
pub open spec fn spec_chunk_text(chunk: PngChunk) -> Option<Seq<u8>> {
    if (spec_is_latin_text(chunk.kind) || spec_is_international_text(chunk.kind))
        && vstd::utf8::valid_utf8(chunk.contents@) {
        Some(chunk.contents@)
    } else {
        None
    }
}

/// The bytes of `Prompt` or `prompt`, as `capital` says, and a zero byte.
pub open spec fn spec_prompt_keyword(capital: bool) -> Seq<u8> {
    seq![if capital { 0x50u8 } else { 0x70u8 }, 0x72u8, 0x6Fu8, 0x6Du8, 0x70u8, 0x74u8, 0u8]
}

/// The prompt that a chunk names as such: what follows the keyword
/// `Prompt` or `prompt` and a zero byte at the start of its text.
pub open spec fn spec_named_prompt(chunk: PngChunk) -> Option<Seq<u8>> {
    match spec_chunk_text(chunk) {
        Some(text) => if spec_starts_with(text, spec_prompt_keyword(true)) || spec_starts_with(
            text,
            spec_prompt_keyword(false),
        ) {
            Some(spec_tail(text, 7))
        } else {
            None
        },
        None => None,
    }
}

/// The value of a text chunk: what follows the first zero byte of its text.
pub open spec fn spec_chunk_value(chunk: PngChunk) -> Option<Seq<u8>> {
    match spec_chunk_text(chunk) {
        Some(text) => match spec_find_byte(text, 0) {
            Some(at) => Some(spec_tail(text, at + 1)),
            None => None,
        },
        None => None,
    }
}

/// The value of a text chunk if it may be a JSON document: its first
/// character after white space is an opening brace.
pub open spec fn spec_json_candidate(chunk: PngChunk) -> Option<Seq<u8>> {
    match spec_chunk_value(chunk) {
        Some(value) => if spec_opens_brace(value) {
            Some(value)
        } else {
            None
        },
        None => None,
    }
}

/// Whether a byte is one of the marks that prompts are full of: a comma or
/// an opening bracket of any kind.
pub open spec fn spec_is_prompt_mark(byte: u8) -> bool {
    byte == 0x2C || byte == 0x28 || byte == 0x7B || byte == 0x5B
}

/// The bytes of `AI Generated`.
pub open spec fn spec_generated_note() -> Seq<u8> {
    seq![
        0x41u8,
        0x49u8,
        0x20u8,
        0x47u8,
        0x65u8,
        0x6Eu8,
        0x65u8,
        0x72u8,
        0x61u8,
        0x74u8,
        0x65u8,
        0x64u8,
    ]
}

/// The value of a `tEXt` chunk if it looks like a prompt: between eleven
/// and 1999 bytes long, with a comma or an opening bracket in it, and
/// without the note `AI Generated`.
pub open spec fn spec_likely_prompt(chunk: PngChunk) -> Option<Seq<u8>> {
    match spec_chunk_value(chunk) {
        Some(value) => if spec_is_latin_text(chunk.kind) && 10 < value.len() < 2000 && (exists|
            at: int,
        |
            0 <= at < value.len() && spec_is_prompt_mark(#[trigger] value[at])) && !spec_contains(
            value,
            spec_generated_note(),
        ) {
            Some(value)
        } else {
            None
        },
        None => None,
    }
}

/// The first prompt that a chunk names as such, from chunk `from` on.
pub open spec fn spec_first_named(chunks: Seq<PngChunk>, from: int) -> Option<Seq<u8>>
    decreases chunks.len() - from,
{
    if from < 0 || from >= chunks.len() {
        None
    } else {
        match spec_named_prompt(chunks[from]) {
            Some(prompt) => Some(prompt),
            None => spec_first_named(chunks, from + 1),
        }
    }
}

/// The first value that looks like a prompt, from chunk `from` on.
pub open spec fn spec_first_likely(chunks: Seq<PngChunk>, from: int) -> Option<Seq<u8>>
    decreases chunks.len() - from,
{
    if from < 0 || from >= chunks.len() {
        None
    } else {
        match spec_likely_prompt(chunks[from]) {
            Some(prompt) => Some(prompt),
            None => spec_first_likely(chunks, from + 1),
        }
    }
}

/// The values of the first `upto` chunks that may be JSON documents, in
/// order.
pub open spec fn spec_json_candidates(chunks: Seq<PngChunk>, upto: int) -> Seq<Seq<u8>>
    decreases upto,
{
    if upto <= 0 || upto > chunks.len() {
        Seq::empty()
    } else {
        match spec_json_candidate(chunks[upto - 1]) {
            Some(value) => spec_json_candidates(chunks, upto - 1).push(value),
            None => spec_json_candidates(chunks, upto - 1),
        }
    }
}

/// The prompt of a PNG file with the given chunks, where `parsed` holds the
/// documents that its JSON candidates parse to. It is the first prompt that
/// a chunk names as such; without one, the first prompt found in one of the
/// documents; without one, the first value that looks like a prompt.
pub open spec fn spec_png_prompt(chunks: Seq<PngChunk>, parsed: Seq<Option<Json>>) -> Option<
    Seq<u8>,
> {
    match spec_first_named(chunks, 0) {
        Some(prompt) => Some(prompt),
        None => match spec_first_extracted(parsed, 0) {
            Some(prompt) => Some(encode_utf8(prompt)),
            None => spec_first_likely(chunks, 0),
        },
    }
}

/// The text of a chunk, if it is a text chunk with well-formed contents.
fn chunk_text(chunk: &PngChunk) -> (text: Option<&[u8]>)
    ensures
        match text {
            Some(found) => spec_chunk_text(*chunk) == Some(found@),
            None => spec_chunk_text(*chunk) is None,
        },
{
    let kind = &chunk.kind;
    let latin: bool = kind[0] == 0x74 && kind[1] == 0x45 && kind[2] == 0x58 && kind[3] == 0x74;
    let international: bool = kind[0] == 0x69 && kind[1] == 0x54 && kind[2] == 0x58 && kind[3]
        == 0x74;
    if (latin || international) && str_is_utf8(chunk.contents.as_slice()) {
        Some(chunk.contents.as_slice())
    } else {
        None
    }
}

/// The value of a text chunk.
fn chunk_value(chunk: &PngChunk) -> (value: Option<Vec<u8>>)
    ensures
        match value {
            Some(found) => spec_chunk_value(*chunk) == Some(found@),
            None => spec_chunk_value(*chunk) is None,
        },
{
    match chunk_text(chunk) {
        Some(text) => match find_byte(text, 0) {
            Some(at) => {
                assert(at < text.len());
                Some(copy_range(text, at + 1, text.len()))
            },
            None => None,
        },
        None => None,
    }
}

/// The prompt that a chunk names as such.
fn named_prompt(chunk: &PngChunk) -> (prompt: Option<Vec<u8>>)
    ensures
        match prompt {
            Some(found) => spec_named_prompt(*chunk) == Some(found@),
            None => spec_named_prompt(*chunk) is None,
        },
{
    match chunk_text(chunk) {
        Some(text) => {
            let capital: [u8; 7] = [0x50, 0x72, 0x6F, 0x6D, 0x70, 0x74, 0];
            let small: [u8; 7] = [0x70, 0x72, 0x6F, 0x6D, 0x70, 0x74, 0];
            proof {
                assert(capital@ =~= spec_prompt_keyword(true));
                assert(small@ =~= spec_prompt_keyword(false));
            }
            if starts_with(text, capital.as_slice()) || starts_with(text, small.as_slice()) {
                Some(copy_range(text, 7, text.len()))
            } else {
                None
            }
        },
        None => None,
    }
}

/// The value of a `tEXt` chunk if it looks like a prompt.
fn likely_prompt(chunk: &PngChunk) -> (prompt: Option<Vec<u8>>)
    ensures
        match prompt {
            Some(found) => spec_likely_prompt(*chunk) == Some(found@),
            None => spec_likely_prompt(*chunk) is None,
        },
{
    let kind = &chunk.kind;
    let latin: bool = kind[0] == 0x74 && kind[1] == 0x45 && kind[2] == 0x58 && kind[3] == 0x74;
    match chunk_value(chunk) {
        Some(value) => {
            if !latin || value.len() <= 10 || value.len() >= 2000 {
                return None;
            }
            let mut marked: bool = false;
            let mut at: usize = 0;
            while at < value.len()
                invariant
                    at <= value.len(),
                    marked == exists|seen: int|
                        0 <= seen < at && spec_is_prompt_mark(#[trigger] value@[seen]),
                decreases value.len() - at,
            {
                let byte: u8 = value[at];
                if byte == 0x2C || byte == 0x28 || byte == 0x7B || byte == 0x5B {
                    marked = true;
                }
                at = at + 1;
            }
            let note: [u8; 12] = [
                0x41,
                0x49,
                0x20,
                0x47,
                0x65,
                0x6E,
                0x65,
                0x72,
                0x61,
                0x74,
                0x65,
                0x64,
            ];
            proof {
                assert(note@ =~= spec_generated_note());
            }
            if marked && !contains(value.as_slice(), note.as_slice()) {
                Some(value)
            } else {
                None
            }
        },
        None => None,
    }
}

/// The values of the chunks of a PNG file that may be JSON documents, in
/// order. The program parses each and hands the results to `png_prompt`.
pub fn png_json_candidates(chunks: &Vec<PngChunk>) -> (candidates: Vec<Vec<u8>>)
    ensures
        candidates@.map_values(|value: Vec<u8>| value@) == spec_json_candidates(
            chunks@,
            chunks@.len() as int,
        ),
{
    let mut candidates: Vec<Vec<u8>> = Vec::new();
    let mut at: usize = 0;
    proof {
        assert(candidates@.map_values(|value: Vec<u8>| value@) =~= spec_json_candidates(
            chunks@,
            0,
        ));
    }
    while at < chunks.len()
        invariant
            at <= chunks.len(),
            candidates@.map_values(|value: Vec<u8>| value@) == spec_json_candidates(
                chunks@,
                at as int,
            ),
        decreases chunks.len() - at,
    {
        let ghost before = candidates@;
        match chunk_value(&chunks[at]) {
            Some(value) => {
                if opens_brace(value.as_slice()) {
                    candidates.push(value);
                    proof {
                        assert(candidates@.map_values(|value: Vec<u8>| value@)
                            =~= before.map_values(|value: Vec<u8>| value@).push(value@));
                    }
                }
            },
            None => {},
        }
        at = at + 1;
    }
    candidates
}

/// The prompt of a PNG file with the given chunks, where `parsed` holds, in
/// order, what the candidates of `png_json_candidates` parse to.
pub fn png_prompt(chunks: &Vec<PngChunk>, parsed: &Vec<Option<Json>>) -> (prompt: Option<Vec<u8>>)
    ensures
        match prompt {
            Some(found) => spec_png_prompt(chunks@, parsed@) == Some(found@),
            None => spec_png_prompt(chunks@, parsed@) is None,
        },
{
    let mut at: usize = 0;
    while at < chunks.len()
        invariant
            at <= chunks.len(),
            spec_first_named(chunks@, 0) == spec_first_named(chunks@, at as int),
        decreases chunks.len() - at,
    {
        match named_prompt(&chunks[at]) {
            Some(prompt) => {
                return Some(prompt);
            },
            None => {},
        }
        at = at + 1;
    }
    match first_extracted(parsed) {
        Some(prompt) => {
            return Some(prompt.as_str().as_bytes_vec());
        },
        None => {},
    }
    let mut at: usize = 0;
    while at < chunks.len()
        invariant
            at <= chunks.len(),
            spec_first_named(chunks@, 0) is None,
            spec_first_extracted(parsed@, 0) is None,
            spec_first_likely(chunks@, 0) == spec_first_likely(chunks@, at as int),
        decreases chunks.len() - at,
    {
        match likely_prompt(&chunks[at]) {
            Some(prompt) => {
                return Some(prompt);
            },
            None => {},
        }
        at = at + 1;
    }
    None
}

/// The bytes of `Workflow:`.
pub open spec fn spec_workflow_label() -> Seq<u8> {
    seq![0x57u8, 0x6Fu8, 0x72u8, 0x6Bu8, 0x66u8, 0x6Cu8, 0x6Fu8, 0x77u8, 0x3Au8]
}

/// The JSON text in the description of an image, as some generators write
/// it: the description without the quotation marks around it, with the
/// escapes for quotation mark, line feed and tab resolved in this order,
/// without the label `Workflow:` in front, and without white space around
/// it. Nothing if what is left does not start with an opening brace.
pub open spec fn spec_workflow_json_text(description: Seq<u8>) -> Option<Seq<u8>> {
    let bare = spec_strip_byte(description, 0x22);
    let quotes = spec_replace_pair(bare, 0x5C, 0x22, 0x22, 0);
    let feeds = spec_replace_pair(quotes, 0x5C, 0x6E, 0x0A, 0);
    let tabs = spec_replace_pair(feeds, 0x5C, 0x74, 0x09, 0);
    let text = spec_trim(spec_tail(tabs, spec_skip_prefix(tabs, spec_workflow_label(), 0)));
    if text.len() > 0 && text[0] == 0x7B {
        Some(text)
    } else {
        None
    }
}

/// The JSON text in the description of an image.
pub fn workflow_json_text(description: &[u8]) -> (text: Option<Vec<u8>>)
    ensures
        match text {
            Some(found) => spec_workflow_json_text(description@) == Some(found@),
            None => spec_workflow_json_text(description@) is None,
        },
{
    let bare = strip_byte(description, 0x22);
    let quotes = replace_pair(bare.as_slice(), 0x5C, 0x22, 0x22);
    let feeds = replace_pair(quotes.as_slice(), 0x5C, 0x6E, 0x0A);
    let tabs = replace_pair(feeds.as_slice(), 0x5C, 0x74, 0x09);
    let label: [u8; 9] = [0x57, 0x6F, 0x72, 0x6B, 0x66, 0x6C, 0x6F, 0x77, 0x3A];
    proof {
        assert(label@ =~= spec_workflow_label());
    }
    let from: usize = skip_prefix(tabs.as_slice(), label.as_slice());
    let rest = copy_range(tabs.as_slice(), from, tabs.len());
    let text = trim(rest.as_slice());
    if text.len() > 0 && text[0] == 0x7B {
        Some(text)
    } else {
        None
    }
}

/// The number that four bytes of `bytes` from `at` on stand for, least
/// significant byte first.
pub open spec fn spec_le32(bytes: Seq<u8>, at: int) -> nat {
    (bytes[at] + 256 * bytes[at + 1] + 65536 * bytes[at + 2] + 16777216 * bytes[at + 3]) as nat
}

/// The bytes of a four-letter tag.
pub open spec fn spec_tag(a: u8, b: u8, c: u8, d: u8) -> Seq<u8> {
    seq![a, b, c, d]
}

/// Position of the first `RIFF` tag in a file, from `from` on, not looking
/// at the last twelve bytes.
pub open spec fn spec_riff_start(bytes: Seq<u8>, from: int) -> Option<int>
    decreases bytes.len() - from,
{
    if from < 0 || from + 12 >= bytes.len() {
        None
    } else if spec_occurs_at(bytes, spec_tag(0x52, 0x49, 0x46, 0x46), from) {
        Some(from)
    } else {
        spec_riff_start(bytes, from + 1)
    }
}

/// The contents of the `EXIF` chunks among the chunks that start at `inner`
/// and before `limit`, each as the positions of its first byte and of the
/// byte after its last. A chunk has a tag of four bytes, a length of four
/// bytes and contents of that length, padded to an even length. A chunk
/// whose header reaches into the last eight bytes of the file ends the
/// list; an `EXIF` chunk whose contents run past the end of the file is
/// left out.
pub open spec fn spec_exif_chunks_from(bytes: Seq<u8>, inner: int, limit: int) -> Seq<
    (usize, usize),
>
    decreases bytes.len() - inner,
{
    if inner < 0 || inner >= limit || inner + 8 >= bytes.len() {
        Seq::empty()
    } else {
        let size = spec_le32(bytes, inner + 4);
        let padding: int = if size % 2 == 0 {
            0
        } else {
            1
        };
        let rest = if inner + 8 + size + padding <= bytes.len() {
            spec_exif_chunks_from(bytes, inner + 8 + size + padding, limit)
        } else {
            Seq::empty()
        };
        if spec_occurs_at(bytes, spec_tag(0x45, 0x58, 0x49, 0x46), inner) && inner + 8 + size
            <= bytes.len() {
            seq![((inner + 8) as usize, (inner + 8 + size) as usize)] + rest
        } else {
            rest
        }
    }
}

/// The contents of the `EXIF` chunks of a WebP file, in order: those of the
/// container that the first `RIFF` tag of the file opens, if it is marked
/// `WEBP`.
pub open spec fn spec_webp_exif_chunks(bytes: Seq<u8>) -> Seq<(usize, usize)> {
    match spec_riff_start(bytes, 0) {
        Some(start) => if spec_occurs_at(bytes, spec_tag(0x57, 0x45, 0x42, 0x50), start + 8) {
            spec_exif_chunks_from(
                bytes,
                start + 12,
                start + 12 + spec_le32(bytes, start + 4),
            )
        } else {
            Seq::empty()
        },
        None => Seq::empty(),
    }
}

/// The number that four bytes of `bytes` from `at` on stand for.
fn le32(bytes: &[u8], at: usize) -> (value: u128)
    requires
        at + 4 <= bytes.len(),
    ensures
        value == spec_le32(bytes@, at as int),
        value <= 0xFFFF_FFFF,
{
    bytes[at] as u128 + 256 * bytes[at + 1] as u128 + 65536 * bytes[at + 2] as u128 + 16777216
        * bytes[at + 3] as u128
}

/// The contents of the `EXIF` chunks of a WebP file, in order, each as the
/// positions of its first byte and of the byte after its last.
pub fn webp_exif_chunks(bytes: &[u8]) -> (chunks: Vec<(usize, usize)>)
    ensures
        chunks@ == spec_webp_exif_chunks(bytes@),
        forall|i: int|
            0 <= i < chunks@.len() ==> (#[trigger] chunks@[i]).0 <= chunks@[i].1 <= bytes.len(),
{
    let mut chunks: Vec<(usize, usize)> = Vec::new();
    let riff: [u8; 4] = [0x52, 0x49, 0x46, 0x46];
    let webp: [u8; 4] = [0x57, 0x45, 0x42, 0x50];
    let exif: [u8; 4] = [0x45, 0x58, 0x49, 0x46];
    proof {
        assert(riff@ =~= spec_tag(0x52, 0x49, 0x46, 0x46));
        assert(webp@ =~= spec_tag(0x57, 0x45, 0x42, 0x50));
        assert(exif@ =~= spec_tag(0x45, 0x58, 0x49, 0x46));
    }
    if bytes.len() <= 12 {
        return chunks;
    }
    let mut offset: usize = 0;
    while offset < bytes.len() - 12 && !occurs_at(bytes, riff.as_slice(), offset)
        invariant
            offset <= bytes.len() - 12,
            bytes.len() > 12,
            riff@ == spec_tag(0x52, 0x49, 0x46, 0x46),
            spec_riff_start(bytes@, 0) == spec_riff_start(bytes@, offset as int),
        decreases bytes.len() - offset,
    {
        offset = offset + 1;
    }
    if offset >= bytes.len() - 12 {
        return chunks;
    }
    if !occurs_at(bytes, webp.as_slice(), offset + 8) {
        return chunks;
    }
    let limit: u128 = offset as u128 + 12 + le32(bytes, offset + 4);
    let length: u128 = bytes.len() as u128;
    let mut inner: u128 = offset as u128 + 12;
    while inner < limit && inner + 8 < length
        invariant
            length == bytes.len(),
            inner <= length + 0x1_0000_0010,
            exif@ == spec_tag(0x45, 0x58, 0x49, 0x46),
            spec_webp_exif_chunks(bytes@) == chunks@ + spec_exif_chunks_from(
                bytes@,
                inner as int,
                limit as int,
            ),
            forall|i: int|
                0 <= i < chunks@.len() ==> (#[trigger] chunks@[i]).0 <= chunks@[i].1
                    <= bytes.len(),
        decreases length + 0x1_0000_0010 - inner,
    {
        let at: usize = inner as usize;
        let size: u128 = le32(bytes, at + 4);
        let ghost before = chunks@;
        let ghost next = inner + 8 + size + (if size % 2 == 0 {
            0int
        } else {
            1int
        });
        let ghost rest = spec_exif_chunks_from(bytes@, next, limit as int);
        if occurs_at(bytes, exif.as_slice(), at) && inner + 8 + size <= length {
            chunks.push((at + 8, (inner + 8 + size) as usize));
            proof {
                assert(before + (seq![((inner + 8) as usize, (inner + 8 + size) as usize)] + rest)
                    =~= chunks@ + rest);
            }
        }
        inner = inner + 8 + size + size % 2;
    }
    proof {
        assert(chunks@ + Seq::<(usize, usize)>::empty() =~= chunks@);
    }
    chunks
}

} // verus!
