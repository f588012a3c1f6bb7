//! The configuration as a JSON document.
//!
//! A document is an object with the texts `botname` and `context` and the
//! array `thursdayism`. Each item of the array is an object with a single
//! member, named `Prompt` or `Response`, whose value is an object with the
//! texts `author` and `prompt`. Members that the format does not name are
//! passed over.

use vstd::prelude::*;
use crate::config::{ConfigView, GodMemoryConfig};
use crate::discussion::{Discussion, DiscussionKind, TurnView};

verus! {

/// A JSON value as a tree of plain values. A number is kept as its text,
/// an object as the list of its members.
#[derive(Debug, PartialEq, Eq)]
pub enum Json {
    Null,
    Bool(bool),
    Number(String),
    Text(String),
    Array(Vec<Json>),
    Object(Vec<(String, Json)>),
}

#[verifier::external_type_specification]
#[verifier::external_body]
pub struct ExValue(serde_json::Value);

/// The tree that `serde_json` reads from a text, if it reads one.
pub uninterp spec fn json_parse(text: Seq<char>) -> Option<Json>;

/// `serde_json::Value` turned into a tree, variant by variant. Nothing is
/// claimed of the result.
#[verifier::external_body]
fn json_of_value(value: serde_json::Value) -> Json {
    match value {
        serde_json::Value::Null => Json::Null,
        serde_json::Value::Bool(b) => Json::Bool(b),
        serde_json::Value::Number(n) => Json::Number(n.to_string()),
        serde_json::Value::String(s) => Json::Text(s),
        serde_json::Value::Array(items) => Json::Array(
            items.into_iter().map(json_of_value).collect(),
        ),
        serde_json::Value::Object(members) => Json::Object(
            members.into_iter().map(|(k, v)| (k, json_of_value(v))).collect(),
        ),
    }
}

/// `serde_json::from_str` at the type `serde_json::Value`: the text read as
/// one JSON value, or nothing where it is not one. The claim is only that
/// the outcome is a function of the text.
#[verifier::external_body]
pub(crate) fn parse_json(text: &str) -> (tree: Option<Json>)
    ensures
        tree == json_parse(text@),
{
    match serde_json::from_str::<serde_json::Value>(text) {
        Ok(value) => Some(json_of_value(value)),
        Err(_) => None,
    }
}

/// The value of the first member named `key`.
pub open spec fn find(members: Seq<(String, Json)>, key: Seq<char>) -> Option<Json>
    decreases members.len(),
{
    if members.len() == 0 {
        None
    } else if members[0].0@ == key {
        Some(members[0].1)
    } else {
        find(members.skip(1), key)
    }
}

/// The text that a looked-up member holds, if it is there and is a text.
pub open spec fn text_in(j: Option<Json>) -> Option<Seq<char>> {
    match j {
        Some(Json::Text(s)) => Some(s@),
        _ => None,
    }
}

/// The turn that a tree stands for, if it stands for one.
pub open spec fn turn_in(j: Json) -> Option<TurnView> {
    if let Json::Object(members) = j {
        if members@.len() == 1 {
            if let Json::Object(inner) = members@[0].1 {
                let author = text_in(find(inner@, "author"@));
                let prompt = text_in(find(inner@, "prompt"@));
                if author is Some && prompt is Some {
                    if members@[0].0@ == "Prompt"@ {
                        Some(TurnView::Prompt { author: author->0, prompt: prompt->0 })
                    } else if members@[0].0@ == "Response"@ {
                        Some(TurnView::Response { author: author->0, prompt: prompt->0 })
                    } else {
                        None
                    }
                } else {
                    None
                }
            } else {
                None
            }
        } else {
            None
        }
    } else {
        None
    }
}

/// The dialogue that an array stands for: each item a turn, in order.
pub open spec fn turns_in(items: Seq<Json>) -> Option<Seq<TurnView>> {
    if forall|i: int| 0 <= i < items.len() ==> (#[trigger] turn_in(items[i])) is Some {
        Some(Seq::new(items.len(), |i: int| turn_in(items[i])->0))
    } else {
        None
    }
}

/// The dialogue under a looked-up member, if it is there and is an array
/// of turns.
pub open spec fn dialogue_in(j: Option<Json>) -> Option<Seq<TurnView>> {
    match j {
        Some(Json::Array(items)) => turns_in(items@),
        _ => None,
    }
}

/// The configuration that a tree stands for, if it stands for one.
pub open spec fn config_in(j: Json) -> Option<ConfigView> {
    if let Json::Object(members) = j {
        let botname = text_in(find(members@, "botname"@));
        let context = text_in(find(members@, "context"@));
        let thursdayism = dialogue_in(find(members@, "thursdayism"@));
        if botname is Some && context is Some && thursdayism is Some {
            Some(
                ConfigView {
                    botname: botname->0,
                    context: context->0,
                    thursdayism: thursdayism->0,
                },
            )
        } else {
            None
        }
    } else {
        None
    }
}

/// The configuration in a parsed text; none where the text did not parse.
pub open spec fn config_in_parsed(parsed: Option<Json>) -> Option<ConfigView> {
    match parsed {
        Some(j) => config_in(j),
        None => None,
    }
}

/// `j` is the tree written for the turn `t`.
pub open spec fn turn_json(j: Json, t: TurnView) -> bool {
    &&& j matches Json::Object(members)
    &&& members@.len() == 1
    &&& members@[0].0@ == match t {
        TurnView::Prompt { .. } => "Prompt"@,
        TurnView::Response { .. } => "Response"@,
    }
    &&& members@[0].1 matches Json::Object(inner)
    &&& inner@.len() == 2
    &&& inner@[0].0@ == "author"@
    &&& inner@[0].1 matches Json::Text(a)
    &&& a@ == match t {
        TurnView::Prompt { author, .. } => author,
        TurnView::Response { author, .. } => author,
    }
    &&& inner@[1].0@ == "prompt"@
    &&& inner@[1].1 matches Json::Text(p)
    &&& p@ == match t {
        TurnView::Prompt { prompt, .. } => prompt,
        TurnView::Response { prompt, .. } => prompt,
    }
}

/// `j` is the tree written for the configuration `c`.
pub open spec fn config_json(j: Json, c: ConfigView) -> bool {
    &&& j matches Json::Object(members)
    &&& members@.len() == 3
    &&& members@[0].0@ == "botname"@
    &&& members@[0].1 matches Json::Text(b)
    &&& b@ == c.botname
    &&& members@[1].0@ == "context"@
    &&& members@[1].1 matches Json::Text(x)
    &&& x@ == c.context
    &&& members@[2].0@ == "thursdayism"@
    &&& members@[2].1 matches Json::Array(items)
    &&& items@.len() == c.thursdayism.len()
    &&& forall|i: int| 0 <= i < items@.len() ==> turn_json(#[trigger] items@[i], c.thursdayism[i])
}

/// Looks a member up by its name.
fn find_member<'a>(members: &'a Vec<(String, Json)>, key: &str) -> (r: Option<&'a Json>)
    ensures
        r matches Some(j) ==> find(members@, key@) == Some(*j),
        r is None <==> find(members@, key@) is None,
{
    let wanted = key.to_owned();
    let mut i: usize = 0;
    assert(members@.skip(0) =~= members@);
    while i < members.len()
        invariant
            i <= members.len(),
            wanted@ == key@,
            find(members@, key@) == find(members@.skip(i as int), key@),
        decreases members.len() - i,
    {
        if members[i].0 == wanted {
            return Some(&members[i].1);
        }
        proof {
            assert(members@.skip(i as int).skip(1) =~= members@.skip(i + 1));
        }
        i += 1;
    }
    None
}

/// Copies the text out of a looked-up member.
fn text_of(j: Option<&Json>) -> (r: Option<String>)
    ensures
        r matches Some(s) ==> text_in(
            match j {
                Some(x) => Some(*x),
                None => None,
            },
        ) == Some(s@),
        r is None <==> text_in(
            match j {
                Some(x) => Some(*x),
                None => None,
            },
        ) is None,
{
    match j {
        Some(Json::Text(s)) => Some(s.clone()),
        _ => None,
    }
}

/// Reads one turn from a tree. Fails where the tree is not an object with
/// the single member `Prompt` or `Response` that holds both texts.
pub fn decode_turn(j: &Json) -> (r: Option<DiscussionKind>)
    ensures
        r matches Some(t) ==> turn_in(*j) == Some(t@),
        r is None <==> turn_in(*j) is None,
{
    let members = match j {
        Json::Object(members) => members,
        _ => {
            return None;
        },
    };
    if members.len() != 1 {
        return None;
    }
    let inner = match &members[0].1 {
        Json::Object(inner) => inner,
        _ => {
            return None;
        },
    };
    let author = match text_of(find_member(inner, "author")) {
        Some(s) => s,
        None => {
            return None;
        },
    };
    let prompt = match text_of(find_member(inner, "prompt")) {
        Some(s) => s,
        None => {
            return None;
        },
    };
    if members[0].0 == "Prompt".to_owned() {
        Some(DiscussionKind::Prompt { author, prompt })
    } else if members[0].0 == "Response".to_owned() {
        Some(DiscussionKind::Response { author, prompt })
    } else {
        None
    }
}

/// Reads a dialogue from the items of an array. Fails where one of them is
/// no turn.
pub fn decode_turns(items: &Vec<Json>) -> (r: Option<Discussion>)
    ensures
        r matches Some(d) ==> turns_in(items@) == Some(d@),
        r is None <==> turns_in(items@) is None,
{
    let mut turns: Vec<DiscussionKind> = Vec::new();
    let mut i: usize = 0;
    while i < items.len()
        invariant
            i <= items.len(),
            turns@.len() == i,
            forall|k: int| 0 <= k < i ==> (#[trigger] turn_in(items@[k])) == Some(turns@[k]@),
        decreases items.len() - i,
    {
        match decode_turn(&items[i]) {
            Some(t) => {
                turns.push(t);
            },
            None => {
                assert(turn_in(items@[i as int]) is None);
                return None;
            },
        }
        i += 1;
    }
    let d = Discussion(turns);
    assert(d@ =~= turns_in(items@)->0);
    Some(d)
}

/// Reads a configuration from a tree. Fails where the tree is not an
/// object that holds the two texts and the array of turns.
pub fn decode_config(j: &Json) -> (r: Option<GodMemoryConfig>)
    ensures
        r matches Some(c) ==> config_in(*j) == Some(c@),
        r is None <==> config_in(*j) is None,
{
    let members = match j {
        Json::Object(members) => members,
        _ => {
            return None;
        },
    };
    let botname = match text_of(find_member(members, "botname")) {
        Some(s) => s,
        None => {
            return None;
        },
    };
    let context = match text_of(find_member(members, "context")) {
        Some(s) => s,
        None => {
            return None;
        },
    };
    let thursdayism = match find_member(members, "thursdayism") {
        Some(Json::Array(items)) => match decode_turns(items) {
            Some(d) => d,
            None => {
                return None;
            },
        },
        _ => {
            return None;
        },
    };
    Some(GodMemoryConfig { botname, context, thursdayism })
}

/// Writes one turn as a tree.
pub fn encode_turn(t: &DiscussionKind) -> (j: Json)
    ensures
        turn_json(j, t@),
{
    let mut inner: Vec<(String, Json)> = Vec::new();
    let mut members: Vec<(String, Json)> = Vec::new();
    match t {
        DiscussionKind::Prompt { author, prompt } => {
            inner.push(("author".to_owned(), Json::Text(author.clone())));
            inner.push(("prompt".to_owned(), Json::Text(prompt.clone())));
            members.push(("Prompt".to_owned(), Json::Object(inner)));
        },
        DiscussionKind::Response { author, prompt } => {
            inner.push(("author".to_owned(), Json::Text(author.clone())));
            inner.push(("prompt".to_owned(), Json::Text(prompt.clone())));
            members.push(("Response".to_owned(), Json::Object(inner)));
        },
    }
    Json::Object(members)
}

/// Writes a configuration as a tree.
pub fn encode_config(c: &GodMemoryConfig) -> (j: Json)
    ensures
        config_json(j, c@),
{
    let mut items: Vec<Json> = Vec::new();
    let mut i: usize = 0;
    while i < c.thursdayism.0.len()
        invariant
            i <= c.thursdayism.0.len(),
            items@.len() == i,
            forall|k: int| 0 <= k < i ==> turn_json(#[trigger] items@[k], c.thursdayism@[k]),
        decreases c.thursdayism.0.len() - i,
    {
        items.push(encode_turn(&c.thursdayism.0[i]));
        i += 1;
    }
    let mut members: Vec<(String, Json)> = Vec::new();
    members.push(("botname".to_owned(), Json::Text(c.botname.clone())));
    members.push(("context".to_owned(), Json::Text(c.context.clone())));
    members.push(("thursdayism".to_owned(), Json::Array(items)));
    Json::Object(members)
}

} // verus!
