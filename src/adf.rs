//! Flattening of the service's rich-text documents (a tree of typed nodes)
//! into plain text.
use vstd::prelude::*;
use crate::json::{JsonValue, lookup};
use crate::text::str_eq;

verus! {

broadcast use vstd::seq::group_seq_axioms;

/// The text of member `key` of `j`, when it is a string.
pub open spec fn member_text(j: JsonValue, key: Seq<char>) -> Option<Seq<char>> {
    match j.field(key) {
        Some(v) => v.text(),
        None => None,
    }
}

/// The pieces of text that a node contributes, depth first: a `text` node its
/// text, a `hardBreak` a newline, any other node (paragraph, heading, list
/// item or a kind not known here) the pieces of its `content` children.
pub open spec fn node_parts(n: JsonValue) -> Seq<Seq<char>>
    decreases n,
{
    match member_text(n, "type"@) {
        None => Seq::empty(),
        Some(t) => {
            if t == "text"@ {
                match member_text(n, "text"@) {
                    Some(x) => seq![x],
                    None => Seq::empty(),
                }
            } else if t == "hardBreak"@ {
                seq!["\n"@]
            } else {
                match n {
                    JsonValue::Object(members) => content_parts(members@),
                    _ => Seq::empty(),
                }
            }
        },
    }
}

/// The pieces of the first member named `content`, when it is an array.
pub open spec fn content_parts(members: Seq<(String, JsonValue)>) -> Seq<Seq<char>>
    decreases members,
{
    if members.len() == 0 {
        Seq::empty()
    } else if members[0].0@ == "content"@ {
        match members[0].1 {
            JsonValue::Array(children) => nodes_parts(children@),
            _ => Seq::empty(),
        }
    } else {
        content_parts(members.subrange(1, members.len() as int))
    }
}

/// The pieces of a sequence of nodes, in order.
pub open spec fn nodes_parts(nodes: Seq<JsonValue>) -> Seq<Seq<char>>
    decreases nodes,
{
    if nodes.len() == 0 {
        Seq::empty()
    } else {
        node_parts(nodes[0]) + nodes_parts(nodes.subrange(1, nodes.len() as int))
    }
}

/// The pieces joined with newlines.
pub open spec fn join_lines(parts: Seq<Seq<char>>) -> Seq<char>
    decreases parts.len(),
{
    if parts.len() == 0 {
        Seq::empty()
    } else if parts.len() == 1 {
        parts[0]
    } else {
        join_lines(parts.drop_last()) + "\n"@ + parts.last()
    }
}

/// The characters of each string.
pub open spec fn texts(v: Seq<String>) -> Seq<Seq<char>> {
    v.map_values(|s: String| s@)
}

proof fn lemma_content_parts(members: Seq<(String, JsonValue)>)
    ensures
        content_parts(members) == match lookup(members, "content"@) {
            Some(JsonValue::Array(children)) => nodes_parts(children@),
            _ => Seq::<Seq<char>>::empty(),
        },
    decreases members.len(),
{
    if members.len() > 0 && members[0].0@ != "content"@ {
        lemma_content_parts(members.subrange(1, members.len() as int));
        assert(members.drop_first() =~= members.subrange(1, members.len() as int));
    }
}

proof fn lemma_nodes_parts_step(nodes: Seq<JsonValue>, i: int)
    requires
        0 <= i < nodes.len(),
    ensures
        nodes_parts(nodes.subrange(0, i + 1)) == nodes_parts(nodes.subrange(0, i)) + node_parts(
            nodes[i],
        ),
    decreases i,
{
    let a = nodes.subrange(0, i + 1);
    let b = nodes.subrange(0, i);
    if i == 0 {
        assert(b.len() == 0);
        assert(a.subrange(1, a.len() as int).len() == 0);
        assert(a[0] == nodes[0]);
        assert(nodes_parts(a.subrange(1, a.len() as int)) == Seq::<Seq<char>>::empty());
        assert(nodes_parts(b) == Seq::<Seq<char>>::empty());
        assert(nodes_parts(a) =~= nodes_parts(b) + node_parts(nodes[0]));
    } else {
        lemma_nodes_parts_step(nodes.subrange(1, nodes.len() as int), i - 1);
        assert(a.subrange(1, a.len() as int) =~= nodes.subrange(1, nodes.len() as int).subrange(0, i));
        assert(b.subrange(1, b.len() as int) =~= nodes.subrange(1, nodes.len() as int).subrange(0, i - 1));
        assert(nodes.subrange(1, nodes.len() as int)[i - 1] == nodes[i]);
        assert(nodes_parts(a) =~= nodes_parts(b) + node_parts(nodes[i]));
    }
}

/// Appends to `parts` the pieces of text of `content`, depth first.
pub fn extract_text_from_adf(content: &Vec<JsonValue>, parts: &mut Vec<String>)
    ensures
        texts(final(parts)@) == texts(old(parts)@) + nodes_parts(content@),
    decreases content,
{
    let ghost start = texts(parts@);
    let mut i: usize = 0;
    assert(content@.subrange(0, 0) =~= Seq::<JsonValue>::empty());
    while i < content.len()
        invariant
            0 <= i <= content@.len(),
            texts(parts@) == start + nodes_parts(content@.subrange(0, i as int)),
        decreases content@.len() - i,
    {
        let node = &content[i];
        proof {
            lemma_nodes_parts_step(content@, i as int);
        }
        let ghost before = texts(parts@);
        match node.get("type") {
            Some(t) => match t.as_str() {
                Some(t) => {
                    if str_eq(t, "text") {
                        match node.get("text") {
                            Some(x) => match x.as_str() {
                                Some(x) => {
                                    parts.push(String::from_str(x));
                                    assert(texts(parts@) =~= before + seq![x@]);
                                },
                                None => {},
                            },
                            None => {},
                        }
                    } else if str_eq(t, "hardBreak") {
                        parts.push(String::from_str("\n"));
                        assert(texts(parts@) =~= before + seq!["\n"@]);
                    } else {
                        match node {
                            JsonValue::Object(members) => {
                                proof {
                                    lemma_content_parts(members@);
                                }
                                match node.get("content") {
                                    Some(c) => match c {
                                        JsonValue::Array(children) => {
                                            proof {
                                                lemma_lookup_member(members@, "content"@);
                                                assert(decreases_to!(content => children));
                                            }
                                            extract_text_from_adf(children, parts);
                                        },
                                        _ => {},
                                    },
                                    None => {},
                                }
                            },
                            _ => {},
                        }
                    }
                },
                None => {},
            },
            None => {},
        }
        assert(texts(parts@) == before + node_parts(content@[i as int]));
        i = i + 1;
    }
    assert(content@.subrange(0, content@.len() as int) =~= content@);
}

/// A value found by `lookup` is one of the members' values.
proof fn lemma_lookup_member(members: Seq<(String, JsonValue)>, key: Seq<char>)
    ensures
        lookup(members, key) matches Some(v) ==> exists|k: int|
            0 <= k < members.len() && #[trigger] members[k].1 == v,
    decreases members.len(),
{
    if members.len() > 0 && members[0].0@ != key {
        lemma_lookup_member(members.drop_first(), key);
        if let Some(v) = lookup(members, key) {
            let k = choose|k: int| 0 <= k < members.drop_first().len() && #[trigger] members.drop_first()[k].1 == v;
            assert(members[k + 1].1 == v);
        }
    } else if members.len() > 0 {
        assert(members[0].1 == members[0].1);
    }
}

/// Joins the pieces with newlines.
pub fn join_with_newlines(parts: &Vec<String>) -> (r: String)
    ensures
        r@ == join_lines(texts(parts@)),
{
    let mut out = String::new();
    let mut i: usize = 0;
    while i < parts.len()
        invariant
            0 <= i <= parts@.len(),
            out@ == join_lines(texts(parts@.subrange(0, i as int))),
        decreases parts@.len() - i,
    {
        let ghost before = out@;
        assert(texts(parts@.subrange(0, i + 1)).drop_last() =~= texts(parts@.subrange(0, i as int)));
        if i > 0 {
            out.append("\n");
        }
        out.append(parts[i].as_str());
        assert(texts(parts@.subrange(0, i + 1)).last() == parts@[i as int]@);
        i = i + 1;
    }
    assert(parts@.subrange(0, parts@.len() as int) =~= parts@);
    out
}

} // verus!
