//! What the request that opens a session says of the join configuration.
use vstd::prelude::*;

use super::defines::JoinConfig;
use super::worker::{client_info_json, open_request_json, tree_op_json};
use crate::proto::json::{json_arr, json_obj, json_str, join_commas};
use crate::proto::v1::UpdateTreeRequest;

verus! {

/// `m` occurs in `s`.
pub open spec fn occurs_in(m: Seq<char>, s: Seq<char>) -> bool {
    exists|i: int| 0 <= i && i + m.len() <= s.len() && #[trigger] s.subrange(i, i + m.len()) == m
}

pub proof fn lemma_occurs_in_prefix(m: Seq<char>, s: Seq<char>, t: Seq<char>)
    requires
        occurs_in(m, s),
    ensures
        occurs_in(m, s + t),
{
    let i = choose|i: int| 0 <= i && i + m.len() <= s.len() && #[trigger] s.subrange(i, i + m.len()) == m;
    assert((s + t).subrange(i, i + m.len()) =~= s.subrange(i, i + m.len()));
}

pub proof fn lemma_occurs_in_suffix(m: Seq<char>, s: Seq<char>, t: Seq<char>)
    requires
        occurs_in(m, t),
    ensures
        occurs_in(m, s + t),
{
    let i = choose|i: int| 0 <= i && i + m.len() <= t.len() && #[trigger] t.subrange(i, i + m.len()) == m;
    assert((s + t).subrange(s.len() + i, s.len() + i + m.len()) =~= t.subrange(i, i + m.len()));
}

pub proof fn lemma_occurs_whole(m: Seq<char>)
    ensures
        occurs_in(m, m),
{
    let z: int = 0;
    assert(m.subrange(z, z + m.len()) =~= m);
}

/// In members joined by commas, every member but the first comes right
/// after a comma.
pub proof fn lemma_join_comma_member(items: Seq<Seq<char>>, k: int)
    requires
        0 < k < items.len(),
    ensures
        occurs_in(seq![','] + items[k], join_commas(items)),
    decreases items.len(),
{
    let last = items.len() - 1;
    let front = join_commas(items.drop_last());
    assert(join_commas(items) == front + seq![','] + items.last());
    if k == last {
        lemma_occurs_whole(seq![','] + items[k]);
        lemma_occurs_in_suffix(seq![','] + items[k], front, seq![','] + items.last());
        assert(front + seq![','] + items.last() =~= front + (seq![','] + items.last()));
    } else {
        lemma_join_comma_member(items.drop_last(), k);
        assert(items.drop_last()[k] == items[k]);
        lemma_occurs_in_prefix(seq![','] + items[k], front, seq![','] + items.last());
        assert(front + seq![','] + items.last() =~= front + (seq![','] + items.last()));
    }
}

/// A member of an object that follows at least one other member comes
/// right after a comma.
pub proof fn lemma_obj_member(a: Seq<Seq<char>>, m: Seq<char>, b: Seq<Seq<char>>)
    requires
        a.len() > 0,
    ensures
        occurs_in(seq![','] + m, json_obj(a + seq![m] + b)),
{
    let items = a + seq![m] + b;
    assert(items[a.len() as int] == m);
    lemma_join_comma_member(items, a.len() as int);
    lemma_occurs_in_suffix(seq![','] + m, seq!['{'], join_commas(items));
    lemma_occurs_in_prefix(seq![','] + m, seq!['{'] + join_commas(items), seq!['}']);
}

/// `,<key>:<value>` as one text.
proof fn lemma_comma_member(key: Seq<char>, v: Seq<char>)
    ensures
        seq![','] + crate::proto::json::member(key, v) == seq![','] + key + seq![':'] + v,
{
    assert(seq![','] + crate::proto::json::member(key, v) =~= seq![','] + key + seq![':'] + v);
}

/// The text of a boolean.
pub open spec fn wire_bool(b: bool) -> Seq<char> {
    if b {
        "true"@
    } else {
        "false"@
    }
}

/// The optional members, in order.
spec fn opt_members(c: JoinConfig) -> (Seq<Seq<char>>, Seq<Seq<char>>, Seq<Seq<char>>, Seq<Seq<char>>, Seq<Seq<char>>) {
    (
        crate::proto::json::opt_raw_m(
            "\"client_info\""@,
            match c.advance.client_info {
                Some(x) => Some(client_info_json(x)),
                None => None,
            },
        ),
        crate::proto::json::opt_str_m("\"token\""@, crate::glue::defines::opt_astr(c.advance.token)),
        crate::proto::json::opt_str_m("\"user_ext\""@, crate::glue::defines::opt_astr(c.advance.user_ext)),
        crate::proto::json::opt_raw_m(
            "\"user_tree\""@,
            match c.advance.user_tree {
                Some(t) => Some(json_arr(t@.map_values(|u: UpdateTreeRequest| tree_op_json(u)))),
                None => None,
            },
        ),
        crate::proto::json::opt_bool_m("\"batch\""@, c.advance.batch),
    )
}

proof fn lemma_open_has_room(c: JoinConfig)
    ensures
        occurs_in(",\"room_id\":"@ + json_str(c.room_id@), open_request_json(c)),
{
    let (ci, tok, ext, tree, bat) = opt_members(c);
    let uid = crate::proto::json::str_m("\"user_id\""@, c.user_id@);
    let rid = crate::proto::json::str_m("\"room_id\""@, c.room_id@);
    assert(open_request_json(c) == json_obj(seq![uid] + seq![rid] + ci + tok + ext + tree + bat));
    assert(seq![uid] + seq![rid] + ci + tok + ext + tree + bat =~= seq![uid] + seq![rid] + (ci + tok + ext + tree
        + bat));
    lemma_obj_member(seq![uid], rid, ci + tok + ext + tree + bat);
    reveal_strlit(",\"room_id\":");
    reveal_strlit("\"room_id\"");
    assert(",\"room_id\":"@ + json_str(c.room_id@) =~= seq![','] + rid);
}

proof fn lemma_open_has_client_info(c: JoinConfig)
    ensures
        c.advance.client_info matches Some(x) ==> occurs_in(
            ",\"client_info\":"@ + client_info_json(x),
            open_request_json(c),
        ),
{
    if let Some(x) = c.advance.client_info {
        let (ci, tok, ext, tree, bat) = opt_members(c);
        let uid = crate::proto::json::str_m("\"user_id\""@, c.user_id@);
        let rid = crate::proto::json::str_m("\"room_id\""@, c.room_id@);
        assert(open_request_json(c) == json_obj(seq![uid] + seq![rid] + ci + tok + ext + tree + bat));
        let m = crate::proto::json::member("\"client_info\""@, client_info_json(x));
        assert(seq![uid] + seq![rid] + ci + tok + ext + tree + bat =~= (seq![uid] + seq![rid]) + seq![m] + (tok + ext
            + tree + bat));
        lemma_obj_member(seq![uid] + seq![rid], m, tok + ext + tree + bat);
        reveal_strlit(",\"client_info\":");
        reveal_strlit("\"client_info\"");
        assert(",\"client_info\":"@ + client_info_json(x) =~= seq![','] + m);
    }
}

proof fn lemma_open_has_token(c: JoinConfig)
    ensures
        c.advance.token matches Some(t) ==> occurs_in(",\"token\":"@ + json_str(t@), open_request_json(c)),
{
    if let Some(t) = c.advance.token {
        let (ci, tok, ext, tree, bat) = opt_members(c);
        let uid = crate::proto::json::str_m("\"user_id\""@, c.user_id@);
        let rid = crate::proto::json::str_m("\"room_id\""@, c.room_id@);
        assert(open_request_json(c) == json_obj(seq![uid] + seq![rid] + ci + tok + ext + tree + bat));
        let m = crate::proto::json::str_m("\"token\""@, t@);
        assert(seq![uid] + seq![rid] + ci + tok + ext + tree + bat =~= (seq![uid] + seq![rid] + ci) + seq![m] + (ext
            + tree + bat));
        lemma_obj_member(seq![uid] + seq![rid] + ci, m, ext + tree + bat);
        reveal_strlit(",\"token\":");
        reveal_strlit("\"token\"");
        assert(",\"token\":"@ + json_str(t@) =~= seq![','] + m);
    }
}

proof fn lemma_open_has_user_ext(c: JoinConfig)
    ensures
        c.advance.user_ext matches Some(x) ==> occurs_in(",\"user_ext\":"@ + json_str(x@), open_request_json(c)),
{
    if let Some(x) = c.advance.user_ext {
        let (ci, tok, ext, tree, bat) = opt_members(c);
        let uid = crate::proto::json::str_m("\"user_id\""@, c.user_id@);
        let rid = crate::proto::json::str_m("\"room_id\""@, c.room_id@);
        assert(open_request_json(c) == json_obj(seq![uid] + seq![rid] + ci + tok + ext + tree + bat));
        let m = crate::proto::json::str_m("\"user_ext\""@, x@);
        assert(seq![uid] + seq![rid] + ci + tok + ext + tree + bat =~= (seq![uid] + seq![rid] + ci + tok) + seq![m]
            + (tree + bat));
        lemma_obj_member(seq![uid] + seq![rid] + ci + tok, m, tree + bat);
        reveal_strlit(",\"user_ext\":");
        reveal_strlit("\"user_ext\"");
        assert(",\"user_ext\":"@ + json_str(x@) =~= seq![','] + m);
    }
}

proof fn lemma_open_has_user_tree(c: JoinConfig)
    ensures
        c.advance.user_tree matches Some(t) ==> occurs_in(
            ",\"user_tree\":"@ + json_arr(t@.map_values(|u: UpdateTreeRequest| tree_op_json(u))),
            open_request_json(c),
        ),
{
    if let Some(t) = c.advance.user_tree {
        let (ci, tok, ext, tree, bat) = opt_members(c);
        let uid = crate::proto::json::str_m("\"user_id\""@, c.user_id@);
        let rid = crate::proto::json::str_m("\"room_id\""@, c.room_id@);
        assert(open_request_json(c) == json_obj(seq![uid] + seq![rid] + ci + tok + ext + tree + bat));
        let arr = json_arr(t@.map_values(|u: UpdateTreeRequest| tree_op_json(u)));
        let m = crate::proto::json::member("\"user_tree\""@, arr);
        assert(seq![uid] + seq![rid] + ci + tok + ext + tree + bat =~= (seq![uid] + seq![rid] + ci + tok + ext)
            + seq![m] + bat);
        lemma_obj_member(seq![uid] + seq![rid] + ci + tok + ext, m, bat);
        reveal_strlit(",\"user_tree\":");
        reveal_strlit("\"user_tree\"");
        assert(",\"user_tree\":"@ + arr =~= seq![','] + m);
    }
}

proof fn lemma_open_has_batch(c: JoinConfig)
    ensures
        c.advance.batch matches Some(b) ==> occurs_in(",\"batch\":"@ + wire_bool(b), open_request_json(c)),
{
    if let Some(b) = c.advance.batch {
        let (ci, tok, ext, tree, bat) = opt_members(c);
        let uid = crate::proto::json::str_m("\"user_id\""@, c.user_id@);
        let rid = crate::proto::json::str_m("\"room_id\""@, c.room_id@);
        assert(open_request_json(c) == json_obj(seq![uid] + seq![rid] + ci + tok + ext + tree + bat));
        let m = crate::proto::json::bool_m("\"batch\""@, b);
        assert(seq![uid] + seq![rid] + ci + tok + ext + tree + bat =~= (seq![uid] + seq![rid] + ci + tok + ext + tree)
            + seq![m] + Seq::<Seq<char>>::empty());
        lemma_obj_member(seq![uid] + seq![rid] + ci + tok + ext + tree, m, Seq::empty());
        reveal_strlit(",\"batch\":");
        reveal_strlit("\"batch\"");
        reveal_strlit("true");
        reveal_strlit("false");
        assert(",\"batch\":"@ + wire_bool(b) =~= seq![','] + m);
    }
}

/// Joining: every part of the join configuration that is given reaches
/// the request that opens the session, each as its own member after a
/// comma: the room, the client description, the token, the user's
/// extension data, the user's tree and the batch flag.
pub proof fn lemma_open_request_carries_config(c: JoinConfig)
    ensures
        occurs_in(",\"room_id\":"@ + json_str(c.room_id@), open_request_json(c)),
        c.advance.client_info matches Some(ci) ==> occurs_in(
            ",\"client_info\":"@ + client_info_json(ci),
            open_request_json(c),
        ),
        c.advance.token matches Some(t) ==> occurs_in(",\"token\":"@ + json_str(t@), open_request_json(c)),
        c.advance.user_ext matches Some(x) ==> occurs_in(",\"user_ext\":"@ + json_str(x@), open_request_json(c)),
        c.advance.user_tree matches Some(t) ==> occurs_in(
            ",\"user_tree\":"@ + json_arr(t@.map_values(|u: UpdateTreeRequest| tree_op_json(u))),
            open_request_json(c),
        ),
        c.advance.batch matches Some(b) ==> occurs_in(",\"batch\":"@ + wire_bool(b), open_request_json(c)),
{
    lemma_open_has_room(c);
    lemma_open_has_client_info(c);
    lemma_open_has_token(c);
    lemma_open_has_user_ext(c);
    lemma_open_has_user_tree(c);
    lemma_open_has_batch(c);
}

} // verus!
