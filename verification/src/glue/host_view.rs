//! What the host knows of a user's streams, as the stream callbacks tell
//! it: for each stream type, whether that stream is muted. Telling the
//! host a user's stream changes keeps this picture equal to the user's
//! streams.
use vstd::prelude::*;

use super::client::{
    delta_calls, find_stream, first_muted, joined_calls, new_part, new_step, old_part, old_step, opt_add,
    Call,
};
use crate::proto::v1::stream_ids_unique;
use super::defines::TreeNode;
use crate::proto::v1::Stream;

verus! {

/// The host's picture of a list of streams: each stream type mapped to
/// whether its stream is muted (a later stream of a type replaces an
/// earlier one).
pub open spec fn streams_view(s: Seq<(String, Stream)>) -> Map<i32, bool>
    decreases s.len(),
{
    if s.len() == 0 {
        Map::empty()
    } else {
        streams_view(s.drop_last()).insert(s.last().1.stype, s.last().1.muted)
    }
}

/// The host's picture after one callback.
pub open spec fn apply_call(m: Map<i32, bool>, c: Call) -> Map<i32, bool> {
    match c {
        Call::AddStream(_, t, muted) => m.insert(t, muted),
        Call::UpdateStream(_, t, muted) => m.insert(t, muted),
        Call::RemoveStream(_, t) => m.remove(t),
        _ => m,
    }
}

/// The host's picture after the callbacks `p`, in order.
pub open spec fn apply_calls(m: Map<i32, bool>, p: Seq<Call>) -> Map<i32, bool>
    decreases p.len(),
{
    if p.len() == 0 {
        m
    } else {
        apply_call(apply_calls(m, p.drop_last()), p.last())
    }
}

/// No two streams of a list share a type.
pub open spec fn stream_types_unique(s: Seq<(String, Stream)>) -> bool {
    forall|i: int, j: int| 0 <= i < j < s.len() ==> #[trigger] s[i].1.stype != #[trigger] s[j].1.stype
}

/// A stream kept under the same id keeps its type.
pub open spec fn ids_keep_types(old: Seq<(String, Stream)>, new: Seq<(String, Stream)>) -> bool {
    forall|i: int, j: int|
        0 <= i < old.len() && 0 <= j < new.len() && #[trigger] old[i].0@ == #[trigger] new[j].0@ ==> old[i].1.stype
            == new[j].1.stype
}

/// The last position of a stream of type `t`, or -1.
pub open spec fn type_index(s: Seq<(String, Stream)>, t: i32) -> int
    decreases s.len(),
{
    if s.len() == 0 {
        -1
    } else if s.last().1.stype == t {
        s.len() - 1
    } else {
        type_index(s.drop_last(), t)
    }
}

/// The first position of a stream with id `id`, or -1.
pub open spec fn id_index(s: Seq<(String, Stream)>, id: Seq<char>) -> int
    decreases s.len(),
{
    if s.len() == 0 {
        -1
    } else if s[0].0@ == id {
        0
    } else if id_index(s.drop_first(), id) < 0 {
        -1
    } else {
        1 + id_index(s.drop_first(), id)
    }
}

proof fn lemma_type_index(s: Seq<(String, Stream)>, t: i32)
    ensures
        -1 <= type_index(s, t) < s.len(),
        type_index(s, t) >= 0 ==> s[type_index(s, t)].1.stype == t,
        type_index(s, t) < 0 ==> forall|k: int| 0 <= k < s.len() ==> #[trigger] s[k].1.stype != t,
        streams_view(s).dom().contains(t) <==> type_index(s, t) >= 0,
        type_index(s, t) >= 0 ==> streams_view(s)[t] == s[type_index(s, t)].1.muted,
    decreases s.len(),
{
    if s.len() > 0 {
        lemma_type_index(s.drop_last(), t);
        if type_index(s, t) < 0 {
            assert forall|k: int| 0 <= k < s.len() implies #[trigger] s[k].1.stype != t by {
                if k < s.len() - 1 {
                    assert(s[k] == s.drop_last()[k]);
                }
            }
        } else if s.last().1.stype != t {
            assert(s[type_index(s, t)] == s.drop_last()[type_index(s, t)]);
        }
    }
}

proof fn lemma_type_index_unique(s: Seq<(String, Stream)>, k: int)
    requires
        stream_types_unique(s),
        0 <= k < s.len(),
    ensures
        type_index(s, s[k].1.stype) == k,
{
    lemma_type_index(s, s[k].1.stype);
    let i = type_index(s, s[k].1.stype);
    if i != k {
        if i < k {
            assert(s[i].1.stype != s[k].1.stype);
        } else {
            assert(s[k].1.stype != s[i].1.stype);
        }
    }
}

proof fn lemma_id_index(s: Seq<(String, Stream)>, id: Seq<char>)
    ensures
        -1 <= id_index(s, id) < s.len(),
        id_index(s, id) >= 0 ==> s[id_index(s, id)].0@ == id && find_stream(s, id) == Some(
            s[id_index(s, id)].1,
        ),
        id_index(s, id) < 0 ==> find_stream(s, id) is None && forall|k: int| 0 <= k < s.len() ==> #[trigger] s[k].0@ != id,
    decreases s.len(),
{
    if s.len() > 0 {
        lemma_id_index(s.drop_first(), id);
        if s[0].0@ != id {
            if id_index(s, id) >= 0 {
                assert(s[id_index(s, id)] == s.drop_first()[id_index(s, id) - 1]);
            } else {
                assert forall|k: int| 0 <= k < s.len() implies #[trigger] s[k].0@ != id by {
                    if k > 0 {
                        assert(s[k] == s.drop_first()[k - 1]);
                    }
                }
            }
        }
    }
}

proof fn lemma_apply_calls_concat(m: Map<i32, bool>, p: Seq<Call>, q: Seq<Call>)
    ensures
        apply_calls(m, p + q) == apply_calls(apply_calls(m, p), q),
    decreases q.len(),
{
    if q.len() == 0 {
        assert(p + q =~= p);
    } else {
        assert((p + q).drop_last() =~= p + q.drop_last());
        assert((p + q).last() == q.last());
        lemma_apply_calls_concat(m, p, q.drop_last());
    }
}

/// What the picture holds at type `t` after the callbacks for the first
/// `k` streams the user had: a type of one of them is there exactly when
/// that stream is still there, with its new muting; any other type is as
/// before.
pub open spec fn old_part_at(
    old: Seq<(String, Stream)>,
    new: Seq<(String, Stream)>,
    k: int,
    m: Map<i32, bool>,
    t: i32,
) -> bool {
    let i = type_index(old.take(k), t);
    if i >= 0 {
        let f = find_stream(new, old[i].0@);
        &&& m.dom().contains(t) <==> f is Some
        &&& f is Some ==> m[t] == f.unwrap().muted
    } else {
        &&& m.dom().contains(t) <==> streams_view(old).dom().contains(t)
        &&& m.dom().contains(t) ==> m[t] == streams_view(old)[t]
    }
}

proof fn lemma_old_part(
    uid: Seq<char>,
    old: Seq<(String, Stream)>,
    new: Seq<(String, Stream)>,
    k: int,
    t: i32,
)
    requires
        stream_types_unique(old),
        ids_keep_types(old, new),
        0 <= k <= old.len(),
    ensures
        old_part_at(old, new, k, apply_calls(streams_view(old), old_part(uid, old.take(k), new)), t),
    decreases k,
{
    let v = streams_view(old);
    if k == 0 {
        assert(old.take(0) =~= Seq::<(String, Stream)>::empty());
        assert(type_index(old.take(0), t) == -1);
    } else {
        lemma_old_part(uid, old, new, k - 1, t);
        let e = old[k - 1];
        let pre = old.take(k - 1);
        let a = apply_calls(v, old_part(uid, pre, new));
        assert(old.take(k).drop_last() =~= pre);
        assert(old.take(k).last() == e);
        assert(old_part(uid, old.take(k), new) == old_part(uid, pre, new) + old_step(uid, e, new));
        lemma_apply_calls_concat(v, old_part(uid, pre, new), old_step(uid, e, new));
        let b = apply_calls(v, old_part(uid, old.take(k), new));
        assert(b == apply_calls(a, old_step(uid, e, new)));
        let te = e.1.stype;
        lemma_id_index(new, e.0@);
        let f = find_stream(new, e.0@);
        // the step only touches the type of `e`
        let step = old_step(uid, e, new);
        match f {
            Some(ns) => {
                let j = id_index(new, e.0@);
                assert(new[j].0@ == old[k - 1].0@);
                assert(ns.stype == te);
                if e.1.producer_id@ != ns.producer_id@ {
                    let s1 = step.drop_last();
                    assert(s1.drop_last() =~= Seq::<Call>::empty());
                    assert(s1.last() == Call::RemoveStream(uid, te));
                    assert(apply_calls(a, s1.drop_last()) == a);
                    assert(apply_calls(a, s1) == a.remove(te));
                    assert(step.last() == Call::AddStream(uid, ns.stype, ns.muted));
                    assert(b == a.remove(te).insert(te, ns.muted));
                } else if e.1.muted != ns.muted {
                    assert(step.drop_last() =~= Seq::<Call>::empty());
                    assert(apply_calls(a, step.drop_last()) == a);
                    assert(b == a.insert(te, ns.muted));
                } else {
                    assert(b == a);
                }
            },
            None => {
                assert(step.drop_last() =~= Seq::<Call>::empty());
                assert(apply_calls(a, step.drop_last()) == a);
                assert(b == a.remove(te));
            },
        }
        {
            assert(old_part_at(old, new, k - 1, a, t));
            lemma_type_index(pre, t);
            lemma_type_index(old.take(k), t);
            if t == te {
                assert(type_index(old.take(k), t) == k - 1);
                if type_index(pre, t) >= 0 {
                    let i = type_index(pre, t);
                    assert(pre[i] == old[i]);
                    assert(old[i].1.stype != old[k - 1].1.stype);
                }
                lemma_type_index(old, t);
                lemma_type_index_unique(old, k - 1);
            } else {
                assert(type_index(old.take(k), t) == type_index(pre, t));
                if type_index(pre, t) >= 0 {
                    assert(pre[type_index(pre, t)] == old[type_index(pre, t)]);
                    assert(old.take(k)[type_index(pre, t)] == old[type_index(pre, t)]);
                }
            }
        }
    }
}

/// What the picture holds at type `t` after the callbacks for the first
/// `k` streams the user has now, starting from `a`: the type of a stream
/// that is new is there with its muting; any other type is as in `a`.
pub open spec fn new_part_at(
    new: Seq<(String, Stream)>,
    old: Seq<(String, Stream)>,
    k: int,
    a: Map<i32, bool>,
    m: Map<i32, bool>,
    t: i32,
) -> bool {
    let j = type_index(new.take(k), t);
    if j >= 0 && find_stream(old, new[j].0@) is None {
        m.dom().contains(t) && m[t] == new[j].1.muted
    } else {
        &&& m.dom().contains(t) <==> a.dom().contains(t)
        &&& m.dom().contains(t) ==> m[t] == a[t]
    }
}

proof fn lemma_new_part(
    uid: Seq<char>,
    new: Seq<(String, Stream)>,
    old: Seq<(String, Stream)>,
    a: Map<i32, bool>,
    k: int,
    t: i32,
)
    requires
        stream_types_unique(new),
        0 <= k <= new.len(),
    ensures
        new_part_at(new, old, k, a, apply_calls(a, new_part(uid, new.take(k), old)), t),
    decreases k,
{
    if k == 0 {
        assert(new.take(0) =~= Seq::<(String, Stream)>::empty());
        assert(type_index(new.take(0), t) == -1);
    } else {
        lemma_new_part(uid, new, old, a, k - 1, t);
        let e = new[k - 1];
        let pre = new.take(k - 1);
        let m0 = apply_calls(a, new_part(uid, pre, old));
        assert(new.take(k).drop_last() =~= pre);
        assert(new.take(k).last() == e);
        assert(new_part(uid, new.take(k), old) == new_part(uid, pre, old) + new_step(uid, e, old));
        lemma_apply_calls_concat(a, new_part(uid, pre, old), new_step(uid, e, old));
        let m1 = apply_calls(a, new_part(uid, new.take(k), old));
        let step = new_step(uid, e, old);
        if find_stream(old, e.0@) is None {
            assert(step.drop_last() =~= Seq::<Call>::empty());
            assert(apply_calls(m0, step.drop_last()) == m0);
            assert(m1 == m0.insert(e.1.stype, e.1.muted));
        } else {
            assert(m1 == m0);
        }
        {
            assert(new_part_at(new, old, k - 1, a, m0, t));
            lemma_type_index(pre, t);
            lemma_type_index(new.take(k), t);
            if t == e.1.stype {
                assert(type_index(new.take(k), t) == k - 1);
                if type_index(pre, t) >= 0 {
                    let i = type_index(pre, t);
                    assert(pre[i] == new[i]);
                    assert(new[i].1.stype != new[k - 1].1.stype);
                }
            } else {
                assert(type_index(new.take(k), t) == type_index(pre, t));
                if type_index(pre, t) >= 0 {
                    assert(pre[type_index(pre, t)] == new[type_index(pre, t)]);
                    assert(new.take(k)[type_index(pre, t)] == new[type_index(pre, t)]);
                }
            }
        }
    }
}

proof fn lemma_first_muted(s: Seq<(String, Stream)>, v: i32)
    ensures
        first_muted(s, v) is None ==> forall|k: int| 0 <= k < s.len() ==> #[trigger] s[k].1.stype != v,
        first_muted(s, v) matches Some(b) ==> exists|k: int| 0 <= k < s.len() && #[trigger] s[k].1.stype == v && s[k].1.muted == b,
    decreases s.len(),
{
    if s.len() > 0 {
        lemma_first_muted(s.drop_first(), v);
        if s[0].1.stype != v {
            if first_muted(s, v) is None {
                assert forall|k: int| 0 <= k < s.len() implies #[trigger] s[k].1.stype != v by {
                    if k > 0 {
                        assert(s[k] == s.drop_first()[k - 1]);
                    }
                }
            } else {
                let k = choose|k: int| 0 <= k < s.drop_first().len() && #[trigger] s.drop_first()[k].1.stype == v
                    && s.drop_first()[k].1.muted == first_muted(s, v).unwrap();
                assert(s[k + 1] == s.drop_first()[k]);
            }
        } else {
            assert(s[0].1.stype == v);
        }
    }
}

/// Every stream of the list is a camera, microphone or screen stream.
pub open spec fn stream_types_known(s: Seq<(String, Stream)>) -> bool {
    forall|k: int| 0 <= k < s.len() ==> 1 <= #[trigger] s[k].1.stype <= 3
}

/// Announcing a user tells the host all of its streams: the callbacks that
/// `joined_calls` plans, applied to an empty picture, give the picture of
/// the user's streams, when no two of them share a type and each is a
/// camera, microphone or screen stream.
pub proof fn lemma_joined_tells_all_streams(uid: Seq<char>, tree: Seq<TreeNode>, streams: Seq<(String, Stream)>)
    requires
        stream_types_unique(streams),
        stream_types_known(streams),
    ensures
        apply_calls(Map::empty(), joined_calls(uid, tree, streams)) == streams_view(streams),
{
    let e = Map::<i32, bool>::empty();
    let j = seq![Call::UserJoined(uid, super::client::nodes_view(tree))];
    let a1 = opt_add(uid, 1, first_muted(streams, 1));
    let a2 = opt_add(uid, 2, first_muted(streams, 2));
    let a3 = opt_add(uid, 3, first_muted(streams, 3));
    assert(joined_calls(uid, tree, streams) == j + a1 + a2 + a3);
    lemma_apply_calls_concat(e, j + a1 + a2, a3);
    lemma_apply_calls_concat(e, j + a1, a2);
    lemma_apply_calls_concat(e, j, a1);
    assert(j.drop_last() =~= Seq::<Call>::empty());
    assert(apply_calls(e, j.drop_last()) == e);
    let m0 = apply_calls(e, j);
    assert(m0 == e);
    assert forall|m: Map<i32, bool>, v: i32| #[trigger] apply_calls(m, opt_add(uid, v, first_muted(streams, v))) == match first_muted(streams, v) {
        Some(b) => m.insert(v, b),
        None => m,
    } by {
        match first_muted(streams, v) {
            Some(b) => {
                assert(opt_add(uid, v, first_muted(streams, v)).drop_last() =~= Seq::<Call>::empty());
                assert(apply_calls(m, opt_add(uid, v, first_muted(streams, v)).drop_last()) == m);
            },
            None => {},
        }
    }
    let m1 = apply_calls(m0, a1);
    let m2 = apply_calls(m1, a2);
    let m3 = apply_calls(m2, a3);
    let w = streams_view(streams);
    lemma_first_muted(streams, 1);
    lemma_first_muted(streams, 2);
    lemma_first_muted(streams, 3);
    assert forall|t: i32| #[trigger] m3.dom().contains(t) <==> w.dom().contains(t) by {
        lemma_type_index(streams, t);
        if type_index(streams, t) >= 0 {
            let k = type_index(streams, t);
            assert(1 <= streams[k].1.stype <= 3);
        }
    }
    assert forall|t: i32| #[trigger] w.dom().contains(t) implies m3[t] == w[t] by {
        lemma_type_index(streams, t);
        let k = type_index(streams, t);
        assert(1 <= streams[k].1.stype <= 3);
        let b = first_muted(streams, t).unwrap();
        let k2 = choose|k2: int| 0 <= k2 < streams.len() && #[trigger] streams[k2].1.stype == t && streams[k2].1.muted == b;
        lemma_type_index_unique(streams, k2);
    }
    assert(m3 =~= w);
}

/// Telling the host how a user's streams changed brings its picture of
/// that user's streams up to date: the callbacks that `delta_calls` plans
/// for a change from `old` to `new`, applied to the picture of `old`, give
/// the picture of `new`. This holds when neither list has two streams of
/// one id or one type and a stream kept under its id keeps its type.
pub proof fn lemma_delta_updates_host_view(uid: Seq<char>, old: Seq<(String, Stream)>, new: Seq<(String, Stream)>)
    requires
        stream_ids_unique(old),
        stream_ids_unique(new),
        stream_types_unique(old),
        stream_types_unique(new),
        ids_keep_types(old, new),
    ensures
        apply_calls(streams_view(old), delta_calls(uid, old, new)) == streams_view(new),
{
    let v = streams_view(old);
    assert(old.take(old.len() as int) =~= old);
    let a = apply_calls(v, old_part(uid, old, new));
    assert(new.take(new.len() as int) =~= new);
    let b = apply_calls(a, new_part(uid, new, old));
    lemma_apply_calls_concat(v, old_part(uid, old, new), new_part(uid, new, old));
    let w = streams_view(new);
    assert forall|t: i32| #[trigger] b.dom().contains(t) <==> w.dom().contains(t) by {
        lemma_old_part(uid, old, new, old.len() as int, t);
        lemma_new_part(uid, new, old, a, new.len() as int, t);
        lemma_type_index(new, t);
        lemma_type_index(old, t);
        let j = type_index(new, t);
        let i = type_index(old, t);
        if j >= 0 {
            lemma_id_index(old, new[j].0@);
            if find_stream(old, new[j].0@) is Some {
                let oi = id_index(old, new[j].0@);
                assert(old[oi].0@ == new[j].0@);
                assert(old[oi].1.stype == new[j].1.stype);
                lemma_type_index_unique(old, oi);
                lemma_id_index(new, old[oi].0@);
                crate::glue::client::lemma_find_stream_unique(new, j);
            }
        } else if i >= 0 {
            lemma_id_index(new, old[i].0@);
            if find_stream(new, old[i].0@) is Some {
                let nj = id_index(new, old[i].0@);
                assert(new[nj].0@ == old[i].0@);
                assert(new[nj].1.stype == t);
            }
        }
    }
    assert forall|t: i32| #[trigger] w.dom().contains(t) implies b[t] == w[t] by {
        lemma_old_part(uid, old, new, old.len() as int, t);
        lemma_new_part(uid, new, old, a, new.len() as int, t);
        lemma_type_index(new, t);
        let j = type_index(new, t);
        lemma_id_index(old, new[j].0@);
        if find_stream(old, new[j].0@) is Some {
            let oi = id_index(old, new[j].0@);
            assert(old[oi].0@ == new[j].0@);
            assert(old[oi].1.stype == new[j].1.stype);
            lemma_type_index_unique(old, oi);
            crate::glue::client::lemma_find_stream_unique(new, j);
        }
    }
    assert(b =~= w);
}

} // verus!
