//! The demo-level event stream: everything the passes emit.

use vstd::prelude::*;

verus! {

/// One demo event: a typed game event, or one of the typed network
/// messages surfaced to the caller.
pub enum DemoEvent {
    GameEvent(Box<crate::gameevent::GameEvent>),
    ServerInfo(Box<crate::protowire::CsvcMsgServerInfo>),
    Tick(Box<crate::protowire::CnetMsgTick>),
    RankUpdate(Box<crate::protowire::CcsUsrMsgServerRankUpdate>),
    RankReveal(Box<crate::protowire::CcsUsrMsgServerRankRevealAll>),
}

/// True when the event is a tick marker.
pub open spec fn is_tick(e: DemoEvent) -> bool {
    e is Tick
}

/// The tick value of a tick marker.
pub open spec fn tick_val(e: DemoEvent) -> u32 {
    match e {
        DemoEvent::Tick(t) => t.tick,
        _ => 0,
    }
}

/// Every tick marker in the stream is at least every earlier one.
pub open spec fn ticks_mono(s: Seq<DemoEvent>) -> bool {
    forall|i: int, j: int|
        0 <= i <= j < s.len() && is_tick(#[trigger] s[i]) && is_tick(#[trigger] s[j]) ==> tick_val(
            s[i],
        ) <= tick_val(s[j])
}

/// Every tick marker in the stream is at most `bound`.
pub open spec fn ticks_bounded(s: Seq<DemoEvent>, bound: u32) -> bool {
    forall|i: int| 0 <= i < s.len() && is_tick(#[trigger] s[i]) ==> tick_val(s[i]) <= bound
}

/// Appending a non-tick event disturbs neither property.
pub proof fn lemma_push_non_tick(s: Seq<DemoEvent>, e: DemoEvent, bound: u32)
    requires
        ticks_mono(s),
        ticks_bounded(s, bound),
        !is_tick(e),
    ensures
        ticks_mono(s.push(e)),
        ticks_bounded(s.push(e), bound),
{
    let t = s.push(e);
    assert forall|i: int, j: int|
        0 <= i <= j < t.len() && is_tick(#[trigger] t[i]) && is_tick(#[trigger] t[j]) implies
    tick_val(t[i]) <= tick_val(t[j]) by {
        if j < s.len() {
            assert(t[i] == s[i] && t[j] == s[j]);
        } else {
            assert(t[j] == e);
        }
    }
    assert forall|i: int| 0 <= i < t.len() && is_tick(#[trigger] t[i]) implies tick_val(t[i])
        <= bound by {
        if i < s.len() {
            assert(t[i] == s[i]);
        } else {
            assert(t[i] == e);
        }
    }
}

/// Extending a stream by any run of non-tick events disturbs neither
/// property.
pub proof fn lemma_extend_non_tick(pre: Seq<DemoEvent>, post: Seq<DemoEvent>, bound: u32)
    requires
        post.len() >= pre.len(),
        forall|i: int| 0 <= i < pre.len() ==> post[i] == pre[i],
        forall|i: int| pre.len() <= i < post.len() ==> !is_tick(#[trigger] post[i]),
        ticks_mono(pre),
        ticks_bounded(pre, bound),
    ensures
        ticks_mono(post),
        ticks_bounded(post, bound),
{
    assert forall|i: int, j: int|
        0 <= i <= j < post.len() && is_tick(#[trigger] post[i]) && is_tick(
            #[trigger] post[j],
        ) implies tick_val(post[i]) <= tick_val(post[j]) by {
        assert(i < pre.len() && j < pre.len());
        assert(post[i] == pre[i] && post[j] == pre[j]);
        assert(is_tick(pre[i]) && is_tick(pre[j]));
    }
    assert forall|i: int|
        0 <= i < post.len() && is_tick(#[trigger] post[i]) implies tick_val(post[i])
        <= bound by {
        assert(i < pre.len());
        assert(post[i] == pre[i]);
        assert(is_tick(pre[i]));
    }
}

/// Appending a tick at or past the bound keeps the stream monotone,
/// with the new tick as the new bound.
pub proof fn lemma_push_tick(s: Seq<DemoEvent>, e: DemoEvent, bound: u32)
    requires
        ticks_mono(s),
        ticks_bounded(s, bound),
        is_tick(e),
        tick_val(e) >= bound,
    ensures
        ticks_mono(s.push(e)),
        ticks_bounded(s.push(e), tick_val(e)),
{
    let t = s.push(e);
    assert forall|i: int, j: int|
        0 <= i <= j < t.len() && is_tick(#[trigger] t[i]) && is_tick(#[trigger] t[j]) implies
    tick_val(t[i]) <= tick_val(t[j]) by {
        if j < s.len() {
            assert(t[i] == s[i] && t[j] == s[j]);
        } else {
            assert(t[j] == e);
            if i < s.len() {
                assert(t[i] == s[i]);
            }
        }
    }
    assert forall|i: int| 0 <= i < t.len() && is_tick(#[trigger] t[i]) implies tick_val(t[i])
        <= tick_val(e) by {
        if i < s.len() {
            assert(t[i] == s[i]);
        }
    }
}

} // verus!
