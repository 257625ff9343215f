//! Laws of the draw orchestrator that span more than one operation.
//!
//! Each proof function here states, over the transition predicates that the
//! orchestrator's methods ensure, a guarantee a caller may rely on across
//! calls: selection is never served stale, an unchanged bitmap is never
//! re-uploaded, and a pending export readback never blocks drawing.

use crate::engine::{draw_post, set_current_post, DrawError, DrawPlan, RenderCore};
use vstd::prelude::*;

verus! {

/// After `set_current(index)` with a valid index, the next draw always
/// binds the bitmap at that index: either the plan re-uploads and rebinds
/// it, or it was already the bound one — no stale binding from a prior
/// index survives, and afterwards the orchestrator records exactly that
/// bitmap as bound.
pub proof fn lemma_select_then_draw_binds(
    pre: RenderCore,
    mid: RenderCore,
    post: RenderCore,
    index: usize,
    ok: bool,
    update_texture: bool,
    r: Result<DrawPlan, DrawError>,
)
    requires
        index < pre.queue.items@.len(),
        pre.configured,
        set_current_post(pre, mid, index, ok),
        draw_post(mid, post, update_texture, r),
    ensures
        ok,
        r is Ok,
        post.bound_index == Some(index),
        r matches Ok(plan) ==> plan.rebind == Some(index) || (plan.rebind is None
            && pre.bound_index == Some(index)),
{
}

/// Drawing again without a bitmap change rebuilds nothing: after any
/// successful draw, a second draw that does not force an upload leaves the
/// binding set alone and only rewrites the adjustment uniform block.
pub proof fn lemma_no_rebind_on_unchanged_bitmap(
    pre: RenderCore,
    mid: RenderCore,
    post: RenderCore,
    update_texture: bool,
    r1: Result<DrawPlan, DrawError>,
    r2: Result<DrawPlan, DrawError>,
)
    requires
        pre.queue.items@.len() > 0,
        pre.configured,
        draw_post(pre, mid, update_texture, r1),
        draw_post(mid, post, false, r2),
    ensures
        r2 matches Ok(plan) && plan.rebind is None && plan.uniform@
            == crate::adjust::spec_uniform_block(pre.adjustment),
{
}

/// A pending export readback never blocks drawing: whether a draw succeeds
/// depends only on the queue and the surface configuration, never on how
/// many readbacks are still in flight, so the display stays live while
/// exports complete on their own.
pub proof fn lemma_pending_export_never_blocks(
    pre: RenderCore,
    post: RenderCore,
    update_texture: bool,
    r: Result<DrawPlan, DrawError>,
)
    requires
        pre.queue.items@.len() > 0,
        pre.configured,
        draw_post(pre, post, update_texture, r),
    ensures
        r is Ok,
{
}

} // verus!
