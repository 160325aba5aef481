//! The topmost controller: plans of window-attribute calls.
//!
//! Raising or lowering a window is a short fixed sequence of
//! operating-system calls.  This module builds that sequence as a plan of
//! actions for the unverified shell to perform one by one, each call
//! best-effort, and models what the documented calls do to window state, so
//! that the effect of a whole plan is provable.

use vstd::prelude::*;

verus! {

/// One operating-system call of a plan, aimed at a window handle.
#[derive(Clone, Copy, Debug, PartialEq, Eq, Structural)]
pub enum TopAction {
    /// Restore the window from its minimized state.
    Restore(isize),
    /// Put the window into the always-on-top band, showing it, without
    /// moving or resizing it.
    SetTopmost(isize),
    /// Take the window out of the always-on-top band, leaving position,
    /// size and visibility untouched.
    SetNotTopmost(isize),
    /// Show the window.
    Show(isize),
    /// Ask for foreground focus; the system may refuse, and no modeled
    /// state changes.
    Foreground(isize),
}

/// The state of one window, as far as the controller observes it.
#[derive(Clone, Copy, Debug, PartialEq, Eq, Structural)]
pub struct ModelWindow {
    pub hwnd: isize,
    pub minimized: bool,
    pub topmost: bool,
    pub visible: bool,
}

/// What one action does to one window.  An action aimed at another handle,
/// or at a handle that no longer exists, changes nothing.
pub open spec fn spec_apply_to_window(w: ModelWindow, a: TopAction) -> ModelWindow {
    match a {
        TopAction::Restore(h) => if w.hwnd == h {
            ModelWindow { hwnd: w.hwnd, minimized: false, topmost: w.topmost, visible: true }
        } else {
            w
        },
        TopAction::SetTopmost(h) => if w.hwnd == h {
            ModelWindow { hwnd: w.hwnd, minimized: w.minimized, topmost: true, visible: true }
        } else {
            w
        },
        TopAction::SetNotTopmost(h) => if w.hwnd == h {
            ModelWindow { hwnd: w.hwnd, minimized: w.minimized, topmost: false, visible: w.visible }
        } else {
            w
        },
        TopAction::Show(h) => if w.hwnd == h {
            ModelWindow { hwnd: w.hwnd, minimized: w.minimized, topmost: w.topmost, visible: true }
        } else {
            w
        },
        TopAction::Foreground(_) => w,
    }
}

/// One action applied to every window on the desktop.
pub open spec fn spec_apply_action(ws: Seq<ModelWindow>, a: TopAction) -> Seq<ModelWindow> {
    ws.map_values(|w: ModelWindow| spec_apply_to_window(w, a))
}

/// A plan applied front to back.
pub open spec fn spec_apply_plan(ws: Seq<ModelWindow>, plan: Seq<TopAction>) -> Seq<ModelWindow>
    decreases plan.len(),
{
    if plan.len() == 0 {
        ws
    } else {
        spec_apply_plan(spec_apply_action(ws, plan[0]), plan.drop_first())
    }
}

/// The calls that raise a window: restore it first if it is minimized, put
/// it on top, show it, ask for focus, and re-assert the caller's own
/// overlay window on top afterwards if one is given.
pub open spec fn spec_topmost_plan(hwnd: isize, hwnd_self: Option<isize>, minimized: bool) -> Seq<
    TopAction,
> {
    (if minimized {
        seq![TopAction::Restore(hwnd)]
    } else {
        Seq::<TopAction>::empty()
    }) + seq![TopAction::SetTopmost(hwnd), TopAction::Show(hwnd), TopAction::Foreground(hwnd)] + (
    match hwnd_self {
        Option::Some(h) => seq![TopAction::SetTopmost(h)],
        Option::None => Seq::<TopAction>::empty(),
    })
}

/// Builds the plan that raises `hwnd` always-on-top.  `minimized` is the
/// window's current minimized state as the shell read it; `hwnd_self` is
/// the caller's own overlay window, re-asserted on top at the end so the
/// raised window does not occlude it.
pub fn show_and_topmost(hwnd: isize, hwnd_self: Option<isize>, minimized: bool) -> (plan: Vec<
    TopAction,
>)
    ensures
        plan@ == spec_topmost_plan(hwnd, hwnd_self, minimized),
{
    let mut plan: Vec<TopAction> = Vec::new();
    if minimized {
        plan.push(TopAction::Restore(hwnd));
    }
    plan.push(TopAction::SetTopmost(hwnd));
    plan.push(TopAction::Show(hwnd));
    plan.push(TopAction::Foreground(hwnd));
    match hwnd_self {
        Option::Some(h) => plan.push(TopAction::SetTopmost(h)),
        Option::None => {},
    }
    proof {
        assert(plan@ =~= spec_topmost_plan(hwnd, hwnd_self, minimized));
    }
    plan
}

/// Builds the plan that takes `hwnd` out of the always-on-top band,
/// leaving position, size and everything else untouched.
pub fn show_and_not_topmost(hwnd: isize) -> (plan: Vec<TopAction>)
    ensures
        plan@ == seq![TopAction::SetNotTopmost(hwnd)],
{
    let mut plan: Vec<TopAction> = Vec::new();
    plan.push(TopAction::SetNotTopmost(hwnd));
    proof {
        assert(plan@ =~= seq![TopAction::SetNotTopmost(hwnd)]);
    }
    plan
}

/// The plan that lowers every handle of a list, one by one.
pub open spec fn spec_cancel_plan(hwnds: Seq<isize>) -> Seq<TopAction> {
    hwnds.map_values(|h: isize| TopAction::SetNotTopmost(h))
}

/// Builds the plan that takes every listed handle out of the
/// always-on-top band.  Each handle is handled independently: a stale
/// handle's call fails on its own and the rest still run.
pub fn cancel_all_topmost(hwnds: &Vec<isize>) -> (plan: Vec<TopAction>)
    ensures
        plan@ == spec_cancel_plan(hwnds@),
{
    let n = hwnds.len();
    let mut plan: Vec<TopAction> = Vec::new();
    for i in 0..n
        invariant
            n == hwnds@.len(),
            plan@ == spec_cancel_plan(hwnds@.take(i as int)),
    {
        plan.push(TopAction::SetNotTopmost(hwnds[i]));
        proof {
            assert(spec_cancel_plan(hwnds@.take(i as int)).push(
                TopAction::SetNotTopmost(hwnds@[i as int]),
            ) =~= spec_cancel_plan(hwnds@.take(i as int + 1)));
        }
    }
    proof {
        assert(hwnds@.take(n as int) =~= hwnds@);
    }
    plan
}

/// Applies one action to an in-memory desktop model.
pub fn apply_action(ws: &mut Vec<ModelWindow>, a: TopAction)
    ensures
        final(ws)@ == spec_apply_action(old(ws)@, a),
{
    let n = ws.len();
    let ghost orig: Seq<ModelWindow> = ws@;
    for i in 0..n
        invariant
            n == ws@.len(),
            n == orig.len(),
            forall|t: int|
                #![trigger ws@[t]]
                0 <= t < n ==> ws@[t] == (if t < i {
                    spec_apply_to_window(orig[t], a)
                } else {
                    orig[t]
                }),
    {
        let w = ws[i];
        let updated = match a {
            TopAction::Restore(h) => if w.hwnd == h {
                ModelWindow { hwnd: w.hwnd, minimized: false, topmost: w.topmost, visible: true }
            } else {
                w
            },
            TopAction::SetTopmost(h) => if w.hwnd == h {
                ModelWindow { hwnd: w.hwnd, minimized: w.minimized, topmost: true, visible: true }
            } else {
                w
            },
            TopAction::SetNotTopmost(h) => if w.hwnd == h {
                ModelWindow { hwnd: w.hwnd, minimized: w.minimized, topmost: false, visible: w.visible }
            } else {
                w
            },
            TopAction::Show(h) => if w.hwnd == h {
                ModelWindow { hwnd: w.hwnd, minimized: w.minimized, topmost: w.topmost, visible: true }
            } else {
                w
            },
            TopAction::Foreground(_) => w,
        };
        ws[i] = updated;
    }
    proof {
        assert(ws@ =~= spec_apply_action(orig, a));
    }
}

/// Applies a whole plan, front to back, to an in-memory desktop model.
pub fn apply_plan(ws: &mut Vec<ModelWindow>, plan: &Vec<TopAction>)
    ensures
        final(ws)@ == spec_apply_plan(old(ws)@, plan@),
{
    let n = plan.len();
    proof {
        assert(plan@.skip(0) =~= plan@);
    }
    for i in 0..n
        invariant
            n == plan@.len(),
            spec_apply_plan(ws@, plan@.skip(i as int)) == spec_apply_plan(old(ws)@, plan@),
    {
        proof {
            let rest = plan@.skip(i as int);
            assert(rest[0] == plan@[i as int]);
            assert(rest.drop_first() =~= plan@.skip(i as int + 1));
        }
        apply_action(ws, plan[i]);
    }
    proof {
        assert(plan@.skip(n as int) =~= Seq::<TopAction>::empty());
    }
}

/// No action of a plan creates, removes or renames a window: only window
/// attributes change.
pub proof fn lemma_plan_preserves_handles(ws: Seq<ModelWindow>, plan: Seq<TopAction>)
    ensures
        spec_apply_plan(ws, plan).len() == ws.len(),
        forall|i: int|
            0 <= i < ws.len() ==> (#[trigger] spec_apply_plan(ws, plan)[i]).hwnd == ws[i].hwnd,
    decreases plan.len(),
{
    if plan.len() > 0 {
        let ws1 = spec_apply_action(ws, plan[0]);
        assert(ws1.len() == ws.len());
        assert forall|i: int| 0 <= i < ws.len() implies ws1[i].hwnd == ws[i].hwnd by {
            assert(ws1[i] == spec_apply_to_window(ws[i], plan[0]));
        }
        lemma_plan_preserves_handles(ws1, plan.drop_first());
    }
}

/// The desktop after raising `hwnd` always-on-top and then immediately
/// lowering it again.
pub open spec fn spec_after_raise_lower(
    ws: Seq<ModelWindow>,
    hwnd: isize,
    hwnd_self: Option<isize>,
    minimized: bool,
) -> Seq<ModelWindow> {
    spec_apply_plan(
        spec_apply_plan(ws, spec_topmost_plan(hwnd, hwnd_self, minimized)),
        seq![TopAction::SetNotTopmost(hwnd)],
    )
}

/// Raising a window always-on-top and then immediately lowering it leaves
/// it out of the always-on-top band, whatever its starting state, whether
/// it was minimized, and whatever self window was re-asserted in between.
pub proof fn lemma_raise_then_lower(
    ws: Seq<ModelWindow>,
    hwnd: isize,
    hwnd_self: Option<isize>,
    minimized: bool,
)
    ensures
        spec_after_raise_lower(ws, hwnd, hwnd_self, minimized).len() == ws.len(),
        forall|i: int|
            0 <= i < ws.len() ==> (#[trigger] spec_after_raise_lower(
                ws,
                hwnd,
                hwnd_self,
                minimized,
            )[i]).hwnd == ws[i].hwnd,
        forall|i: int|
            0 <= i < ws.len() && ws[i].hwnd == hwnd ==> !(#[trigger] spec_after_raise_lower(
                ws,
                hwnd,
                hwnd_self,
                minimized,
            )[i]).topmost,
{
    let p1 = spec_topmost_plan(hwnd, hwnd_self, minimized);
    let m1 = spec_apply_plan(ws, p1);
    lemma_plan_preserves_handles(ws, p1);
    let p2 = seq![TopAction::SetNotTopmost(hwnd)];
    assert(p2.len() == 1);
    assert(p2[0] == TopAction::SetNotTopmost(hwnd));
    assert(p2.drop_first() =~= Seq::<TopAction>::empty());
    assert(spec_apply_plan(spec_apply_action(m1, p2[0]), p2.drop_first()) == spec_apply_action(
        m1,
        p2[0],
    ));
    assert(spec_apply_plan(m1, p2) == spec_apply_action(m1, TopAction::SetNotTopmost(hwnd)));
    assert forall|i: int| 0 <= i < ws.len() implies (spec_after_raise_lower(
        ws,
        hwnd,
        hwnd_self,
        minimized,
    )[i]).hwnd == ws[i].hwnd && (ws[i].hwnd == hwnd ==> !(spec_after_raise_lower(
        ws,
        hwnd,
        hwnd_self,
        minimized,
    )[i]).topmost) by {
        assert(spec_apply_action(m1, TopAction::SetNotTopmost(hwnd))[i] == spec_apply_to_window(
            m1[i],
            TopAction::SetNotTopmost(hwnd),
        ));
        assert(m1[i].hwnd == ws[i].hwnd);
    }
}

/// Disabling always-on-top is a state-level no-op on a window that is not
/// topmost: calling it twice in a row, or on a window that never was
/// topmost, changes nothing at all, visibility included.
pub proof fn lemma_lower_noop(ws: Seq<ModelWindow>, hwnd: isize)
    requires
        forall|i: int| 0 <= i < ws.len() && ws[i].hwnd == hwnd ==> !(#[trigger] ws[i]).topmost,
    ensures
        spec_apply_plan(ws, seq![TopAction::SetNotTopmost(hwnd)]) == ws,
{
    let p = seq![TopAction::SetNotTopmost(hwnd)];
    assert(p.len() == 1);
    assert(p[0] == TopAction::SetNotTopmost(hwnd));
    assert(p.drop_first() =~= Seq::<TopAction>::empty());
    assert(spec_apply_plan(spec_apply_action(ws, p[0]), p.drop_first()) == spec_apply_action(
        ws,
        p[0],
    ));
    assert forall|i: int| 0 <= i < ws.len() implies spec_apply_action(ws, p[0])[i] == ws[i] by {
        assert(spec_apply_action(ws, p[0])[i] == spec_apply_to_window(ws[i], p[0]));
    }
    assert(spec_apply_action(ws, p[0]) =~= ws);
}

proof fn lemma_contains_first_or_rest(hs: Seq<isize>, x: isize)
    requires
        hs.len() > 0,
    ensures
        hs.contains(x) <==> (hs[0] == x || hs.drop_first().contains(x)),
{
    if hs.contains(x) {
        let k = choose|k: int| 0 <= k < hs.len() && hs[k] == x;
        if k > 0 {
            assert(hs.drop_first()[k - 1] == x);
        }
    }
    if hs.drop_first().contains(x) {
        let k = choose|k: int| 0 <= k < hs.drop_first().len() && hs.drop_first()[k] == x;
        assert(hs[k + 1] == x);
    }
}

/// Lowering a whole list of handles lowers every one of them that still
/// exists, one call each, independently: a handle that no longer names a
/// desktop window changes nothing, and every other handle of the list is
/// still lowered, its minimized state and visibility untouched; windows
/// outside the list are untouched entirely.
pub proof fn lemma_cancel_all_independent(ws: Seq<ModelWindow>, hwnds: Seq<isize>)
    ensures
        spec_apply_plan(ws, spec_cancel_plan(hwnds)).len() == ws.len(),
        forall|i: int|
            0 <= i < ws.len() ==> (#[trigger] spec_apply_plan(ws, spec_cancel_plan(hwnds))[i])
                == (if hwnds.contains(ws[i].hwnd) {
                ModelWindow {
                    hwnd: ws[i].hwnd,
                    minimized: ws[i].minimized,
                    topmost: false,
                    visible: ws[i].visible,
                }
            } else {
                ws[i]
            }),
    decreases hwnds.len(),
{
    let plan = spec_cancel_plan(hwnds);
    if hwnds.len() == 0 {
        assert(plan =~= Seq::<TopAction>::empty());
    } else {
        let a = TopAction::SetNotTopmost(hwnds[0]);
        assert(plan[0] == a);
        let ws1 = spec_apply_action(ws, a);
        assert(plan.drop_first() =~= spec_cancel_plan(hwnds.drop_first()));
        lemma_cancel_all_independent(ws1, hwnds.drop_first());
        assert forall|i: int| 0 <= i < ws.len() implies (spec_apply_plan(ws, plan)[i]) == (
        if hwnds.contains(ws[i].hwnd) {
            ModelWindow {
                hwnd: ws[i].hwnd,
                minimized: ws[i].minimized,
                topmost: false,
                visible: ws[i].visible,
            }
        } else {
            ws[i]
        }) by {
            lemma_contains_first_or_rest(hwnds, ws[i].hwnd);
            assert(ws1[i] == spec_apply_to_window(ws[i], a));
            assert(spec_apply_plan(ws, plan) == spec_apply_plan(ws1, plan.drop_first()));
        }
    }
}

} // verus!
