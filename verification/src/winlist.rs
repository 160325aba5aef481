//! Window enumeration: filtering and list assembly.
//!
//! The unverified shell walks every top-level window the operating system
//! reports and records, per window, the raw facts this module needs: the
//! visibility flag, the two style words, the title text (absent when the
//! query timed out or returned nothing) and the resolved application
//! metadata (absent when resolution failed).  This module decides which
//! windows are listed and assembles the result; one window's failure only
//! drops that window, never the rest.

use vstd::prelude::*;

use crate::meta::AppMeta;

verus! {

broadcast use Seq::lemma_filter_push, Seq::lemma_filter_pred, Seq::lemma_filter_len;

/// The style bit that marks a window as shown.
pub const WS_VISIBLE_BIT: u32 = 0x1000_0000;

/// The extended-style bit that marks a floating tool window.
pub const WS_EX_TOOLWINDOW_BIT: u32 = 0x0000_0080;

/// The extended-style bit that marks an always-on-top window.
pub const WS_EX_TOPMOST_BIT: u32 = 0x0000_0008;

/// One listed window, ready for display.
#[derive(Clone, Debug)]
pub struct WindowInfo {
    pub hwnd: isize,
    pub title: String,
    pub name: String,
    pub display_name: String,
    pub icon_png: String,
    pub is_top_most: bool,
}

impl Default for WindowInfo {
    /// An empty entry: the zero handle, empty strings, not topmost.
    fn default() -> (r: WindowInfo)
        ensures
            r.hwnd == 0,
            r.title@ == Seq::<char>::empty(),
            r.name@ == Seq::<char>::empty(),
            r.display_name@ == Seq::<char>::empty(),
            r.icon_png@ == Seq::<char>::empty(),
            r.is_top_most == false,
    {
        WindowInfo {
            hwnd: 0,
            title: String::new(),
            name: String::new(),
            display_name: String::new(),
            icon_png: String::new(),
            is_top_most: false,
        }
    }
}

/// The raw facts the shell gathered about one top-level window.
#[derive(Clone, Debug)]
pub struct WindowProbe {
    pub hwnd: isize,
    pub visible: bool,
    pub style: u32,
    pub ex_style: u32,
    pub title: Option<String>,
    pub meta: Option<AppMeta>,
}

/// Whether a window's extended style carries the topmost bit.
pub open spec fn spec_is_window_topmost(ex_style: u32) -> bool {
    ex_style & WS_EX_TOPMOST_BIT != 0
}

/// Reads the always-on-top attribute off an extended style word.
pub fn is_window_topmost(ex_style: u32) -> (b: bool)
    ensures
        b == spec_is_window_topmost(ex_style),
{
    ex_style & WS_EX_TOPMOST_BIT != 0
}

/// The enumeration filter: the window must be visible, must carry the
/// visible style bit, must not be a tool window, and must not be the
/// caller's own excluded window.
pub open spec fn spec_passes_filter(
    visible: bool,
    style: u32,
    ex_style: u32,
    hwnd: isize,
    exclude: Option<isize>,
) -> bool {
    &&& visible
    &&& style & WS_VISIBLE_BIT != 0
    &&& ex_style & WS_EX_TOOLWINDOW_BIT == 0
    &&& (exclude is Some ==> hwnd != exclude->0)
}

/// Applies the enumeration filter to one window's raw facts.  The shell
/// consults this before spending resolution work on a window.
pub fn passes_window_filter(
    visible: bool,
    style: u32,
    ex_style: u32,
    hwnd: isize,
    exclude: Option<isize>,
) -> (b: bool)
    ensures
        b == spec_passes_filter(visible, style, ex_style, hwnd, exclude),
{
    if !visible {
        return false;
    }
    if style & WS_VISIBLE_BIT == 0 {
        return false;
    }
    if ex_style & WS_EX_TOOLWINDOW_BIT != 0 {
        return false;
    }
    match exclude {
        Option::Some(h) => hwnd != h,
        Option::None => true,
    }
}

/// Whether a probed window appears in the result: it passes the filter,
/// yielded a non-empty title, and its metadata resolved.
pub open spec fn spec_listed(p: WindowProbe, exclude: Option<isize>) -> bool {
    &&& spec_passes_filter(p.visible, p.style, p.ex_style, p.hwnd, exclude)
    &&& p.title is Some
    &&& p.title->0@.len() > 0
    &&& p.meta is Some
}

/// The list entry a probed window becomes.  The topmost flag is read fresh
/// from the probed extended style, never taken from cached state.
pub open spec fn spec_window_info(p: WindowProbe) -> WindowInfo {
    WindowInfo {
        hwnd: p.hwnd,
        title: p.title->0,
        name: p.meta->0.name,
        display_name: p.meta->0.display_name,
        icon_png: p.meta->0.icon_png,
        is_top_most: spec_is_window_topmost(p.ex_style),
    }
}

/// The probes that survive the filter, in enumeration order.
pub open spec fn spec_listed_probes(ps: Seq<WindowProbe>, exclude: Option<isize>) -> Seq<
    WindowProbe,
> {
    ps.filter(|p: WindowProbe| spec_listed(p, exclude))
}

/// The assembled window list, in enumeration order.
pub open spec fn spec_window_list(ps: Seq<WindowProbe>, exclude: Option<isize>) -> Seq<WindowInfo> {
    spec_listed_probes(ps, exclude).map_values(|p: WindowProbe| spec_window_info(p))
}

fn probe_listed(p: &WindowProbe, exclude: Option<isize>) -> (b: bool)
    ensures
        b == spec_listed(*p, exclude),
{
    if !passes_window_filter(p.visible, p.style, p.ex_style, p.hwnd, exclude) {
        return false;
    }
    let title = match p.title.as_ref() {
        Option::Some(t) => t,
        Option::None => {
            return false;
        },
    };
    if title.as_str().is_empty() {
        return false;
    }
    match p.meta.as_ref() {
        Option::Some(_) => true,
        Option::None => false,
    }
}

/// Assembles the window list from the probes of one enumeration pass, in
/// the order the operating system reported them.  Every window that fails
/// the filter, yielded no title, or failed resolution is dropped; the rest
/// of the list is unaffected, and the pass itself never fails.
pub fn enum_windows(probes: &Vec<WindowProbe>, exclude: Option<isize>) -> (r: Vec<WindowInfo>)
    ensures
        r@ == spec_window_list(probes@, exclude),
        r@.len() <= probes@.len(),
{
    let n = probes.len();
    let mut r: Vec<WindowInfo> = Vec::new();
    for i in 0..n
        invariant
            n == probes@.len(),
            r@ == spec_window_list(probes@.take(i as int), exclude),
            r@.len() <= i,
    {
        let p = &probes[i];
        proof {
            let x = probes@[i as int];
            let prev = probes@.take(i as int);
            let cur = probes@.take(i as int + 1);
            assert(prev.push(x) =~= cur);
            assert(spec_listed_probes(prev.push(x), exclude) == spec_listed_probes(cur, exclude));
            if spec_listed(x, exclude) {
                assert(spec_listed_probes(prev, exclude).push(x).map_values(
                    |q: WindowProbe| spec_window_info(q),
                ) =~= spec_window_list(prev, exclude).push(spec_window_info(x)));
            }
        }
        if probe_listed(p, exclude) {
            let title = match p.title.as_ref() {
                Option::Some(t) => t.clone(),
                Option::None => String::new(),
            };
            let (name, display_name, icon_png) = match p.meta.as_ref() {
                Option::Some(m) => (m.name.clone(), m.display_name.clone(), m.icon_png.clone()),
                Option::None => (String::new(), String::new(), String::new()),
            };
            let info = WindowInfo {
                hwnd: p.hwnd,
                title,
                name,
                display_name,
                icon_png,
                is_top_most: is_window_topmost(p.ex_style),
            };
            r.push(info);
        }
    }
    proof {
        assert(probes@.take(n as int) =~= probes@);
    }
    r
}

/// Every entry of the assembled list is the image of a probed window that
/// passed the whole filter: it was visible, carried the visible style bit,
/// was no tool window, yielded a title, resolved, and was not the excluded
/// self window.  In particular no entry carries the excluded handle.
pub proof fn lemma_enumerate_filtered(ps: Seq<WindowProbe>, exclude: Option<isize>)
    ensures
        forall|i: int|
            0 <= i < spec_listed_probes(ps, exclude).len() ==> spec_listed(
                #[trigger] spec_listed_probes(ps, exclude)[i],
                exclude,
            ),
        forall|i: int|
            #![trigger spec_window_list(ps, exclude)[i]]
            0 <= i < spec_window_list(ps, exclude).len() ==> spec_window_list(ps, exclude)[i]
                == spec_window_info(spec_listed_probes(ps, exclude)[i]),
        forall|i: int|
            #![trigger spec_window_list(ps, exclude)[i]]
            0 <= i < spec_window_list(ps, exclude).len() && exclude is Some ==> spec_window_list(
                ps,
                exclude,
            )[i].hwnd != exclude->0,
{
    assert forall|i: int|
        #![trigger spec_window_list(ps, exclude)[i]]
        0 <= i < spec_window_list(ps, exclude).len() implies spec_window_list(ps, exclude)[i]
        == spec_window_info(spec_listed_probes(ps, exclude)[i]) && (exclude is Some
        ==> spec_window_list(ps, exclude)[i].hwnd != exclude->0) by {
        assert(spec_window_list(ps, exclude)[i] == spec_window_info(
            spec_listed_probes(ps, exclude)[i],
        ));
        assert(spec_listed(spec_listed_probes(ps, exclude)[i], exclude));
    }
}

} // verus!
