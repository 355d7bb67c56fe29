use vstd::prelude::*;

use crate::connection::DisplayConnection;
use crate::errors::{AtomResolutionError, CompositorQueryError, VisualQueryError,
    WindowCreationError};
use crate::model::{
    atom_named, first_where, intern_result, intern_transition, lemma_first_where_props,
    lemma_first_where_skip, lemma_set_owner_visible, owner_of, set_owner_transition,
    PictFormatInfo, PictVisual, ScreenView, ServerView, VisualTypeInfo,
};
use crate::protocol::{
    fault_allows, fault_fired, fault_fires, fault_passed_n, EventView, FaultPlan, ReqView,
};
use crate::size::Size;
use crate::xcb_visualtype_t::{visualtype_of, xcb_visualtype_t};
use vstd::string::StringExecFns;

verus! {

/// Predefined atom: ATOM.
pub const ATOM_ATOM: u32 = 4;

/// Predefined atom: STRING.
pub const ATOM_STRING: u32 = 31;

/// Predefined atom: WM_NAME, the legacy window title.
pub const ATOM_WM_NAME: u32 = 39;

/// Predefined atom: WM_CLASS, the window's class identifier.
pub const ATOM_WM_CLASS: u32 = 67;

/// Event interest of every created window: exposure.
pub const EVENT_MASK_EXPOSURE: u32 = 0x8000;

/// Event interest of every created window: structure change.
pub const EVENT_MASK_STRUCTURE_NOTIFY: u32 = 0x20000;

/// The fixed border width of every created window.
pub const WINDOW_BORDER_WIDTH: u16 = 10;

/// The well-known atoms every window depends on, fully resolved.
#[derive(Debug, Clone, Copy, PartialEq, Eq, Structural)]
pub struct AtomCollection {
    pub wm_protocols: u32,
    pub wm_delete_window: u32,
    pub net_wm_name: u32,
    pub utf8_string: u32,
}

/// The four well-known atom names, in the order they are interned.
pub open spec fn atom_names() -> Seq<Seq<char>> {
    seq!["WM_PROTOCOLS"@, "WM_DELETE_WINDOW"@, "_NET_WM_NAME"@, "UTF8_STRING"@]
}

/// The server after interning the first `k` well-known names.
pub open spec fn atoms_server_after(s: ServerView, k: int) -> ServerView
    decreases k,
{
    if k <= 0 {
        s
    } else {
        intern_transition(atoms_server_after(s, k - 1), false, atom_names()[k - 1])
    }
}

/// The id the `k`-th well-known name resolves to; 0 where it resolves to
/// no atom.
pub open spec fn atom_id_at(s: ServerView, k: int) -> u32 {
    intern_result(atoms_server_after(s, k), false, atom_names()[k])
}

/// The wire trace of resolving the well-known atoms: all four intern
/// requests issued first, then all four replies consumed.
pub open spec fn atoms_events(s: ServerView) -> Seq<EventView> {
    seq![
        EventView::Issued(ReqView::InternAtom { only_if_exists: false, name: atom_names()[0] }),
        EventView::Issued(ReqView::InternAtom { only_if_exists: false, name: atom_names()[1] }),
        EventView::Issued(ReqView::InternAtom { only_if_exists: false, name: atom_names()[2] }),
        EventView::Issued(ReqView::InternAtom { only_if_exists: false, name: atom_names()[3] }),
        EventView::Consumed,
        EventView::Consumed,
        EventView::Consumed,
        EventView::Consumed,
    ]
}

/// Atom resolution pipelines: in its wire trace every request is issued
/// before the first reply is consumed.
pub proof fn lemma_resolve_pipelines(s: ServerView)
    ensures
        forall|i: int| 0 <= i < 4 ==> atoms_events(s)[i] is Issued,
        forall|i: int| 4 <= i < 8 ==> atoms_events(s)[i] is Consumed,
{
}

/// Interning a name changes neither the fault plan nor what another fault
/// plan would make of the same server.
proof fn lemma_intern_fault_irrelevant(s: ServerView, f: FaultPlan, o: bool, name: Seq<char>)
    ensures
        intern_transition(ServerView { fault: f, ..s }, o, name) == (ServerView {
            fault: f,
            ..intern_transition(s, o, name)
        }),
        intern_result(ServerView { fault: f, ..s }, o, name) == intern_result(s, o, name),
{
    assert(intern_transition(ServerView { fault: f, ..s }, o, name) =~= (ServerView {
        fault: f,
        ..intern_transition(s, o, name)
    }));
}

/// Resolves the four well-known atoms over `conn`, pipelined: all intern
/// requests go out before the first reply is consumed, so resolution costs
/// one round trip. Fails when the transport fails or any name resolves to
/// no atom.
pub fn create_atoms(conn: &mut DisplayConnection) -> (r: Result<
    AtomCollection,
    AtomResolutionError,
>)
    ensures
        ({
            let s0 = old(conn).server@;
            match r {
                Ok(a) => {
                    &&& fault_allows(s0.fault, 4)
                    &&& a.wm_protocols == atom_id_at(s0, 0) && a.wm_protocols != 0
                    &&& a.wm_delete_window == atom_id_at(s0, 1) && a.wm_delete_window != 0
                    &&& a.net_wm_name == atom_id_at(s0, 2) && a.net_wm_name != 0
                    &&& a.utf8_string == atom_id_at(s0, 3) && a.utf8_string != 0
                    &&& final(conn).server@ == (ServerView {
                        fault: fault_passed_n(s0.fault, 4),
                        ..atoms_server_after(s0, 4)
                    })
                    &&& final(conn).events() == old(conn).events() + atoms_events(s0)
                },
                Err(AtomResolutionError::Transport) => {
                    let k = s0.fault.countdown as int;
                    &&& !fault_allows(s0.fault, 4)
                    &&& final(conn).server@ == (ServerView {
                        fault: fault_fired(s0.fault),
                        ..atoms_server_after(s0, k)
                    })
                    &&& final(conn).events() == old(conn).events() + atoms_events(s0).take(k)
                },
                Err(AtomResolutionError::Unresolved) => {
                    &&& fault_allows(s0.fault, 4)
                    &&& atom_id_at(s0, 0) == 0 || atom_id_at(s0, 1) == 0 || atom_id_at(s0, 2) == 0
                        || atom_id_at(s0, 3) == 0
                    &&& final(conn).server@ == (ServerView {
                        fault: fault_passed_n(s0.fault, 4),
                        ..atoms_server_after(s0, 4)
                    })
                    &&& final(conn).events() == old(conn).events() + atoms_events(s0)
                },
            }
        }),
{
    let ghost s0 = old(conn).server@;
    proof {
        reveal_with_fuel(atoms_server_after, 6);
        assert(atom_names()[0] == "WM_PROTOCOLS"@);
        assert(atom_names()[1] == "WM_DELETE_WINDOW"@);
        assert(atom_names()[2] == "_NET_WM_NAME"@);
        assert(atom_names()[3] == "UTF8_STRING"@);
        assert(atoms_server_after(s0, 1) == intern_transition(s0, false, atom_names()[0]));
        assert(atoms_server_after(s0, 2) == intern_transition(
            atoms_server_after(s0, 1),
            false,
            atom_names()[1],
        ));
        assert(atoms_server_after(s0, 3) == intern_transition(
            atoms_server_after(s0, 2),
            false,
            atom_names()[2],
        ));
        assert(atoms_server_after(s0, 4) == intern_transition(
            atoms_server_after(s0, 3),
            false,
            atom_names()[3],
        ));
    }
    let c0 = match conn.intern_atom(false, String::from_str("WM_PROTOCOLS")) {
        Ok(c) => c,
        Err(_) => {
            proof {
                assert(atoms_server_after(s0, 0) == s0);
                assert(conn.events() =~= old(conn).events() + atoms_events(s0).take(0));
            }
            return Err(AtomResolutionError::Transport);
        },
    };
    let ghost s1 = intern_transition(s0, false, atom_names()[0]);
    proof {
        lemma_intern_fault_irrelevant(s1, fault_passed_n(s0.fault, 1), false, atom_names()[1]);
    }
    let c1 = match conn.intern_atom(false, String::from_str("WM_DELETE_WINDOW")) {
        Ok(c) => c,
        Err(_) => {
            proof {
                assert(conn.server@ =~= (ServerView {
                    fault: fault_fired(s0.fault),
                    ..atoms_server_after(s0, 1)
                }));
                assert(conn.events() =~= old(conn).events() + atoms_events(s0).take(1));
            }
            return Err(AtomResolutionError::Transport);
        },
    };
    let ghost s2 = intern_transition(s1, false, atom_names()[1]);
    proof {
        lemma_intern_fault_irrelevant(s2, fault_passed_n(s0.fault, 2), false, atom_names()[2]);
    }
    let c2 = match conn.intern_atom(false, String::from_str("_NET_WM_NAME")) {
        Ok(c) => c,
        Err(_) => {
            proof {
                assert(conn.server@ =~= (ServerView {
                    fault: fault_fired(s0.fault),
                    ..atoms_server_after(s0, 2)
                }));
                assert(conn.events() =~= old(conn).events() + atoms_events(s0).take(2));
            }
            return Err(AtomResolutionError::Transport);
        },
    };
    let ghost s3 = intern_transition(s2, false, atom_names()[2]);
    proof {
        lemma_intern_fault_irrelevant(s3, fault_passed_n(s0.fault, 3), false, atom_names()[3]);
    }
    let c3 = match conn.intern_atom(false, String::from_str("UTF8_STRING")) {
        Ok(c) => c,
        Err(_) => {
            proof {
                assert(conn.server@ =~= (ServerView {
                    fault: fault_fired(s0.fault),
                    ..atoms_server_after(s0, 3)
                }));
                assert(conn.events() =~= old(conn).events() + atoms_events(s0).take(3));
            }
            return Err(AtomResolutionError::Transport);
        },
    };
    let wm_protocols = c0.reply(conn);
    let wm_delete_window = c1.reply(conn);
    let net_wm_name = c2.reply(conn);
    let utf8_string = c3.reply(conn);
    proof {
        assert(conn.server@ =~= (ServerView {
            fault: fault_passed_n(s0.fault, 4),
            ..atoms_server_after(s0, 4)
        }));
        assert(conn.events() =~= old(conn).events() + atoms_events(s0));
    }
    if wm_protocols == 0 || wm_delete_window == 0 || net_wm_name == 0 || utf8_string == 0 {
        return Err(AtomResolutionError::Unresolved);
    }
    Ok(AtomCollection { wm_protocols, wm_delete_window, net_wm_name, utf8_string })
}

/// The pixel format the selector wants: a depth-32 direct-color format with
/// full-byte channel masks and shifts (red 16, green 8, blue 0, alpha 24) —
/// standard byte order with alpha topmost.
pub open spec fn format_matches(f: PictFormatInfo) -> bool {
    &&& f.is_direct
    &&& f.depth == 32
    &&& f.direct.red_mask == 0xff
    &&& f.direct.green_mask == 0xff
    &&& f.direct.blue_mask == 0xff
    &&& f.direct.alpha_mask == 0xff
    &&& f.direct.red_shift == 16
    &&& f.direct.green_shift == 8
    &&& f.direct.blue_shift == 0
    &&& f.direct.alpha_shift == 24
}

/// `format_matches` as a search predicate.
pub open spec fn format_wanted() -> spec_fn(PictFormatInfo) -> bool {
    |f: PictFormatInfo| format_matches(f)
}

/// The search predicate for the visual mapped to format `fid`.
pub open spec fn maps_format(fid: u32) -> spec_fn(PictVisual) -> bool {
    |v: PictVisual| v.format == fid
}

/// What the visual selector returns on server `s` for `screen`: the first
/// wanted format's depth with the screen's first visual mapped to it, or
/// the screen's own default depth and visual wherever any step yields no
/// candidate. Never a partial match.
pub open spec fn chosen_visual(s: ServerView, screen: int) -> (u8, u32) {
    let scr = s.screens[screen];
    let dflt = (scr.root_depth, scr.root_visual);
    if !s.has_render {
        dflt
    } else {
        match first_where(s.pict_formats.formats, format_wanted()) {
            None => dflt,
            Some(i) => {
                let f = s.pict_formats.formats[i];
                if 0 <= screen < s.pict_formats.screen_visuals.len() {
                    match first_where(s.pict_formats.screen_visuals[screen], maps_format(f.id)) {
                        Some(j) => (f.depth, s.pict_formats.screen_visuals[screen][j].visual),
                        None => dflt,
                    }
                } else {
                    dflt
                }
            },
        }
    }
}

/// Without the rendering extension the selector returns exactly the
/// screen's own depth and visual; `choose_visual`'s contract adds that no
/// format query is issued at all.
pub proof fn lemma_absent_extension_yields_default(s: ServerView, screen: int)
    requires
        0 <= screen < s.screens.len(),
        !s.has_render,
    ensures
        chosen_visual(s, screen) == (s.screens[screen].root_depth, s.screens[screen].root_visual),
{
}

/// Where exactly one format is wanted and the screen maps it to a visual,
/// the selector returns that format's depth with that mapped visual: the
/// one well-formed-server case has one answer.
pub proof fn lemma_single_format_selected(s: ServerView, screen: int, i: int, j: int)
    requires
        s.has_render,
        0 <= screen < s.screens.len(),
        0 <= i < s.pict_formats.formats.len(),
        format_matches(s.pict_formats.formats[i]),
        forall|k: int|
            0 <= k < s.pict_formats.formats.len() && k != i ==> !format_matches(
                #[trigger] s.pict_formats.formats[k],
            ),
        0 <= screen < s.pict_formats.screen_visuals.len(),
        0 <= j < s.pict_formats.screen_visuals[screen].len(),
        s.pict_formats.screen_visuals[screen][j].format == s.pict_formats.formats[i].id,
        forall|k: int|
            0 <= k < j ==> (#[trigger] s.pict_formats.screen_visuals[screen][k]).format
                != s.pict_formats.formats[i].id,
    ensures
        chosen_visual(s, screen) == (
            s.pict_formats.formats[i].depth,
            s.pict_formats.screen_visuals[screen][j].visual,
        ),
{
    let formats = s.pict_formats.formats;
    lemma_first_where_props(formats, format_wanted());
    match first_where(formats, format_wanted()) {
        Some(m) => {
            assert(m == i);
        },
        None => {
            assert(!format_matches(formats[i]));
        },
    }
    let visuals = s.pict_formats.screen_visuals[screen];
    let p = maps_format(formats[i].id);
    lemma_first_where_props(visuals, p);
    match first_where(visuals, p) {
        Some(m) => {
            assert(m == j);
        },
        None => {
            assert(!p(visuals[j]));
        },
    }
}

/// Where no format passes both filters, the selector returns the screen
/// default — never a partial match.
pub proof fn lemma_no_wanted_format_yields_default(s: ServerView, screen: int)
    requires
        0 <= screen < s.screens.len(),
        forall|k: int|
            0 <= k < s.pict_formats.formats.len() ==> !format_matches(
                #[trigger] s.pict_formats.formats[k],
            ),
    ensures
        chosen_visual(s, screen) == (s.screens[screen].root_depth, s.screens[screen].root_visual),
{
    if s.has_render {
        lemma_first_where_props(s.pict_formats.formats, format_wanted());
        match first_where(s.pict_formats.formats, format_wanted()) {
            Some(m) => {
                assert(!format_matches(s.pict_formats.formats[m]));
            },
            None => {},
        }
    }
}

/// Index of the first wanted pixel format.
fn find_wanted_format(formats: &Vec<PictFormatInfo>) -> (r: Option<usize>)
    ensures
        match r {
            Some(i) => i < formats@.len() && first_where(formats@, format_wanted()) == Some(
                i as int,
            ),
            None => first_where(formats@, format_wanted()) is None,
        },
{
    let ghost p = format_wanted();
    let mut i: usize = 0;
    while i < formats.len()
        invariant
            i <= formats.len(),
            p == format_wanted(),
            forall|j: int| 0 <= j < i ==> !p(formats@[j]),
        decreases formats.len() - i,
    {
        let f = &formats[i];
        if f.is_direct && f.depth == 32 && f.direct.red_mask == 0xff && f.direct.green_mask == 0xff
            && f.direct.blue_mask == 0xff && f.direct.alpha_mask == 0xff && f.direct.red_shift == 16
            && f.direct.green_shift == 8 && f.direct.blue_shift == 0 && f.direct.alpha_shift == 24 {
            proof {
                lemma_first_where_skip(formats@, p, i as int);
                assert(formats@.skip(i as int)[0] == formats@[i as int]);
            }
            return Some(i);
        }
        i += 1;
    }
    proof {
        lemma_first_where_skip(formats@, p, formats@.len() as int);
        assert(formats@.skip(formats@.len() as int).len() == 0);
    }
    None
}

/// Index of the first visual entry mapped to format `fid`.
fn find_visual_mapping(visuals: &Vec<PictVisual>, fid: u32) -> (r: Option<usize>)
    ensures
        match r {
            Some(j) => j < visuals@.len() && first_where(visuals@, maps_format(fid)) == Some(
                j as int,
            ),
            None => first_where(visuals@, maps_format(fid)) is None,
        },
{
    let ghost p = maps_format(fid);
    let mut i: usize = 0;
    while i < visuals.len()
        invariant
            i <= visuals.len(),
            p == maps_format(fid),
            forall|j: int| 0 <= j < i ==> !p(visuals@[j]),
        decreases visuals.len() - i,
    {
        if visuals[i].format == fid {
            proof {
                lemma_first_where_skip(visuals@, p, i as int);
                assert(visuals@.skip(i as int)[0] == visuals@[i as int]);
            }
            return Some(i);
        }
        i += 1;
    }
    proof {
        lemma_first_where_skip(visuals@, p, visuals@.len() as int);
        assert(visuals@.skip(visuals@.len() as int).len() == 0);
    }
    None
}

/// Chooses a depth and visual for `screen_num`, preferring an extension
/// reported alpha-capable depth-32 format and falling back to the screen's
/// own default. Without the rendering extension no format query is issued
/// at all. Fails only on the transport.
pub fn choose_visual(conn: &mut DisplayConnection, screen_num: usize) -> (r: Result<
    (u8, u32),
    VisualQueryError,
>)
    requires
        screen_num < old(conn).server@.screens.len(),
    ensures
        ({
            let s0 = old(conn).server@;
            match r {
                Ok(dv) => {
                    &&& dv == chosen_visual(s0, screen_num as int)
                    &&& if s0.has_render {
                        &&& fault_allows(s0.fault, 2)
                        &&& final(conn).server@ == (ServerView {
                            fault: fault_passed_n(s0.fault, 2),
                            ..s0
                        })
                        &&& final(conn).events() == old(conn).events() + seq![
                            EventView::Issued(ReqView::QueryExtension { name: "RENDER"@ }),
                            EventView::Consumed,
                            EventView::Issued(ReqView::QueryPictFormats),
                            EventView::Consumed,
                        ]
                    } else {
                        &&& fault_allows(s0.fault, 1)
                        &&& final(conn).server@ == (ServerView {
                            fault: fault_passed_n(s0.fault, 1),
                            ..s0
                        })
                        &&& final(conn).events() == old(conn).events() + seq![
                            EventView::Issued(ReqView::QueryExtension { name: "RENDER"@ }),
                            EventView::Consumed,
                        ]
                    }
                },
                Err(_) => {
                    &&& !fault_allows(s0.fault, if s0.has_render { 2nat } else { 1nat })
                    &&& final(conn).server@ == (ServerView { fault: fault_fired(s0.fault), ..s0 })
                    &&& final(conn).events() == if fault_fires(s0.fault) {
                        old(conn).events()
                    } else {
                        old(conn).events() + seq![
                            EventView::Issued(ReqView::QueryExtension { name: "RENDER"@ }),
                            EventView::Consumed,
                        ]
                    }
                },
            }
        }),
{
    let ghost s0 = old(conn).server@;
    let has_render = match conn.query_render_extension() {
        Ok(b) => b,
        Err(_) => {
            return Err(VisualQueryError);
        },
    };
    if !has_render {
        let scr = &conn.server.screens[screen_num];
        proof {
            assert(scr@ == s0.screens[screen_num as int]);
        }
        return Ok((scr.root_depth, scr.root_visual));
    }
    match conn.query_pict_formats() {
        Ok(_) => {},
        Err(_) => {
            proof {
                assert(conn.server@ =~= (ServerView { fault: fault_fired(s0.fault), ..s0 }));
            }
            return Err(VisualQueryError);
        },
    }
    proof {
        assert(conn.server@.pict_formats == s0.pict_formats);
        assert(conn.server@.screens == s0.screens);
    }
    let chosen = find_wanted_format(&conn.server.pict_formats.formats);
    match chosen {
        Some(i) => {
            let f = conn.server.pict_formats.formats[i];
            if screen_num < conn.server.pict_formats.screen_visuals.len() {
                let mapping = find_visual_mapping(
                    &conn.server.pict_formats.screen_visuals[screen_num],
                    f.id,
                );
                proof {
                    assert(conn.server.pict_formats.screen_visuals@[screen_num as int]@
                        == s0.pict_formats.screen_visuals[screen_num as int]);
                }
                match mapping {
                    Some(j) => {
                        let v = conn.server.pict_formats.screen_visuals[screen_num][j].visual;
                        return Ok((f.depth, v));
                    },
                    None => {},
                }
            }
        },
        None => {},
    }
    let scr = &conn.server.screens[screen_num];
    proof {
        assert(scr@ == s0.screens[screen_num as int]);
    }
    Ok((scr.root_depth, scr.root_visual))
}

/// The search predicate for a visual record with id `id`.
pub open spec fn visual_with_id(id: u32) -> spec_fn(VisualTypeInfo) -> bool {
    |v: VisualTypeInfo| v.visual_id == id
}

/// The search predicate for a screen that lists a visual with id `id`.
pub open spec fn screen_has_visual(id: u32) -> spec_fn(ScreenView) -> bool {
    |s: ScreenView| first_where(s.visuals, visual_with_id(id)) is Some
}

/// The first visual record with id `id` over all screens, converted to its
/// foreign shape.
pub open spec fn find_visualtype(screens: Seq<ScreenView>, id: u32) -> Option<xcb_visualtype_t> {
    match first_where(screens, screen_has_visual(id)) {
        None => None,
        Some(i) => match first_where(screens[i].visuals, visual_with_id(id)) {
            Some(j) => Some(visualtype_of(screens[i].visuals[j])),
            None => None,
        },
    }
}

/// Index of the first visual record with id `id` in one screen's list.
fn find_visual_entry(visuals: &Vec<VisualTypeInfo>, id: u32) -> (r: Option<usize>)
    ensures
        match r {
            Some(j) => j < visuals@.len() && first_where(visuals@, visual_with_id(id)) == Some(
                j as int,
            ),
            None => first_where(visuals@, visual_with_id(id)) is None,
        },
{
    let ghost p = visual_with_id(id);
    let mut i: usize = 0;
    while i < visuals.len()
        invariant
            i <= visuals.len(),
            p == visual_with_id(id),
            forall|j: int| 0 <= j < i ==> !p(visuals@[j]),
        decreases visuals.len() - i,
    {
        if visuals[i].visual_id == id {
            proof {
                lemma_first_where_skip(visuals@, p, i as int);
                assert(visuals@.skip(i as int)[0] == visuals@[i as int]);
            }
            return Some(i);
        }
        i += 1;
    }
    proof {
        lemma_first_where_skip(visuals@, p, visuals@.len() as int);
        assert(visuals@.skip(visuals@.len() as int).len() == 0);
    }
    None
}

/// Finds the visual record with id `visual_id` in the connection's screen
/// table, searching the screens in order. Reads only connect-time setup
/// data: nothing is issued.
pub fn find_xcb_visualtype(conn: &DisplayConnection, visual_id: u32) -> (r: Option<
    xcb_visualtype_t,
>)
    ensures
        r == find_visualtype(conn.server@.screens, visual_id),
{
    let ghost sv = conn.server@.screens;
    let ghost p = screen_has_visual(visual_id);
    let mut i: usize = 0;
    while i < conn.server.screens.len()
        invariant
            i <= conn.server.screens.len(),
            sv == conn.server@.screens,
            p == screen_has_visual(visual_id),
            forall|j: int| 0 <= j < i ==> !p(sv[j]),
        decreases conn.server.screens.len() - i,
    {
        proof {
            assert(sv[i as int] == conn.server.screens@[i as int]@);
        }
        match find_visual_entry(&conn.server.screens[i].visuals, visual_id) {
            Some(j) => {
                proof {
                    assert(p(sv[i as int]));
                    lemma_first_where_skip(sv, p, i as int);
                    assert(sv.skip(i as int)[0] == sv[i as int]);
                }
                let v = conn.server.screens[i].visuals[j];
                return Some(xcb_visualtype_t::from(v));
            },
            None => {
                proof {
                    assert(!p(sv[i as int]));
                }
            },
        }
        i += 1;
    }
    proof {
        lemma_first_where_skip(sv, p, sv.len() as int);
        assert(sv.skip(sv.len() as int).len() == 0);
    }
    None
}

/// The decimal digit character for `d`.
pub open spec fn digit_char(d: nat) -> char {
    if d == 0 {
        '0'
    } else if d == 1 {
        '1'
    } else if d == 2 {
        '2'
    } else if d == 3 {
        '3'
    } else if d == 4 {
        '4'
    } else if d == 5 {
        '5'
    } else if d == 6 {
        '6'
    } else if d == 7 {
        '7'
    } else if d == 8 {
        '8'
    } else {
        '9'
    }
}

/// The decimal digits of `n`, most significant first, without padding.
pub open spec fn dec_digits(n: nat) -> Seq<char>
    decreases n,
{
    if n < 10 {
        seq![digit_char(n)]
    } else {
        dec_digits(n / 10).push(digit_char(n % 10))
    }
}

/// The one-character string for digit `d`.
fn digit_str(d: usize) -> (r: &'static str)
    requires
        d < 10,
    ensures
        r@ == seq![digit_char(d as nat)],
{
    let s: &'static str = if d == 0 {
        "0"
    } else if d == 1 {
        "1"
    } else if d == 2 {
        "2"
    } else if d == 3 {
        "3"
    } else if d == 4 {
        "4"
    } else if d == 5 {
        "5"
    } else if d == 6 {
        "6"
    } else if d == 7 {
        "7"
    } else if d == 8 {
        "8"
    } else {
        "9"
    };
    proof {
        reveal_strlit("0");
        reveal_strlit("1");
        reveal_strlit("2");
        reveal_strlit("3");
        reveal_strlit("4");
        reveal_strlit("5");
        reveal_strlit("6");
        reveal_strlit("7");
        reveal_strlit("8");
        reveal_strlit("9");
        assert(s@ =~= seq![digit_char(d as nat)]);
    }
    s
}

/// Renders `n` in plain decimal, no padding.
pub fn decimal_string(n: usize) -> (r: String)
    ensures
        r@ == dec_digits(n as nat),
    decreases n,
{
    if n < 10 {
        String::from_str(digit_str(n))
    } else {
        let mut s = decimal_string(n / 10);
        s.append(digit_str(n % 10));
        proof {
            assert(s@ =~= dec_digits(n as nat));
        }
        s
    }
}

/// The compositor-selection atom name for `screen`: the fixed template with
/// the screen number substituted in plain decimal.
pub open spec fn cm_atom_name(screen: nat) -> Seq<char> {
    "_NET_WM_CM_S"@ + dec_digits(screen)
}

/// Builds the compositor-selection atom name for `screen_num`.
pub fn compositor_selection_name(screen_num: usize) -> (r: String)
    ensures
        r@ == cm_atom_name(screen_num as nat),
{
    let mut s = String::from_str("_NET_WM_CM_S");
    let d = decimal_string(screen_num);
    s.append(d.as_str());
    proof {
        assert(s@ =~= cm_atom_name(screen_num as nat));
    }
    s
}

/// Whether a compositor owns the per-screen selection on server `s`: the
/// selection atom resolves and has a non-null owner.
pub open spec fn compositor_running(s: ServerView, screen: nat) -> bool {
    owner_of(s.selections, intern_result(s, false, cm_atom_name(screen))) != 0
}

/// Queries compositor presence for `screen_num`: interns the per-screen
/// selection atom, creating it if absent — the one bootstrap step with a
/// server-side side effect — and reports whether the selection has an
/// owner. Fails only on the transport.
pub fn composite_manager_running(conn: &mut DisplayConnection, screen_num: usize) -> (r: Result<
    bool,
    CompositorQueryError,
>)
    ensures
        ({
            let s0 = old(conn).server@;
            let name = cm_atom_name(screen_num as nat);
            match r {
                Ok(b) => {
                    &&& b == compositor_running(s0, screen_num as nat)
                    &&& fault_allows(s0.fault, 2)
                    &&& final(conn).server@ == (ServerView {
                        fault: fault_passed_n(s0.fault, 2),
                        ..intern_transition(s0, false, name)
                    })
                    &&& final(conn).events() == old(conn).events() + seq![
                        EventView::Issued(ReqView::InternAtom { only_if_exists: false, name }),
                        EventView::Consumed,
                        EventView::Issued(
                            ReqView::GetSelectionOwner {
                                selection: intern_result(s0, false, name),
                            },
                        ),
                        EventView::Consumed,
                    ]
                },
                Err(_) => {
                    &&& !fault_allows(s0.fault, 2)
                    &&& if fault_fires(s0.fault) {
                        final(conn).server@ == (ServerView { fault: fault_fired(s0.fault), ..s0 })
                            && final(conn).events() == old(conn).events()
                    } else {
                        final(conn).server@ == (ServerView {
                            fault: fault_fired(s0.fault),
                            ..intern_transition(s0, false, name)
                        }) && final(conn).events() == old(conn).events() + seq![
                            EventView::Issued(ReqView::InternAtom { only_if_exists: false, name }),
                            EventView::Consumed,
                        ]
                    }
                },
            }
        }),
{
    let ghost s0 = old(conn).server@;
    let ghost name = cm_atom_name(screen_num as nat);
    let atom_name = compositor_selection_name(screen_num);
    let cookie = match conn.intern_atom(false, atom_name) {
        Ok(c) => c,
        Err(_) => {
            return Err(CompositorQueryError);
        },
    };
    let atom = cookie.reply(conn);
    let ghost s1 = intern_transition(s0, false, name);
    let owner = match conn.get_selection_owner(atom) {
        Ok(o) => o,
        Err(_) => {
            proof {
                assert(conn.server@ =~= (ServerView { fault: fault_fired(s0.fault), ..s1 }));
                assert(conn.events() =~= old(conn).events() + seq![
                    EventView::Issued(ReqView::InternAtom { only_if_exists: false, name }),
                    EventView::Consumed,
                ]);
            }
            return Err(CompositorQueryError);
        },
    };
    proof {
        assert(s1.selections == s0.selections);
        assert(conn.server@ =~= (ServerView { fault: fault_passed_n(s0.fault, 2), ..s1 }));
        assert(conn.events() =~= old(conn).events() + seq![
            EventView::Issued(ReqView::InternAtom { only_if_exists: false, name }),
            EventView::Consumed,
            EventView::Issued(
                ReqView::GetSelectionOwner { selection: intern_result(s0, false, name) },
            ),
            EventView::Consumed,
        ]);
    }
    Ok(owner != 0)
}

/// Compositor detection answers ownership exactly: without an owner for the
/// per-screen selection it reports absence, and as soon as a mock owner
/// registers that selection it reports presence.
pub proof fn lemma_compositor_presence(s: ServerView, screen: nat, owner: u32)
    requires
        owner != 0,
    ensures
        ({
            let name = cm_atom_name(screen);
            let atom = intern_result(s, false, name);
            let s1 = intern_transition(s, false, name);
            let s2 = ServerView {
                selections: set_owner_transition(s1.selections, atom, owner),
                ..s1
            };
            &&& owner_of(s.selections, atom) == 0 ==> !compositor_running(s, screen)
            &&& compositor_running(s2, screen)
        }),
{
    let name = cm_atom_name(screen);
    let atom = intern_result(s, false, name);
    let s1 = intern_transition(s, false, name);
    let s2 = ServerView { selections: set_owner_transition(s1.selections, atom, owner), ..s1 };
    let p = atom_named(name);
    lemma_first_where_props(s.atoms, p);
    match first_where(s.atoms, p) {
        Some(i) => {
            assert(s2.atoms == s.atoms);
            assert(intern_result(s2, false, name) == atom);
        },
        None => {
            if s.next_atom_id == u32::MAX {
                assert(s2.atoms == s.atoms);
                assert(intern_result(s2, false, name) == 0);
                assert(atom == 0);
            } else {
                let n = s.atoms.len() as int;
                assert(s2.atoms == s.atoms.push((name, s.next_atom_id)));
                assert(forall|j: int| 0 <= j < n ==> s2.atoms[j] == s.atoms[j] && !p(s2.atoms[j]));
                lemma_first_where_skip(s2.atoms, p, n);
                assert(s2.atoms.skip(n)[0] == (name, s.next_atom_id));
                assert(first_where(s2.atoms, p) == Some(n));
                assert(intern_result(s2, false, name) == atom);
            }
        },
    }
    lemma_set_owner_visible(s1.selections, atom, owner);
}

/// The title every window carries, in both its legacy and UTF-8 forms.
pub fn window_title() -> (r: &'static str)
    ensures
        r@ == "Simple Window"@,
{
    "Simple Window"
}

/// The class-identifier property value: two NUL-terminated copies of the
/// application name, used for grouping and iconography.
pub fn window_class() -> (r: &'static str)
    ensures
        r@ == "simple_window\0simple_window\0"@,
{
    "simple_window\0simple_window\0"
}

/// The wire trace of one successful window creation: colormap, window, the
/// four pre-map properties, then the map — in that order, nothing else.
pub open spec fn window_request_events(
    scr: ScreenView,
    atoms: AtomCollection,
    depth: u8,
    visual_id: u32,
    size: Size<u16>,
    wid: u32,
    cmid: u32,
) -> Seq<EventView> {
    seq![
        EventView::Issued(ReqView::CreateColormap { mid: cmid, window: scr.root, visual: visual_id }),
        EventView::Issued(ReqView::CreateWindow {
            depth,
            wid,
            parent: scr.root,
            x: 0,
            y: 0,
            width: size.width,
            height: size.height,
            border_width: WINDOW_BORDER_WIDTH,
            visual: visual_id,
            background_pixel: 0,
            border_pixel: scr.black_pixel,
            colormap: cmid,
            event_mask: EVENT_MASK_EXPOSURE | EVENT_MASK_STRUCTURE_NOTIFY,
        }),
        EventView::Issued(ReqView::ChangeProperty8 {
            window: wid,
            property: ATOM_WM_NAME,
            property_type: ATOM_STRING,
            data: "Simple Window"@,
        }),
        EventView::Issued(ReqView::ChangeProperty8 {
            window: wid,
            property: atoms.net_wm_name,
            property_type: atoms.utf8_string,
            data: "Simple Window"@,
        }),
        EventView::Issued(ReqView::ChangeProperty32 {
            window: wid,
            property: atoms.wm_protocols,
            property_type: ATOM_ATOM,
            data: seq![atoms.wm_delete_window],
        }),
        EventView::Issued(ReqView::ChangeProperty8 {
            window: wid,
            property: ATOM_WM_CLASS,
            property_type: ATOM_STRING,
            data: "simple_window\0simple_window\0"@,
        }),
        EventView::Issued(ReqView::MapWindow { window: wid }),
    ]
}

/// Creates a window on `screen_num`: allocates two fresh resource ids,
/// creates a colormap bound to `visual_id`, creates the window as a root
/// child at the origin with the requested size, sets the four properties
/// every window carries before it is shown, and maps it. All or nothing
/// from the caller's view: any failing step fails the whole creation with
/// a step-identifying error; ids allocated before the failing step are not
/// rolled back.
#[verifier::rlimit(60)]
pub fn create_window(
    conn: &mut DisplayConnection,
    screen_num: usize,
    atoms: &AtomCollection,
    depth: u8,
    visual_id: u32,
    size: Size<u16>,
) -> (r: Result<u32, WindowCreationError>)
    requires
        screen_num < old(conn).server@.screens.len(),
    ensures
        ({
            let s0 = old(conn).server@;
            let scr = s0.screens[screen_num as int];
            let wid = s0.next_resource_id;
            let evs = window_request_events(
                scr,
                *atoms,
                depth,
                visual_id,
                size,
                wid,
                (wid + 1) as u32,
            );
            match r {
                Ok(w) => {
                    &&& s0.next_resource_id + 2 <= u32::MAX
                    &&& fault_allows(s0.fault, 7)
                    &&& w == wid
                    &&& final(conn).server@ == (ServerView {
                        fault: fault_passed_n(s0.fault, 7),
                        next_resource_id: (s0.next_resource_id + 2) as u32,
                        ..s0
                    })
                    &&& final(conn).events() == old(conn).events() + evs
                },
                Err(WindowCreationError::IdAllocation) => {
                    &&& s0.next_resource_id + 2 > u32::MAX
                    &&& final(conn).server@ == (ServerView {
                        next_resource_id: if s0.next_resource_id == u32::MAX {
                            s0.next_resource_id
                        } else {
                            (s0.next_resource_id + 1) as u32
                        },
                        ..s0
                    })
                    &&& final(conn).events() == old(conn).events()
                },
                Err(e) => {
                    let k = s0.fault.countdown as int;
                    &&& s0.next_resource_id + 2 <= u32::MAX
                    &&& !fault_allows(s0.fault, 7)
                    &&& e == if k == 0 {
                        WindowCreationError::ColormapCreation
                    } else if k == 1 {
                        WindowCreationError::WindowCreation
                    } else if k <= 5 {
                        WindowCreationError::PropertyChange
                    } else {
                        WindowCreationError::MapRequest
                    }
                    &&& final(conn).server@ == (ServerView {
                        fault: fault_fired(s0.fault),
                        next_resource_id: (s0.next_resource_id + 2) as u32,
                        ..s0
                    })
                    &&& final(conn).events() == old(conn).events() + evs.take(k)
                },
            }
        }),
{
    let ghost s0 = old(conn).server@;
    let ghost evs = window_request_events(
        s0.screens[screen_num as int],
        *atoms,
        depth,
        visual_id,
        size,
        s0.next_resource_id,
        (s0.next_resource_id + 1) as u32,
    );
    let window = match conn.generate_id() {
        Some(id) => id,
        None => {
            return Err(WindowCreationError::IdAllocation);
        },
    };
    let color_map = match conn.generate_id() {
        Some(id) => id,
        None => {
            return Err(WindowCreationError::IdAllocation);
        },
    };
    let root = conn.server.screens[screen_num].root;
    let black = conn.server.screens[screen_num].black_pixel;
    proof {
        assert(conn.server.screens@[screen_num as int]@ == s0.screens[screen_num as int]);
    }
    match conn.create_colormap(color_map, root, visual_id) {
        Ok(_) => {},
        Err(_) => {
            proof {
                assert(conn.events() =~= old(conn).events() + evs.take(0));
            }
            return Err(WindowCreationError::ColormapCreation);
        },
    }
    match conn.create_window_request(
        depth,
        window,
        root,
        0,
        0,
        size.width,
        size.height,
        WINDOW_BORDER_WIDTH,
        visual_id,
        0,
        black,
        color_map,
        EVENT_MASK_EXPOSURE | EVENT_MASK_STRUCTURE_NOTIFY,
    ) {
        Ok(_) => {},
        Err(_) => {
            proof {
                assert(conn.events() =~= old(conn).events() + evs.take(1));
            }
            return Err(WindowCreationError::WindowCreation);
        },
    }
    match conn.change_property8(window, ATOM_WM_NAME, ATOM_STRING, String::from_str(window_title())) {
        Ok(_) => {},
        Err(_) => {
            proof {
                assert(conn.events() =~= old(conn).events() + evs.take(2));
            }
            return Err(WindowCreationError::PropertyChange);
        },
    }
    match conn.change_property8(window, atoms.net_wm_name, atoms.utf8_string, String::from_str(window_title())) {
        Ok(_) => {},
        Err(_) => {
            proof {
                assert(conn.events() =~= old(conn).events() + evs.take(3));
            }
            return Err(WindowCreationError::PropertyChange);
        },
    }
    let mut protocols: Vec<u32> = Vec::new();
    protocols.push(atoms.wm_delete_window);
    proof {
        assert(protocols@ =~= seq![atoms.wm_delete_window]);
    }
    match conn.change_property32(window, atoms.wm_protocols, ATOM_ATOM, protocols) {
        Ok(_) => {},
        Err(_) => {
            proof {
                assert(conn.events() =~= old(conn).events() + evs.take(4));
            }
            return Err(WindowCreationError::PropertyChange);
        },
    }
    match conn.change_property8(window, ATOM_WM_CLASS, ATOM_STRING, String::from_str(window_class())) {
        Ok(_) => {},
        Err(_) => {
            proof {
                assert(conn.events() =~= old(conn).events() + evs.take(5));
            }
            return Err(WindowCreationError::PropertyChange);
        },
    }
    match conn.map_window(window) {
        Ok(_) => {},
        Err(_) => {
            proof {
                assert(conn.events() =~= old(conn).events() + evs.take(6));
            }
            return Err(WindowCreationError::MapRequest);
        },
    }
    proof {
        assert(conn.server@ =~= (ServerView {
            fault: fault_passed_n(s0.fault, 7),
            next_resource_id: (s0.next_resource_id + 2) as u32,
            ..s0
        }));
        assert(conn.events() =~= old(conn).events() + evs);
    }
    Ok(window)
}

} // verus!
