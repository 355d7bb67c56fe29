use vstd::prelude::*;

use crate::connection::DisplayConnection;
use crate::errors::{
    AtomResolutionError, ConnectionError, RootError, VisualQueryError, CompositorQueryError,
};
use crate::model::{intern_result, intern_transition, ServerModel, ServerView};
use crate::prepare_window::{
    atom_id_at, atoms_events, atoms_server_after, choose_visual, chosen_visual, cm_atom_name,
    composite_manager_running, compositor_running, create_atoms, find_visualtype,
    find_xcb_visualtype, AtomCollection,
};
use crate::protocol::{
    fault_allows, fault_fires, fault_passed, fault_passed_n, EventView, ReqView,
};
use crate::window::{NoSurfaceRender, Window};
use crate::xcb_visualtype_t::xcb_visualtype_t;

verus! {

/// What an embedding application drives after bootstrap: starting the tree
/// and running the message pump. Both default to doing nothing.
pub trait RootElement {
    fn start(&mut self) {
    }

    fn event_loop(&mut self) {
    }
}

/// The summary of a successful bootstrap: the per-screen choices, the
/// server as the bootstrap leaves it, and the whole wire trace it wrote.
pub struct BootView {
    pub screen_number: usize,
    pub atoms: AtomCollection,
    pub depth: u8,
    pub visual_id: u32,
    pub transparency: bool,
    pub visual: xcb_visualtype_t,
    pub server: ServerView,
    pub events: Seq<EventView>,
}

/// The wire trace of the visual-selection stage.
pub open spec fn visual_events(s: ServerView) -> Seq<EventView> {
    if s.has_render {
        seq![
            EventView::Issued(ReqView::QueryExtension { name: "RENDER"@ }),
            EventView::Consumed,
            EventView::Issued(ReqView::QueryPictFormats),
            EventView::Consumed,
        ]
    } else {
        seq![
            EventView::Issued(ReqView::QueryExtension { name: "RENDER"@ }),
            EventView::Consumed,
        ]
    }
}

/// The wire trace of the compositor-detection stage on server `s`.
pub open spec fn compositor_events(s: ServerView, screen: nat) -> Seq<EventView> {
    seq![
        EventView::Issued(
            ReqView::InternAtom { only_if_exists: false, name: cm_atom_name(screen) },
        ),
        EventView::Consumed,
        EventView::Issued(
            ReqView::GetSelectionOwner { selection: intern_result(s, false, cm_atom_name(screen)) },
        ),
        EventView::Consumed,
    ]
}

/// What bootstrapping a root on server `s0` yields: each stage in strict
/// order — connect, resolve atoms, choose the visual, detect the
/// compositor, resolve the visual's record — and the first failing stage's
/// error where one fails. No partially initialized root exists.
pub open spec fn bootstrap_outcome(s0: ServerView) -> Result<BootView, RootError> {
    if fault_fires(s0.fault) {
        Err(RootError::Connection(ConnectionError::Transport))
    } else if s0.default_screen >= s0.screens.len() {
        Err(RootError::Connection(ConnectionError::NoSuchScreen))
    } else {
        let screen = s0.default_screen;
        let sa = ServerView { fault: fault_passed(s0.fault), ..s0 };
        if !fault_allows(sa.fault, 4) {
            Err(RootError::AtomResolution(AtomResolutionError::Transport))
        } else if atom_id_at(sa, 0) == 0 || atom_id_at(sa, 1) == 0 || atom_id_at(sa, 2) == 0
            || atom_id_at(sa, 3) == 0 {
            Err(RootError::AtomResolution(AtomResolutionError::Unresolved))
        } else {
            let atoms = AtomCollection {
                wm_protocols: atom_id_at(sa, 0),
                wm_delete_window: atom_id_at(sa, 1),
                net_wm_name: atom_id_at(sa, 2),
                utf8_string: atom_id_at(sa, 3),
            };
            let sb = ServerView { fault: fault_passed_n(sa.fault, 4), ..atoms_server_after(sa, 4) };
            if !fault_allows(sb.fault, if sb.has_render { 2nat } else { 1nat }) {
                Err(RootError::VisualQuery(VisualQueryError))
            } else {
                let dv = chosen_visual(sb, screen as int);
                let sc = ServerView {
                    fault: fault_passed_n(sb.fault, if sb.has_render { 2nat } else { 1nat }),
                    ..sb
                };
                if !fault_allows(sc.fault, 2) {
                    Err(RootError::CompositorQuery(CompositorQueryError))
                } else {
                    let transparency = compositor_running(sc, screen as nat);
                    let sd = ServerView {
                        fault: fault_passed_n(sc.fault, 2),
                        ..intern_transition(sc, false, cm_atom_name(screen as nat))
                    };
                    match find_visualtype(sd.screens, dv.1) {
                        None => Err(RootError::VisualNotFound),
                        Some(v) => Ok(
                            BootView {
                                screen_number: screen,
                                atoms,
                                depth: dv.0,
                                visual_id: dv.1,
                                transparency,
                                visual: v,
                                server: sd,
                                events: atoms_events(sa) + visual_events(sb) + compositor_events(
                                    sc,
                                    screen as nat,
                                ),
                            },
                        ),
                    }
                }
            }
        }
    }
}

/// The bootstrap orchestrator: owns the connection, the per-screen choices
/// made once at startup, and thereafter the top-level windows built on
/// them.
#[derive(Debug)]
pub struct Root {
    pub conn: DisplayConnection,
    pub atoms: AtomCollection,
    pub depth: u8,
    pub visual_id: u32,
    pub transparency: bool,
    pub screen_number: usize,
    pub visual: xcb_visualtype_t,
    pub children: Vec<Window>,
}

/// The immutable bundle every window constructor consumes: resolved atoms,
/// the selected depth and visual, compositor presence, the screen index,
/// and the visual's foreign record — copied out of the root so the
/// connection itself stays exclusively owned.
#[derive(Debug, Clone, Copy, PartialEq, Eq, Structural)]
pub struct WindowToolKit {
    pub atoms: AtomCollection,
    pub depth: u8,
    pub visual_id: u32,
    pub transparency: bool,
    pub screen_number: usize,
    pub visual: xcb_visualtype_t,
}

impl WindowToolKit {
    /// The window-construction bundle of a bootstrapped root.
    pub fn from_root(root: &Root) -> (r: WindowToolKit)
        ensures
            r == (WindowToolKit {
                atoms: root.atoms,
                depth: root.depth,
                visual_id: root.visual_id,
                transparency: root.transparency,
                screen_number: root.screen_number,
                visual: root.visual,
            }),
    {
        WindowToolKit {
            atoms: root.atoms,
            depth: root.depth,
            visual_id: root.visual_id,
            transparency: root.transparency,
            screen_number: root.screen_number,
            visual: root.visual,
        }
    }
}

impl Root {
    /// Bootstraps a root on `server`, in strict order: connect, resolve the
    /// well-known atoms, choose the visual, detect the compositor, resolve
    /// the chosen visual's record. Any stage failure aborts the whole
    /// construction with a stage-identifying error. The root starts with no
    /// children; the embedding application builds windows against
    /// `WindowToolKit::from_root` and attaches them.
    pub fn new(server: ServerModel) -> (r: Result<Root, RootError>)
        ensures
            match r {
                Ok(root) => bootstrap_outcome(server@) matches Ok(b) && {
                    &&& root.screen_number == b.screen_number
                    &&& root.atoms == b.atoms
                    &&& root.depth == b.depth
                    &&& root.visual_id == b.visual_id
                    &&& root.transparency == b.transparency
                    &&& root.visual == b.visual
                    &&& root.conn.server@ == b.server
                    &&& root.conn.events() == b.events
                    &&& root.children@.len() == 0
                },
                Err(e) => bootstrap_outcome(server@) == Err::<BootView, RootError>(e),
            },
    {
        let ghost s0 = server@;
        let (mut conn, screen_num) = match DisplayConnection::connect(server) {
            Ok(cs) => cs,
            Err(e) => {
                return Err(RootError::Connection(e));
            },
        };
        let ghost sa = ServerView { fault: fault_passed(s0.fault), ..s0 };
        proof {
            assert(conn.server@ == sa);
        }
        let atoms = match create_atoms(&mut conn) {
            Ok(a) => a,
            Err(e) => {
                return Err(RootError::AtomResolution(e));
            },
        };
        let ghost sb = ServerView { fault: fault_passed_n(sa.fault, 4), ..atoms_server_after(sa, 4) };
        proof {
            assert(conn.server@ == sb);
            assert(sb.has_render == s0.has_render);
            assert(sb.screens == s0.screens);
        }
        let (depth, visual_id) = match choose_visual(&mut conn, screen_num) {
            Ok(dv) => dv,
            Err(_) => {
                return Err(RootError::VisualQuery(VisualQueryError));
            },
        };
        let ghost sc = ServerView {
            fault: fault_passed_n(sb.fault, if sb.has_render { 2nat } else { 1nat }),
            ..sb
        };
        proof {
            assert(conn.server@ =~= sc);
        }
        let transparency = match composite_manager_running(&mut conn, screen_num) {
            Ok(t) => t,
            Err(_) => {
                return Err(RootError::CompositorQuery(CompositorQueryError));
            },
        };
        let ghost sd = ServerView {
            fault: fault_passed_n(sc.fault, 2),
            ..intern_transition(sc, false, cm_atom_name(screen_num as nat))
        };
        proof {
            assert(conn.server@ =~= sd);
        }
        let visual = match find_xcb_visualtype(&conn, visual_id) {
            Some(v) => v,
            None => {
                return Err(RootError::VisualNotFound);
            },
        };
        proof {
            assert(conn.events() =~= atoms_events(sa) + visual_events(sb) + compositor_events(
                sc,
                screen_num as nat,
            ));
        }
        Ok(
            Root {
                conn,
                atoms,
                depth,
                visual_id,
                transparency,
                screen_number: screen_num,
                visual,
                children: Vec::new(),
            },
        )
    }

    /// Attaches a window the embedding application built, after every
    /// already-attached one.
    pub fn push_child(&mut self, child: Window)
        ensures
            final(self).conn == old(self).conn,
            final(self).atoms == old(self).atoms,
            final(self).depth == old(self).depth,
            final(self).visual_id == old(self).visual_id,
            final(self).transparency == old(self).transparency,
            final(self).screen_number == old(self).screen_number,
            final(self).visual == old(self).visual,
            final(self).children@ == old(self).children@.push(child),
    {
        self.children.push(child);
    }
}

impl RootElement for Root {
    fn start(&mut self) {
    }

    fn event_loop(&mut self) {
    }
}

} // verus!
