use vstd::prelude::*;

use crate::connection::{op_failed, op_passed, DisplayConnection};
use crate::errors::{SurfaceBindError, WindowCreationError, WindowError};
use crate::model::ServerView;
use crate::prepare_window::{create_window, window_request_events};
use crate::protocol::{fault_allows, fault_fired, fault_fires, fault_passed_n, EventView, ReqView};
use crate::root::WindowToolKit;
use crate::size::Size;
use crate::surface::{bind, DrawingSurface};

verus! {

/// A render counter after one more invocation; it saturates at the top so
/// rendering never overflows.
pub open spec fn bumped(n: u64) -> u64 {
    if n < u64::MAX {
        (n + 1) as u64
    } else {
        n
    }
}

/// A renderable element under a window: the external drawing capability,
/// modelled as a counter of render invocations so dispatch can be stated
/// and observed.
#[derive(Debug, Clone, Copy, PartialEq, Eq, Structural)]
pub struct Element {
    pub id: u64,
    pub render_count: u64,
}

impl Element {
    /// A fresh element that has never rendered.
    pub fn new(id: u64) -> (r: Element)
        ensures
            r == (Element { id, render_count: 0u64 }),
    {
        Element { id, render_count: 0 }
    }

    /// The no-argument render capability: one invocation, recorded.
    pub fn render(&mut self)
        ensures
            *final(self) == (Element {
                id: old(self).id,
                render_count: bumped(old(self).render_count),
            }),
    {
        if self.render_count < u64::MAX {
            self.render_count = self.render_count + 1;
        }
    }
}

/// The capability every top-level child of a root offers: toggling
/// visibility and a render pass that draws nothing itself.
pub trait NoSurfaceRender {
    fn set_visibility(&mut self, conn: &mut DisplayConnection, showed: bool);

    fn show(&mut self, conn: &mut DisplayConnection);

    fn no_surface_render(&mut self);
}

/// A top-level window: the native window handle, its bound surface, an
/// ordered list of exclusively owned child elements, and the visibility
/// toggle. `paint_log` records, pass after pass, the child ids rendered,
/// in invocation order.
#[derive(Debug)]
pub struct Window {
    pub name: String,
    pub size: Size<u16>,
    pub window: u32,
    pub surface: DrawingSurface,
    pub children: Vec<Element>,
    pub hidden: bool,
    pub paint_log: Vec<u64>,
}

/// The failure `Window::new` reports on server `s`, if any: id exhaustion
/// first, then the fault-identified creation step, then surface binding.
pub open spec fn window_failure(s: ServerView) -> Option<WindowError> {
    let k = s.fault.countdown as int;
    if s.next_resource_id + 2 > u32::MAX {
        Some(WindowError::Creation(WindowCreationError::IdAllocation))
    } else if fault_allows(s.fault, 8) {
        None
    } else if k == 0 {
        Some(WindowError::Creation(WindowCreationError::ColormapCreation))
    } else if k == 1 {
        Some(WindowError::Creation(WindowCreationError::WindowCreation))
    } else if k <= 5 {
        Some(WindowError::Creation(WindowCreationError::PropertyChange))
    } else if k == 6 {
        Some(WindowError::Creation(WindowCreationError::MapRequest))
    } else {
        Some(WindowError::Binding(SurfaceBindError))
    }
}

/// The requests one `set_visibility` call issues over a sound transport:
/// nothing when the requested state already holds, else exactly one map or
/// unmap request.
pub open spec fn visibility_events(hidden: bool, showed: bool, window: u32) -> Seq<EventView> {
    if showed == !hidden {
        Seq::empty()
    } else if showed {
        seq![EventView::Issued(ReqView::MapWindow { window })]
    } else {
        seq![EventView::Issued(ReqView::UnmapWindow { window })]
    }
}

/// Showing a hidden window twice in a row issues exactly one map request:
/// after the first call the window is shown (hidden is false), so the
/// second call issues nothing. On an already-shown window both calls are
/// no-ops.
pub proof fn lemma_show_twice_one_map(hidden: bool, window: u32)
    ensures
        visibility_events(hidden, true, window) + visibility_events(false, true, window) == if hidden {
            seq![EventView::Issued(ReqView::MapWindow { window })]
        } else {
            Seq::<EventView>::empty()
        },
{
    if hidden {
        assert(visibility_events(hidden, true, window) + visibility_events(false, true, window)
            =~= seq![EventView::Issued(ReqView::MapWindow { window })]);
    } else {
        assert(visibility_events(hidden, true, window) + visibility_events(false, true, window)
            =~= Seq::<EventView>::empty());
    }
}

impl Window {
    /// Creates the window on the toolkit's screen with the toolkit's depth
    /// and visual, binds its surface from that same visual, and composes
    /// the given children under it. All or nothing: any failing step fails
    /// the whole construction with an error identifying it. The window
    /// starts shown — creation maps it eagerly.
    pub fn new(
        name: String,
        size: (u16, u16),
        root: &WindowToolKit,
        conn: &mut DisplayConnection,
        children: Vec<Element>,
    ) -> (r: Result<Window, WindowError>)
        requires
            root.screen_number < old(conn).server@.screens.len(),
        ensures
            ({
                let s0 = old(conn).server@;
                let scr = s0.screens[root.screen_number as int];
                let wid = s0.next_resource_id;
                let evs = window_request_events(
                    scr,
                    root.atoms,
                    root.depth,
                    root.visual_id,
                    Size { width: size.0, height: size.1 },
                    wid,
                    (wid + 1) as u32,
                ) + seq![
                    EventView::Issued(
                        ReqView::BindSurface {
                            window: wid,
                            visual: root.visual_id,
                            width: size.0,
                            height: size.1,
                        },
                    ),
                ];
                match r {
                    Ok(w) => {
                        &&& window_failure(s0) is None
                        &&& w.window == wid
                        &&& w.name@ == name@
                        &&& w.size == (Size { width: size.0, height: size.1 })
                        &&& w.surface == (DrawingSurface {
                            window: wid,
                            visual_id: root.visual_id,
                            width: size.0,
                            height: size.1,
                        })
                        &&& w.children@ == children@
                        &&& w.hidden == false
                        &&& w.paint_log@ == Seq::<u64>::empty()
                        &&& final(conn).server@ == (ServerView {
                            fault: fault_passed_n(s0.fault, 8),
                            next_resource_id: (s0.next_resource_id + 2) as u32,
                            ..s0
                        })
                        &&& final(conn).events() == old(conn).events() + evs
                    },
                    Err(e) => {
                        &&& Some(e) == window_failure(s0)
                        &&& final(conn).events() == old(conn).events() + evs.take(
                            if e == WindowError::Creation(WindowCreationError::IdAllocation) {
                                0
                            } else {
                                s0.fault.countdown as int
                            },
                        )
                        &&& final(conn).server@ == (ServerView {
                            fault: if e == WindowError::Creation(
                                WindowCreationError::IdAllocation,
                            ) {
                                s0.fault
                            } else {
                                fault_fired(s0.fault)
                            },
                            next_resource_id: if e == WindowError::Creation(
                                WindowCreationError::IdAllocation,
                            ) {
                                if s0.next_resource_id == u32::MAX {
                                    s0.next_resource_id
                                } else {
                                    (s0.next_resource_id + 1) as u32
                                }
                            } else {
                                (s0.next_resource_id + 2) as u32
                            },
                            ..s0
                        })
                    },
                }
            }),
    {
        let ghost s0 = old(conn).server@;
        let size_s = Size { width: size.0, height: size.1 };
        let window = match create_window(
            conn,
            root.screen_number,
            &root.atoms,
            root.depth,
            root.visual_id,
            size_s,
        ) {
            Ok(w) => w,
            Err(e) => {
                proof {
                    if e != WindowCreationError::IdAllocation {
                        assert(conn.server@ =~= (ServerView {
                            fault: fault_fired(s0.fault),
                            next_resource_id: (s0.next_resource_id + 2) as u32,
                            ..s0
                        }));
                    }
                }
                return Err(WindowError::Creation(e));
            },
        };
        let surface = match bind(conn, window, root.visual_id, size_s) {
            Ok(s) => s,
            Err(e) => {
                proof {
                    assert(conn.server@ =~= (ServerView {
                        fault: fault_fired(s0.fault),
                        next_resource_id: (s0.next_resource_id + 2) as u32,
                        ..s0
                    }));
                }
                return Err(WindowError::Binding(e));
            },
        };
        proof {
            assert(conn.server@ =~= (ServerView {
                fault: fault_passed_n(s0.fault, 8),
                next_resource_id: (s0.next_resource_id + 2) as u32,
                ..s0
            }));
        }
        Ok(
            Window {
                name,
                size: size_s,
                window,
                surface,
                children,
                hidden: false,
                paint_log: Vec::new(),
            },
        )
    }

    /// Shows or hides the window. Idempotent: a request matching the
    /// current state issues nothing; an actual change issues exactly one
    /// map or unmap request, whose transport outcome is not awaited.
    pub fn set_visibility(&mut self, conn: &mut DisplayConnection, showed: bool)
        ensures
            final(self).window == old(self).window,
            final(self).name@ == old(self).name@,
            final(self).size == old(self).size,
            final(self).surface == old(self).surface,
            final(self).children == old(self).children,
            final(self).paint_log == old(self).paint_log,
            final(self).hidden == !showed,
            showed == !old(self).hidden ==> *final(conn) == *old(conn),
            showed != !old(self).hidden ==> if fault_fires(old(conn).server@.fault) {
                op_failed(old(conn).server@, final(conn).server@) && final(conn).events() == old(
                    conn,
                ).events()
            } else {
                op_passed(old(conn).server@, final(conn).server@) && final(conn).events() == old(
                    conn,
                ).events() + visibility_events(old(self).hidden, showed, old(self).window)
            },
    {
        if showed == !self.hidden {
            return ;
        }
        if showed {
            let _ = conn.map_window(self.window);
        } else {
            let _ = conn.unmap_window(self.window);
        }
        self.hidden = !showed;
    }

    /// Renders the window: nothing at all when hidden; otherwise invokes
    /// every child's render capability exactly once, in declaration order,
    /// and appends the pass to the paint log in that order.
    pub fn no_surface_render(&mut self)
        ensures
            final(self).window == old(self).window,
            final(self).name@ == old(self).name@,
            final(self).size == old(self).size,
            final(self).surface == old(self).surface,
            final(self).hidden == old(self).hidden,
            old(self).hidden ==> *final(self) == *old(self),
            !old(self).hidden ==> {
                &&& final(self).children@.len() == old(self).children@.len()
                &&& forall|i: int|
                    0 <= i < old(self).children@.len() ==> final(self).children@[i] == (Element {
                        id: old(self).children@[i].id,
                        render_count: bumped(old(self).children@[i].render_count),
                    })
                &&& final(self).paint_log@ == old(self).paint_log@ + old(
                    self,
                ).children@.map_values(|e: Element| e.id)
            },
    {
        if self.hidden {
            return ;
        }
        let n = self.children.len();
        let mut i: usize = 0;
        while i < n
            invariant
                i <= n,
                n == self.children.len(),
                self.window == old(self).window,
                self.name@ == old(self).name@,
                self.size == old(self).size,
                self.surface == old(self).surface,
                self.hidden == old(self).hidden,
                self.children@.len() == old(self).children@.len(),
                forall|j: int|
                    0 <= j < i ==> self.children@[j] == (Element {
                        id: old(self).children@[j].id,
                        render_count: bumped(old(self).children@[j].render_count),
                    }),
                forall|j: int| i <= j < n ==> self.children@[j] == old(self).children@[j],
                self.paint_log@ == old(self).paint_log@ + old(self).children@.map_values(
                    |e: Element| e.id,
                ).take(i as int),
            decreases n - i,
        {
            let mut c = self.children[i];
            let id = c.id;
            c.render();
            self.children[i] = c;
            self.paint_log.push(id);
            proof {
                assert(self.paint_log@ =~= old(self).paint_log@ + old(self).children@.map_values(
                    |e: Element| e.id,
                ).take(i + 1));
            }
            i += 1;
        }
        proof {
            assert(old(self).children@.map_values(|e: Element| e.id).take(n as int) =~= old(
                self,
            ).children@.map_values(|e: Element| e.id));
        }
    }
}

impl NoSurfaceRender for Window {
    fn set_visibility(&mut self, conn: &mut DisplayConnection, showed: bool) {
        Window::set_visibility(self, conn, showed)
    }

    fn show(&mut self, conn: &mut DisplayConnection) {
        Window::set_visibility(self, conn, true)
    }

    fn no_surface_render(&mut self) {
        Window::no_surface_render(self)
    }
}

} // verus!
