use vstd::prelude::*;

use crate::errors::{ConnectionError, RequestError};
use crate::model::{
    atom_named, find_atom, first_where, intern_result, intern_transition, lemma_first_where_skip,
    owner_of, selection_named, set_owner_transition, AtomEntry, SelectionEntry, ServerModel,
    ServerView,
};
use crate::protocol::{
    fault_fired, fault_fires, fault_passed, EventView, ReqView, Request, WireEvent,
};
use vstd::string::StringExecFns;

verus! {

/// Server `b` is server `a` after one failed operation: only the fault plan
/// moved, nothing was issued.
pub open spec fn op_failed(a: ServerView, b: ServerView) -> bool {
    b == (ServerView { fault: fault_fired(a.fault), ..a })
}

/// Server `b` is server `a` after one successful operation that left the
/// server's own state untouched.
pub open spec fn op_passed(a: ServerView, b: ServerView) -> bool {
    b == (ServerView { fault: fault_passed(a.fault), ..a })
}

/// An exclusively owned, sequential connection to the modelled display
/// server. Every request and every consumed reply is recorded in `trace`,
/// in order, so contracts and tests can speak of exactly what went over
/// the wire.
#[derive(Debug)]
pub struct DisplayConnection {
    pub server: ServerModel,
    pub trace: Vec<WireEvent>,
}

/// The pending reply to an InternAtom request: the resolved atom id,
/// 0 where the name resolved to no atom.
#[derive(Debug)]
pub struct InternCookie {
    pub atom: u32,
}

/// First-match lookup of `name` in the interned-atom table.
fn lookup_atom(atoms: &Vec<AtomEntry>, name: &String) -> (r: Option<u32>)
    ensures
        r == find_atom(atoms@.map_values(|e: AtomEntry| (e.name@, e.id)), name@),
{
    let ghost v = atoms@.map_values(|e: AtomEntry| (e.name@, e.id));
    let ghost p = atom_named(name@);
    let mut i: usize = 0;
    while i < atoms.len()
        invariant
            i <= atoms.len(),
            v == atoms@.map_values(|e: AtomEntry| (e.name@, e.id)),
            p == atom_named(name@),
            forall|j: int| 0 <= j < i ==> !p(v[j]),
        decreases atoms.len() - i,
    {
        if atoms[i].name == *name {
            proof {
                lemma_first_where_skip(v, p, i as int);
                assert(v.skip(i as int)[0] == v[i as int]);
                assert(first_where(v, p) == Some(i as int));
            }
            return Some(atoms[i].id);
        }
        i += 1;
    }
    proof {
        lemma_first_where_skip(v, p, v.len() as int);
        assert(v.skip(v.len() as int).len() == 0);
    }
    None
}

/// Index of the first selection-table entry for `selection`.
fn find_selection(selections: &Vec<SelectionEntry>, selection: u32) -> (r: Option<usize>)
    ensures
        match r {
            Some(i) => i < selections@.len() && first_where(selections@, selection_named(selection))
                == Some(i as int),
            None => first_where(selections@, selection_named(selection)) is None,
        },
{
    let ghost p = selection_named(selection);
    let mut i: usize = 0;
    while i < selections.len()
        invariant
            i <= selections.len(),
            p == selection_named(selection),
            forall|j: int| 0 <= j < i ==> !p(selections@[j]),
        decreases selections.len() - i,
    {
        if selections[i].selection == selection {
            proof {
                lemma_first_where_skip(selections@, p, i as int);
                assert(selections@.skip(i as int)[0] == selections@[i as int]);
            }
            return Some(i);
        }
        i += 1;
    }
    proof {
        lemma_first_where_skip(selections@, p, selections@.len() as int);
        assert(selections@.skip(selections@.len() as int).len() == 0);
    }
    None
}

impl DisplayConnection {
    /// The wire trace as event values, issue and consumption steps in order.
    pub open spec fn events(&self) -> Seq<EventView> {
        self.trace@.map_values(|e: WireEvent| e@)
    }

    /// Opens a connection to `server` and hands back the server's default
    /// screen, as a real connect does. Fails on a transport fault, or when
    /// the advertised default screen does not exist.
    pub fn connect(server: ServerModel) -> (r: Result<(DisplayConnection, usize), ConnectionError>)
        ensures
            match r {
                Ok(cs) => {
                    &&& !fault_fires(server@.fault)
                    &&& server@.default_screen < server@.screens.len()
                    &&& cs.1 == server@.default_screen
                    &&& op_passed(server@, cs.0.server@)
                    &&& cs.0.events() == Seq::<EventView>::empty()
                },
                Err(ConnectionError::Transport) => fault_fires(server@.fault),
                Err(ConnectionError::NoSuchScreen) => !fault_fires(server@.fault)
                    && server@.default_screen >= server@.screens.len(),
            },
    {
        let mut server = server;
        let ghost sv = server@;
        if !server.fault.tick() {
            return Err(ConnectionError::Transport);
        }
        if server.default_screen >= server.screens.len() {
            return Err(ConnectionError::NoSuchScreen);
        }
        let screen = server.default_screen;
        let conn = DisplayConnection { server, trace: Vec::new() };
        proof {
            assert(conn.server@ =~= (ServerView { fault: fault_passed(sv.fault), ..sv }));
            assert(conn.events() =~= Seq::<EventView>::empty());
        }
        Ok((conn, screen))
    }

    /// Issues an InternAtom request for `name` and returns the cookie of the
    /// pending reply. The server appends a fresh atom entry exactly when the
    /// request created one.
    pub fn intern_atom(&mut self, only_if_exists: bool, name: String) -> (r: Result<
        InternCookie,
        RequestError,
    >)
        ensures
            r is Err <==> fault_fires(old(self).server@.fault),
            match r {
                Err(_) => op_failed(old(self).server@, final(self).server@) && final(self).events()
                    == old(self).events(),
                Ok(c) => {
                    &&& c.atom == intern_result(old(self).server@, only_if_exists, name@)
                    &&& final(self).server@ == (ServerView {
                        fault: fault_passed(old(self).server@.fault),
                        ..intern_transition(old(self).server@, only_if_exists, name@)
                    })
                    &&& final(self).events() == old(self).events().push(
                        EventView::Issued(ReqView::InternAtom { only_if_exists, name: name@ }),
                    )
                },
            },
    {
        let ghost sv = old(self).server@;
        if !self.server.fault.tick() {
            proof {
                assert(self.server@ =~= (ServerView { fault: fault_fired(sv.fault), ..sv }));
            }
            return Err(RequestError);
        }
        let ev = WireEvent::Issued(
            Request::InternAtom { only_if_exists, name: name.clone() },
        );
        self.trace.push(ev);
        let atom: u32 = match lookup_atom(&self.server.atoms, &name) {
            Some(id) => id,
            None => {
                if only_if_exists || self.server.next_atom_id == u32::MAX {
                    0u32
                } else {
                    let id = self.server.next_atom_id;
                    self.server.atoms.push(AtomEntry { name, id });
                    self.server.next_atom_id = id + 1;
                    id
                }
            },
        };
        proof {
            assert(self.server@.atoms =~= intern_transition(sv, only_if_exists, name@).atoms);
            assert(self.server@ =~= (ServerView {
                fault: fault_passed(sv.fault),
                ..intern_transition(sv, only_if_exists, name@)
            }));
            assert(self.events() =~= old(self).events().push(
                EventView::Issued(ReqView::InternAtom { only_if_exists, name: name@ }),
            ));
        }
        Ok(InternCookie { atom })
    }

    /// Issues a GetSelectionOwner round trip: the owner of `selection`,
    /// 0 where nobody owns it.
    pub fn get_selection_owner(&mut self, selection: u32) -> (r: Result<u32, RequestError>)
        ensures
            r is Err <==> fault_fires(old(self).server@.fault),
            match r {
                Err(_) => op_failed(old(self).server@, final(self).server@) && final(self).events()
                    == old(self).events(),
                Ok(owner) => {
                    &&& owner == owner_of(old(self).server@.selections, selection)
                    &&& op_passed(old(self).server@, final(self).server@)
                    &&& final(self).events() == old(self).events() + seq![
                        EventView::Issued(ReqView::GetSelectionOwner { selection }),
                        EventView::Consumed,
                    ]
                },
            },
    {
        let ghost sv = old(self).server@;
        if !self.server.fault.tick() {
            proof {
                assert(self.server@ =~= (ServerView { fault: fault_fired(sv.fault), ..sv }));
            }
            return Err(RequestError);
        }
        self.trace.push(WireEvent::Issued(Request::GetSelectionOwner { selection }));
        let owner: u32 = match find_selection(&self.server.selections, selection) {
            Some(i) => self.server.selections[i].owner,
            None => 0u32,
        };
        self.trace.push(WireEvent::Consumed);
        proof {
            assert(self.server@ =~= (ServerView { fault: fault_passed(sv.fault), ..sv }));
            assert(self.events() =~= old(self).events() + seq![
                EventView::Issued(ReqView::GetSelectionOwner { selection }),
                EventView::Consumed,
            ]);
        }
        Ok(owner)
    }

    /// Issues a SetSelectionOwner request: `owner` takes `selection`.
    pub fn set_selection_owner(&mut self, selection: u32, owner: u32) -> (r: Result<
        (),
        RequestError,
    >)
        ensures
            r is Err <==> fault_fires(old(self).server@.fault),
            match r {
                Err(_) => op_failed(old(self).server@, final(self).server@) && final(self).events()
                    == old(self).events(),
                Ok(_) => {
                    &&& final(self).server@ == (ServerView {
                        fault: fault_passed(old(self).server@.fault),
                        selections: set_owner_transition(
                            old(self).server@.selections,
                            selection,
                            owner,
                        ),
                        ..old(self).server@
                    })
                    &&& final(self).events() == old(self).events().push(
                        EventView::Issued(ReqView::SetSelectionOwner { selection, owner }),
                    )
                },
            },
    {
        let ghost sv = old(self).server@;
        if !self.server.fault.tick() {
            proof {
                assert(self.server@ =~= (ServerView { fault: fault_fired(sv.fault), ..sv }));
            }
            return Err(RequestError);
        }
        self.trace.push(WireEvent::Issued(Request::SetSelectionOwner { selection, owner }));
        let e = SelectionEntry { selection, owner };
        match find_selection(&self.server.selections, selection) {
            Some(i) => {
                self.server.selections[i] = e;
            },
            None => {
                self.server.selections.push(e);
            },
        }
        proof {
            assert(self.server@.selections =~= set_owner_transition(sv.selections, selection, owner));
            assert(self.server@ =~= (ServerView {
                fault: fault_passed(sv.fault),
                selections: set_owner_transition(sv.selections, selection, owner),
                ..sv
            }));
            assert(self.events() =~= old(self).events().push(
                EventView::Issued(ReqView::SetSelectionOwner { selection, owner }),
            ));
        }
        Ok(())
    }

    /// Issues a QueryExtension round trip for the rendering extension and
    /// reports whether the server has it.
    pub fn query_render_extension(&mut self) -> (r: Result<bool, RequestError>)
        ensures
            r is Err <==> fault_fires(old(self).server@.fault),
            match r {
                Err(_) => op_failed(old(self).server@, final(self).server@) && final(self).events()
                    == old(self).events(),
                Ok(present) => {
                    &&& present == old(self).server@.has_render
                    &&& op_passed(old(self).server@, final(self).server@)
                    &&& final(self).events() == old(self).events() + seq![
                        EventView::Issued(ReqView::QueryExtension { name: "RENDER"@ }),
                        EventView::Consumed,
                    ]
                },
            },
    {
        let ghost sv = old(self).server@;
        if !self.server.fault.tick() {
            proof {
                assert(self.server@ =~= (ServerView { fault: fault_fired(sv.fault), ..sv }));
            }
            return Err(RequestError);
        }
        self.trace.push(
            WireEvent::Issued(Request::QueryExtension { name: String::from_str("RENDER") }),
        );
        let present = self.server.has_render;
        self.trace.push(WireEvent::Consumed);
        proof {
            assert(self.server@ =~= (ServerView { fault: fault_passed(sv.fault), ..sv }));
            assert(self.events() =~= old(self).events() + seq![
                EventView::Issued(ReqView::QueryExtension { name: "RENDER"@ }),
                EventView::Consumed,
            ]);
        }
        Ok(present)
    }

    /// Issues a QueryPictFormats round trip. The reply is the server's
    /// pixel-format table, which the caller reads from `self.server`.
    pub fn query_pict_formats(&mut self) -> (r: Result<(), RequestError>)
        ensures
            r is Err <==> fault_fires(old(self).server@.fault),
            match r {
                Err(_) => op_failed(old(self).server@, final(self).server@) && final(self).events()
                    == old(self).events(),
                Ok(_) => {
                    &&& op_passed(old(self).server@, final(self).server@)
                    &&& final(self).events() == old(self).events() + seq![
                        EventView::Issued(ReqView::QueryPictFormats),
                        EventView::Consumed,
                    ]
                },
            },
    {
        let ghost sv = old(self).server@;
        if !self.server.fault.tick() {
            proof {
                assert(self.server@ =~= (ServerView { fault: fault_fired(sv.fault), ..sv }));
            }
            return Err(RequestError);
        }
        self.trace.push(WireEvent::Issued(Request::QueryPictFormats));
        self.trace.push(WireEvent::Consumed);
        proof {
            assert(self.server@ =~= (ServerView { fault: fault_passed(sv.fault), ..sv }));
            assert(self.events() =~= old(self).events() + seq![
                EventView::Issued(ReqView::QueryPictFormats),
                EventView::Consumed,
            ]);
        }
        Ok(())
    }

    /// Allocates a fresh server-side resource id. Purely client-side: no
    /// request is issued; fails only when the id space is exhausted.
    pub fn generate_id(&mut self) -> (r: Option<u32>)
        ensures
            r is Some <==> old(self).server@.next_resource_id < u32::MAX,
            match r {
                Some(id) => {
                    &&& id == old(self).server@.next_resource_id
                    &&& final(self).server@ == (ServerView {
                        next_resource_id: (old(self).server@.next_resource_id + 1) as u32,
                        ..old(self).server@
                    })
                    &&& final(self).events() == old(self).events()
                },
                None => *final(self) == *old(self),
            },
    {
        if self.server.next_resource_id == u32::MAX {
            return None;
        }
        let id = self.server.next_resource_id;
        self.server.next_resource_id = id + 1;
        proof {
            assert(self.server@ =~= (ServerView {
                next_resource_id: (old(self).server@.next_resource_id + 1) as u32,
                ..old(self).server@
            }));
        }
        Some(id)
    }

    /// Issues one request that carries no reply, after spending one
    /// operation on the fault plan.
    pub(crate) fn void_request(&mut self, req: Request) -> (r: Result<(), RequestError>)
        ensures
            r is Err <==> fault_fires(old(self).server@.fault),
            match r {
                Err(_) => op_failed(old(self).server@, final(self).server@) && final(self).events()
                    == old(self).events(),
                Ok(_) => op_passed(old(self).server@, final(self).server@) && final(self).events()
                    == old(self).events().push(EventView::Issued(req@)),
            },
    {
        let ghost sv = old(self).server@;
        if !self.server.fault.tick() {
            proof {
                assert(self.server@ =~= (ServerView { fault: fault_fired(sv.fault), ..sv }));
            }
            return Err(RequestError);
        }
        let ghost rv = req@;
        self.trace.push(WireEvent::Issued(req));
        proof {
            assert(self.server@ =~= (ServerView { fault: fault_passed(sv.fault), ..sv }));
            assert(self.events() =~= old(self).events().push(EventView::Issued(rv)));
        }
        Ok(())
    }

    /// Issues a CreateColormap request for colormap id `mid`, bound to
    /// `visual` against the root `window`.
    pub fn create_colormap(&mut self, mid: u32, window: u32, visual: u32) -> (r: Result<
        (),
        RequestError,
    >)
        ensures
            r is Err <==> fault_fires(old(self).server@.fault),
            match r {
                Err(_) => op_failed(old(self).server@, final(self).server@) && final(self).events()
                    == old(self).events(),
                Ok(_) => op_passed(old(self).server@, final(self).server@) && final(self).events()
                    == old(self).events().push(
                    EventView::Issued(ReqView::CreateColormap { mid, window, visual }),
                ),
            },
    {
        self.void_request(Request::CreateColormap { mid, window, visual })
    }

    /// Issues a CreateWindow request.
    #[verifier::rlimit(20)]
    pub fn create_window_request(
        &mut self,
        depth: u8,
        wid: u32,
        parent: u32,
        x: i16,
        y: i16,
        width: u16,
        height: u16,
        border_width: u16,
        visual: u32,
        background_pixel: u32,
        border_pixel: u32,
        colormap: u32,
        event_mask: u32,
    ) -> (r: Result<(), RequestError>)
        ensures
            r is Err <==> fault_fires(old(self).server@.fault),
            match r {
                Err(_) => op_failed(old(self).server@, final(self).server@) && final(self).events()
                    == old(self).events(),
                Ok(_) => op_passed(old(self).server@, final(self).server@) && final(self).events()
                    == old(self).events().push(
                    EventView::Issued(ReqView::CreateWindow {
                        depth,
                        wid,
                        parent,
                        x,
                        y,
                        width,
                        height,
                        border_width,
                        visual,
                        background_pixel,
                        border_pixel,
                        colormap,
                        event_mask,
                    }),
                ),
            },
    {
        self.void_request(
            Request::CreateWindow {
                depth,
                wid,
                parent,
                x,
                y,
                width,
                height,
                border_width,
                visual,
                background_pixel,
                border_pixel,
                colormap,
                event_mask,
            },
        )
    }

    /// Issues a ChangeProperty request whose value is 8-bit text.
    pub fn change_property8(
        &mut self,
        window: u32,
        property: u32,
        property_type: u32,
        data: String,
    ) -> (r: Result<(), RequestError>)
        ensures
            r is Err <==> fault_fires(old(self).server@.fault),
            match r {
                Err(_) => op_failed(old(self).server@, final(self).server@) && final(self).events()
                    == old(self).events(),
                Ok(_) => op_passed(old(self).server@, final(self).server@) && final(self).events()
                    == old(self).events().push(
                    EventView::Issued(
                        ReqView::ChangeProperty8 { window, property, property_type, data: data@ },
                    ),
                ),
            },
    {
        self.void_request(Request::ChangeProperty8 { window, property, property_type, data })
    }

    /// Issues a ChangeProperty request whose value is a list of 32-bit words.
    pub fn change_property32(
        &mut self,
        window: u32,
        property: u32,
        property_type: u32,
        data: Vec<u32>,
    ) -> (r: Result<(), RequestError>)
        ensures
            r is Err <==> fault_fires(old(self).server@.fault),
            match r {
                Err(_) => op_failed(old(self).server@, final(self).server@) && final(self).events()
                    == old(self).events(),
                Ok(_) => op_passed(old(self).server@, final(self).server@) && final(self).events()
                    == old(self).events().push(
                    EventView::Issued(
                        ReqView::ChangeProperty32 { window, property, property_type, data: data@ },
                    ),
                ),
            },
    {
        self.void_request(Request::ChangeProperty32 { window, property, property_type, data })
    }

    /// Issues a MapWindow request: asks the server to show `window`.
    pub fn map_window(&mut self, window: u32) -> (r: Result<(), RequestError>)
        ensures
            r is Err <==> fault_fires(old(self).server@.fault),
            match r {
                Err(_) => op_failed(old(self).server@, final(self).server@) && final(self).events()
                    == old(self).events(),
                Ok(_) => op_passed(old(self).server@, final(self).server@) && final(self).events()
                    == old(self).events().push(EventView::Issued(ReqView::MapWindow { window })),
            },
    {
        self.void_request(Request::MapWindow { window })
    }

    /// Issues an UnmapWindow request: asks the server to hide `window`.
    pub fn unmap_window(&mut self, window: u32) -> (r: Result<(), RequestError>)
        ensures
            r is Err <==> fault_fires(old(self).server@.fault),
            match r {
                Err(_) => op_failed(old(self).server@, final(self).server@) && final(self).events()
                    == old(self).events(),
                Ok(_) => op_passed(old(self).server@, final(self).server@) && final(self).events()
                    == old(self).events().push(EventView::Issued(ReqView::UnmapWindow { window })),
            },
    {
        self.void_request(Request::UnmapWindow { window })
    }
}

impl InternCookie {
    /// Consumes the pending reply: the resolved atom id.
    pub fn reply(self, conn: &mut DisplayConnection) -> (r: u32)
        ensures
            r == self.atom,
            final(conn).server == old(conn).server,
            final(conn).events() == old(conn).events().push(EventView::Consumed),
    {
        conn.trace.push(WireEvent::Consumed);
        proof {
            assert(conn.events() =~= old(conn).events().push(EventView::Consumed));
        }
        self.atom
    }
}

} // verus!
