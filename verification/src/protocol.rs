use vstd::prelude::*;

verus! {

/// A request written to the display server, as the connection model records it.
#[derive(Debug)]
pub enum Request {
    InternAtom { only_if_exists: bool, name: String },
    GetSelectionOwner { selection: u32 },
    SetSelectionOwner { selection: u32, owner: u32 },
    QueryExtension { name: String },
    QueryPictFormats,
    CreateColormap { mid: u32, window: u32, visual: u32 },
    CreateWindow {
        depth: u8,
        wid: u32,
        parent: u32,
        x: i16,
        y: i16,
        width: u16,
        height: u16,
        border_width: u16,
        visual: u32,
        background_pixel: u32,
        border_pixel: u32,
        colormap: u32,
        event_mask: u32,
    },
    ChangeProperty8 { window: u32, property: u32, property_type: u32, data: String },
    ChangeProperty32 { window: u32, property: u32, property_type: u32, data: Vec<u32> },
    MapWindow { window: u32 },
    UnmapWindow { window: u32 },
    BindSurface { window: u32, visual: u32, width: u16, height: u16 },
}

/// The mathematical value of a `Request`: text payloads become `Seq<char>`,
/// list payloads become `Seq<u32>`.
pub enum ReqView {
    InternAtom { only_if_exists: bool, name: Seq<char> },
    GetSelectionOwner { selection: u32 },
    SetSelectionOwner { selection: u32, owner: u32 },
    QueryExtension { name: Seq<char> },
    QueryPictFormats,
    CreateColormap { mid: u32, window: u32, visual: u32 },
    CreateWindow {
        depth: u8,
        wid: u32,
        parent: u32,
        x: i16,
        y: i16,
        width: u16,
        height: u16,
        border_width: u16,
        visual: u32,
        background_pixel: u32,
        border_pixel: u32,
        colormap: u32,
        event_mask: u32,
    },
    ChangeProperty8 { window: u32, property: u32, property_type: u32, data: Seq<char> },
    ChangeProperty32 { window: u32, property: u32, property_type: u32, data: Seq<u32> },
    MapWindow { window: u32 },
    UnmapWindow { window: u32 },
    BindSurface { window: u32, visual: u32, width: u16, height: u16 },
}

impl View for Request {
    type V = ReqView;

    open spec fn view(&self) -> ReqView {
        match self {
            Request::InternAtom { only_if_exists, name } => (ReqView::InternAtom {
                only_if_exists: *only_if_exists,
                name: name@,
            }),
            Request::GetSelectionOwner { selection } => (ReqView::GetSelectionOwner {
                selection: *selection,
            }),
            Request::SetSelectionOwner { selection, owner } => (ReqView::SetSelectionOwner {
                selection: *selection,
                owner: *owner,
            }),
            Request::QueryExtension { name } => (ReqView::QueryExtension { name: name@ }),
            Request::QueryPictFormats => ReqView::QueryPictFormats,
            Request::CreateColormap { mid, window, visual } => (ReqView::CreateColormap {
                mid: *mid,
                window: *window,
                visual: *visual,
            }),
            Request::CreateWindow {
                depth,
                wid,
                parent,
                x,
                y,
                width,
                height,
                border_width,
                visual,
                background_pixel,
                border_pixel,
                colormap,
                event_mask,
            } => (ReqView::CreateWindow {
                depth: *depth,
                wid: *wid,
                parent: *parent,
                x: *x,
                y: *y,
                width: *width,
                height: *height,
                border_width: *border_width,
                visual: *visual,
                background_pixel: *background_pixel,
                border_pixel: *border_pixel,
                colormap: *colormap,
                event_mask: *event_mask,
            }),
            Request::ChangeProperty8 { window, property, property_type, data } => (
            ReqView::ChangeProperty8 {
                window: *window,
                property: *property,
                property_type: *property_type,
                data: data@,
            }),
            Request::ChangeProperty32 { window, property, property_type, data } => (
            ReqView::ChangeProperty32 {
                window: *window,
                property: *property,
                property_type: *property_type,
                data: data@,
            }),
            Request::MapWindow { window } => (ReqView::MapWindow { window: *window }),
            Request::UnmapWindow { window } => (ReqView::UnmapWindow { window: *window }),
            Request::BindSurface { window, visual, width, height } => (ReqView::BindSurface {
                window: *window,
                visual: *visual,
                width: *width,
                height: *height,
            }),
        }
    }
}

/// One step on the wire: a request issued, or one pending reply consumed.
/// The protocol is request-pipelined and reply-ordered, so the order of
/// these steps is exactly what pipelining properties speak of.
#[derive(Debug)]
pub enum WireEvent {
    Issued(Request),
    Consumed,
}

/// The mathematical value of a `WireEvent`.
pub enum EventView {
    Issued(ReqView),
    Consumed,
}

impl View for WireEvent {
    type V = EventView;

    open spec fn view(&self) -> EventView {
        match self {
            WireEvent::Issued(r) => EventView::Issued(r@),
            WireEvent::Consumed => EventView::Consumed,
        }
    }
}

/// An injected transport failure, the one way an operation on the modelled
/// connection can fail: when armed, the operation attempted after
/// `countdown` further successful operations fails. A plan that is not
/// armed never fails anything.
#[derive(Debug, Clone, Copy, PartialEq, Eq, Structural)]
pub struct FaultPlan {
    pub armed: bool,
    pub countdown: u64,
}

/// The plan makes the next operation fail.
pub open spec fn fault_fires(f: FaultPlan) -> bool {
    f.armed && f.countdown == 0
}

/// The plan after its failure fired: disarmed, so a fault is one-shot.
pub open spec fn fault_fired(f: FaultPlan) -> FaultPlan {
    FaultPlan { armed: false, countdown: 0 }
}

/// The plan after one successful operation.
pub open spec fn fault_passed(f: FaultPlan) -> FaultPlan {
    if f.armed {
        FaultPlan { armed: true, countdown: (f.countdown - 1) as u64 }
    } else {
        f
    }
}

/// The plan after `n` successful operations in a row.
pub open spec fn fault_passed_n(f: FaultPlan, n: nat) -> FaultPlan {
    if f.armed {
        FaultPlan { armed: true, countdown: (f.countdown - n) as u64 }
    } else {
        f
    }
}

/// The plan lets the next `n` operations all succeed.
pub open spec fn fault_allows(f: FaultPlan, n: nat) -> bool {
    !f.armed || f.countdown >= n
}

impl FaultPlan {
    /// A plan that never fails anything.
    pub fn none() -> (r: FaultPlan)
        ensures
            r == (FaultPlan { armed: false, countdown: 0 }),
    {
        FaultPlan { armed: false, countdown: 0 }
    }

    /// A plan whose failure fires on the operation after `n` successful ones.
    pub fn after(n: u64) -> (r: FaultPlan)
        ensures
            r == (FaultPlan { armed: true, countdown: n }),
    {
        FaultPlan { armed: true, countdown: n }
    }

    /// Spends one operation on the plan: reports whether the operation
    /// succeeds and steps the plan accordingly.
    pub fn tick(&mut self) -> (ok: bool)
        ensures
            ok == !fault_fires(*old(self)),
            *final(self) == if fault_fires(*old(self)) {
                fault_fired(*old(self))
            } else {
                fault_passed(*old(self))
            },
    {
        if self.armed && self.countdown == 0 {
            self.armed = false;
            false
        } else {
            if self.armed {
                self.countdown = self.countdown - 1;
            }
            true
        }
    }
}

} // verus!
