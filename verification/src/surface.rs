use vstd::prelude::*;

use crate::connection::{op_failed, op_passed, DisplayConnection};
use crate::errors::SurfaceBindError;
use crate::protocol::{fault_fires, EventView, ReqView, Request};
use crate::size::Size;

verus! {

/// A drawable surface bound to one window. Its visual always equals the
/// window's creation visual: both are derived from the same selected
/// descriptor and never re-selected independently, so the invariant holds
/// by construction, without a runtime check.
#[derive(Debug, Clone, Copy, PartialEq, Eq, Structural)]
pub struct DrawingSurface {
    pub window: u32,
    pub visual_id: u32,
    pub width: u16,
    pub height: u16,
}

/// Binds a drawable surface to `window` using `visual_id`. One wire
/// operation; fails only on the transport.
pub fn bind(conn: &mut DisplayConnection, window: u32, visual_id: u32, size: Size<u16>) -> (r:
    Result<DrawingSurface, SurfaceBindError>)
    ensures
        r is Err <==> fault_fires(old(conn).server@.fault),
        match r {
            Err(_) => op_failed(old(conn).server@, final(conn).server@) && final(conn).events()
                == old(conn).events(),
            Ok(s) => {
                &&& s == (DrawingSurface {
                    window,
                    visual_id,
                    width: size.width,
                    height: size.height,
                })
                &&& op_passed(old(conn).server@, final(conn).server@)
                &&& final(conn).events() == old(conn).events().push(
                    EventView::Issued(
                        ReqView::BindSurface {
                            window,
                            visual: visual_id,
                            width: size.width,
                            height: size.height,
                        },
                    ),
                )
            },
        },
{
    match conn.void_request(
        Request::BindSurface { window, visual: visual_id, width: size.width, height: size.height },
    ) {
        Ok(_) => Ok(
            DrawingSurface { window, visual_id, width: size.width, height: size.height },
        ),
        Err(_) => Err(SurfaceBindError),
    }
}

} // verus!
