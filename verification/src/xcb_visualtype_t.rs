use vstd::prelude::*;

use crate::model::VisualTypeInfo;

verus! {

/// One visual in the shape a foreign drawing library consumes: the fields of
/// the wire-level visual record, as plain values.
#[allow(non_camel_case_types)]
#[derive(Debug, Clone, Copy, PartialEq, Eq, Structural)]
pub struct xcb_visualtype_t {
    pub visual_id: u32,
    pub class: u8,
    pub bits_per_rgb_value: u8,
    pub colormap_entries: u16,
    pub red_mask: u32,
    pub green_mask: u32,
    pub blue_mask: u32,
}

/// The conversion of one screen visual into its foreign shape.
pub open spec fn visualtype_of(value: VisualTypeInfo) -> xcb_visualtype_t {
    xcb_visualtype_t {
        visual_id: value.visual_id,
        class: value.class,
        bits_per_rgb_value: value.bits_per_rgb_value,
        colormap_entries: value.colormap_entries,
        red_mask: value.red_mask,
        green_mask: value.green_mask,
        blue_mask: value.blue_mask,
    }
}

impl From<VisualTypeInfo> for xcb_visualtype_t {
    fn from(value: VisualTypeInfo) -> (r: xcb_visualtype_t) {
        xcb_visualtype_t {
            visual_id: value.visual_id,
            class: value.class,
            bits_per_rgb_value: value.bits_per_rgb_value,
            colormap_entries: value.colormap_entries,
            red_mask: value.red_mask,
            green_mask: value.green_mask,
            blue_mask: value.blue_mask,
        }
    }
}

impl vstd::std_specs::convert::FromSpecImpl<VisualTypeInfo> for xcb_visualtype_t {
    open spec fn obeys_from_spec() -> bool {
        true
    }

    open spec fn from_spec(value: VisualTypeInfo) -> Self {
        visualtype_of(value)
    }
}

} // verus!
