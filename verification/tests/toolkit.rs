use rusty_rsx::connection::DisplayConnection;
use rusty_rsx::errors::{
    AtomResolutionError, ConnectionError, RootError, SurfaceBindError, WindowCreationError,
    WindowError,
};
use rusty_rsx::model::{
    DirectFormat, PictFormatInfo, PictFormats, PictVisual, ScreenInfo, ServerModel, VisualTypeInfo,
};
use rusty_rsx::prepare_window::{
    choose_visual, composite_manager_running, compositor_selection_name, create_atoms,
    create_window, decimal_string, find_xcb_visualtype, window_class, window_title,
};
use rusty_rsx::protocol::{FaultPlan, Request, WireEvent};
use rusty_rsx::root::{Root, WindowToolKit};
use rusty_rsx::size::{Size, Sizeable};
use rusty_rsx::surface::{bind, DrawingSurface};
use rusty_rsx::window::{Element, Window};

fn no_fault() -> FaultPlan {
    FaultPlan { armed: false, countdown: 0 }
}

fn fault_after(n: u64) -> FaultPlan {
    FaultPlan { armed: true, countdown: n }
}

fn default_visual() -> VisualTypeInfo {
    VisualTypeInfo {
        visual_id: 77,
        class: 4,
        bits_per_rgb_value: 8,
        colormap_entries: 256,
        red_mask: 0xff0000,
        green_mask: 0xff00,
        blue_mask: 0xff,
    }
}

/// One screen, depth 24, default visual 77, no rendering extension,
/// no compositor owner.
fn basic_server() -> ServerModel {
    ServerModel {
        screens: vec![ScreenInfo {
            root: 1,
            root_depth: 24,
            root_visual: 77,
            black_pixel: 0,
            visuals: vec![default_visual()],
        }],
        default_screen: 0,
        has_render: false,
        pict_formats: PictFormats { formats: vec![], screen_visuals: vec![] },
        atoms: vec![],
        next_atom_id: 1,
        selections: vec![],
        next_resource_id: 100,
        fault: no_fault(),
    }
}

fn argb32_format(id: u32) -> PictFormatInfo {
    PictFormatInfo {
        id,
        is_direct: true,
        depth: 32,
        direct: DirectFormat {
            red_shift: 16,
            red_mask: 0xff,
            green_shift: 8,
            green_mask: 0xff,
            blue_shift: 0,
            blue_mask: 0xff,
            alpha_shift: 24,
            alpha_mask: 0xff,
        },
    }
}

/// `basic_server` plus the rendering extension with one ARGB32 format
/// (id 42) mapped to visual 88 on the only screen.
fn render_server() -> ServerModel {
    let mut s = basic_server();
    s.has_render = true;
    s.pict_formats = PictFormats {
        formats: vec![argb32_format(42)],
        screen_visuals: vec![vec![PictVisual { visual: 88, format: 42 }]],
    };
    s
}

fn connect(server: ServerModel) -> (DisplayConnection, usize) {
    DisplayConnection::connect(server).expect("mock connect")
}

fn count_map_requests(conn: &DisplayConnection, window: u32) -> usize {
    conn.trace
        .iter()
        .filter(|e| matches!(e, WireEvent::Issued(Request::MapWindow { window: w }) if *w == window))
        .count()
}

fn plain_window(window: u32, children: Vec<Element>, hidden: bool) -> Window {
    Window {
        name: String::from("win"),
        size: Size { width: 300, height: 400 },
        window,
        surface: DrawingSurface { window, visual_id: 77, width: 300, height: 400 },
        children,
        hidden,
        paint_log: vec![],
    }
}

#[test]
fn visual_without_render_extension_uses_screen_default() {
    let (mut conn, screen) = connect(basic_server());
    let before = conn.trace.len();
    let (depth, visual) = choose_visual(&mut conn, screen).expect("choose");
    assert_eq!((depth, visual), (24, 77));
    // no format query was issued: one QueryExtension round trip, nothing else
    assert_eq!(conn.trace.len(), before + 2);
    assert!(!conn
        .trace
        .iter()
        .any(|e| matches!(e, WireEvent::Issued(Request::QueryPictFormats))));
}

#[test]
fn visual_with_single_argb32_format_is_selected() {
    let (mut conn, screen) = connect(render_server());
    let (depth, visual) = choose_visual(&mut conn, screen).expect("choose");
    assert_eq!((depth, visual), (32, 88));
}

#[test]
fn visual_with_no_full_match_falls_back_to_default() {
    let mut server = render_server();
    // right masks but wrong shifts; right shifts but wrong depth
    let mut wrong_shifts = argb32_format(42);
    wrong_shifts.direct.red_shift = 0;
    wrong_shifts.direct.blue_shift = 16;
    let mut wrong_depth = argb32_format(43);
    wrong_depth.depth = 24;
    server.pict_formats.formats = vec![wrong_shifts, wrong_depth];
    let (mut conn, screen) = connect(server);
    let (depth, visual) = choose_visual(&mut conn, screen).expect("choose");
    assert_eq!((depth, visual), (24, 77));
}

#[test]
fn visual_format_without_mapped_visual_falls_back() {
    let mut server = render_server();
    server.pict_formats.screen_visuals = vec![vec![PictVisual { visual: 88, format: 7 }]];
    let (mut conn, screen) = connect(server);
    let (depth, visual) = choose_visual(&mut conn, screen).expect("choose");
    assert_eq!((depth, visual), (24, 77));
}

#[test]
fn atoms_resolve_and_are_pipelined() {
    let (mut conn, _) = connect(basic_server());
    let before = conn.trace.len();
    let atoms = create_atoms(&mut conn).expect("atoms");
    assert_eq!(atoms.wm_protocols, 1);
    assert_eq!(atoms.wm_delete_window, 2);
    assert_eq!(atoms.net_wm_name, 3);
    assert_eq!(atoms.utf8_string, 4);
    let new = &conn.trace[before..];
    assert_eq!(new.len(), 8);
    // all four intern requests go out before the first reply is consumed
    for e in &new[..4] {
        assert!(matches!(e, WireEvent::Issued(Request::InternAtom { .. })));
    }
    for e in &new[4..] {
        assert!(matches!(e, WireEvent::Consumed));
    }
    let names: Vec<&str> = new[..4]
        .iter()
        .map(|e| match e {
            WireEvent::Issued(Request::InternAtom { name, .. }) => name.as_str(),
            _ => unreachable!(),
        })
        .collect();
    assert_eq!(names, vec!["WM_PROTOCOLS", "WM_DELETE_WINDOW", "_NET_WM_NAME", "UTF8_STRING"]);
}

#[test]
fn atoms_resolve_twice_yields_same_ids() {
    let (mut conn, _) = connect(basic_server());
    let first = create_atoms(&mut conn).expect("atoms");
    let again = create_atoms(&mut conn).expect("atoms again");
    assert_eq!(first, again);
    assert_eq!(conn.server.atoms.len(), 4);
}

#[test]
fn atoms_exhausted_id_space_is_unresolved() {
    let mut server = basic_server();
    server.next_atom_id = u32::MAX;
    let (mut conn, _) = connect(server);
    assert_eq!(create_atoms(&mut conn), Err(AtomResolutionError::Unresolved));
}

#[test]
fn atoms_transport_fault_is_reported() {
    let mut server = basic_server();
    server.fault = fault_after(2);
    let (mut conn, _) = connect(server);
    assert_eq!(create_atoms(&mut conn), Err(AtomResolutionError::Transport));
}

#[test]
fn decimal_rendering_is_plain_and_unpadded() {
    assert_eq!(decimal_string(0), "0");
    assert_eq!(decimal_string(7), "7");
    assert_eq!(decimal_string(10), "10");
    assert_eq!(decimal_string(907), "907");
    assert_eq!(compositor_selection_name(0), "_NET_WM_CM_S0");
    assert_eq!(compositor_selection_name(12), "_NET_WM_CM_S12");
}

#[test]
fn compositor_absent_then_present_after_owner_registers() {
    let (mut conn, screen) = connect(basic_server());
    assert_eq!(composite_manager_running(&mut conn, screen), Ok(false));
    // the selection atom was interned by the query; resolve it and register
    // a mock owner for it
    let cookie = conn
        .intern_atom(true, String::from("_NET_WM_CM_S0"))
        .expect("intern");
    let atom = cookie.reply(&mut conn);
    assert_ne!(atom, 0);
    conn.set_selection_owner(atom, 55).expect("set owner");
    assert_eq!(composite_manager_running(&mut conn, screen), Ok(true));
}

#[test]
fn window_creation_issues_the_exact_request_sequence() {
    let (mut conn, screen) = connect(basic_server());
    let atoms = create_atoms(&mut conn).expect("atoms");
    let before = conn.trace.len();
    let wid = create_window(
        &mut conn,
        screen,
        &atoms,
        24,
        77,
        Size { width: 300, height: 400 },
    )
    .expect("create");
    assert_eq!(wid, 100);
    let new = &conn.trace[before..];
    assert_eq!(new.len(), 7);
    assert!(matches!(
        new[0],
        WireEvent::Issued(Request::CreateColormap { mid: 101, window: 1, visual: 77 })
    ));
    match &new[1] {
        WireEvent::Issued(Request::CreateWindow {
            depth,
            wid,
            parent,
            x,
            y,
            width,
            height,
            border_width,
            visual,
            background_pixel,
            border_pixel,
            colormap,
            event_mask,
        }) => {
            assert_eq!(
                (*depth, *wid, *parent, *x, *y, *width, *height),
                (24, 100, 1, 0, 0, 300, 400)
            );
            assert_eq!(*border_width, 10);
            assert_eq!(*visual, 77);
            assert_eq!(*background_pixel, 0);
            assert_eq!(*border_pixel, 0);
            assert_eq!(*colormap, 101);
            assert_eq!(*event_mask, 0x8000 | 0x20000);
        }
        other => panic!("unexpected second request: {:?}", other),
    }
    match &new[2] {
        WireEvent::Issued(Request::ChangeProperty8 { window, property, property_type, data }) => {
            assert_eq!((*window, *property, *property_type), (100, 39, 31));
            assert_eq!(data.as_str(), window_title());
        }
        other => panic!("unexpected request: {:?}", other),
    }
    match &new[3] {
        WireEvent::Issued(Request::ChangeProperty8 { window, property, property_type, data }) => {
            assert_eq!((*window, *property, *property_type), (100, atoms.net_wm_name, atoms.utf8_string));
            assert_eq!(data.as_str(), window_title());
        }
        other => panic!("unexpected request: {:?}", other),
    }
    match &new[4] {
        WireEvent::Issued(Request::ChangeProperty32 { window, property, property_type, data }) => {
            assert_eq!((*window, *property, *property_type), (100, atoms.wm_protocols, 4));
            assert_eq!(data, &vec![atoms.wm_delete_window]);
        }
        other => panic!("unexpected request: {:?}", other),
    }
    match &new[5] {
        WireEvent::Issued(Request::ChangeProperty8 { window, property, property_type, data }) => {
            assert_eq!((*window, *property, *property_type), (100, 67, 31));
            assert_eq!(data.as_str(), window_class());
            assert_eq!(data.matches('\0').count(), 2);
        }
        other => panic!("unexpected request: {:?}", other),
    }
    assert!(matches!(new[6], WireEvent::Issued(Request::MapWindow { window: 100 })));
}

#[test]
fn window_creation_reports_the_failing_step() {
    let cases: Vec<(u64, WindowCreationError)> = vec![
        (0, WindowCreationError::ColormapCreation),
        (1, WindowCreationError::WindowCreation),
        (2, WindowCreationError::PropertyChange),
        (5, WindowCreationError::PropertyChange),
        (6, WindowCreationError::MapRequest),
    ];
    for (skip, expected) in cases {
        let (mut conn, screen) = connect(basic_server());
        let atoms = create_atoms(&mut conn).expect("atoms");
        conn.server.fault = fault_after(skip);
        let r = create_window(&mut conn, screen, &atoms, 24, 77, Size { width: 1, height: 1 });
        assert_eq!(r, Err(expected));
    }
}

#[test]
fn window_creation_fails_on_exhausted_ids() {
    let (mut conn, screen) = connect(basic_server());
    let atoms = create_atoms(&mut conn).expect("atoms");
    conn.server.next_resource_id = u32::MAX;
    let r = create_window(&mut conn, screen, &atoms, 24, 77, Size { width: 1, height: 1 });
    assert_eq!(r, Err(WindowCreationError::IdAllocation));
}

#[test]
fn surface_bind_records_window_and_visual() {
    let (mut conn, _) = connect(basic_server());
    let s = bind(&mut conn, 100, 77, Size { width: 300, height: 400 }).expect("bind");
    assert_eq!(s, DrawingSurface { window: 100, visual_id: 77, width: 300, height: 400 });
}

#[test]
fn surface_bind_fails_on_transport_fault() {
    let mut server = basic_server();
    server.fault = fault_after(1);
    let (mut conn, _) = connect(server);
    assert_eq!(
        bind(&mut conn, 100, 77, Size { width: 1, height: 1 }),
        Err(SurfaceBindError)
    );
}

#[test]
fn find_visualtype_by_id() {
    let (conn, _) = connect(basic_server());
    let v = find_xcb_visualtype(&conn, 77).expect("present");
    assert_eq!(v.visual_id, 77);
    assert_eq!(v.class, 4);
    assert_eq!(v.bits_per_rgb_value, 8);
    assert_eq!(v.colormap_entries, 256);
    assert_eq!((v.red_mask, v.green_mask, v.blue_mask), (0xff0000, 0xff00, 0xff));
    assert!(find_xcb_visualtype(&conn, 99).is_none());
}

#[test]
fn bootstrap_end_to_end_without_render_or_compositor() {
    let root = Root::new(basic_server()).expect("bootstrap");
    assert_eq!(root.depth, 24);
    assert_eq!(root.visual_id, 77);
    assert!(!root.transparency);
    assert_eq!(root.screen_number, 0);
    assert_eq!(root.visual.visual_id, 77);
    assert!(root.children.is_empty());
    let tk = WindowToolKit::from_root(&root);
    assert_eq!(tk.depth, 24);
    assert_eq!(tk.visual_id, 77);
    assert!(!tk.transparency);
}

#[test]
fn bootstrap_sees_compositor_owner() {
    let mut server = basic_server();
    // pre-intern the selection atom and give it an owner
    let (mut conn, _) = connect(server);
    let cookie = conn.intern_atom(false, String::from("_NET_WM_CM_S0")).expect("intern");
    let atom = cookie.reply(&mut conn);
    conn.set_selection_owner(atom, 9).expect("owner");
    server = conn.server;
    server.fault = no_fault();
    let root = Root::new(server).expect("bootstrap");
    assert!(root.transparency);
}

#[test]
fn bootstrap_stage_errors_are_identified() {
    let mut s = basic_server();
    s.fault = fault_after(0);
    assert!(matches!(
        Root::new(s),
        Err(RootError::Connection(ConnectionError::Transport))
    ));

    let mut s = basic_server();
    s.default_screen = 3;
    assert!(matches!(
        Root::new(s),
        Err(RootError::Connection(ConnectionError::NoSuchScreen))
    ));

    let mut s = basic_server();
    s.fault = fault_after(1);
    assert!(matches!(
        Root::new(s),
        Err(RootError::AtomResolution(AtomResolutionError::Transport))
    ));

    let mut s = basic_server();
    s.next_atom_id = u32::MAX;
    assert!(matches!(
        Root::new(s),
        Err(RootError::AtomResolution(AtomResolutionError::Unresolved))
    ));

    let mut s = basic_server();
    s.fault = fault_after(5);
    assert!(matches!(Root::new(s), Err(RootError::VisualQuery(_))));

    let mut s = basic_server();
    s.fault = fault_after(6);
    assert!(matches!(Root::new(s), Err(RootError::CompositorQuery(_))));

    let mut s = basic_server();
    s.screens[0].visuals = vec![];
    assert!(matches!(Root::new(s), Err(RootError::VisualNotFound)));
}

#[test]
fn window_new_composes_window_and_surface() {
    let mut root = Root::new(basic_server()).expect("bootstrap");
    let tk = WindowToolKit::from_root(&root);
    let children = vec![Element::new(1), Element::new(2)];
    let w = Window::new(String::from("main"), (300, 400), &tk, &mut root.conn, children)
        .expect("window");
    assert_eq!(w.window, 100);
    assert_eq!(w.name, "main");
    assert_eq!(w.size, Size { width: 300, height: 400 });
    assert!(!w.hidden);
    assert_eq!(w.children.len(), 2);
    // the surface is bound from the same visual the window was created with
    assert_eq!(w.surface.visual_id, tk.visual_id);
    assert_eq!(w.surface.window, w.window);
    root.push_child(w);
    assert_eq!(root.children.len(), 1);
}

#[test]
fn window_new_reports_surface_binding_failure() {
    let mut root = Root::new(basic_server()).expect("bootstrap");
    let tk = WindowToolKit::from_root(&root);
    root.conn.server.fault = fault_after(7);
    let r = Window::new(String::from("main"), (1, 1), &tk, &mut root.conn, vec![]);
    assert!(matches!(r, Err(WindowError::Binding(SurfaceBindError))));
}

#[test]
fn window_new_reports_creation_failure() {
    let mut root = Root::new(basic_server()).expect("bootstrap");
    let tk = WindowToolKit::from_root(&root);
    root.conn.server.fault = fault_after(0);
    let r = Window::new(String::from("main"), (1, 1), &tk, &mut root.conn, vec![]);
    assert!(matches!(
        r,
        Err(WindowError::Creation(WindowCreationError::ColormapCreation))
    ));
}

#[test]
fn wire_operation_fails_once_when_the_fault_fires() {
    let mut server = basic_server();
    server.fault = fault_after(1);
    let (mut conn, _) = connect(server);
    assert!(conn.map_window(5).is_err());
    // the fault is one-shot: the next operation goes through
    assert!(conn.map_window(5).is_ok());
    assert_eq!(count_map_requests(&conn, 5), 1);
}

#[test]
fn show_twice_issues_exactly_one_map_request() {
    let (mut conn, _) = connect(basic_server());
    let mut w = plain_window(100, vec![], true);
    w.set_visibility(&mut conn, true);
    w.set_visibility(&mut conn, true);
    assert_eq!(count_map_requests(&conn, 100), 1);
    assert!(!w.hidden);
}

#[test]
fn matching_visibility_request_issues_nothing() {
    let (mut conn, _) = connect(basic_server());
    let mut w = plain_window(100, vec![], false);
    let before = conn.trace.len();
    w.set_visibility(&mut conn, true);
    assert_eq!(conn.trace.len(), before);
    w.set_visibility(&mut conn, false);
    assert!(matches!(
        conn.trace.last(),
        Some(WireEvent::Issued(Request::UnmapWindow { window: 100 }))
    ));
    assert!(w.hidden);
}

#[test]
fn render_on_hidden_window_invokes_no_child() {
    let mut w = plain_window(
        100,
        vec![Element::new(10), Element::new(20), Element::new(30)],
        true,
    );
    w.no_surface_render();
    assert!(w.paint_log.is_empty());
    for c in &w.children {
        assert_eq!(c.render_count, 0);
    }
}

#[test]
fn render_invokes_each_child_once_in_declaration_order() {
    let mut w = plain_window(
        100,
        vec![Element::new(10), Element::new(20), Element::new(30)],
        false,
    );
    w.no_surface_render();
    assert_eq!(w.paint_log, vec![10, 20, 30]);
    for c in &w.children {
        assert_eq!(c.render_count, 1);
    }
    w.no_surface_render();
    assert_eq!(w.paint_log, vec![10, 20, 30, 10, 20, 30]);
    for c in &w.children {
        assert_eq!(c.render_count, 2);
    }
}

#[test]
fn render_with_no_children_logs_an_empty_pass() {
    let mut w = plain_window(100, vec![], false);
    w.no_surface_render();
    assert!(w.paint_log.is_empty());
}

#[test]
fn window_creation_accepts_the_largest_size() {
    let (mut conn, screen) = connect(basic_server());
    let atoms = create_atoms(&mut conn).expect("atoms");
    let wid = create_window(
        &mut conn,
        screen,
        &atoms,
        24,
        77,
        Size { width: u16::MAX, height: u16::MAX },
    )
    .expect("create");
    assert!(conn.trace.iter().any(|e| matches!(
        e,
        WireEvent::Issued(Request::CreateWindow { width: u16::MAX, height: u16::MAX, .. })
    )));
    assert_eq!(wid, 100);
}

#[test]
fn find_visualtype_searches_screens_in_order() {
    let mut server = basic_server();
    let mut second = default_visual();
    second.visual_id = 91;
    second.bits_per_rgb_value = 6;
    server.screens.push(ScreenInfo {
        root: 2,
        root_depth: 16,
        root_visual: 91,
        black_pixel: 0,
        visuals: vec![second],
    });
    let (conn, _) = connect(server);
    assert_eq!(find_xcb_visualtype(&conn, 91).expect("second screen").bits_per_rgb_value, 6);
    assert_eq!(find_xcb_visualtype(&conn, 77).expect("first screen").visual_id, 77);
}

#[test]
fn size_construction_and_decomposition() {
    let s: Size<u16> = <Size<u16> as Sizeable>::new(300, 400);
    assert_eq!(s, Size { width: 300, height: 400 });
    let t: Size<u16> = <Size<u16> as Sizeable>::from_tuple((5, 6));
    assert_eq!((t.width, t.height), (5, 6));
    assert_eq!(t.to_tuple(), (&5, &6));
}
