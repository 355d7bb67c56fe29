use vstd::prelude::*;

use crate::protocol::FaultPlan;

verus! {

/// One visual of a screen's visual list, with its color layout.
#[derive(Debug, Clone, Copy, PartialEq, Eq, Structural)]
pub struct VisualTypeInfo {
    pub visual_id: u32,
    pub class: u8,
    pub bits_per_rgb_value: u8,
    pub colormap_entries: u16,
    pub red_mask: u32,
    pub green_mask: u32,
    pub blue_mask: u32,
}

/// Read-only per-screen metadata obtained once at connect time.
#[derive(Debug)]
pub struct ScreenInfo {
    /// The screen's root window id.
    pub root: u32,
    /// The depth of the screen's default visual.
    pub root_depth: u8,
    /// The screen's default visual id.
    pub root_visual: u32,
    /// The screen's reference pixel, used for window borders.
    pub black_pixel: u32,
    /// Every visual the screen supports, over all depths.
    pub visuals: Vec<VisualTypeInfo>,
}

/// The mathematical value of a `ScreenInfo`.
pub struct ScreenView {
    pub root: u32,
    pub root_depth: u8,
    pub root_visual: u32,
    pub black_pixel: u32,
    pub visuals: Seq<VisualTypeInfo>,
}

impl View for ScreenInfo {
    type V = ScreenView;

    open spec fn view(&self) -> ScreenView {
        ScreenView {
            root: self.root,
            root_depth: self.root_depth,
            root_visual: self.root_visual,
            black_pixel: self.black_pixel,
            visuals: self.visuals@,
        }
    }
}

/// The channel layout of a direct-color pixel format.
#[derive(Debug, Clone, Copy, PartialEq, Eq, Structural)]
pub struct DirectFormat {
    pub red_shift: u16,
    pub red_mask: u16,
    pub green_shift: u16,
    pub green_mask: u16,
    pub blue_shift: u16,
    pub blue_mask: u16,
    pub alpha_shift: u16,
    pub alpha_mask: u16,
}

/// One pixel format reported by the rendering extension.
#[derive(Debug, Clone, Copy, PartialEq, Eq, Structural)]
pub struct PictFormatInfo {
    pub id: u32,
    /// The format is direct-color (as opposed to indexed).
    pub is_direct: bool,
    pub depth: u8,
    pub direct: DirectFormat,
}

/// The rendering extension's mapping from one visual to its pixel format.
#[derive(Debug, Clone, Copy, PartialEq, Eq, Structural)]
pub struct PictVisual {
    pub visual: u32,
    pub format: u32,
}

/// What the rendering extension reports: the supported pixel formats, and
/// per screen the visuals with the format each one carries.
#[derive(Debug)]
pub struct PictFormats {
    pub formats: Vec<PictFormatInfo>,
    pub screen_visuals: Vec<Vec<PictVisual>>,
}

/// The mathematical value of a `PictFormats`.
pub struct FormatsView {
    pub formats: Seq<PictFormatInfo>,
    pub screen_visuals: Seq<Seq<PictVisual>>,
}

impl View for PictFormats {
    type V = FormatsView;

    open spec fn view(&self) -> FormatsView {
        FormatsView {
            formats: self.formats@,
            screen_visuals: self.screen_visuals@.map_values(|v: Vec<PictVisual>| v@),
        }
    }
}

/// One interned atom: a name the server has bound to a numeric id.
#[derive(Debug)]
pub struct AtomEntry {
    pub name: String,
    pub id: u32,
}

/// One named selection and the client that owns it; an owner of 0 never
/// stands in the table, it means the selection is unowned.
#[derive(Debug, Clone, Copy, PartialEq, Eq, Structural)]
pub struct SelectionEntry {
    pub selection: u32,
    pub owner: u32,
}

/// The modelled display server: the state a sequential client can observe
/// through the protocol, together with the injected fault plan.
#[derive(Debug)]
pub struct ServerModel {
    pub screens: Vec<ScreenInfo>,
    /// The screen the server connects a client to.
    pub default_screen: usize,
    /// The rendering extension is present.
    pub has_render: bool,
    pub pict_formats: PictFormats,
    /// The atoms interned so far; predefined atoms stand here too.
    pub atoms: Vec<AtomEntry>,
    /// The id the next newly interned atom receives.
    pub next_atom_id: u32,
    pub selections: Vec<SelectionEntry>,
    /// The id the next resource-id allocation returns.
    pub next_resource_id: u32,
    pub fault: FaultPlan,
}

/// The mathematical value of a `ServerModel`: atom entries become
/// name-sequence/id pairs.
#[verifier::ext_equal]
pub struct ServerView {
    pub screens: Seq<ScreenView>,
    pub default_screen: usize,
    pub has_render: bool,
    pub pict_formats: FormatsView,
    pub atoms: Seq<(Seq<char>, u32)>,
    pub next_atom_id: u32,
    pub selections: Seq<SelectionEntry>,
    pub next_resource_id: u32,
    pub fault: FaultPlan,
}

impl View for ServerModel {
    type V = ServerView;

    open spec fn view(&self) -> ServerView {
        ServerView {
            screens: self.screens@.map_values(|s: ScreenInfo| s@),
            default_screen: self.default_screen,
            has_render: self.has_render,
            pict_formats: self.pict_formats@,
            atoms: self.atoms@.map_values(|e: AtomEntry| (e.name@, e.id)),
            next_atom_id: self.next_atom_id,
            selections: self.selections@,
            next_resource_id: self.next_resource_id,
            fault: self.fault,
        }
    }
}

/// The index of the first element of `s` satisfying `p`, if any. Every
/// protocol-visible search of the model is a first-match search in some
/// order, and is stated through this function.
pub open spec fn first_where<A>(s: Seq<A>, p: spec_fn(A) -> bool) -> Option<int>
    decreases s.len(),
{
    if s.len() == 0 {
        None
    } else if p(s[0]) {
        Some(0int)
    } else {
        match first_where(s.drop_first(), p) {
            Some(i) => Some(i + 1),
            None => None,
        }
    }
}

/// While none of the first `i` elements satisfies `p`, the search result
/// lies in the rest of the sequence, shifted by `i`.
pub proof fn lemma_first_where_skip<A>(s: Seq<A>, p: spec_fn(A) -> bool, i: int)
    requires
        0 <= i <= s.len(),
        forall|j: int| 0 <= j < i ==> !p(s[j]),
    ensures
        first_where(s, p) == match first_where(s.skip(i), p) {
            Some(j) => Some(i + j),
            None => None::<int>,
        },
    decreases i,
{
    if i > 0 {
        assert(!p(s[0]));
        assert(forall|j: int| 0 <= j < i - 1 ==> s.drop_first()[j] == s[j + 1] && !p(
            s.drop_first()[j],
        ));
        lemma_first_where_skip(s.drop_first(), p, i - 1);
        assert(s.drop_first().skip(i - 1) =~= s.skip(i));
    } else {
        assert(s.skip(0) =~= s);
    }
}

/// What a `first_where` result means for the elements themselves.
pub proof fn lemma_first_where_props<A>(s: Seq<A>, p: spec_fn(A) -> bool)
    ensures
        match first_where(s, p) {
            Some(i) => 0 <= i < s.len() && p(s[i]) && forall|j: int| 0 <= j < i ==> !p(s[j]),
            None => forall|j: int| 0 <= j < s.len() ==> !p(s[j]),
        },
    decreases s.len(),
{
    if s.len() > 0 && !p(s[0]) {
        lemma_first_where_props(s.drop_first(), p);
        match first_where(s.drop_first(), p) {
            Some(i) => {
                assert(first_where(s, p) == Some(i + 1));
                assert(s.drop_first()[i] == s[i + 1]);
                assert forall|j: int| 0 <= j < i + 1 implies !p(s[j]) by {
                    if j > 0 {
                        assert(s.drop_first()[j - 1] == s[j]);
                    }
                }
            },
            None => {
                assert(first_where(s, p) == None::<int>);
                assert forall|j: int| 0 <= j < s.len() implies !p(s[j]) by {
                    if j > 0 {
                        assert(s.drop_first()[j - 1] == s[j]);
                    }
                }
            },
        }
    }
}

/// The predicate an atom-table search uses: the entry carries `name`.
pub open spec fn atom_named(name: Seq<char>) -> spec_fn((Seq<char>, u32)) -> bool {
    |e: (Seq<char>, u32)| e.0 == name
}

/// The id of the first atom entry carrying `name`, if any.
pub open spec fn find_atom(atoms: Seq<(Seq<char>, u32)>, name: Seq<char>) -> Option<u32> {
    match first_where(atoms, atom_named(name)) {
        Some(i) => Some(atoms[i].1),
        None => None,
    }
}

/// The atom id an intern request for `name` resolves to on server `s`;
/// 0 where it resolves to none (the name is absent and either may not be
/// created or the atom-id space is exhausted).
pub open spec fn intern_result(s: ServerView, only_if_exists: bool, name: Seq<char>) -> u32 {
    match find_atom(s.atoms, name) {
        Some(id) => id,
        None => if only_if_exists || s.next_atom_id == u32::MAX {
            0
        } else {
            s.next_atom_id
        },
    }
}

/// The server after an intern request for `name`: a fresh entry is appended
/// exactly when the request created one.
pub open spec fn intern_transition(s: ServerView, only_if_exists: bool, name: Seq<char>) -> ServerView {
    if find_atom(s.atoms, name) is None && !only_if_exists && s.next_atom_id != u32::MAX {
        ServerView {
            atoms: s.atoms.push((name, s.next_atom_id)),
            next_atom_id: (s.next_atom_id + 1) as u32,
            ..s
        }
    } else {
        s
    }
}

/// The predicate a selection-table search uses: the entry is for `selection`.
pub open spec fn selection_named(selection: u32) -> spec_fn(SelectionEntry) -> bool {
    |e: SelectionEntry| e.selection == selection
}

/// The owner of `selection`, 0 where nobody owns it.
pub open spec fn owner_of(selections: Seq<SelectionEntry>, selection: u32) -> u32 {
    match first_where(selections, selection_named(selection)) {
        Some(i) => selections[i].owner,
        None => 0,
    }
}

/// The selection table after `owner` takes `selection`: the first entry for
/// `selection` is replaced, or a new entry appended.
pub open spec fn set_owner_transition(
    selections: Seq<SelectionEntry>,
    selection: u32,
    owner: u32,
) -> Seq<SelectionEntry> {
    let e = SelectionEntry { selection, owner };
    match first_where(selections, selection_named(selection)) {
        Some(i) => selections.update(i, e),
        None => selections.push(e),
    }
}

/// Registering an owner makes `owner_of` report it at once.
pub proof fn lemma_set_owner_visible(selections: Seq<SelectionEntry>, selection: u32, owner: u32)
    ensures
        owner_of(set_owner_transition(selections, selection, owner), selection) == owner,
{
    let p = selection_named(selection);
    let e = SelectionEntry { selection, owner };
    lemma_first_where_props(selections, p);
    let t = set_owner_transition(selections, selection, owner);
    match first_where(selections, p) {
        Some(i) => {
            assert(forall|j: int| 0 <= j < i ==> t[j] == selections[j] && !p(t[j]));
            lemma_first_where_skip(t, p, i);
            assert(t.skip(i)[0] == e);
            assert(first_where(t.skip(i), p) == Some(0int));
        },
        None => {
            let n = selections.len() as int;
            assert(forall|j: int| 0 <= j < n ==> t[j] == selections[j] && !p(t[j]));
            lemma_first_where_skip(t, p, n);
            assert(t.skip(n)[0] == e);
            assert(first_where(t.skip(n), p) == Some(0int));
        },
    }
}

} // verus!
