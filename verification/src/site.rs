//! Dashboard layout: the panes shown, one per Kasa device outlet, and the
//! request to reset the plots.

use vstd::prelude::*;
use vstd::string::*;

use crate::strings::same_text;

verus! {

broadcast use vstd::string::group_string_axioms;

/// Identifies a pane: the id of the device outlet it plots.
pub struct PaneId(pub String);

/// A pane of the dashboard.
pub struct Pane {
    id: PaneId,
    alias: String,
}

impl Pane {
    /// A pane for outlet `id`, titled `alias`.
    pub fn new(id: PaneId, alias: String) -> (p: Pane)
        ensures
            p.id()@ == id.0@,
            p.alias()@ == alias@,
    {
        Pane { id, alias }
    }

    /// The outlet the pane plots.
    pub closed spec fn id(&self) -> String {
        self.id.0
    }

    /// The pane's title.
    pub closed spec fn alias(&self) -> String {
        self.alias
    }

    /// The outlet the pane plots.
    pub fn get_id(&self) -> (s: &String)
        ensures
            s@ == self.id()@,
    {
        &self.id.0
    }

    /// The pane's title.
    pub fn get_alias(&self) -> (s: &String)
        ensures
            s@ == self.alias()@,
    {
        &self.alias
    }
}

/// Whether the plots are to be reset.
pub struct TreeBehavior {
    pub reset: bool,
}

impl TreeBehavior {
    /// Asks for the plots to be reset.
    pub fn reset_plot(&mut self)
        ensures
            final(self).reset,
    {
        self.reset = true;
    }
}

/// The ids among `ids`.
pub open spec fn has_id(ids: Seq<Seq<char>>, id: Seq<char>) -> bool {
    exists|i: int| 0 <= i < ids.len() && ids[i] == id
}

/// The panes to add for `devices` (outlet id and alias, in order) when
/// panes for `known` exist: one for each outlet that has none yet, the
/// first time it is listed.
pub open spec fn new_panes(known: Seq<Seq<char>>, devices: Seq<(Seq<char>, Seq<char>)>) -> Seq<(Seq<char>, Seq<char>)>
    decreases devices.len(),
{
    if devices.len() == 0 {
        Seq::empty()
    } else {
        let rest = new_panes(known, devices.drop_last());
        let (id, alias) = devices.last();
        if has_id(known, id) || has_id(rest.map_values(|p: (Seq<char>, Seq<char>)| p.0), id) {
            rest
        } else {
            rest.push((id, alias))
        }
    }
}

/// Panes taken by their texts.
pub open spec fn panes_view(v: Seq<Pane>) -> Seq<(Seq<char>, Seq<char>)> {
    Seq::new(v.len(), |i: int| (v[i].id()@, v[i].alias()@))
}

/// Pane ids taken by their texts.
pub open spec fn ids_view(v: Seq<PaneId>) -> Seq<Seq<char>> {
    Seq::new(v.len(), |i: int| v[i].0@)
}

/// Device lists taken by their texts.
pub open spec fn devices_view(v: Seq<(String, String)>) -> Seq<(Seq<char>, Seq<char>)> {
    Seq::new(v.len(), |i: int| (v[i].0@, v[i].1@))
}

/// Whether some pane id of `ids` is `id`.
fn known_id(ids: &Vec<PaneId>, id: &String) -> (r: bool)
    ensures
        r == has_id(ids_view(ids@), id@),
{
    let mut i: usize = 0;
    while i < ids.len()
        invariant
            i <= ids.len(),
            forall|j: int| 0 <= j < i ==> ids_view(ids@)[j] != id@,
        decreases ids.len() - i,
    {
        if same_text(ids[i].0.as_str(), id.as_str()) {
            assert(ids_view(ids@)[i as int] == id@);
            return true;
        }
        i = i + 1;
    }
    false
}

/// Whether some pane of `panes` plots `id`.
fn has_pane(panes: &Vec<Pane>, id: &String) -> (r: bool)
    ensures
        r == has_id(panes_view(panes@).map_values(|p: (Seq<char>, Seq<char>)| p.0), id@),
{
    let ghost ps = panes_view(panes@).map_values(|p: (Seq<char>, Seq<char>)| p.0);
    let mut i: usize = 0;
    while i < panes.len()
        invariant
            i <= panes.len(),
            ps == panes_view(panes@).map_values(|p: (Seq<char>, Seq<char>)| p.0),
            forall|j: int| 0 <= j < i ==> ps[j] != id@,
        decreases panes.len() - i,
    {
        if same_text(panes[i].id.0.as_str(), id.as_str()) {
            assert(ps[i as int] == id@);
            return true;
        }
        i = i + 1;
    }
    false
}

/// The panes to add for `devices` when panes for `known` exist, as
/// [`new_panes`] says.
pub fn panes_to_add(known: &Vec<PaneId>, devices: &Vec<(String, String)>) -> (r: Vec<Pane>)
    ensures
        panes_view(r@) == new_panes(ids_view(known@), devices_view(devices@)),
{
    let ghost ds = devices_view(devices@);
    let mut r: Vec<Pane> = Vec::new();
    let mut i: usize = 0;
    while i < devices.len()
        invariant
            i <= devices.len(),
            ds == devices_view(devices@),
            panes_view(r@) == new_panes(ids_view(known@), ds.take(i as int)),
        decreases devices.len() - i,
    {
        assert(ds.take(i + 1).drop_last() =~= ds.take(i as int));
        let id = &devices[i].0;
        let alias = &devices[i].1;
        if !known_id(known, id) && !has_pane(&r, id) {
            let ghost before = r@;
            r.push(Pane::new(PaneId(id.clone()), alias.clone()));
            assert(panes_view(r@) =~= panes_view(before).push((id@, alias@)));
        }
        i = i + 1;
    }
    assert(ds.take(devices.len() as int) =~= ds);
    r
}

/// No pane added is for an outlet that already has one, and no two added
/// panes are for the same outlet.
pub proof fn lemma_new_panes_fresh(known: Seq<Seq<char>>, devices: Seq<(Seq<char>, Seq<char>)>)
    ensures
        forall|i: int|
            0 <= i < new_panes(known, devices).len() ==> !has_id(known, #[trigger] new_panes(known, devices)[i].0),
        forall|i: int, j: int|
            0 <= i < j < new_panes(known, devices).len() ==> new_panes(known, devices)[i].0 != new_panes(
                known,
                devices,
            )[j].0,
    decreases devices.len(),
{
    if devices.len() > 0 {
        lemma_new_panes_fresh(known, devices.drop_last());
        let rest = new_panes(known, devices.drop_last());
        let ids = rest.map_values(|p: (Seq<char>, Seq<char>)| p.0);
        let (id, alias) = devices.last();
        if !(has_id(known, id) || has_id(ids, id)) {
            let all = rest.push((id, alias));
            assert(all == new_panes(known, devices));
            assert forall|i: int, j: int| 0 <= i < j < all.len() implies all[i].0 != all[j].0 by {
                if j == all.len() - 1 {
                    assert(ids[i] == all[i].0);
                }
            }
        }
    }
}


/// What loading the dashboard's tiles does: nothing once the Kasa widgets
/// are registered, or while no device is listed; otherwise the panes to add
/// (as [`new_panes`] says) and a widget for each listed outlet, after which
/// the widgets count as registered.
pub open spec fn tile_load(registered: bool, known: Seq<Seq<char>>, devices: Seq<(Seq<char>, Seq<char>)>) -> Option<
    (Seq<(Seq<char>, Seq<char>)>, Seq<Seq<char>>),
> {
    if registered || devices.len() == 0 {
        None
    } else {
        Some((new_panes(known, devices), devices.map_values(|d: (Seq<char>, Seq<char>)| d.0)))
    }
}

/// The panes to add and the outlets to give a widget when the tiles load.
pub struct TileLoad {
    pub panes: Vec<Pane>,
    pub widgets: Vec<PaneId>,
}

/// A tile load taken by its texts.
pub open spec fn tile_load_view(r: Option<TileLoad>) -> Option<(Seq<(Seq<char>, Seq<char>)>, Seq<Seq<char>>)> {
    match r {
        Some(t) => Some((panes_view(t.panes@), ids_view(t.widgets@))),
        None => None,
    }
}

/// Loads the dashboard's tiles, as [`tile_load`] says, and records that the
/// widgets are registered.
pub fn load_tiles(registered: &mut bool, known: &Vec<PaneId>, devices: &Vec<(String, String)>) -> (r: Option<TileLoad>)
    ensures
        tile_load_view(r) == tile_load(*old(registered), ids_view(known@), devices_view(devices@)),
        *final(registered) == (*old(registered) || devices@.len() > 0),
{
    if *registered || devices.len() == 0 {
        return None;
    }
    let ghost ds = devices_view(devices@);
    let panes = panes_to_add(known, devices);
    let mut widgets: Vec<PaneId> = Vec::new();
    let mut i: usize = 0;
    while i < devices.len()
        invariant
            i <= devices.len(),
            ds == devices_view(devices@),
            ids_view(widgets@) == ds.map_values(|d: (Seq<char>, Seq<char>)| d.0).take(i as int),
        decreases devices.len() - i,
    {
        let ghost before = ids_view(widgets@);
        widgets.push(PaneId(devices[i].0.clone()));
        assert(ids_view(widgets@) =~= before.push(ds[i as int].0));
        assert(ds.map_values(|d: (Seq<char>, Seq<char>)| d.0).take(i + 1) =~= ds.map_values(
            |d: (Seq<char>, Seq<char>)| d.0,
        ).take(i as int).push(ds[i as int].0));
        i = i + 1;
    }
    assert(ds.map_values(|d: (Seq<char>, Seq<char>)| d.0).take(i as int) =~= ds.map_values(
        |d: (Seq<char>, Seq<char>)| d.0,
    ));
    *registered = true;
    Some(TileLoad { panes, widgets })
}

/// The tiles load once: after a load that registered the widgets, loading
/// again does nothing, whatever is then listed.
pub proof fn lemma_tiles_load_once(
    registered: bool,
    known: Seq<Seq<char>>,
    devices: Seq<(Seq<char>, Seq<char>)>,
    later_known: Seq<Seq<char>>,
    later_devices: Seq<(Seq<char>, Seq<char>)>,
)
    requires
        tile_load(registered, known, devices) is Some,
    ensures
        tile_load(registered || devices.len() > 0, later_known, later_devices) is None,
{
}

} // verus!
