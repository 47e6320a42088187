//! A model of the external store: one entry per entity, addressed by its
//! numeric leaf id, exactly as the bridge requests address them.
//!
//! The store answers `create_or_update` by inserting or replacing the whole
//! entry, and `delete` by removing the entry together with everything that
//! hangs below it (the tree is at most map -> marker/polygon -> popup deep,
//! so a cascade follows at most two parent links). Deleting an entity that
//! was never created, or twice, is a no-op — never an error.

use vstd::prelude::*;
use crate::bridge::{BridgeRequest, BridgeRequestView};
use crate::latlng::LatLng;
use crate::map_options::{MapOptions, MapOptionsView};
use crate::map_position::MapPosition;
use crate::marker_icon::{MarkerIcon, MarkerIconView};
use crate::path_options::PathOptions;
use crate::popup_options::{PopupOptions, PopupOptionsView};

verus! {

/// What the store holds for one entity.
#[derive(Debug)]
pub enum StoreEntry {
    MapEntry {
        initial_position: MapPosition,
        options: MapOptions,
        /// Whether a click handler is registered for this map. Dies with
        /// the entry, so deleting the map invalidates the registration.
        click_registered: bool,
    },
    MarkerEntry { map_id: usize, coordinate: LatLng, icon: Option<MarkerIcon> },
    PolygonEntry { map_id: usize, coordinates: Vec<Vec<Vec<LatLng>>>, options: PathOptions },
    PopupEntry { parent_id: usize, options: PopupOptions },
}

/// Mathematical image of a `StoreEntry`.
pub enum StoreEntryView {
    MapEntry {
        initial_position: MapPosition,
        options: MapOptionsView,
        click_registered: bool,
    },
    MarkerEntry { map_id: usize, coordinate: LatLng, icon: Option<MarkerIconView> },
    PolygonEntry { map_id: usize, coordinates: Seq<Seq<Seq<LatLng>>>, options: PathOptions },
    PopupEntry { parent_id: usize, options: PopupOptionsView },
}

impl View for StoreEntry {
    type V = StoreEntryView;

    open spec fn view(&self) -> StoreEntryView {
        match self {
            StoreEntry::MapEntry { initial_position, options, click_registered } =>
                StoreEntryView::MapEntry {
                    initial_position: *initial_position,
                    options: options@,
                    click_registered: *click_registered,
                },
            StoreEntry::MarkerEntry { map_id, coordinate, icon } => StoreEntryView::MarkerEntry {
                map_id: *map_id,
                coordinate: *coordinate,
                icon: icon.deep_view(),
            },
            StoreEntry::PolygonEntry { map_id, coordinates, options } =>
                StoreEntryView::PolygonEntry {
                    map_id: *map_id,
                    coordinates: coordinates.deep_view(),
                    options: *options,
                },
            StoreEntry::PopupEntry { parent_id, options } => StoreEntryView::PopupEntry {
                parent_id: *parent_id,
                options: options@,
            },
        }
    }
}

/// The parent an entry points back to; `None` for a map.
pub open spec fn entry_parent(e: StoreEntryView) -> Option<usize> {
    match e {
        StoreEntryView::MapEntry { .. } => None,
        StoreEntryView::MarkerEntry { map_id, .. } => Some(map_id),
        StoreEntryView::PolygonEntry { map_id, .. } => Some(map_id),
        StoreEntryView::PopupEntry { parent_id, .. } => Some(parent_id),
    }
}

/// Whether deleting `root` sweeps the entity under key `k` away: the
/// entity itself, its children, or its grandchildren through one parent
/// link in the store.
pub open spec fn in_cascade(s: Map<usize, StoreEntryView>, k: usize, root: usize) -> bool {
    ||| k == root
    ||| (s.dom().contains(k) && entry_parent(s[k]) == Some(root))
    ||| (s.dom().contains(k) && (entry_parent(s[k]) matches Some(p) && s.dom().contains(p)
        && entry_parent(s[p]) == Some(root)))
}

/// The store after a create-or-update of a map. The whole descriptor is
/// replaced; an existing click registration survives, since it is not part
/// of the descriptor.
pub open spec fn spec_upsert_map(
    s: Map<usize, StoreEntryView>,
    id: usize,
    initial_position: MapPosition,
    options: MapOptionsView,
) -> Map<usize, StoreEntryView> {
    s.insert(
        id,
        StoreEntryView::MapEntry {
            initial_position,
            options,
            click_registered: s.dom().contains(id) && (s[id] matches StoreEntryView::MapEntry {
                click_registered,
                ..
            } && click_registered),
        },
    )
}

/// The store after a delete of `root`, cascading to everything below it.
pub open spec fn spec_cascade_delete(s: Map<usize, StoreEntryView>, root: usize) -> Map<
    usize,
    StoreEntryView,
> {
    Map::new(|k: usize| s.dom().contains(k) && !in_cascade(s, k, root), |k: usize| s[k])
}

/// The store after one bridge request.
pub open spec fn spec_apply_request(s: Map<usize, StoreEntryView>, req: BridgeRequestView) -> Map<
    usize,
    StoreEntryView,
> {
    match req {
        BridgeRequestView::UpdateMap { id, initial_position, options } => spec_upsert_map(
            s,
            id,
            initial_position,
            options,
        ),
        BridgeRequestView::DeleteMap { id } => spec_cascade_delete(s, id),
        BridgeRequestView::OnMapClick { id } => if s.dom().contains(id) && (s[id]
            matches StoreEntryView::MapEntry { .. }) {
            s.insert(
                id,
                StoreEntryView::MapEntry {
                    initial_position: s[id]->MapEntry_initial_position,
                    options: s[id]->MapEntry_options,
                    click_registered: true,
                },
            )
        } else {
            s
        },
        BridgeRequestView::UpdateMarker { map_id, marker_id, coordinate, icon } => s.insert(
            marker_id,
            StoreEntryView::MarkerEntry { map_id, coordinate, icon },
        ),
        BridgeRequestView::DeleteMarker { marker_id, .. } => spec_cascade_delete(s, marker_id),
        BridgeRequestView::UpdatePolygon { map_id, polygon_id, coordinates, options } => s.insert(
            polygon_id,
            StoreEntryView::PolygonEntry { map_id, coordinates, options },
        ),
        BridgeRequestView::DeletePolygon { polygon_id, .. } => spec_cascade_delete(s, polygon_id),
        BridgeRequestView::UpdatePopup { parent_id, popup_id, options } => s.insert(
            popup_id,
            StoreEntryView::PopupEntry { parent_id, options },
        ),
    }
}

/// Repeating a create-or-update with the same final field values any
/// number of times yields the same store state as issuing it once.
pub proof fn lemma_update_idempotent(s: Map<usize, StoreEntryView>, req: BridgeRequestView)
    requires
        req is UpdateMap || req is UpdateMarker || req is UpdatePolygon || req is UpdatePopup,
    ensures
        spec_apply_request(spec_apply_request(s, req), req) == spec_apply_request(s, req),
{
    let s1 = spec_apply_request(s, req);
    let s2 = spec_apply_request(s1, req);
    assert(s2 =~= s1);
}

/// The store after the same request applied `n` more times.
pub open spec fn spec_apply_repeated(
    s: Map<usize, StoreEntryView>,
    req: BridgeRequestView,
    n: nat,
) -> Map<usize, StoreEntryView>
    decreases n,
{
    if n == 0 {
        s
    } else {
        spec_apply_request(spec_apply_repeated(s, req, (n - 1) as nat), req)
    }
}

/// Issuing a create-or-update with the same final field values any number
/// of times yields the same store state as issuing it once.
pub proof fn lemma_update_idempotent_repeated(
    s: Map<usize, StoreEntryView>,
    req: BridgeRequestView,
    n: nat,
)
    requires
        req is UpdateMap || req is UpdateMarker || req is UpdatePolygon || req is UpdatePopup,
        n >= 1,
    ensures
        spec_apply_repeated(s, req, n) == spec_apply_request(s, req),
    decreases n,
{
    if n == 1 {
        assert(spec_apply_repeated(s, req, 1) == spec_apply_request(
            spec_apply_repeated(s, req, 0),
            req,
        ));
    } else {
        lemma_update_idempotent_repeated(s, req, (n - 1) as nat);
        assert(spec_apply_repeated(s, req, n) == spec_apply_request(
            spec_apply_repeated(s, req, (n - 1) as nat),
            req,
        ));
        lemma_update_idempotent(s, req);
    }
}

/// A delete of an entity the store has no trace of — deleted before any
/// successful create — leaves the store exactly as it was: a no-op, not an
/// error.
pub proof fn lemma_delete_absent_noop(s: Map<usize, StoreEntryView>, root: usize)
    requires
        forall|k: usize| s.dom().contains(k) ==> !in_cascade(s, k, root),
    ensures
        spec_cascade_delete(s, root) == s,
{
    assert(spec_cascade_delete(s, root) =~= s);
}

/// Deleting twice is the same as deleting once: after the first delete
/// nothing in the store still hangs under the deleted entity.
pub proof fn lemma_delete_idempotent(s: Map<usize, StoreEntryView>, root: usize)
    ensures
        spec_cascade_delete(spec_cascade_delete(s, root), root) == spec_cascade_delete(s, root),
{
    let s1 = spec_cascade_delete(s, root);
    assert forall|k: usize| s1.dom().contains(k) implies !in_cascade(s1, k, root) by {
        assert(!in_cascade(s, k, root));
    }
    assert(spec_cascade_delete(s1, root) =~= s1);
}

/// After a delete, the deleted entity is gone from the store.
pub proof fn lemma_delete_removes(s: Map<usize, StoreEntryView>, root: usize)
    ensures
        !spec_cascade_delete(s, root).dom().contains(root),
{
}

/// Whether a store entry holds exactly one field set, with the parent the
/// identifier names.
pub open spec fn entry_reflects_fields(
    e: StoreEntryView,
    id: crate::ids::Id,
    f: crate::lifecycle::EntityFieldsView,
) -> bool {
    match f {
        crate::lifecycle::EntityFieldsView::MapFields { initial_position, options } => e
            matches StoreEntryView::MapEntry {
            initial_position: p,
            options: o,
            ..
        } && p == initial_position && o == options,
        crate::lifecycle::EntityFieldsView::MarkerFields { coordinate, icon } => e
            matches StoreEntryView::MarkerEntry {
            map_id,
            coordinate: c,
            icon: i,
        } && Some(map_id) == id.num_of_parent() && c == coordinate && i == icon,
        crate::lifecycle::EntityFieldsView::PolygonFields { coordinates, options } => e
            matches StoreEntryView::PolygonEntry {
            map_id,
            coordinates: c,
            options: o,
        } && Some(map_id) == id.num_of_parent() && c == coordinates && o == options,
        crate::lifecycle::EntityFieldsView::PopupFields { options } => e
            matches StoreEntryView::PopupEntry {
            parent_id,
            options: o,
        } && Some(parent_id) == id.num_of_parent() && o == options,
    }
}

/// A create-or-update synchronizes the complete snapshot: after applying
/// the update request built for an identifier and its current fields, the
/// store holds exactly those fields under the identifier's number,
/// whatever it held before.
pub proof fn lemma_update_reflects_fields(
    s: Map<usize, StoreEntryView>,
    id: crate::ids::Id,
    f: crate::lifecycle::EntityFieldsView,
)
    requires
        crate::lifecycle::fields_fit(id, f),
    ensures
        ({
            let s1 = spec_apply_request(s, crate::lifecycle::spec_update_request(id, f));
            s1.dom().contains(id.num()) && entry_reflects_fields(s1[id.num()], id, f)
        }),
{
}

impl Clone for StoreEntry {
    /// Clones preserve the entry exactly.
    fn clone(&self) -> (r: Self)
        ensures
            r@ == self@,
    {
        match self {
            StoreEntry::MapEntry { initial_position, options, click_registered } =>
                StoreEntry::MapEntry {
                    initial_position: *initial_position,
                    options: options.clone(),
                    click_registered: *click_registered,
                },
            StoreEntry::MarkerEntry { map_id, coordinate, icon } => StoreEntry::MarkerEntry {
                map_id: *map_id,
                coordinate: *coordinate,
                icon: match icon {
                    Some(ic) => Some(ic.clone()),
                    None => None,
                },
            },
            StoreEntry::PolygonEntry { map_id, coordinates, options } => StoreEntry::PolygonEntry {
                map_id: *map_id,
                coordinates: crate::lifecycle::clone_ring_sets(coordinates),
                options: *options,
            },
            StoreEntry::PopupEntry { parent_id, options } => StoreEntry::PopupEntry {
                parent_id: *parent_id,
                options: options.clone(),
            },
        }
    }
}

/// Whether each key appears at most once in an association list.
pub open spec fn keys_unique(s: Seq<(usize, StoreEntry)>) -> bool {
    forall|i: int, j: int| 0 <= i < j < s.len() ==> s[i].0 != s[j].0
}

/// The association list read as a map.
pub open spec fn entries_to_map(s: Seq<(usize, StoreEntry)>) -> Map<usize, StoreEntryView>
    decreases s.len(),
{
    if s.len() == 0 {
        Map::empty()
    } else {
        entries_to_map(s.drop_last()).insert(s.last().0, s.last().1@)
    }
}

proof fn lemma_etm_dom(s: Seq<(usize, StoreEntry)>, k: usize)
    ensures
        entries_to_map(s).dom().contains(k) <==> (exists|i: int|
            0 <= i < s.len() && s[i].0 == k),
    decreases s.len(),
{
    if s.len() > 0 {
        let sub = s.drop_last();
        lemma_etm_dom(sub, k);
        if s.last().0 == k {
            assert(s[s.len() - 1].0 == k);
        } else {
            if entries_to_map(s).dom().contains(k) {
                let i = choose|i: int| 0 <= i < sub.len() && sub[i].0 == k;
                assert(s[i].0 == k);
            }
            if exists|i: int| 0 <= i < s.len() && s[i].0 == k {
                let i = choose|i: int| 0 <= i < s.len() && s[i].0 == k;
                assert(sub[i].0 == k);
            }
        }
    }
}

proof fn lemma_etm_lookup(s: Seq<(usize, StoreEntry)>, i: int, k: usize)
    requires
        keys_unique(s),
        0 <= i < s.len(),
        s[i].0 == k,
    ensures
        entries_to_map(s).dom().contains(k),
        entries_to_map(s)[k] == s[i].1@,
    decreases s.len(),
{
    let sub = s.drop_last();
    if i == s.len() - 1 {
    } else {
        assert(s[s.len() - 1].0 != k);
        assert(sub[i].0 == k);
        lemma_etm_lookup(sub, i, k);
    }
}

/// Whether `p` is one of the first `bound` entries of `olds` that survives
/// the delete of `root`.
spec fn from_survivors(
    olds: Seq<(usize, StoreEntry)>,
    bound: int,
    m: Map<usize, StoreEntryView>,
    root: usize,
    p: (usize, StoreEntry),
) -> bool {
    exists|x: int|
        0 <= x < bound && (#[trigger] olds[x]).0 == p.0 && olds[x].1@ == p.1@ && !in_cascade(
            m,
            olds[x].0,
            root,
        )
}

/// Whether some entry of `kept` carries the same key and value as `p`.
spec fn holds_entry(kept: Seq<(usize, StoreEntry)>, p: (usize, StoreEntry)) -> bool {
    exists|j: int| 0 <= j < kept.len() && (#[trigger] kept[j]).0 == p.0 && kept[j].1@ == p.1@
}

proof fn lemma_survivor_bound_grows(
    olds: Seq<(usize, StoreEntry)>,
    b1: int,
    b2: int,
    m: Map<usize, StoreEntryView>,
    root: usize,
    p: (usize, StoreEntry),
)
    requires
        from_survivors(olds, b1, m, root, p),
        b1 <= b2,
    ensures
        from_survivors(olds, b2, m, root, p),
{
    let x = choose|x: int|
        0 <= x < b1 && (#[trigger] olds[x]).0 == p.0 && olds[x].1@ == p.1@ && !in_cascade(
            m,
            olds[x].0,
            root,
        );
    assert(0 <= x < b2 && olds[x].0 == p.0 && olds[x].1@ == p.1@ && !in_cascade(m, olds[x].0, root));
}

/// The executable reference store.
#[derive(Debug)]
pub struct EntityStore {
    entries: Vec<(usize, StoreEntry)>,
}

impl View for EntityStore {
    type V = Map<usize, StoreEntryView>;

    closed spec fn view(&self) -> Map<usize, StoreEntryView> {
        entries_to_map(self.entries@)
    }
}

fn find_in(v: &Vec<(usize, StoreEntry)>, key: usize) -> (r: Option<usize>)
    ensures
        match r {
            Some(i) => 0 <= i < v@.len() && v@[i as int].0 == key,
            None => forall|j: int| 0 <= j < v@.len() ==> v@[j].0 != key,
        },
{
    let n = v.len();
    let mut i: usize = 0;
    while i < n
        invariant
            i <= n,
            n == v@.len(),
            forall|j: int| 0 <= j < i ==> v@[j].0 != key,
        decreases n - i,
    {
        if v[i].0 == key {
            return Some(i);
        }
        i = i + 1;
    }
    None
}

fn entry_parent_exec(e: &StoreEntry) -> (r: Option<usize>)
    ensures
        r == entry_parent(e@),
{
    match e {
        StoreEntry::MapEntry { .. } => None,
        StoreEntry::MarkerEntry { map_id, .. } => Some(*map_id),
        StoreEntry::PolygonEntry { map_id, .. } => Some(*map_id),
        StoreEntry::PopupEntry { parent_id, .. } => Some(*parent_id),
    }
}

fn in_cascade_exec(v: &Vec<(usize, StoreEntry)>, i: usize, root: usize) -> (r: bool)
    requires
        keys_unique(v@),
        i < v@.len(),
    ensures
        r == in_cascade(entries_to_map(v@), v@[i as int].0, root),
{
    let ghost m = entries_to_map(v@);
    let key = v[i].0;
    proof {
        lemma_etm_lookup(v@, i as int, key);
    }
    if key == root {
        return true;
    }
    let parent = entry_parent_exec(&v[i].1);
    match parent {
        None => false,
        Some(p) => {
            if p == root {
                return true;
            }
            match find_in(v, p) {
                Some(pi) => {
                    proof {
                        lemma_etm_lookup(v@, pi as int, p);
                    }
                    let grand = entry_parent_exec(&v[pi].1);
                    match grand {
                        Some(g) => g == root,
                        None => false,
                    }
                },
                None => {
                    proof {
                        lemma_etm_dom(v@, p);
                    }
                    false
                },
            }
        },
    }
}

impl EntityStore {
    /// Each key appears at most once.
    pub closed spec fn well_formed(self) -> bool {
        keys_unique(self.entries@)
    }

    /// An empty store.
    pub fn new() -> (r: Self)
        ensures
            r@ == Map::<usize, StoreEntryView>::empty(),
            r.well_formed(),
    {
        EntityStore { entries: Vec::new() }
    }

    /// Looks an entity up by its id.
    pub fn get(&self, key: usize) -> (r: Option<&StoreEntry>)
        requires
            self.well_formed(),
        ensures
            match r {
                Some(e) => self@.dom().contains(key) && self@[key] == e@,
                None => !self@.dom().contains(key),
            },
    {
        match find_in(&self.entries, key) {
            Some(i) => {
                proof {
                    lemma_etm_lookup(self.entries@, i as int, key);
                }
                Some(&self.entries[i].1)
            },
            None => {
                proof {
                    lemma_etm_dom(self.entries@, key);
                }
                None
            },
        }
    }

    fn upsert(&mut self, key: usize, entry: StoreEntry)
        requires
            old(self).well_formed(),
        ensures
            final(self).well_formed(),
            final(self)@ == old(self)@.insert(key, entry@),
    {
        let ghost olds = self.entries@;
        let ghost m = entries_to_map(olds);
        match find_in(&self.entries, key) {
            Some(i) => {
                self.entries[i] = (key, entry);
                proof {
                    let news = self.entries@;
                    assert(news.len() == olds.len());
                    assert(forall|j: int|
                        0 <= j < news.len() ==> news[j].0 == olds[j].0);
                    assert(keys_unique(news));
                    let mn = entries_to_map(news);
                    assert forall|k: usize| mn.dom().contains(k) <==> m.insert(
                        key,
                        entry@,
                    ).dom().contains(k) by {
                        lemma_etm_dom(news, k);
                        lemma_etm_dom(olds, k);
                        if exists|x: int| 0 <= x < olds.len() && olds[x].0 == k {
                            let x = choose|x: int| 0 <= x < olds.len() && olds[x].0 == k;
                            assert(news[x].0 == k);
                        }
                        if exists|x: int| 0 <= x < news.len() && news[x].0 == k {
                            let x = choose|x: int| 0 <= x < news.len() && news[x].0 == k;
                            assert(olds[x].0 == k);
                        }
                    }
                    assert forall|k: usize| #[trigger] mn.dom().contains(k) implies mn[k]
                        == m.insert(key, entry@)[k] by {
                        if k == key {
                            lemma_etm_lookup(news, i as int, k);
                        } else {
                            lemma_etm_dom(news, k);
                            let x = choose|x: int| 0 <= x < news.len() && news[x].0 == k;
                            assert(x != i);
                            assert(olds[x] == news[x]);
                            lemma_etm_lookup(news, x, k);
                            lemma_etm_lookup(olds, x, k);
                        }
                    }
                    assert(mn =~= m.insert(key, entry@));
                }
            },
            None => {
                self.entries.push((key, entry));
                proof {
                    let news = self.entries@;
                    assert(news.drop_last() =~= olds);
                    assert(keys_unique(news));
                    assert(entries_to_map(news) == entries_to_map(news.drop_last()).insert(
                        key,
                        entry@,
                    ));
                }
            },
        }
    }

    fn cascade_delete(&mut self, root: usize)
        requires
            old(self).well_formed(),
        ensures
            final(self).well_formed(),
            final(self)@ == spec_cascade_delete(old(self)@, root),
    {
        let ghost olds = self.entries@;
        let ghost m = entries_to_map(olds);
        let mut kept: Vec<(usize, StoreEntry)> = Vec::new();
        let n = self.entries.len();
        let mut i: usize = 0;
        while i < n
            invariant
                i <= n,
                n == self.entries@.len(),
                self.entries@ == olds,
                keys_unique(olds),
                m == entries_to_map(olds),
                keys_unique(kept@),
                forall|j: int|
                    0 <= j < kept@.len() ==> from_survivors(olds, i as int, m, root, #[trigger] kept@[j]),
                forall|x: int|
                    0 <= x < i && !in_cascade(m, (#[trigger] olds[x]).0, root) ==> holds_entry(
                        kept@,
                        olds[x],
                    ),
            decreases n - i,
        {
            let ghost prev = kept@;
            if !in_cascade_exec(&self.entries, i, root) {
                let k = self.entries[i].0;
                let e = self.entries[i].1.clone();
                proof {
                    if exists|j: int| 0 <= j < kept@.len() && (#[trigger] kept@[j]).0 == k {
                        let j = choose|j: int| 0 <= j < kept@.len() && (#[trigger] kept@[j]).0 == k;
                        assert(from_survivors(olds, i as int, m, root, kept@[j]));
                        let x = choose|x: int|
                            0 <= x < i && (#[trigger] olds[x]).0 == kept@[j].0 && olds[x].1@
                                == kept@[j].1@ && !in_cascade(m, olds[x].0, root);
                        assert(olds[x].0 == olds[i as int].0);
                        assert(false);
                    }
                }
                kept.push((k, e));
                proof {
                    assert(kept@.last().0 == olds[i as int].0);
                    assert(kept@.last().1@ == olds[i as int].1@);
                }
            }
            proof {
                assert forall|j: int| 0 <= j < kept@.len() implies from_survivors(
                    olds,
                    i + 1,
                    m,
                    root,
                    #[trigger] kept@[j],
                ) by {
                    if j < prev.len() {
                        assert(kept@[j] == prev[j]);
                        lemma_survivor_bound_grows(olds, i as int, i + 1, m, root, prev[j]);
                    } else {
                        assert(kept@[j] == kept@.last());
                        assert(0 <= i < i + 1 && olds[i as int].0 == kept@[j].0 && olds[
                            i as int
                        ].1@ == kept@[j].1@ && !in_cascade(m, olds[i as int].0, root));
                    }
                }
                assert forall|x: int|
                    0 <= x < i + 1 && !in_cascade(m, (#[trigger] olds[x]).0, root) implies
                    holds_entry(kept@, olds[x]) by {
                    if x < i {
                        assert(holds_entry(prev, olds[x]));
                        let j = choose|j: int|
                            0 <= j < prev.len() && (#[trigger] prev[j]).0 == olds[x].0 && prev[
                                j
                            ].1@ == olds[x].1@;
                        assert(kept@[j] == prev[j]);
                        assert(0 <= j < kept@.len() && kept@[j].0 == olds[x].0 && kept@[j].1@
                            == olds[x].1@);
                    } else {
                        let j = kept@.len() - 1;
                        assert(0 <= j < kept@.len() && kept@[j].0 == olds[x].0 && kept@[j].1@
                            == olds[x].1@);
                    }
                }
            }
            i = i + 1;
        }
        self.entries = kept;
        proof {
            let news = self.entries@;
            let mn = entries_to_map(news);
            let target = spec_cascade_delete(m, root);
            assert forall|k: usize| mn.dom().contains(k) <==> target.dom().contains(k) by {
                lemma_etm_dom(news, k);
                lemma_etm_dom(olds, k);
                if exists|j: int| 0 <= j < news.len() && news[j].0 == k {
                    let j = choose|j: int| 0 <= j < news.len() && news[j].0 == k;
                    assert(from_survivors(olds, n as int, m, root, news[j]));
                    let x = choose|x: int|
                        0 <= x < n && (#[trigger] olds[x]).0 == news[j].0 && olds[x].1@
                            == news[j].1@ && !in_cascade(m, olds[x].0, root);
                    assert(olds[x].0 == k);
                }
                if target.dom().contains(k) {
                    let x = choose|x: int| 0 <= x < olds.len() && olds[x].0 == k;
                    assert(!in_cascade(m, olds[x].0, root));
                    assert(holds_entry(news, olds[x]));
                }
            }
            assert forall|k: usize| #[trigger] mn.dom().contains(k) implies mn[k] == target[k] by {
                lemma_etm_dom(news, k);
                let j = choose|j: int| 0 <= j < news.len() && news[j].0 == k;
                lemma_etm_lookup(news, j, k);
                assert(from_survivors(olds, n as int, m, root, news[j]));
                let x = choose|x: int|
                    0 <= x < n && (#[trigger] olds[x]).0 == news[j].0 && olds[x].1@ == news[j].1@
                        && !in_cascade(m, olds[x].0, root);
                lemma_etm_lookup(olds, x, k);
            }
            assert(mn =~= target);
        }
    }

    /// Applies one bridge request to the store: create-or-update inserts or
    /// replaces the whole entry, delete removes the entry and everything
    /// below it, and both are no-ops where there is nothing to do. No
    /// request ever fails.
    pub fn apply(&mut self, req: &BridgeRequest)
        requires
            old(self).well_formed(),
        ensures
            final(self).well_formed(),
            final(self)@ == spec_apply_request(old(self)@, req@),
    {
        match req {
            BridgeRequest::UpdateMap { id, initial_position, options } => {
                let click_registered = match self.get(*id) {
                    Some(StoreEntry::MapEntry { click_registered, .. }) => *click_registered,
                    _ => false,
                };
                self.upsert(
                    *id,
                    StoreEntry::MapEntry {
                        initial_position: *initial_position,
                        options: options.clone(),
                        click_registered,
                    },
                );
            },
            BridgeRequest::DeleteMap { id } => {
                self.cascade_delete(*id);
            },
            BridgeRequest::OnMapClick { id } => {
                let existing = match self.get(*id) {
                    Some(StoreEntry::MapEntry { initial_position, options, .. }) => Some((
                        *initial_position,
                        options.clone(),
                    )),
                    _ => None,
                };
                match existing {
                    Some((initial_position, options)) => {
                        self.upsert(
                            *id,
                            StoreEntry::MapEntry {
                                initial_position,
                                options,
                                click_registered: true,
                            },
                        );
                    },
                    None => {},
                }
            },
            BridgeRequest::UpdateMarker { map_id, marker_id, coordinate, icon } => {
                self.upsert(
                    *marker_id,
                    StoreEntry::MarkerEntry {
                        map_id: *map_id,
                        coordinate: *coordinate,
                        icon: match icon {
                            Some(ic) => Some(ic.clone()),
                            None => None,
                        },
                    },
                );
            },
            BridgeRequest::DeleteMarker { marker_id, .. } => {
                self.cascade_delete(*marker_id);
            },
            BridgeRequest::UpdatePolygon { map_id, polygon_id, coordinates, options } => {
                self.upsert(
                    *polygon_id,
                    StoreEntry::PolygonEntry {
                        map_id: *map_id,
                        coordinates: crate::lifecycle::clone_ring_sets(coordinates),
                        options: *options,
                    },
                );
            },
            BridgeRequest::DeletePolygon { polygon_id, .. } => {
                self.cascade_delete(*polygon_id);
            },
            BridgeRequest::UpdatePopup { parent_id, popup_id, options } => {
                self.upsert(
                    *popup_id,
                    StoreEntry::PopupEntry { parent_id: *parent_id, options: options.clone() },
                );
            },
        }
    }
}

} // verus!
