//! The state that the debug menu keeps between frames.
use crate::assoc::{assoc_view, has_key, keys_unique, lemma_assoc_view_dom, lemma_assoc_view_len, lemma_assoc_view_push, lemma_assoc_view_remove, lemma_assoc_view_value};
use crate::type_ids::same_type_id;
use crate::TypeIdNameCache;
use core::any::TypeId;
use vstd::prelude::*;
use vstd::string::StringExecFns;

verus! {

/// Whether the filter box should take the keyboard focus on the next frame.
pub struct FocusOnDebugFilter(pub bool);

impl Default for FocusOnDebugFilter {
    fn default() -> (r: Self)
        ensures
            !r.0,
    {
        FocusOnDebugFilter(false)
    }
}

impl FocusOnDebugFilter {
    /// Reads the focus request and withdraws it: the filter box takes the focus
    /// once per request.
    pub fn take_request(&mut self) -> (requested: bool)
        ensures
            requested == old(self).0,
            !final(self).0,
    {
        let requested = self.0;
        self.0 = false;
        requested
    }
}

/// What the components are filtered by.
pub enum FilterKind {
    Crate(String),
    Name(String),
}

impl FilterKind {
    /// The text the menu shows for the filter.
    pub fn label(&self) -> (r: String)
        ensures
            match self {
                FilterKind::Crate(name) => r@ == "In crate: "@ + name@,
                FilterKind::Name(name) => r@ == "has component: "@ + name@,
            },
    {
        match self {
            FilterKind::Crate(name) => {
                let mut r = "In crate: ".to_owned();
                r.append(name.as_str());
                r
            },
            FilterKind::Name(name) => {
                let mut r = "has component: ".to_owned();
                r.append(name.as_str());
                r
            },
        }
    }
}

/// The state that switches every registered debug flag on or off.
#[derive(Debug, Clone, Copy, PartialEq, Eq, Structural, Hash)]
pub enum DebugModeFlagToggle {
    On,
    Off,
}

impl Default for DebugModeFlagToggle {
    fn default() -> (r: Self)
        ensures
            r == DebugModeFlagToggle::Off,
    {
        DebugModeFlagToggle::Off
    }
}

impl DebugModeFlagToggle {
    /// How the toggle shows as a checkbox: ticked when `On`.
    pub fn is_checked(&self) -> (r: bool)
        ensures
            r == (*self == DebugModeFlagToggle::On),
    {
        match self {
            DebugModeFlagToggle::On => true,
            DebugModeFlagToggle::Off => false,
        }
    }

    /// The state a checkbox asks for: `On` when ticked.
    pub fn from_checked(checked: bool) -> (r: Self)
        ensures
            r == (if checked { DebugModeFlagToggle::On } else { DebugModeFlagToggle::Off }),
    {
        if checked {
            DebugModeFlagToggle::On
        } else {
            DebugModeFlagToggle::Off
        }
    }
}

/// Turns on the resources of debug mode.
pub struct DebugMenuToggle(pub bool);

impl Default for DebugMenuToggle {
    fn default() -> (r: Self)
        ensures
            !r.0,
    {
        DebugMenuToggle(false)
    }
}

/// The view that the debug menu shows.
#[derive(Debug, Clone, Copy, PartialEq, Eq, Structural, Hash)]
pub enum DebugWidgetView {
    EntitiesView,
    ComponentsView,
}

impl Default for DebugWidgetView {
    fn default() -> (r: Self)
        ensures
            r == DebugWidgetView::ComponentsView,
    {
        DebugWidgetView::ComponentsView
    }
}

/// The view after the next one is chosen.
pub open spec fn cycled_view(v: DebugWidgetView) -> DebugWidgetView {
    match v {
        DebugWidgetView::EntitiesView => DebugWidgetView::ComponentsView,
        DebugWidgetView::ComponentsView => DebugWidgetView::EntitiesView,
    }
}

impl DebugWidgetView {
    /// Every view, in declaration order.
    pub fn all() -> (r: Vec<Self>)
        ensures
            r@ == seq![DebugWidgetView::EntitiesView, DebugWidgetView::ComponentsView],
    {
        vec![DebugWidgetView::EntitiesView, DebugWidgetView::ComponentsView]
    }

    /// The view's name, as its button shows it.
    pub fn label(&self) -> (r: String)
        ensures
            match self {
                DebugWidgetView::EntitiesView => r@ == "EntitiesView"@,
                DebugWidgetView::ComponentsView => r@ == "ComponentsView"@,
            },
    {
        match self {
            DebugWidgetView::EntitiesView => "EntitiesView".to_owned(),
            DebugWidgetView::ComponentsView => "ComponentsView".to_owned(),
        }
    }

    /// The next view in the cycle.
    pub fn cycled(&self) -> (r: Self)
        ensures
            r == cycled_view(*self),
    {
        match self {
            DebugWidgetView::EntitiesView => DebugWidgetView::ComponentsView,
            DebugWidgetView::ComponentsView => DebugWidgetView::EntitiesView,
        }
    }

    /// Whether the view is the one with the type catalog and its filter.
    pub fn shows_catalog(&self) -> (r: bool)
        ensures
            r == (*self == DebugWidgetView::ComponentsView),
    {
        match self {
            DebugWidgetView::EntitiesView => false,
            DebugWidgetView::ComponentsView => true,
        }
    }
}

/// The key of a selection entry: the identity of the type it names.
pub open spec fn entry_key() -> spec_fn(TypeIdNameCache) -> TypeId {
    |e: TypeIdNameCache| e.type_id_view()
}

/// The value of a selection entry: the entry itself.
pub open spec fn entry_value() -> spec_fn(TypeIdNameCache) -> TypeIdNameCache {
    |e: TypeIdNameCache| e
}

/// The selected types, each keyed by its identity.
pub struct TypeSelection {
    entries: Vec<TypeIdNameCache>,
}

impl View for TypeSelection {
    type V = Map<TypeId, TypeIdNameCache>;

    closed spec fn view(&self) -> Map<TypeId, TypeIdNameCache> {
        assoc_view(self.entries@, entry_key(), entry_value())
    }
}

/// The selection after a click on the entry for a type: without the multi-select
/// key, a click on a selected type clears the selection and a click on another
/// type selects it alone; with it, the click adds or removes that type.
pub open spec fn clicked_selection(
    sel: Map<TypeId, TypeIdNameCache>,
    entry: TypeIdNameCache,
    multi_select: bool,
) -> Map<TypeId, TypeIdNameCache> {
    let id = entry.type_id_view();
    if sel.dom().contains(id) {
        if multi_select {
            sel.remove(id)
        } else {
            Map::empty()
        }
    } else {
        if multi_select {
            sel.insert(id, entry)
        } else {
            Map::empty().insert(id, entry)
        }
    }
}

/// `list` holds exactly the entries of `sel` whose type satisfies `keep`, each once.
pub open spec fn lists_entries(
    list: Seq<TypeIdNameCache>,
    sel: Map<TypeId, TypeIdNameCache>,
    keep: spec_fn(TypeId) -> bool,
) -> bool {
    &&& keys_unique(list, entry_key())
    &&& forall|k: int|
        0 <= k < list.len() ==> {
            let id = #[trigger] list[k].type_id_view();
            &&& sel.dom().contains(id)
            &&& sel[id] == list[k]
            &&& keep(id)
        }
    &&& forall|id: TypeId|
        sel.dom().contains(id) && keep(id) ==> has_key(list, entry_key(), id)
}

impl TypeSelection {
    /// No type is held twice.
    pub closed spec fn wf(&self) -> bool {
        keys_unique(self.entries@, entry_key())
    }

    /// The empty selection.
    pub fn new() -> (s: Self)
        ensures
            s.wf(),
            s@ == Map::<TypeId, TypeIdNameCache>::empty(),
    {
        TypeSelection { entries: Vec::new() }
    }

    fn position_of(&self, id: &TypeId) -> (r: Option<usize>)
        ensures
            match r {
                Some(i) => i < self.entries.len() && self.entries@[i as int].type_id_view() == *id,
                None => !has_key(self.entries@, entry_key(), *id),
            },
    {
        let mut i: usize = 0;
        while i < self.entries.len()
            invariant
                i <= self.entries.len(),
                forall|j: int| 0 <= j < i ==> self.entries@[j].type_id_view() != *id,
            decreases self.entries.len() - i,
        {
            if same_type_id(&self.entries[i].type_id, id) {
                return Some(i);
            }
            i += 1;
        }
        None
    }

    /// Whether the type is selected.
    pub fn contains_type(&self, id: &TypeId) -> (r: bool)
        ensures
            r == self@.dom().contains(*id),
    {
        proof {
            lemma_assoc_view_dom(self.entries@, entry_key(), entry_value(), *id);
        }
        self.position_of(id).is_some()
    }

    /// Selects a type that is not selected yet.
    pub fn insert_new(&mut self, entry: TypeIdNameCache)
        requires
            old(self).wf(),
            !old(self)@.dom().contains(entry.type_id_view()),
        ensures
            final(self).wf(),
            final(self)@ == old(self)@.insert(entry.type_id_view(), entry),
    {
        proof {
            lemma_assoc_view_dom(self.entries@, entry_key(), entry_value(), entry.type_id_view());
            lemma_assoc_view_push(self.entries@, entry_key(), entry_value(), entry);
        }
        self.entries.push(entry);
    }

    /// Deselects a type.
    pub fn remove_type(&mut self, id: &TypeId)
        requires
            old(self).wf(),
        ensures
            final(self).wf(),
            final(self)@ == old(self)@.remove(*id),
    {
        match self.position_of(id) {
            Some(i) => {
                proof {
                    lemma_assoc_view_remove(self.entries@, entry_key(), entry_value(), i as int);
                }
                self.entries.remove(i);
            },
            None => {
                proof {
                    lemma_assoc_view_dom(self.entries@, entry_key(), entry_value(), *id);
                    assert(self@ =~= self@.remove(*id));
                }
            },
        }
    }

    /// Deselects every type.
    pub fn clear(&mut self)
        ensures
            final(self).wf(),
            final(self)@ == Map::<TypeId, TypeIdNameCache>::empty(),
    {
        self.entries.clear();
    }

    /// How many types are selected.
    pub fn len(&self) -> (n: usize)
        requires
            self.wf(),
        ensures
            n == self@.dom().len(),
    {
        proof {
            lemma_assoc_view_len(self.entries@, entry_key(), entry_value());
        }
        self.entries.len()
    }

    /// The selected entries, each once.
    pub fn entries(&self) -> (r: &Vec<TypeIdNameCache>)
        requires
            self.wf(),
        ensures
            lists_entries(r@, self@, |id: TypeId| true),
    {
        proof {
            assert forall|k: int| 0 <= k < self.entries@.len() implies ({
                let id = #[trigger] self.entries@[k].type_id_view();
                &&& self@.dom().contains(id)
                &&& self@[id] == self.entries@[k]
            }) by {
                lemma_assoc_view_value(self.entries@, entry_key(), entry_value(), k);
            }
            assert forall|id: TypeId| self@.dom().contains(id) implies has_key(
                self.entries@,
                entry_key(),
                id,
            ) by {
                lemma_assoc_view_dom(self.entries@, entry_key(), entry_value(), id);
            }
        }
        &self.entries
    }

    /// The click on a type's entry in the menu's catalog.
    pub fn click(&mut self, entry: TypeIdNameCache, multi_select: bool)
        requires
            old(self).wf(),
        ensures
            final(self).wf(),
            final(self)@ == clicked_selection(old(self)@, entry, multi_select),
    {
        let id = entry.type_id;
        if self.contains_type(&id) {
            if !multi_select {
                self.clear();
            } else {
                self.remove_type(&id);
            }
        } else {
            if !multi_select {
                self.clear();
            }
            self.insert_new(entry);
        }
    }

    /// The selected entries whose type is among `catalog`.
    #[verifier::spinoff_prover]
    pub fn selected_within(&self, catalog: &Vec<TypeId>) -> (r: Vec<TypeIdNameCache>)
        requires
            self.wf(),
        ensures
            lists_entries(r@, self@, |id: TypeId| catalog@.contains(id)),
    {
        let mut r: Vec<TypeIdNameCache> = Vec::new();
        // the position in `entries` that each listed entry comes from
        let ghost mut src: Seq<int> = Seq::empty();
        let mut i: usize = 0;
        while i < self.entries.len()
            invariant
                self.wf(),
                i <= self.entries.len(),
                r.len() == src.len(),
                forall|k: int|
                    0 <= k < r.len() ==> {
                        &&& 0 <= #[trigger] src[k] < i
                        &&& r@[k] == self.entries@[src[k]]
                        &&& catalog@.contains(r@[k].type_id_view())
                    },
                forall|a: int, b: int| 0 <= a < b < r.len() ==> #[trigger] src[a] < #[trigger] src[b],
                forall|j: int|
                    0 <= j < i && catalog@.contains(#[trigger] self.entries@[j].type_id_view())
                        ==> has_key(r@, entry_key(), self.entries@[j].type_id_view()),
            decreases self.entries.len() - i,
        {
            if catalog_contains(catalog, &self.entries[i].type_id) {
                let ghost before = r@;
                let ghost before_src = src;
                let e = self.entries[i].clone();
                r.push(e);
                proof {
                    src = src.push(i as int);
                    assert forall|k: int| 0 <= k < r.len() implies {
                        &&& 0 <= #[trigger] src[k] < i + 1
                        &&& r@[k] == self.entries@[src[k]]
                        &&& catalog@.contains(r@[k].type_id_view())
                    } by {
                        if k < before.len() {
                            assert(r@[k] == before[k]);
                            assert(src[k] == before_src[k]);
                        }
                    }
                    assert forall|a: int, b: int| 0 <= a < b < r.len() implies #[trigger] src[a]
                        < #[trigger] src[b] by {
                        assert(src[a] == before_src[a]);
                        if b < before.len() {
                            assert(src[b] == before_src[b]);
                        }
                    }
                    assert forall|j: int|
                        0 <= j < i + 1 && catalog@.contains(
                            #[trigger] self.entries@[j].type_id_view(),
                        ) implies has_key(r@, entry_key(), self.entries@[j].type_id_view()) by {
                        if j < i {
                            let k = choose|k: int|
                                0 <= k < before.len() && before[k].type_id_view()
                                    == self.entries@[j].type_id_view();
                            assert(r@[k] == before[k]);
                        } else {
                            assert(r@[before.len() as int].type_id_view()
                                == self.entries@[j].type_id_view());
                        }
                    }
                }
            }
            i += 1;
        }
        proof {
            assert forall|a: int, b: int|
                0 <= a < r@.len() && 0 <= b < r@.len() && a != b implies r@[a].type_id_view()
                != r@[b].type_id_view() by {
                if a < b {
                    assert(src[a] < src[b]);
                } else {
                    assert(src[b] < src[a]);
                }
            }
            assert forall|k: int| 0 <= k < r@.len() implies ({
                let id = #[trigger] r@[k].type_id_view();
                &&& self@.dom().contains(id)
                &&& self@[id] == r@[k]
                &&& catalog@.contains(id)
            }) by {
                assert(0 <= src[k] < self.entries@.len());
                lemma_assoc_view_value(self.entries@, entry_key(), entry_value(), src[k]);
            }
            assert forall|id: TypeId|
                self@.dom().contains(id) && catalog@.contains(id) implies has_key(
                r@,
                entry_key(),
                id,
            ) by {
                lemma_assoc_view_dom(self.entries@, entry_key(), entry_value(), id);
                let j = choose|j: int|
                    0 <= j < self.entries@.len() && self.entries@[j].type_id_view() == id;
            }
        }
        r
    }
}

/// Whether `id` is among the types of `catalog`.
fn catalog_contains(catalog: &Vec<TypeId>, id: &TypeId) -> (r: bool)
    ensures
        r == catalog@.contains(*id),
{
    let mut c: usize = 0;
    while c < catalog.len()
        invariant
            c <= catalog.len(),
            forall|d: int| 0 <= d < c ==> catalog@[d] != *id,
        decreases catalog.len() - c,
    {
        if same_type_id(&catalog[c], id) {
            assert(catalog@[c as int] == *id);
            return true;
        }
        c += 1;
    }
    false
}

/// What the menu's filter holds: the prompt, the filters and the selected types.
pub struct FilterResponse {
    pub filter_prompt: String,
    pub filters: Vec<FilterKind>,
    pub selected_type: TypeSelection,
}

impl Default for FilterResponse {
    fn default() -> (r: Self)
        ensures
            r.filter_prompt@ == Seq::<char>::empty(),
            r.filters@ == Seq::<FilterKind>::empty(),
            r.selected_type.wf(),
            r.selected_type@ == Map::<TypeId, TypeIdNameCache>::empty(),
    {
        FilterResponse {
            filter_prompt: String::new(),
            filters: Vec::new(),
            selected_type: TypeSelection::new(),
        }
    }
}

impl FilterResponse {
    /// The menu's `clear` button: no type stays selected and the prompt is emptied;
    /// the filters stay.
    pub fn clear_selection_and_prompt(&mut self)
        ensures
            final(self).filter_prompt@ == Seq::<char>::empty(),
            final(self).filters == old(self).filters,
            final(self).selected_type.wf(),
            final(self).selected_type@ == Map::<TypeId, TypeIdNameCache>::empty(),
    {
        self.selected_type.clear();
        self.filter_prompt = String::new();
    }
}

/// With the multi-select key held, clicking a type twice gives back the
/// selection the clicks started from.
pub proof fn law_multi_select_click_twice_returns(
    sel: Map<TypeId, TypeIdNameCache>,
    entry: TypeIdNameCache,
)
    requires
        sel.dom().contains(entry.type_id_view()) ==> sel[entry.type_id_view()] == entry,
    ensures
        clicked_selection(clicked_selection(sel, entry, true), entry, true) == sel,
{
    let id = entry.type_id_view();
    if sel.dom().contains(id) {
        assert(sel.remove(id).insert(id, entry) =~= sel);
    } else {
        assert(sel.insert(id, entry).remove(id) =~= sel);
    }
}

/// Without the multi-select key, a click leaves at most one type selected: the
/// clicked one if it was not selected before, none if it was.
pub proof fn law_single_select_keeps_at_most_one(
    sel: Map<TypeId, TypeIdNameCache>,
    entry: TypeIdNameCache,
)
    ensures
        clicked_selection(sel, entry, false).dom().finite(),
        clicked_selection(sel, entry, false).dom().len() <= 1,
        sel.dom().contains(entry.type_id_view()) ==> clicked_selection(sel, entry, false).dom().len() == 0,
        !sel.dom().contains(entry.type_id_view()) ==> clicked_selection(sel, entry, false) == Map::<
            TypeId,
            TypeIdNameCache,
        >::empty().insert(entry.type_id_view(), entry),
{
    let id = entry.type_id_view();
    if !sel.dom().contains(id) {
        assert(Map::<TypeId, TypeIdNameCache>::empty().insert(id, entry).dom() =~= set![id]);
    }
}

/// Without the multi-select key, clicking an unselected type twice leaves
/// nothing selected.
pub proof fn law_single_select_click_twice_clears(
    sel: Map<TypeId, TypeIdNameCache>,
    entry: TypeIdNameCache,
)
    requires
        !sel.dom().contains(entry.type_id_view()),
    ensures
        clicked_selection(clicked_selection(sel, entry, false), entry, false) == Map::<
            TypeId,
            TypeIdNameCache,
        >::empty(),
{
}

} // verus!
