//! Which elements are selected.

use std::collections::HashSet;
use vstd::prelude::*;
use vstd::std_specs::cmp::PartialEqSpec;
use vstd::std_specs::hash::*;
use vstd::std_specs::iter::IteratorSpec;

verus! {

broadcast use group_hash_axioms;

/// Some entity of `entities`, the first that the set hands out; none where
/// the set is empty.
pub fn any_of(entities: &HashSet<u64>) -> (found: Option<u64>)
    ensures
        match found {
            Some(entity) => entities@.contains(entity),
            None => entities@ == Set::<u64>::empty(),
        },
{
    for entity in rest: entities.iter()
        invariant
            rest.index() == 0,
    {
        assert(rest.seq().unref().to_set().contains(*entity));
        return Some(*entity);
    }
    None
}

/// Keeps track of selected entities.
#[derive(Debug)]
pub struct SelectedEntities {
    entities: HashSet<u64>,
    last: Option<u64>,
}

impl Default for SelectedEntities {
    /// A selection of nothing.
    fn default() -> (selected: Self)
        ensures
            selected.spec_entities() == Set::<u64>::empty(),
            selected.spec_last() is None,
    {
        SelectedEntities::new()
    }
}

impl SelectedEntities {
    /// The selected entities, as a set.
    pub closed spec fn spec_entities(&self) -> Set<u64> {
        self.entities@
    }

    /// The entity that counts as selected last.
    pub closed spec fn spec_last(&self) -> Option<u64> {
        self.last
    }

    /// A selection of nothing.
    pub fn new() -> (selected: Self)
        ensures
            selected.spec_entities() == Set::<u64>::empty(),
            selected.spec_last() is None,
    {
        SelectedEntities { entities: HashSet::new(), last: None }
    }

    /// Unselect all entities.
    pub fn clear(&mut self)
        ensures
            final(self).spec_entities() == Set::<u64>::empty(),
            final(self).spec_last() is None,
    {
        self.entities.clear();
        self.last = None;
    }

    /// Mark a new entity as selected.
    pub fn insert(&mut self, entity: u64)
        ensures
            final(self).spec_entities() == old(self).spec_entities().insert(entity),
            final(self).spec_last() == Some(entity),
    {
        self.entities.insert(entity);
        self.last = Some(entity);
    }

    /// Unselect an entity. Where it was the one selected last, any entity
    /// that is still selected takes its place.
    pub fn remove(&mut self, entity: u64)
        ensures
            final(self).spec_entities() == old(self).spec_entities().remove(entity),
            old(self).spec_last() != Some(entity) ==> final(self).spec_last() == old(
                self,
            ).spec_last(),
            old(self).spec_last() == Some(entity) ==> match final(self).spec_last() {
                Some(other) => final(self).spec_entities().contains(other),
                None => final(self).spec_entities() == Set::<u64>::empty(),
            },
    {
        self.entities.remove(&entity);
        if self.last == Some(entity) {
            self.last = any_of(&self.entities);
        }
    }

    /// Checks if entity is selected.
    pub fn contains(&self, entity: u64) -> (selected: bool)
        ensures
            selected == self.spec_entities().contains(entity),
    {
        self.entities.contains(&entity)
    }

    /// Returns all selected entities.
    pub fn entities(&self) -> (entities: &HashSet<u64>)
        ensures
            entities@ == self.spec_entities(),
    {
        &self.entities
    }

    /// Returns the last selected entity (if any).
    pub fn last(&self) -> (last: Option<u64>)
        ensures
            last == self.spec_last(),
    {
        self.last
    }
}

/// Enables mouse selection when attached to a UI element.
/// * `G` represents the selection group of the entity.
/// Entitites can be selected together only if they belong
/// to the same selection group.
#[derive(Clone, Copy, Debug)]
pub struct Selectable<G> {
    /// The order in which entities are selected
    pub order: u32,
    /// The selection group to which the entity belongs
    pub multi_select_group: Option<G>,
    /// Whether this UI element can be selected together with other
    /// elements without needing to press the shift or control keys
    pub auto_multi_select: bool,
    /// Whether to ignore inputs when this element is selected
    pub consumes_inputs: bool,
}

/// What happened to an element.
#[derive(Clone, Copy, Debug, PartialEq, Eq, Structural, Hash)]
pub enum UiEventType {
    /// The pointer went down and up on the element.
    Click,
    /// The pointer went down on the element.
    ClickStart,
    /// The pointer went up on the element.
    ClickStop,
    /// The pointer came over the element.
    HoverStart,
    /// The pointer left the element.
    HoverStop,
    /// The element is being dragged.
    Dragging,
    /// The element was dropped.
    Dropped,
    /// The value of the element changed.
    ValueChange,
    /// The value of the element was committed.
    ValueCommit,
    /// The element was selected.
    Focus,
    /// The element was unselected.
    Blur,
}

/// An event and the element that it happened to.
#[derive(Clone, Copy, Debug, PartialEq, Eq, Structural, Hash)]
pub struct UiEvent {
    pub event_type: UiEventType,
    pub target: u64,
}

impl UiEvent {
    /// The event `event_type` on `target`.
    pub fn new(event_type: UiEventType, target: u64) -> (event: Self)
        ensures
            event == (UiEvent { event_type, target }),
    {
        UiEvent { event_type, target }
    }
}

/// The elements that a list of events is about, in the order of the list.
pub open spec fn targets(events: Seq<UiEvent>) -> Seq<u64> {
    events.map_values(|event: UiEvent| event.target)
}

/// Whether `events` tells each of `entities` once that it was unselected,
/// and nothing else.
pub open spec fn blurs(events: Seq<UiEvent>, entities: Set<u64>) -> bool {
    &&& forall|i: int| 0 <= i < events.len() ==> (#[trigger] events[i]).event_type == UiEventType::Blur
    &&& targets(events).no_duplicates()
    &&& targets(events).to_set() == entities
}

/// One event for each of `entities` that tells it that it was unselected,
/// in the order in which the set hands its entities out.
pub fn blur_events(entities: &HashSet<u64>) -> (events: Vec<UiEvent>)
    ensures
        blurs(events@, entities@),
{
    let mut events: Vec<UiEvent> = Vec::new();
    let ghost keys = spec_hash_keys_iter(entities).remaining().unref();
    for entity in rest: entities.iter()
        invariant
            rest.seq().unref() == keys,
            events@.len() == rest.index(),
            forall|i: int|
                0 <= i < events@.len() ==> (#[trigger] events@[i]) == (UiEvent {
                    event_type: UiEventType::Blur,
                    target: keys[i],
                }),
    {
        events.push(UiEvent::new(UiEventType::Blur, *entity));
    }
    assert(targets(events@) =~= keys);
    events
}

/// Whether a click on an element with `selectable` adds it to a selection
/// whose last element has `last_selectable`: both are in the same group,
/// and either the control key is down or the clicked element asks for it.
pub open spec fn adds_to_selection<G: PartialEq>(
    selectable: Selectable<G>,
    last_selectable: Option<&Selectable<G>>,
    ctrl: bool,
) -> bool {
    &&& last_selectable matches Some(last) && last.multi_select_group.eq_spec(
        &selectable.multi_select_group,
    )
    &&& ctrl || selectable.auto_multi_select
}

/// Whether a click on an element with `selectable` adds it to the selection.
/// The groups are compared with the `==` of `G`: the result is the stated
/// one where that `==` is the equality that `G` specifies.
pub fn joins_selection<G: PartialEq>(
    selectable: &Selectable<G>,
    last_selectable: Option<&Selectable<G>>,
    ctrl: bool,
) -> (joins: bool)
    ensures
        joins ==> last_selectable is Some && (ctrl || selectable.auto_multi_select),
        G::obeys_eq_spec() ==> joins == adds_to_selection(*selectable, last_selectable, ctrl),
{
    let same_select_group = match last_selectable {
        Some(last) => last.multi_select_group == selectable.multi_select_group,
        None => false,
    };
    same_select_group && (ctrl || selectable.auto_multi_select)
}

impl SelectedEntities {
    /// Whether `events` and `self` are what a click on `target` makes of
    /// the selection `before`.
    ///
    /// A click on an element that cannot be selected unselects every
    /// element and leaves the last one named. A click that joins the
    /// selection selects the element. Any other click unselects every
    /// element and selects the clicked one alone.
    pub open spec fn is_clicked(
        &self,
        before: &SelectedEntities,
        events: Seq<UiEvent>,
        target: u64,
        selectable: bool,
        joins: bool,
    ) -> bool {
        let focus = UiEvent { event_type: UiEventType::Focus, target };
        if !selectable {
            &&& blurs(events, before.spec_entities())
            &&& self.spec_entities() == Set::<u64>::empty()
            &&& self.spec_last() == before.spec_last()
        } else if joins {
            &&& events == seq![focus]
            &&& self.spec_entities() == before.spec_entities().insert(target)
            &&& self.spec_last() == Some(target)
        } else {
            &&& events.len() > 0
            &&& blurs(events.drop_last(), before.spec_entities())
            &&& events.last() == focus
            &&& self.spec_entities() == Set::<u64>::empty().insert(target)
            &&& self.spec_last() == Some(target)
        }
    }

    /// Takes in the start of a click on `target`, where `selectable` says
    /// whether the element can be selected and `joins` whether it joins
    /// the selection. Returns the events that tell the elements what became
    /// of them.
    pub fn click(&mut self, target: u64, selectable: bool, joins: bool) -> (events: Vec<UiEvent>)
        ensures
            final(self).is_clicked(old(self), events@, target, selectable, joins),
    {
        if !selectable {
            let events = blur_events(&self.entities);
            self.entities.clear();
            return events;
        }
        if joins {
            self.insert(target);
            let mut events: Vec<UiEvent> = Vec::new();
            events.push(UiEvent::new(UiEventType::Focus, target));
            assert(events@ =~= seq![UiEvent { event_type: UiEventType::Focus, target }]);
            events
        } else {
            let mut events = blur_events(&self.entities);
            let ghost blurred = events@;
            self.clear();
            self.insert(target);
            events.push(UiEvent::new(UiEventType::Focus, target));
            assert(events@.drop_last() =~= blurred);
            events
        }
    }

    /// Takes in one event on an element, where `selectable` says how the
    /// element can be selected, if at all, and `last_selectable` says the
    /// same of the element that was selected last. Returns the events that
    /// tell the elements what became of them. Only the start of a click
    /// changes the selection.
    pub fn handle_event<G: PartialEq>(
        &mut self,
        event: &UiEvent,
        selectable: Option<&Selectable<G>>,
        last_selectable: Option<&Selectable<G>>,
        ctrl: bool,
    ) -> (events: Vec<UiEvent>)
        ensures
            event.event_type != UiEventType::ClickStart ==> events@.len() == 0 && *final(self)
                == *old(self),
            event.event_type == UiEventType::ClickStart ==> exists|joins: bool|
                {
                    &&& #[trigger] final(self).is_clicked(
                        old(self),
                        events@,
                        event.target,
                        selectable is Some,
                        joins,
                    )
                    &&& selectable is Some && G::obeys_eq_spec() ==> joins == adds_to_selection(
                        *selectable.unwrap(),
                        last_selectable,
                        ctrl,
                    )
                },
    {
        if event.event_type != UiEventType::ClickStart {
            return Vec::new();
        }
        let joins = match selectable {
            Some(selectable) => joins_selection(selectable, last_selectable, ctrl),
            None => false,
        };
        self.click(event.target, selectable.is_some(), joins)
    }
}

} // verus!
