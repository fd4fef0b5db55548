//! Menu dispatch: routes the activation of a menu item, by the item's
//! identifier, to the action registered for it.

use vstd::prelude::*;

verus! {

/// The identifier of a menu item: an opaque string that the menu toolkit
/// assigns, unique per item.
#[derive(Debug, Clone, PartialEq, Eq, Hash)]
pub struct MenuId(pub String);

impl View for MenuId {
    type V = Seq<char>;

    open spec fn view(&self) -> Seq<char> {
        self.0@
    }
}

/// A wrapper around a MenuId and a function that will be called when the menu item is activated.
pub struct MenuItemWithAction<A> {
    pub menu_id: MenuId,
    pub action: A,
}

/// A dispatch map for menu items.
/// This is a map from menu item IDs to the actions that will be called when the menu item is
/// activated. It owns its actions, and holds each ID at most once.
pub struct MenuDispatchMap<A> {
    entries: Vec<MenuItemWithAction<A>>,
}

impl<A> View for MenuDispatchMap<A> {
    type V = Map<Seq<char>, A>;

    /// The action registered for each identifier that has one.
    closed spec fn view(&self) -> Map<Seq<char>, A> {
        Map::new(
            |id: Seq<char>| self.slot_of(id) is Some,
            |id: Seq<char>| self.entries[self.slot_of(id).unwrap()].action,
        )
    }
}

/// The actions registered once every item of `items` has been registered, in
/// order, on top of `actions`: where two items share an identifier, the later
/// one wins.
pub open spec fn all_registered<A>(
    actions: Map<Seq<char>, A>,
    items: Seq<MenuItemWithAction<A>>,
) -> Map<Seq<char>, A>
    decreases items.len(),
{
    if items.len() == 0 {
        actions
    } else {
        all_registered(actions, items.drop_last()).insert(
            items.last().menu_id@,
            items.last().action,
        )
    }
}

/// The last registration for an identifier wins: after `first` and then
/// `second` were registered for `id`, the map is as if only `second` had been,
/// and a dispatch of `id` reaches `second`.
pub proof fn lemma_last_registration_wins<A>(
    actions: Map<Seq<char>, A>,
    id: Seq<char>,
    first: A,
    second: A,
)
    ensures
        actions.insert(id, first).insert(id, second) == actions.insert(id, second),
        actions.insert(id, first).insert(id, second).contains_key(id),
        actions.insert(id, first).insert(id, second)[id] == second,
{
    assert(actions.insert(id, first).insert(id, second) =~= actions.insert(id, second));
}

/// A registration for one identifier changes nothing for any other: what was
/// registered for `other` stays, and what was not registered stays so.
pub proof fn lemma_registration_is_local<A>(
    actions: Map<Seq<char>, A>,
    id: Seq<char>,
    other: Seq<char>,
    action: A,
)
    requires
        other != id,
    ensures
        actions.insert(id, action).contains_key(other) == actions.contains_key(other),
        actions.contains_key(other) ==> actions.insert(id, action)[other] == actions[other],
{
}

impl<A> MenuDispatchMap<A> {
    /// What holds of every dispatch map: no identifier occurs twice.
    #[verifier::type_invariant]
    pub closed spec fn wf(self) -> bool {
        forall|i: int, j: int|
            0 <= i < j < self.entries.len() ==> self.entries[i].menu_id@
                != self.entries[j].menu_id@
    }

    /// Whether position `i` holds the first entry of `id`.
    closed spec fn is_slot_of(&self, id: Seq<char>, i: int) -> bool {
        &&& 0 <= i < self.entries.len()
        &&& self.entries[i].menu_id@ == id
        &&& forall|j: int| 0 <= j < i ==> self.entries[j].menu_id@ != id
    }

    /// The position of the entry of `id`, if it has one.
    closed spec fn slot_of(&self, id: Seq<char>) -> Option<int> {
        if exists|i: int| self.is_slot_of(id, i) {
            Some(choose|i: int| self.is_slot_of(id, i))
        } else {
            None
        }
    }

    /// An empty dispatch map.
    pub fn new() -> (r: Self)
        ensures
            r.wf(),
            r@ == Map::<Seq<char>, A>::empty(),
    {
        let r = MenuDispatchMap { entries: Vec::new() };
        assert(r@ =~= Map::<Seq<char>, A>::empty());
        r
    }

    /// The first entry of an identifier is at one position only.
    proof fn lemma_slot_unique(&self, id: Seq<char>, i: int)
        requires
            self.is_slot_of(id, i),
        ensures
            self.slot_of(id) == Some(i),
    {
        let j = choose|j: int| self.is_slot_of(id, j);
        assert(self.is_slot_of(id, j));
        if j < i {
            assert(self.entries[j].menu_id@ != id);
        }
        if i < j {
            assert(self.entries[i].menu_id@ != id);
        }
    }

    /// An identifier that occurs at all has a first entry.
    proof fn lemma_first_slot_exists(&self, id: Seq<char>, i: int)
        requires
            0 <= i < self.entries.len(),
            self.entries[i].menu_id@ == id,
        ensures
            self.slot_of(id) is Some,
        decreases i,
    {
        if forall|j: int| 0 <= j < i ==> self.entries[j].menu_id@ != id {
            assert(self.is_slot_of(id, i));
        } else {
            let j = choose|j: int| 0 <= j < i && self.entries[j].menu_id@ == id;
            self.lemma_first_slot_exists(id, j);
        }
    }

    /// Finds the entry of `menu_id`.
    fn position(&self, menu_id: &MenuId) -> (r: Option<usize>)
        ensures
            match r {
                Some(i) => i < self.entries.len() && self.entries[i as int].menu_id@ == menu_id@
                    && self.slot_of(menu_id@) == Some(i as int),
                None => self.slot_of(menu_id@) is None,
            },
    {
        let mut i: usize = 0;
        while i < self.entries.len()
            invariant
                i <= self.entries.len(),
                forall|j: int| 0 <= j < i ==> self.entries[j].menu_id@ != menu_id@,
            decreases self.entries.len() - i,
        {
            if self.entries[i].menu_id.0 == menu_id.0 {
                proof {
                    assert(self.is_slot_of(menu_id@, i as int));
                    self.lemma_slot_unique(menu_id@, i as int);
                }
                return Some(i);
            }
            i += 1;
        }
        None
    }

    /// Returns the action registered for `menu_id`, if there is one.
    pub fn get(&self, menu_id: &MenuId) -> (r: Option<&A>)
        ensures
            match r {
                Some(action) => self@.contains_key(menu_id@) && *action == self@[menu_id@],
                None => !self@.contains_key(menu_id@),
            },
    {
        match self.position(menu_id) {
            Some(i) => Some(&self.entries[i].action),
            None => None,
        }
    }

    /// Registers `action` for `menu_id`. An earlier registration for the same
    /// identifier is replaced: the last one wins. All other registrations stay.
    pub fn register(&mut self, menu_id: MenuId, action: A)
        ensures
            final(self).wf(),
            final(self)@ == old(self)@.insert(menu_id@, action),
    {
        proof {
            use_type_invariant(&*self);
        }
        let ghost id = menu_id@;
        let found = self.position(&menu_id);
        let mut taken = MenuDispatchMap { entries: Vec::new() };
        core::mem::swap(self, &mut taken);
        let mut entries = taken.entries;
        match found {
            Some(i) => {
                entries.set(i, MenuItemWithAction { menu_id, action });
                *self = MenuDispatchMap { entries };
                proof {
                    assert forall|k: Seq<char>, j: int|
                        self.is_slot_of(k, j) == old(self).is_slot_of(k, j) by {
                        if self.is_slot_of(k, j) {
                            assert forall|l: int| 0 <= l < j implies old(self).entries[l].menu_id@
                                != k by {
                                assert(self.entries[l].menu_id@ != k);
                            }
                        }
                        if old(self).is_slot_of(k, j) {
                            assert forall|l: int| 0 <= l < j implies self.entries[l].menu_id@
                                != k by {
                                assert(old(self).entries[l].menu_id@ != k);
                            }
                        }
                    }
                    assert forall|k: Seq<char>| #[trigger]
                        self.slot_of(k) == old(self).slot_of(k) by {
                        if old(self).slot_of(k) is Some {
                            let j = old(self).slot_of(k).unwrap();
                            assert(self.is_slot_of(k, j));
                            self.lemma_slot_unique(k, j);
                        } else if self.slot_of(k) is Some {
                            let j = self.slot_of(k).unwrap();
                            assert(old(self).is_slot_of(k, j));
                        }
                    }
                    assert(self@ =~= old(self)@.insert(id, action));
                }
            },
            None => {
                let ghost n = entries.len() as int;
                proof {
                    assert forall|j: int| 0 <= j < n implies old(self).entries[j].menu_id@
                        != id by {
                        if old(self).entries[j].menu_id@ == id {
                            old(self).lemma_first_slot_exists(id, j);
                        }
                    }
                }
                entries.push(MenuItemWithAction { menu_id, action });
                *self = MenuDispatchMap { entries };
                proof {
                    assert(self.is_slot_of(id, n));
                    self.lemma_slot_unique(id, n);
                    assert forall|k: Seq<char>| k != id implies #[trigger] self.slot_of(k)
                        == old(self).slot_of(k) by {
                        if old(self).slot_of(k) is Some {
                            let j = old(self).slot_of(k).unwrap();
                            assert(old(self).is_slot_of(k, j));
                            assert(self.is_slot_of(k, j));
                            self.lemma_slot_unique(k, j);
                        } else if self.slot_of(k) is Some {
                            let j = self.slot_of(k).unwrap();
                            assert(self.is_slot_of(k, j));
                            assert(self.entries[n].menu_id@ == id);
                            assert(j < n);
                            assert forall|l: int| 0 <= l < j implies old(self).entries[l].menu_id@
                                != k by {
                                assert(self.entries[l].menu_id@ != k);
                            }
                            assert(old(self).is_slot_of(k, j));
                        }
                    }
                    assert(self@ =~= old(self)@.insert(id, action));
                }
            },
        }
    }

    /// Registers every item of `items`, in order.
    pub fn register_all(&mut self, items: Vec<MenuItemWithAction<A>>)
        ensures
            final(self).wf(),
            final(self)@ == all_registered(old(self)@, items@),
    {
        proof {
            use_type_invariant(&*self);
        }
        let ghost all = items@;
        for item in it: items
            invariant
                self.wf(),
                it.seq() == all,
                self@ == all_registered(old(self)@, all.take(it.index() as int)),
        {
            proof {
                let i = it.index() as int;
                assert(all.take(i + 1).drop_last() =~= all.take(i));
                assert(all.take(i + 1).last() == all[i]);
            }
            self.register(item.menu_id, item.action);
        }
        proof {
            assert(all.take(all.len() as int) =~= all);
        }
    }

    /// Dispatches the activation of the item `menu_id`: looks up the action
    /// registered for it and calls that action, once, before returning. Returns
    /// whether an action was called. The activation of an identifier without a
    /// registration does nothing; it is not an error.
    ///
    /// The action registered for `menu_id`, if there is one, must be callable.
    pub fn dispatch(&self, menu_id: &MenuId) -> (invoked: bool) where A: Fn()
        requires
            self@.contains_key(menu_id@) ==> call_requires(self@[menu_id@], ()),
        ensures
            invoked == self@.contains_key(menu_id@),
            invoked ==> call_ensures(self@[menu_id@], (), ()),
    {
        match self.get(menu_id) {
            Some(action) => {
                action();
                true
            },
            None => false,
        }
    }
}

} // verus!
