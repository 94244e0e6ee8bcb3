//! A table from component names to handlers, with overwrite on re-registration.

use crate::component_name::ComponentName;
use vstd::prelude::*;

verus! {

/// Whether one of `names` is `key`.
pub open spec fn names_contain(names: Seq<ComponentName>, key: Seq<char>) -> bool {
    exists|i: int| 0 <= i < names.len() && #[trigger] names[i]@ == key
}

/// The place of `key` among `names`, where it is one of them.
pub open spec fn index_of(names: Seq<ComponentName>, key: Seq<char>) -> int {
    choose|i: int| 0 <= i < names.len() && #[trigger] names[i]@ == key
}

/// Whether no name occurs twice in `names`.
pub open spec fn names_distinct(names: Seq<ComponentName>) -> bool {
    forall|i: int, j: int|
        0 <= i < names.len() && 0 <= j < names.len() && #[trigger] names[i]@ == #[trigger] names[j]@
            ==> i == j
}

/// The handlers registered under component names: at most one per name.
///
/// The view is the map from each registered name to its handler. A lookup
/// finds a handler only under exactly the name it was registered with.
pub struct HandlerTable<H> {
    names: Vec<ComponentName>,
    handlers: Vec<H>,
}

impl<H> View for HandlerTable<H> {
    type V = Map<Seq<char>, H>;

    closed spec fn view(&self) -> Map<Seq<char>, H> {
        Map::new(
            |key: Seq<char>| names_contain(self.names@, key),
            |key: Seq<char>| self.handlers@[index_of(self.names@, key)],
        )
    }
}

impl<H> HandlerTable<H> {
    #[verifier::type_invariant]
    spec fn well_formed(self) -> bool {
        &&& self.names@.len() == self.handlers@.len()
        &&& names_distinct(self.names@)
    }

    /// The table that holds nothing.
    pub fn new() -> (r: Self)
        ensures
            r@ == Map::<Seq<char>, H>::empty(),
    {
        let r = HandlerTable { names: Vec::new(), handlers: Vec::new() };
        assert(r@ =~= Map::<Seq<char>, H>::empty());
        r
    }

    /// Where `name` stands in the table, if it is registered.
    fn position(&self, name: &ComponentName) -> (r: Option<usize>)
        ensures
            r.is_some() == names_contain(self.names@, name@),
            r matches Some(i) ==> i < self.names@.len() && self.names@[i as int]@ == name@
                && i == index_of(self.names@, name@),
    {
        proof {
            use_type_invariant(self);
        }
        let mut i: usize = 0;
        while i < self.names.len()
            invariant
                i <= self.names@.len(),
                names_distinct(self.names@),
                forall|j: int| 0 <= j < i ==> (#[trigger] self.names@[j])@ != name@,
            decreases self.names@.len() - i,
        {
            if self.names[i].same_as(name) {
                assert(self.names@[i as int]@ == name@);
                return Some(i);
            }
            i = i + 1;
        }
        None
    }

    /// Whether a handler is registered under `name`.
    pub fn contains_key(&self, name: &ComponentName) -> (b: bool)
        ensures
            b == self@.contains_key(name@),
    {
        self.position(name).is_some()
    }

    /// The handler registered under `name`, if there is one.
    pub fn get(&self, name: &ComponentName) -> (r: Option<&H>)
        ensures
            r.is_some() == self@.contains_key(name@),
            r matches Some(h) ==> *h == self@[name@],
    {
        proof {
            use_type_invariant(self);
        }
        match self.position(name) {
            Some(i) => Some(&self.handlers[i]),
            None => None,
        }
    }

    /// Registers `handler` under `name`, in place of the handler that was
    /// registered under it before, if there was one.
    pub fn insert(&mut self, name: ComponentName, handler: H)
        ensures
            final(self)@ == old(self)@.insert(name@, handler),
    {
        proof {
            use_type_invariant(&*self);
        }
        let ghost before = *self;
        let found = self.position(&name);
        let mut taken = HandlerTable::new();
        core::mem::swap(self, &mut taken);
        let HandlerTable { names, handlers } = taken;
        let mut names = names;
        let mut handlers = handlers;
        match found {
            Some(i) => {
                handlers.set(i, handler);
            },
            None => {
                names.push(name);
                handlers.push(handler);
                assert(names@.drop_last() =~= before.names@);
            },
        }
        proof {
            lemma_insert(before.names@, before.handlers@, names@, handlers@, name@, handler);
        }
        *self = HandlerTable { names, handlers };
        assert(self@ =~= before@.insert(name@, handler));
    }

    /// The number of names that have a handler.
    pub fn len(&self) -> (n: usize)
        ensures
            n == self@.dom().len(),
            self@.dom().finite(),
    {
        proof {
            use_type_invariant(self);
            lemma_domain_size(self.names@, self@.dom());
        }
        self.names.len()
    }
}

/// What a registration does to the names and handlers of a table: the
/// handler at the name's place is replaced, or both are added at the end.
proof fn lemma_insert<H>(
    names: Seq<ComponentName>,
    handlers: Seq<H>,
    new_names: Seq<ComponentName>,
    new_handlers: Seq<H>,
    key: Seq<char>,
    handler: H,
)
    requires
        names.len() == handlers.len(),
        names_distinct(names),
        names_contain(names, key) ==> new_names == names && new_handlers == handlers.update(
            index_of(names, key),
            handler,
        ),
        !names_contain(names, key) ==> new_names.len() == names.len() + 1
            && new_names.drop_last() == names && new_names.last()@ == key && new_handlers
            == handlers.push(handler),
    ensures
        new_names.len() == new_handlers.len(),
        names_distinct(new_names),
        forall|k: Seq<char>|
            names_contain(new_names, k) <==> (k == key || names_contain(names, k)),
        forall|k: Seq<char>|
            names_contain(new_names, k) ==> new_handlers[index_of(new_names, k)] == (if k == key {
                handler
            } else {
                handlers[index_of(names, k)]
            }),
{
    if names_contain(names, key) {
        let at = index_of(names, key);
        assert forall|k: Seq<char>| names_contain(new_names, k) implies new_handlers[index_of(
            new_names,
            k,
        )] == (if k == key {
            handler
        } else {
            handlers[index_of(names, k)]
        }) by {
            let j = index_of(names, k);
            if k != key {
                assert(j != at);
            } else {
                assert(j == at);
            }
        }
    } else {
        let last = names.len() as int;
        assert(new_names[last] == new_names.last());
        assert forall|i: int| 0 <= i < names.len() implies #[trigger] new_names[i] == names[i] by {
            assert(new_names.drop_last()[i] == new_names[i]);
        }
        assert(names_distinct(new_names)) by {
            assert forall|i: int, j: int|
                0 <= i < new_names.len() && 0 <= j < new_names.len() && #[trigger] new_names[i]@
                    == #[trigger] new_names[j]@ implies i == j by {
                if i < last && j < last {
                    assert(names[i]@ == names[j]@);
                } else if i < last {
                    assert(names[i]@ == key);
                } else if j < last {
                    assert(names[j]@ == key);
                }
            }
        }
        assert forall|k: Seq<char>|
            names_contain(new_names, k) <==> (k == key || names_contain(names, k)) by {
            if names_contain(names, k) {
                let j = index_of(names, k);
                assert(new_names[j]@ == k);
            }
            if k == key {
                assert(new_names[last]@ == k);
            }
            if names_contain(new_names, k) && k != key {
                let j = index_of(new_names, k);
                assert(j != last);
                assert(names[j]@ == k);
            }
        }
        assert forall|k: Seq<char>| names_contain(new_names, k) implies new_handlers[index_of(
            new_names,
            k,
        )] == (if k == key {
            handler
        } else {
            handlers[index_of(names, k)]
        }) by {
            let j = index_of(new_names, k);
            if k == key {
                assert(new_names[last]@ == k);
                assert(j == last);
            } else {
                assert(j != last);
                assert(names[j]@ == k);
                assert(index_of(names, k) == j);
            }
        }
    }
}

/// The names of a table without repeats are as many as the keys they make.
proof fn lemma_domain_size(names: Seq<ComponentName>, keys: Set<Seq<char>>)
    requires
        names_distinct(names),
        forall|key: Seq<char>| keys.contains(key) <==> names_contain(names, key),
    ensures
        keys.finite(),
        keys.len() == names.len(),
    decreases names.len(),
{
    if names.len() == 0 {
        assert(keys =~= Set::<Seq<char>>::empty());
    } else {
        let last = names.last();
        let rest = names.drop_last();
        let fewer = keys.remove(last@);
        assert(names_distinct(rest)) by {
            assert forall|i: int, j: int|
                0 <= i < rest.len() && 0 <= j < rest.len() && #[trigger] rest[i]@ == #[trigger] rest[j]@
                implies i == j by {
                assert(names[i]@ == names[j]@);
            }
        }
        assert forall|key: Seq<char>| fewer.contains(key) <==> names_contain(rest, key) by {
            if names_contain(rest, key) {
                let j = index_of(rest, key);
                assert(names[j]@ == key);
                assert(names[names.len() - 1]@ == last@);
                assert(key != last@);
            }
            if fewer.contains(key) {
                let j = index_of(names, key);
                assert(j != names.len() - 1);
                assert(rest[j]@ == key);
            }
        }
        lemma_domain_size(rest, fewer);
        assert(names[names.len() - 1]@ == last@);
        assert(keys.contains(last@));
        assert(keys =~= fewer.insert(last@));
    }
}

} // verus!
