//! The environment: the scopes of a program, each a mapping from names to
//! values with the scope it lies in. Scopes are held in one place and are
//! known by their index there, so that the functions made in a scope can
//! refer to it for as long as they live.

use vstd::prelude::*;
use vstd::string::*;
use crate::object::{
    object_view, Object, ObjectView,
};

verus! {

/// One scope: its bindings, and the index of the scope around it.
#[derive(Debug)]
pub struct Scope {
    pub names: Vec<String>,
    pub values: Vec<Object>,
    pub outer: Option<usize>,
}

/// What a [`Scope`] is, as plain values.
pub struct ScopeView {
    pub store: Map<Seq<char>, ObjectView>,
    pub outer: Option<nat>,
}

/// The scopes of a program and the index of the scope in which evaluation
/// stands.
#[derive(Debug)]
pub struct Environment {
    pub scopes: Vec<Scope>,
    pub current: usize,
}

/// What an [`Environment`] is, as plain values.
pub struct EnvironmentView {
    pub scopes: Seq<ScopeView>,
    pub current: nat,
}

/// Whether some binding has the name.
pub open spec fn spec_has_name(names: Seq<String>, name: Seq<char>) -> bool {
    exists|i: int| 0 <= i < names.len() && #[trigger] names[i]@ == name
}

/// The index of the binding with the name.
pub open spec fn spec_index_of(names: Seq<String>, name: Seq<char>) -> int {
    choose|i: int| 0 <= i < names.len() && #[trigger] names[i]@ == name
}

/// The mapping that the bindings make.
pub open spec fn spec_store(names: Seq<String>, values: Seq<Object>) -> Map<Seq<char>, ObjectView> {
    Map::new(
        |name: Seq<char>| spec_has_name(names, name),
        |name: Seq<char>| object_view(values[spec_index_of(names, name)]),
    )
}

/// No two bindings have the same name.
pub open spec fn spec_distinct(names: Seq<String>) -> bool {
    forall|i: int, j: int|
        0 <= i < names.len() && 0 <= j < names.len() && i != j ==> #[trigger] names[i]@
            != #[trigger] names[j]@
}

impl View for Scope {
    type V = ScopeView;

    open spec fn view(&self) -> ScopeView {
        ScopeView {
            store: spec_store(self.names@, self.values@),
            outer: match self.outer {
                Some(o) => Some(o as nat),
                None => None,
            },
        }
    }
}

/// The views of the scopes, in order.
pub open spec fn scopes_view(scopes: Seq<Scope>) -> Seq<ScopeView> {
    Seq::new(scopes.len(), |i: int| scopes[i]@)
}

impl View for Environment {
    type V = EnvironmentView;

    open spec fn view(&self) -> EnvironmentView {
        EnvironmentView { scopes: scopes_view(self.scopes@), current: self.current as nat }
    }
}

impl EnvironmentView {
    /// The current scope exists, and every scope lies in one that was made
    /// before it.
    pub open spec fn wf(self) -> bool {
        &&& self.current < self.scopes.len()
        &&& forall|i: int|
            0 <= i < self.scopes.len() ==> match (#[trigger] self.scopes[i]).outer {
                Some(o) => o < i,
                None => true,
            }
    }

    /// The value that the name is bound to when looked up from the given
    /// scope outwards.
    pub open spec fn lookup_from(self, scope: nat, name: Seq<char>) -> Option<ObjectView>
        decreases scope,
    {
        if scope >= self.scopes.len() {
            None
        } else if self.scopes[scope as int].store.dom().contains(name) {
            Some(self.scopes[scope as int].store[name])
        } else {
            match self.scopes[scope as int].outer {
                Some(o) => if o < scope {
                    self.lookup_from(o, name)
                } else {
                    None
                },
                None => None,
            }
        }
    }

    /// The value that the name is bound to when looked up from the current
    /// scope outwards.
    pub open spec fn lookup(self, name: Seq<char>) -> Option<ObjectView> {
        self.lookup_from(self.current, name)
    }

    /// The environment with the name bound to the value in the current
    /// scope.
    pub open spec fn bind(self, name: Seq<char>, value: ObjectView) -> EnvironmentView {
        EnvironmentView {
            scopes: self.scopes.update(
                self.current as int,
                ScopeView {
                    store: self.scopes[self.current as int].store.insert(name, value),
                    ..self.scopes[self.current as int]
                },
            ),
            ..self
        }
    }

    /// The environment without a binding of the name in the current scope.
    pub open spec fn unbind(self, name: Seq<char>) -> EnvironmentView {
        EnvironmentView {
            scopes: self.scopes.update(
                self.current as int,
                ScopeView {
                    store: self.scopes[self.current as int].store.remove(name),
                    ..self.scopes[self.current as int]
                },
            ),
            ..self
        }
    }

    /// The environment with one more scope, empty, inside the given one.
    pub open spec fn extend(self, outer: nat) -> EnvironmentView {
        EnvironmentView {
            scopes: self.scopes.push(ScopeView { store: Map::empty(), outer: Some(outer) }),
            ..self
        }
    }

    /// The environment with evaluation standing in the given scope.
    pub open spec fn enter(self, scope: nat) -> EnvironmentView {
        EnvironmentView { current: scope, ..self }
    }
}

/// The environment of a fresh program: one scope without bindings.
pub open spec fn spec_fresh_environment() -> EnvironmentView {
    EnvironmentView { scopes: seq![ScopeView { store: Map::empty(), outer: None }], current: 0 }
}

/// A binding is found again, and it hides no other name: after a name is
/// bound in the current scope, looking it up gives the value, and every
/// other name is bound as before.
pub proof fn lemma_lookup_after_bind(
    env: EnvironmentView,
    name: Seq<char>,
    value: ObjectView,
    other: Seq<char>,
)
    requires
        env.wf(),
    ensures
        env.bind(name, value).wf(),
        env.bind(name, value).lookup(name) == Some(value),
        other != name ==> env.bind(name, value).lookup(other) == env.lookup(other),
{
    lemma_lookup_from_after_bind(env, name, value, other, env.current);
}

/// Binding a name in the current scope changes no other scope, and in the
/// current scope no other name: a lookup of another name from any scope
/// gives what it gave before.
pub proof fn lemma_lookup_from_after_bind(
    env: EnvironmentView,
    name: Seq<char>,
    value: ObjectView,
    other: Seq<char>,
    scope: nat,
)
    requires
        env.wf(),
    ensures
        other != name ==> env.bind(name, value).lookup_from(scope, other) == env.lookup_from(
            scope,
            other,
        ),
    decreases scope,
{
    if scope < env.scopes.len() {
        match env.scopes[scope as int].outer {
            Some(o) => {
                if o < scope {
                    lemma_lookup_from_after_bind(env, name, value, other, o);
                }
            },
            None => {},
        }
    }
}

/// Leaving a scope gives back what was bound outside: entering another
/// scope changes no binding.
pub proof fn lemma_enter_keeps_bindings(env: EnvironmentView, scope: nat, from: nat, name: Seq<char>)
    ensures
        env.enter(scope).lookup_from(from, name) == env.lookup_from(from, name),
    decreases from,
{
    if from < env.scopes.len() {
        match env.scopes[from as int].outer {
            Some(o) => {
                if o < from {
                    lemma_enter_keeps_bindings(env, scope, o, name);
                }
            },
            None => {},
        }
    }
}

/// In a fresh environment no name is bound.
pub proof fn lemma_fresh_environment_is_empty(name: Seq<char>)
    ensures
        spec_fresh_environment().wf(),
        spec_fresh_environment().lookup(name) is None,
{
}

/// With distinct names, the binding at an index is what the mapping holds
/// for its name.
pub proof fn lemma_store_at(names: Seq<String>, values: Seq<Object>, i: int)
    requires
        spec_distinct(names),
        0 <= i < names.len(),
    ensures
        spec_store(names, values).dom().contains(names[i]@),
        spec_store(names, values)[names[i]@] == object_view(values[i]),
        spec_index_of(names, names[i]@) == i,
{
    let j = spec_index_of(names, names[i]@);
    assert(0 <= j < names.len() && names[j]@ == names[i]@);
}

impl Scope {
    /// No two bindings have the same name, and every name has its value.
    pub open spec fn wf(&self) -> bool {
        &&& self.names@.len() == self.values@.len()
        &&& spec_distinct(self.names@)
    }

    /// A scope without bindings.
    pub fn new(outer: Option<usize>) -> (r: Self)
        ensures
            r.wf(),
            r@.store == Map::<Seq<char>, ObjectView>::empty(),
            r.outer == outer,
    {
        let r = Scope { names: Vec::new(), values: Vec::new(), outer };
        assert(r@.store =~= Map::<Seq<char>, ObjectView>::empty());
        r
    }

    /// The index of the binding with the name, if there is one.
    pub fn find(&self, name: &String) -> (r: Option<usize>)
        requires
            self.wf(),
        ensures
            match r {
                Some(i) => i < self.names@.len() && self.names@[i as int]@ == name@,
                None => !spec_has_name(self.names@, name@),
            },
    {
        let mut i: usize = 0;
        while i < self.names.len()
            invariant
                i <= self.names@.len(),
                forall|j: int| 0 <= j < i ==> self.names@[j]@ != name@,
            decreases self.names@.len() - i,
        {
            if self.names[i] == *name {
                return Some(i);
            }
            i = i + 1;
        }
        None
    }

    /// The value that the name is bound to in this scope, if it is bound.
    pub fn get(&self, name: &String) -> (r: Option<Object>)
        requires
            self.wf(),
        ensures
            match r {
                Some(value) => self@.store.dom().contains(name@) && self@.store[name@] == value@,
                None => !self@.store.dom().contains(name@),
            },
    {
        match self.find(name) {
            Some(i) => {
                proof {
                    lemma_store_at(self.names@, self.values@, i as int);
                }
                Some(self.values[i].clone())
            },
            None => None,
        }
    }

    /// Whether the name is bound in this scope.
    pub fn has(&self, name: &String) -> (r: bool)
        requires
            self.wf(),
        ensures
            r == self@.store.dom().contains(name@),
    {
        match self.find(name) {
            Some(i) => {
                proof {
                    lemma_store_at(self.names@, self.values@, i as int);
                }
                true
            },
            None => false,
        }
    }

    /// Binds the name to the value; gives the value that it was bound to
    /// before, if it was bound.
    pub fn set(&mut self, name: String, value: Object) -> (r: Option<Object>)
        requires
            old(self).wf(),
        ensures
            final(self).wf(),
            final(self).outer == old(self).outer,
            final(self)@.store == old(self)@.store.insert(name@, value@),
            match r {
                Some(previous) => old(self)@.store.dom().contains(name@) && old(self)@.store[name@]
                    == previous@,
                None => !old(self)@.store.dom().contains(name@),
            },
    {
        match self.find(&name) {
            Some(i) => {
                proof {
                    lemma_store_at(self.names@, self.values@, i as int);
                }
                let ghost names = self.names@;
                let ghost before = self.values@;
                let previous = self.values[i].clone();
                self.values.set(i, value);
                proof {
                    let after = self.values@;
                    assert forall|k: Seq<char>| spec_has_name(names, k) implies #[trigger] spec_store(
                        names,
                        after,
                    )[k] == spec_store(names, before).insert(name@, value@)[k] by {
                        let j = spec_index_of(names, k);
                        lemma_store_at(names, before, j);
                        lemma_store_at(names, after, j);
                    }
                    assert(spec_store(names, after) =~= spec_store(names, before).insert(
                        name@,
                        value@,
                    ));
                }
                Some(previous)
            },
            None => {
                let ghost names = self.names@;
                let ghost before = self.values@;
                self.names.push(name);
                self.values.push(value);
                proof {
                    let longer = self.names@;
                    let after = self.values@;
                    assert(longer[names.len() as int]@ == name@);
                    assert forall|i: int, j: int|
                        0 <= i < longer.len() && 0 <= j < longer.len() && i != j implies #[trigger] longer[i]@
                            != #[trigger] longer[j]@ by {
                        if i < names.len() {
                            assert(longer[i] == names[i]);
                        }
                        if j < names.len() {
                            assert(longer[j] == names[j]);
                        }
                    }
                    assert forall|k: Seq<char>| spec_has_name(longer, k) implies #[trigger] spec_store(
                        longer,
                        after,
                    )[k] == spec_store(names, before).insert(name@, value@)[k] by {
                        let j = spec_index_of(longer, k);
                        lemma_store_at(longer, after, j);
                        if j < names.len() {
                            assert(names[j] == longer[j]);
                            lemma_store_at(names, before, j);
                        }
                    }
                    assert forall|k: Seq<char>|
                        spec_has_name(longer, k) <==> (spec_has_name(names, k) || k == name@) by {
                        if spec_has_name(longer, k) {
                            let j = spec_index_of(longer, k);
                            if j < names.len() {
                                assert(names[j]@ == k);
                            }
                        }
                        if spec_has_name(names, k) {
                            let j = spec_index_of(names, k);
                            assert(longer[j]@ == k);
                        }
                    }
                    assert(spec_store(longer, after) =~= spec_store(names, before).insert(
                        name@,
                        value@,
                    ));
                }
                None
            },
        }
    }

    /// Removes the binding of the name; gives the value that it was bound
    /// to, if it was bound.
    pub fn remove(&mut self, name: &String) -> (r: Option<Object>)
        requires
            old(self).wf(),
        ensures
            final(self).wf(),
            final(self).outer == old(self).outer,
            final(self)@.store == old(self)@.store.remove(name@),
            match r {
                Some(previous) => old(self)@.store.dom().contains(name@) && old(self)@.store[name@]
                    == previous@,
                None => !old(self)@.store.dom().contains(name@),
            },
    {
        match self.find(name) {
            Some(i) => {
                proof {
                    lemma_store_at(self.names@, self.values@, i as int);
                }
                let ghost names = self.names@;
                let ghost before = self.values@;
                let _ = self.names.remove(i);
                let previous = self.values.remove(i);
                proof {
                    let shorter = self.names@;
                    let after = self.values@;
                    assert forall|a: int, b: int|
                        0 <= a < shorter.len() && 0 <= b < shorter.len() && a != b implies #[trigger] shorter[a]@
                            != #[trigger] shorter[b]@ by {
                        let a0 = if a < i { a } else { a + 1 };
                        let b0 = if b < i { b } else { b + 1 };
                        assert(shorter[a] == names[a0]);
                        assert(shorter[b] == names[b0]);
                    }
                    assert forall|k: Seq<char>|
                        spec_has_name(shorter, k) <==> (spec_has_name(names, k) && k != name@) by {
                        if spec_has_name(shorter, k) {
                            let j = spec_index_of(shorter, k);
                            let j0 = if j < i { j } else { j + 1 };
                            assert(names[j0]@ == k);
                        }
                        if spec_has_name(names, k) && k != name@ {
                            let j0 = spec_index_of(names, k);
                            let j = if j0 < i { j0 } else { j0 - 1 };
                            assert(shorter[j]@ == k);
                        }
                    }
                    assert forall|k: Seq<char>| spec_has_name(shorter, k) implies #[trigger] spec_store(
                        shorter,
                        after,
                    )[k] == spec_store(names, before)[k] by {
                        let j = spec_index_of(shorter, k);
                        let j0 = if j < i { j } else { j + 1 };
                        assert(shorter[j] == names[j0]);
                        lemma_store_at(shorter, after, j);
                        lemma_store_at(names, before, j0);
                    }
                    assert(spec_store(shorter, after) =~= spec_store(names, before).remove(name@));
                }
                Some(previous)
            },
            None => {
                assert(self@.store =~= self@.store.remove(name@));
                None
            },
        }
    }
}


impl Environment {
    /// Every scope is well-formed, the current scope exists, and every
    /// scope lies in one that was made before it.
    pub open spec fn wf(&self) -> bool {
        &&& self@.wf()
        &&& forall|i: int| 0 <= i < self.scopes@.len() ==> (#[trigger] self.scopes@[i]).wf()
    }

    /// An environment with one scope without bindings.
    pub fn new() -> (r: Self)
        ensures
            r.wf(),
            r@ == spec_fresh_environment(),
    {
        let mut scopes: Vec<Scope> = Vec::new();
        scopes.push(Scope::new(None));
        let r = Environment { scopes, current: 0 };
        assert(r@.scopes =~= spec_fresh_environment().scopes);
        r
    }

    /// The value that the name is bound to when looked up from the current
    /// scope outwards, if it is bound.
    pub fn get(&self, name: &str) -> (r: Option<Object>)
        requires
            self.wf(),
        ensures
            match r {
                Some(value) => self@.lookup(name@) == Some(value@),
                None => self@.lookup(name@) is None,
            },
    {
        let key = String::from_str(name);
        let mut scope = self.current;
        loop
            invariant
                self.wf(),
                key@ == name@,
                scope < self.scopes@.len(),
                self@.lookup_from(scope as nat, name@) == self@.lookup(name@),
            decreases scope,
        {
            match self.scopes[scope].get(&key) {
                Some(value) => {
                    return Some(value);
                },
                None => {},
            }
            match self.scopes[scope].outer {
                Some(outer) => {
                    assert(self@.scopes[scope as int].outer == Some(outer as nat));
                    scope = outer;
                },
                None => {
                    return None;
                },
            }
        }
    }

    /// Binds the name to the value in the current scope; gives the value
    /// that it was bound to there before, if it was bound.
    pub fn set(&mut self, name: String, value: Object) -> (r: Option<Object>)
        requires
            old(self).wf(),
        ensures
            final(self).wf(),
            final(self)@ == old(self)@.bind(name@, value@),
            match r {
                Some(previous) => old(self)@.scopes[old(self)@.current as int].store.dom().contains(
                    name@,
                ) && old(self)@.scopes[old(self)@.current as int].store[name@] == previous@,
                None => !old(self)@.scopes[old(self)@.current as int].store.dom().contains(name@),
            },
    {
        let current = self.current;
        let mut scope = self.replace_scope(current, Scope::new(None));
        let r = scope.set(name, value);
        let _ = self.replace_scope(current, scope);
        proof {
            assert(self@.scopes =~= old(self)@.bind(name@, value@).scopes);
        }
        r
    }

    /// Removes the binding of the name from the current scope; gives the
    /// value that it was bound to, if it was bound.
    pub fn remove(&mut self, name: &str) -> (r: Option<Object>)
        requires
            old(self).wf(),
        ensures
            final(self).wf(),
            final(self)@ == old(self)@.unbind(name@),
            match r {
                Some(previous) => old(self)@.scopes[old(self)@.current as int].store.dom().contains(
                    name@,
                ) && old(self)@.scopes[old(self)@.current as int].store[name@] == previous@,
                None => !old(self)@.scopes[old(self)@.current as int].store.dom().contains(name@),
            },
    {
        let key = String::from_str(name);
        let current = self.current;
        let mut scope = self.replace_scope(current, Scope::new(None));
        let r = scope.remove(&key);
        let _ = self.replace_scope(current, scope);
        proof {
            assert(self@.scopes =~= old(self)@.unbind(name@).scopes);
        }
        r
    }

    /// Whether the name is bound in the current scope.
    pub fn has(&self, name: &str) -> (r: bool)
        requires
            self.wf(),
        ensures
            r == self@.scopes[self@.current as int].store.dom().contains(name@),
    {
        let key = String::from_str(name);
        self.scopes[self.current].has(&key)
    }

    /// Adds a scope without bindings inside the given one; gives its index.
    pub fn extend(&mut self, outer: usize) -> (r: usize)
        requires
            old(self).wf(),
            outer < old(self).scopes@.len(),
        ensures
            final(self).wf(),
            final(self)@ == old(self)@.extend(outer as nat),
            r == old(self).scopes@.len(),
    {
        let index = self.scopes.len();
        self.scopes.push(Scope::new(Some(outer)));
        proof {
            assert(self@.scopes =~= old(self)@.extend(outer as nat).scopes);
        }
        index
    }

    /// Lets evaluation stand in the given scope.
    pub fn enter(&mut self, scope: usize)
        requires
            old(self).wf(),
            scope < old(self).scopes@.len(),
        ensures
            final(self).wf(),
            final(self)@ == old(self)@.enter(scope as nat),
    {
        self.current = scope;
    }

    /// Puts the given scope at the index; gives the scope that was there.
    fn replace_scope(&mut self, index: usize, scope: Scope) -> (r: Scope)
        requires
            index < old(self).scopes@.len(),
        ensures
            final(self).current == old(self).current,
            final(self).scopes@ == old(self).scopes@.update(index as int, scope),
            r == old(self).scopes@[index as int],
    {
        self.scopes.push(scope);
        let r = self.scopes.swap_remove(index);
        assert(self.scopes@ =~= old(self).scopes@.update(index as int, scope));
        r
    }
}

} // verus!
