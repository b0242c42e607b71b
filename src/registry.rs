//! The name-to-variable registry that the host fills and the application drains once.
use vstd::prelude::*;
use crate::any::AnyVariable;

verus! {

/// Variables by name; no two entries share a name.
pub struct Registry {
    entries: Vec<AnyVariable>,
}

/// Why the registry refused an operation.
#[derive(Clone, Copy, Debug, PartialEq, Eq, Structural)]
pub enum RegistryError {
    /// A variable of that name is registered already.
    Duplicate,
    /// The registry has been handed to the application already.
    Drained,
}

impl View for Registry {
    type V = Seq<AnyVariable>;

    closed spec fn view(&self) -> Seq<AnyVariable> {
        self.entries@
    }
}

/// The names of a sequence of variables, in order.
pub open spec fn names_of(vars: Seq<AnyVariable>) -> Seq<Seq<char>> {
    vars.map_values(|v: AnyVariable| v@.name)
}

/// No name occurs twice.
pub open spec fn unique_names(vars: Seq<AnyVariable>) -> bool {
    forall|i: int, j: int|
        0 <= i < vars.len() && 0 <= j < vars.len() && i != j ==> #[trigger] vars[i]@.name
            != #[trigger] vars[j]@.name
}

/// Every entry is a well-formed variable.
pub open spec fn all_wf(vars: Seq<AnyVariable>) -> bool {
    forall|i: int| 0 <= i < vars.len() ==> (#[trigger] vars[i]).wf()
}

impl Registry {
    pub open spec fn wf(&self) -> bool {
        unique_names(self@) && all_wf(self@)
    }

    /// Whether some entry has the name `name`.
    pub open spec fn has(&self, name: Seq<char>) -> bool {
        exists|i: int| 0 <= i < self@.len() && #[trigger] self@[i]@.name == name
    }

    pub fn new() -> (r: Registry)
        ensures
            r@ == Seq::<AnyVariable>::empty(),
            r.wf(),
    {
        Registry { entries: Vec::new() }
    }

    pub fn len(&self) -> (r: usize)
        ensures
            r == self@.len(),
    {
        self.entries.len()
    }

    pub fn is_empty(&self) -> (r: bool)
        ensures
            r == (self@.len() == 0),
    {
        self.entries.len() == 0
    }

    /// Position of the entry named `name`, if any.
    fn position(&self, name: &String) -> (r: Option<usize>)
        ensures
            match r {
                Some(i) => i < self@.len() && self@[i as int]@.name == name@,
                None => !self.has(name@),
            },
    {
        let mut i: usize = 0;
        while i < self.entries.len()
            invariant
                0 <= i <= self@.len(),
                forall|k: int| 0 <= k < i ==> #[trigger] self@[k]@.name != name@,
            decreases self@.len() - i,
        {
            let n = self.entries[i].name();
            if n == *name {
                return Some(i);
            }
            i = i + 1;
        }
        None
    }

    pub fn contains(&self, name: &String) -> (r: bool)
        ensures
            r == self.has(name@),
    {
        self.position(name).is_some()
    }

    /// Adds a variable under its own name; refuses a name that is taken.
    pub fn insert(&mut self, var: AnyVariable) -> (r: Result<(), AnyVariable>)
        requires
            old(self).wf(),
            var.wf(),
        ensures
            final(self).wf(),
            r is Ok <==> !old(self).has(var@.name),
            r is Ok ==> final(self)@ == old(self)@.push(var),
            r matches Err(v) ==> v == var && final(self)@ == old(self)@,
    {
        let name = var.name();
        match self.position(&name) {
            Some(_) => Err(var),
            None => {
                self.entries.push(var);
                assert forall|i: int, j: int|
                    0 <= i < self@.len() && 0 <= j < self@.len() && i != j implies #[trigger] self@[i]@.name
                        != #[trigger] self@[j]@.name by {
                    if i < old(self)@.len() && j < old(self)@.len() {
                        assert(old(self)@[i] == self@[i]);
                        assert(old(self)@[j] == self@[j]);
                    } else if i < old(self)@.len() {
                        assert(old(self)@[i] == self@[i]);
                    } else if j < old(self)@.len() {
                        assert(old(self)@[j] == self@[j]);
                    }
                }
                Ok(())
            },
        }
    }

    /// Takes out the variable named `name`.
    pub fn remove(&mut self, name: &String) -> (r: Option<AnyVariable>)
        requires
            old(self).wf(),
        ensures
            final(self).wf(),
            r is Some <==> old(self).has(name@),
            r matches Some(v) ==> v@.name == name@ && v.wf() && exists|i: int|
                0 <= i < old(self)@.len() && old(self)@[i] == v && final(self)@ == old(self)@.remove(i),
            r is None ==> final(self)@ == old(self)@,
            !final(self).has(name@),
    {
        match self.position(name) {
            Some(i) => {
                let v = self.entries.remove(i);
                assert(old(self)@[i as int] == v);
                assert forall|a: int, b: int|
                    0 <= a < self@.len() && 0 <= b < self@.len() && a != b implies #[trigger] self@[a]@.name
                        != #[trigger] self@[b]@.name by {
                    let a2 = if a < i { a } else { a + 1 };
                    let b2 = if b < i { b } else { b + 1 };
                    assert(self@[a] == old(self)@[a2]);
                    assert(self@[b] == old(self)@[b2]);
                }
                assert forall|k: int| 0 <= k < self@.len() implies (#[trigger] self@[k]).wf() by {
                    let k2 = if k < i { k } else { k + 1 };
                    assert(self@[k] == old(self)@[k2]);
                }
                assert forall|k: int| 0 <= k < self@.len() implies #[trigger] self@[k]@.name != name@ by {
                    let k2 = if k < i { k } else { k + 1 };
                    assert(self@[k] == old(self)@[k2]);
                    assert(k2 != i);
                }
                Some(v)
            },
            None => None,
        }
    }

    /// Names of all entries, in order of registration.
    pub fn names(&self) -> (r: Vec<String>)
        ensures
            r@.len() == self@.len(),
            forall|i: int| 0 <= i < r@.len() ==> #[trigger] r@[i]@ == self@[i]@.name,
    {
        let mut out: Vec<String> = Vec::new();
        let mut i: usize = 0;
        while i < self.entries.len()
            invariant
                0 <= i <= self@.len(),
                out@.len() == i,
                forall|k: int| 0 <= k < i ==> #[trigger] out@[k]@ == self@[k]@.name,
            decreases self@.len() - i,
        {
            out.push(self.entries[i].name());
            i = i + 1;
        }
        out
    }
}

/// The process-wide store that the host fills during start-up and the application drains once.
pub struct VariableStore {
    registry: Registry,
    drained: bool,
    registered: Ghost<Seq<Seq<char>>>,
}

impl VariableStore {
    /// The variables currently held.
    pub closed spec fn held(&self) -> Seq<AnyVariable> {
        self.registry@
    }

    pub closed spec fn is_drained(&self) -> bool {
        self.drained
    }

    /// Names the host has registered so far, in order.
    pub closed spec fn registered(&self) -> Seq<Seq<char>> {
        self.registered@
    }

    pub closed spec fn wf(&self) -> bool {
        &&& self.registry.wf()
        &&& (!self.drained ==> names_of(self.registry@) == self.registered@)
        &&& (self.drained ==> self.registry@.len() == 0)
    }

    pub fn new() -> (r: VariableStore)
        ensures
            r.wf(),
            !r.is_drained(),
            r.held() == Seq::<AnyVariable>::empty(),
            r.registered() == Seq::<Seq<char>>::empty(),
    {
        let r = VariableStore { registry: Registry::new(), drained: false, registered: Ghost(Seq::empty()) };
        assert(names_of(r.registry@) =~= Seq::<Seq<char>>::empty());
        r
    }

    /// Registers a variable announced by the host.
    pub fn add_variable(&mut self, var: AnyVariable) -> (r: Result<(), RegistryError>)
        requires
            old(self).wf(),
            var.wf(),
        ensures
            final(self).wf(),
            final(self).is_drained() == old(self).is_drained(),
            old(self).is_drained() ==> r == Err::<(), RegistryError>(RegistryError::Drained)
                && final(self).held() == old(self).held()
                && final(self).registered() == old(self).registered(),
            !old(self).is_drained() ==> {
                &&& r is Ok <==> !old(self).registered().contains(var@.name)
                &&& r is Ok ==> final(self).held() == old(self).held().push(var)
                    && final(self).registered() == old(self).registered().push(var@.name)
                &&& r is Err ==> r == Err::<(), RegistryError>(RegistryError::Duplicate)
                    && final(self).held() == old(self).held()
                    && final(self).registered() == old(self).registered()
            },
    {
        if self.drained {
            return Err(RegistryError::Drained);
        }
        proof {
            let names = names_of(self.registry@);
            if self.registered@.contains(var@.name) {
                let k = choose|k: int| 0 <= k < names.len() && names[k] == var@.name;
                assert(self.registry@[k]@.name == var@.name);
            }
            if self.registry.has(var@.name) {
                let k = choose|k: int| 0 <= k < self.registry@.len() && #[trigger] self.registry@[k]@.name == var@.name;
                assert(names[k] == var@.name);
            }
        }
        let ghost name = var@.name;
        match self.registry.insert(var) {
            Ok(()) => {
                self.registered = Ghost(self.registered@.push(name));
                assert(names_of(self.registry@) =~= self.registered@);
                Ok(())
            },
            Err(_) => Err(RegistryError::Duplicate),
        }
    }

    /// Hands every registered variable to the application and leaves the store empty.
    ///
    /// Works once; later calls fail with [`RegistryError::Drained`].
    pub fn take(&mut self) -> (r: Result<Registry, RegistryError>)
        requires
            old(self).wf(),
        ensures
            final(self).wf(),
            final(self).is_drained(),
            final(self).held() == Seq::<AnyVariable>::empty(),
            final(self).registered() == old(self).registered(),
            old(self).is_drained() ==> r == Err::<Registry, RegistryError>(RegistryError::Drained),
            !old(self).is_drained() ==> (r matches Ok(reg) && reg.wf() && reg@ == old(self).held()
                && names_of(reg@) == old(self).registered()),
    {
        if self.drained {
            return Err(RegistryError::Drained);
        }
        let mut out = Registry::new();
        core::mem::swap(&mut out, &mut self.registry);
        self.drained = true;
        Ok(out)
    }
}

/// Until the store is drained it holds one entry for each name the host
/// registered and nothing else; a drained store holds nothing.
pub proof fn lemma_one_entry_per_name(s: VariableStore, name: Seq<char>)
    requires
        s.wf(),
    ensures
        !s.is_drained() ==> s.held().len() == s.registered().len(),
        !s.is_drained() ==> (s.registered().contains(name) <==> exists|i: int|
            0 <= i < s.held().len() && #[trigger] s.held()[i]@.name == name),
        forall|i: int, j: int|
            0 <= i < s.held().len() && 0 <= j < s.held().len() && #[trigger] s.held()[i]@.name
                == #[trigger] s.held()[j]@.name ==> i == j,
        s.is_drained() ==> s.held().len() == 0,
{
    let held = s.held();
    let names = names_of(held);
    if !s.is_drained() {
        if s.registered().contains(name) {
            let k = choose|k: int| 0 <= k < names.len() && names[k] == name;
            assert(held[k]@.name == name);
        }
        if exists|i: int| 0 <= i < held.len() && #[trigger] held[i]@.name == name {
            let k = choose|k: int| 0 <= k < held.len() && #[trigger] held[k]@.name == name;
            assert(names[k] == name);
        }
    }
}

/// What the application's entry point receives.
pub struct Context {
    pub registry: Registry,
}

} // verus!
