//! The service registry: which handler answers which method of which service.

use crate::text::str_eq;
use vstd::prelude::*;

verus! {

/// A method's full name: the service's name, then the method's.
pub type MethodKey = (Seq<char>, Seq<char>);

/// Why a registration is refused.
#[derive(Clone, Copy, Debug, PartialEq, Eq, Structural)]
pub enum RegistryError {
    /// A method of that name is already registered for the service, or the
    /// registration itself names a method twice.
    Duplicate,
}

struct MethodEntry<H> {
    service: String,
    method: String,
    handler: H,
}

/// Methods as they are listed for registration: each name as text, with its
/// handler.
pub open spec fn spec_names<H>(methods: Seq<(String, H)>) -> Seq<(Seq<char>, H)> {
    Seq::new(methods.len(), |i: int| (methods[i].0@, methods[i].1))
}

/// A bundle of methods that can be registered under a service name.
pub trait Registrant<H> {
    /// The methods of the bundle, each with its name and its handler.
    spec fn spec_methods(&self) -> Seq<(Seq<char>, H)>;

    /// Lists the methods of the bundle, each with its name and its handler.
    fn methods(&self) -> (entries: Vec<(String, H)>)
        ensures
            spec_names(entries@) == self.spec_methods(),
    ;
}

/// Mapping from (service name, method name) to a handler.
///
/// It is filled before a server starts and only read afterwards. The handler
/// type is the caller's: the registry stores and hands out, and never calls.
pub struct ServiceRegistry<H> {
    entries: Vec<MethodEntry<H>>,
}

spec fn entry_key<H>(e: MethodEntry<H>) -> MethodKey {
    (e.service@, e.method@)
}

spec fn has_key<H>(entries: Seq<MethodEntry<H>>, key: MethodKey) -> bool {
    exists|i: int| 0 <= i < entries.len() && entry_key(#[trigger] entries[i]) == key
}

spec fn index_of<H>(entries: Seq<MethodEntry<H>>, key: MethodKey) -> int {
    choose|i: int| 0 <= i < entries.len() && entry_key(#[trigger] entries[i]) == key
}

spec fn distinct_keys<H>(entries: Seq<MethodEntry<H>>) -> bool {
    forall|i: int, j: int|
        0 <= i < j < entries.len() ==> entry_key(#[trigger] entries[i]) != entry_key(
            #[trigger] entries[j],
        )
}

spec fn entries_map<H>(entries: Seq<MethodEntry<H>>) -> Map<MethodKey, H> {
    Map::new(|key: MethodKey| has_key(entries, key), |key: MethodKey| entries[index_of(entries, key)].handler)
}

proof fn lemma_entry_in_map<H>(entries: Seq<MethodEntry<H>>, i: int)
    requires
        distinct_keys(entries),
        0 <= i < entries.len(),
    ensures
        entries_map(entries).dom().contains(entry_key(entries[i])),
        entries_map(entries)[entry_key(entries[i])] == entries[i].handler,
{
    let key = entry_key(entries[i]);
    assert(has_key(entries, key));
    let j = index_of(entries, key);
    assert(0 <= j < entries.len() && entry_key(entries[j]) == key);
    assert(j == i);
}

/// Whether registering `methods` under `service` would name a method that the
/// registry already has, or one method twice.
pub open spec fn spec_conflicts<H>(
    registry: Map<MethodKey, H>,
    service: Seq<char>,
    methods: Seq<(Seq<char>, H)>,
) -> bool {
    ||| exists|i: int|
        0 <= i < methods.len() && registry.dom().contains((service, (#[trigger] methods[i]).0))
    ||| exists|i: int, j: int|
        0 <= i < j < methods.len() && (#[trigger] methods[i]).0 == (#[trigger] methods[j]).0
}

/// Whether `after` is `before` with each of `methods` added under `service`,
/// and nothing else changed.
pub open spec fn spec_registered<H>(
    before: Map<MethodKey, H>,
    after: Map<MethodKey, H>,
    service: Seq<char>,
    methods: Seq<(Seq<char>, H)>,
) -> bool {
    &&& forall|key: MethodKey| #[trigger]
        before.dom().contains(key) ==> after.dom().contains(key) && after[key] == before[key]
    &&& forall|i: int|
        0 <= i < methods.len() ==> after.dom().contains((service, (#[trigger] methods[i]).0))
            && after[(service, methods[i].0)] == methods[i].1
    &&& forall|key: MethodKey| #[trigger]
        after.dom().contains(key) ==> before.dom().contains(key) || exists|i: int|
            0 <= i < methods.len() && key == (service, (#[trigger] methods[i]).0)
}

impl<H> View for ServiceRegistry<H> {
    type V = Map<MethodKey, H>;

    closed spec fn view(&self) -> Map<MethodKey, H> {
        entries_map(self.entries@)
    }
}

impl<H> ServiceRegistry<H> {
    #[verifier::type_invariant]
    spec fn well_formed(self) -> bool {
        distinct_keys(self.entries@)
    }

    /// A registry without services.
    pub fn new() -> (registry: Self)
        ensures
            registry@ == Map::<MethodKey, H>::empty(),
    {
        let registry = ServiceRegistry { entries: Vec::new() };
        assert(registry@ =~= Map::<MethodKey, H>::empty());
        registry
    }

    /// The number of registered methods.
    pub fn len(&self) -> (n: usize)
        ensures
            n == self@.dom().len(),
            self@.dom().finite(),
    {
        proof {
            use_type_invariant(self);
            lemma_map_size(self.entries@);
        }
        self.entries.len()
    }

    fn position(&self, service_name: &str, method_name: &str) -> (at: Option<usize>)
        ensures
            at is Some <==> has_key(self.entries@, (service_name@, method_name@)),
            at is Some ==> at->0 < self.entries@.len() && entry_key(self.entries@[at->0 as int])
                == (service_name@, method_name@),
    {
        let mut i: usize = 0;
        while i < self.entries.len()
            invariant
                i <= self.entries@.len(),
                forall|k: int|
                    0 <= k < i ==> entry_key(#[trigger] self.entries@[k]) != (
                        service_name@,
                        method_name@,
                    ),
            decreases self.entries@.len() - i,
        {
            let entry = &self.entries[i];
            if str_eq(entry.service.as_str(), service_name) && str_eq(
                entry.method.as_str(),
                method_name,
            ) {
                return Some(i);
            }
            i += 1;
        }
        None
    }

    /// Whether a handler is registered for the method.
    pub fn contains(&self, service_name: &str, method_name: &str) -> (found: bool)
        ensures
            found == self@.dom().contains((service_name@, method_name@)),
    {
        self.position(service_name, method_name).is_some()
    }

    /// The handler of `service_name`.`method_name`, if one is registered.
    pub fn get_method(&self, service_name: &str, method_name: &str) -> (handler: Option<&H>)
        ensures
            handler is Some <==> self@.dom().contains((service_name@, method_name@)),
            handler is Some ==> *handler->0 == self@[(service_name@, method_name@)],
    {
        proof {
            use_type_invariant(self);
        }
        match self.position(service_name, method_name) {
            Some(i) => {
                proof {
                    lemma_entry_in_map(self.entries@, i as int);
                }
                Some(&self.entries[i].handler)
            },
            None => None,
        }
    }

    /// Whether one of `methods[..upto]` has the name of `methods[upto]`.
    fn named_before(methods: &Vec<(String, H)>, upto: usize) -> (found: bool)
        requires
            upto < methods@.len(),
        ensures
            found == exists|i: int| 0 <= i < upto && (#[trigger] methods@[i]).0@ == methods@[upto as int].0@,
    {
        let mut i: usize = 0;
        while i < upto
            invariant
                i <= upto < methods@.len(),
                forall|k: int| 0 <= k < i ==> (#[trigger] methods@[k]).0@ != methods@[upto as int].0@,
            decreases upto - i,
        {
            if str_eq(methods[i].0.as_str(), methods[upto].0.as_str()) {
                return true;
            }
            i += 1;
        }
        false
    }

    /// Registers the methods of one service as its registrant lists them:
    /// each of them under `service_name`.
    ///
    /// All of them are registered, or none: where a method of that name is
    /// registered already, or the registrant lists one twice, the registry
    /// stays as it was.
    pub fn register_service<R: Registrant<H>>(&mut self, service_name: &str, registrant: &R) -> (r: Result<
        (),
        RegistryError,
    >)
        ensures
            r is Err <==> spec_conflicts(old(self)@, service_name@, registrant.spec_methods()),
            r is Err ==> r->Err_0 == RegistryError::Duplicate && final(self)@ == old(self)@,
            r is Ok ==> spec_registered(
                old(self)@,
                final(self)@,
                service_name@,
                registrant.spec_methods(),
            ),
    {
        self.register_methods(service_name, registrant.methods())
    }

    /// Registers the methods of one service: each `(method name, handler)` of
    /// `methods` under `service_name`.
    ///
    /// All of them are registered, or none: where a method of that name is
    /// registered already, or `methods` names one twice, the registry stays
    /// as it was.
    pub fn register_methods(&mut self, service_name: &str, methods: Vec<(String, H)>) -> (r: Result<
        (),
        RegistryError,
    >)
        ensures
            r is Err <==> spec_conflicts(old(self)@, service_name@, spec_names(methods@)),
            r is Err ==> r->Err_0 == RegistryError::Duplicate && final(self)@ == old(self)@,
            r is Ok ==> spec_registered(
                old(self)@,
                final(self)@,
                service_name@,
                spec_names(methods@),
            ),
    {
        proof {
            use_type_invariant(&*self);
        }
        let ghost named = spec_names(methods@);
        let count: usize = methods.len();
        let mut checked: usize = 0;
        while checked < count
            invariant
                checked <= count == methods@.len(),
                named == spec_names(methods@),
                forall|i: int|
                    0 <= i < checked ==> !has_key(
                        self.entries@,
                        (service_name@, (#[trigger] methods@[i]).0@),
                    ),
                forall|i: int, j: int|
                    0 <= i < j < checked ==> (#[trigger] methods@[i]).0@ != (
                    #[trigger] methods@[j]).0@,
            decreases count - checked,
        {
            if self.contains(service_name, methods[checked].0.as_str()) {
                assert(self@.dom().contains((service_name@, named[checked as int].0)));
                return Err(RegistryError::Duplicate);
            }
            if Self::named_before(&methods, checked) {
                let ghost earlier = choose|i: int|
                    0 <= i < checked && (#[trigger] methods@[i]).0@ == methods@[checked as int].0@;
                assert(named[earlier].0 == named[checked as int].0);
                return Err(RegistryError::Duplicate);
            }
            checked += 1;
        }
        assert(!spec_conflicts(self@, service_name@, named)) by {
            assert forall|i: int| 0 <= i < named.len() implies !self@.dom().contains(
                (service_name@, (#[trigger] named[i]).0),
            ) by {
                assert(named[i].0 == methods@[i].0@);
            }
            assert forall|i: int, j: int| 0 <= i < j < named.len() implies (#[trigger] named[i]).0
                != (#[trigger] named[j]).0 by {
                assert(named[i].0 == methods@[i].0@ && named[j].0 == methods@[j].0@);
            }
        }
        let ghost before = self.entries@;
        let ghost all = methods@;
        let mut rest = methods;
        let mut entries: Vec<MethodEntry<H>> = Vec::new();
        core::mem::swap(&mut self.entries, &mut entries);
        while rest.len() > 0
            invariant
                rest@.len() <= all.len(),
                rest@ == all.subrange(0, rest@.len() as int),
                distinct_keys(before),
                distinct_keys(entries@),
                entries@.len() == before.len() + all.len() - rest@.len(),
                forall|k: int| 0 <= k < before.len() ==> entries@[k] == before[k],
                forall|t: int|
                    rest@.len() <= t < all.len() ==> {
                        let e = #[trigger] entries@[before.len() + all.len() - 1 - t];
                        entry_key(e) == (service_name@, all[t].0@) && e.handler == all[t].1
                    },
                forall|i: int|
                    0 <= i < all.len() ==> !has_key(before, (service_name@, (#[trigger] all[i]).0@)),
                forall|i: int, j: int|
                    0 <= i < j < all.len() ==> (#[trigger] all[i]).0@ != (#[trigger] all[j]).0@,
            decreases rest@.len(),
        {
            let ghost t = rest@.len() - 1;
            let (name, handler) = rest.pop().unwrap();
            let entry = MethodEntry { service: service_name.to_owned(), method: name, handler };
            proof {
                let key = entry_key(entry);
                assert(key == (service_name@, all[t].0@));
                assert forall|k: int| 0 <= k < entries@.len() implies entry_key(
                    #[trigger] entries@[k],
                ) != key by {
                    if k < before.len() {
                        assert(entries@[k] == before[k]);
                        assert(!has_key(before, (service_name@, all[t].0@)));
                    } else {
                        let u = before.len() + all.len() - 1 - k;
                        assert(entries@[before.len() + all.len() - 1 - u] == entries@[k]);
                        assert(all[t].0@ != all[u].0@);
                    }
                }
            }
            entries.push(entry);
        }
        proof {
            assert forall|t: int| 0 <= t < named.len() implies {
                let e = #[trigger] entries@[before.len() + named.len() - 1 - t];
                entry_key(e) == (service_name@, named[t].0) && e.handler == named[t].1
            } by {
                assert(named[t] == (all[t].0@, all[t].1));
            }
            lemma_registered(before, entries@, service_name@, named);
        }
        self.entries = entries;
        Ok(())
    }
}

proof fn lemma_map_size<H>(entries: Seq<MethodEntry<H>>)
    requires
        distinct_keys(entries),
    ensures
        entries_map(entries).dom().finite(),
        entries_map(entries).dom().len() == entries.len(),
    decreases entries.len(),
{
    if entries.len() == 0 {
        assert(entries_map(entries).dom() =~= Set::<MethodKey>::empty());
    } else {
        let init = entries.drop_last();
        let last = entries.last();
        lemma_map_size(init);
        assert(!has_key(init, entry_key(last))) by {
            if has_key(init, entry_key(last)) {
                let i = index_of(init, entry_key(last));
                assert(entry_key(entries[i]) == entry_key(entries[entries.len() - 1]));
            }
        }
        assert(entries_map(entries).dom() =~= entries_map(init).dom().insert(entry_key(last))) by {
            assert forall|key: MethodKey| has_key(entries, key) <==> (has_key(init, key) || key
                == entry_key(last)) by {
                if has_key(entries, key) {
                    let i = index_of(entries, key);
                    if i < init.len() {
                        assert(entry_key(init[i]) == key);
                    }
                }
                if has_key(init, key) {
                    let i = index_of(init, key);
                    assert(entry_key(entries[i]) == key);
                }
                if key == entry_key(last) {
                    assert(entry_key(entries[entries.len() - 1]) == key);
                }
            }
        }
    }
}

proof fn lemma_registered<H>(
    before: Seq<MethodEntry<H>>,
    after: Seq<MethodEntry<H>>,
    service: Seq<char>,
    methods: Seq<(Seq<char>, H)>,
)
    requires
        distinct_keys(before),
        distinct_keys(after),
        after.len() == before.len() + methods.len(),
        forall|k: int| 0 <= k < before.len() ==> after[k] == before[k],
        forall|t: int|
            0 <= t < methods.len() ==> {
                let e = #[trigger] after[before.len() + methods.len() - 1 - t];
                entry_key(e) == (service, methods[t].0) && e.handler == methods[t].1
            },
    ensures
        spec_registered(entries_map(before), entries_map(after), service, methods),
{
    let old_map = entries_map(before);
    let new_map = entries_map(after);
    assert forall|key: MethodKey| #[trigger] old_map.dom().contains(key) implies new_map.dom().contains(
        key,
    ) && new_map[key] == old_map[key] by {
        let i = index_of(before, key);
        assert(entry_key(after[i]) == key);
        lemma_entry_in_map(after, i);
        lemma_entry_in_map(before, i);
    }
    assert forall|i: int| 0 <= i < methods.len() implies new_map.dom().contains(
        (service, (#[trigger] methods[i]).0),
    ) && new_map[(service, methods[i].0)] == methods[i].1 by {
        lemma_entry_in_map(after, before.len() + methods.len() - 1 - i);
    }
    assert forall|key: MethodKey| #[trigger] new_map.dom().contains(key) implies old_map.dom().contains(
        key,
    ) || exists|i: int| 0 <= i < methods.len() && key == (service, (#[trigger] methods[i]).0) by {
        let k = index_of(after, key);
        if k < before.len() {
            assert(entry_key(before[k]) == key);
        } else {
            let t = before.len() + methods.len() - 1 - k;
            assert(after[before.len() + methods.len() - 1 - t] == after[k]);
            assert(key == (service, methods[t].0));
        }
    }
}

} // verus!
