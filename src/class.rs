//! The binding between native classes and the objects that script code sees.
//!
//! A `Binding` owns every native value that an interpreter object stands for:
//! the custom constructor of each class, each method, and the instance data of
//! each constructed object. The interpreter holds only handles into its
//! tables. A trampoline checks a value out for the length of one call and
//! checks it back in on every exit path; a finalizer releases a value once.
use vstd::prelude::*;
use crate::builder::{Builder, Prototype, entries_of, method_of};
use crate::error::{ErrorKind, DukResult};
use crate::slots::{Slot, SlotTable};

verus! {

/// The three tables of a binding, as sequences of slots.
pub struct BindingView<M, D> {
    pub ctors: Seq<Slot<M>>,
    pub methods: Seq<Slot<M>>,
    pub instances: Seq<Slot<D>>,
}

/// Whether handle `h` names a resident slot of `s`.
pub open spec fn resident_in<T>(s: Seq<Slot<T>>, h: usize) -> bool {
    h < s.len() && s[h as int] is Resident
}

/// Whether handle `h` names a checked-out slot of `s`.
pub open spec fn checked_out_in<T>(s: Seq<Slot<T>>, h: usize) -> bool {
    h < s.len() && s[h as int] is CheckedOut
}

/// What `s` is after `v` is checked back in under `h`: only a checked-out
/// slot takes it.
pub open spec fn checked_in<T>(s: Seq<Slot<T>>, h: usize, v: T) -> Seq<Slot<T>> {
    if checked_out_in(s, h) {
        s.update(h as int, Slot::Resident(v))
    } else {
        s
    }
}

/// What `s` is after the slot under `h` is released: only a resident slot
/// is.
pub open spec fn released<T>(s: Seq<Slot<T>>, h: usize) -> Seq<Slot<T>> {
    if resident_in(s, h) {
        s.update(h as int, Slot::Released)
    } else {
        s
    }
}

impl<M, D> BindingView<M, D> {
    /// The receiver of a call carries no instance data: it is not an object
    /// that a class of this binding constructed, or that object is gone.
    pub open spec fn lacks_instance(self, receiver: Option<usize>) -> bool {
        match receiver {
            None => true,
            Some(i) => i >= self.instances.len() || self.instances[i as int] is Released,
        }
    }

    /// A call of `method` on `receiver` can begin.
    pub open spec fn can_call(self, method: usize, receiver: Option<usize>) -> bool {
        resident_in(self.methods, method) && match receiver {
            None => false,
            Some(i) => resident_in(self.instances, i),
        }
    }

    /// The tables while a call of `method` on instance `i` runs.
    pub open spec fn lent_for_call(self, method: usize, i: usize) -> Self {
        BindingView {
            ctors: self.ctors,
            methods: self.methods.update(method as int, Slot::CheckedOut),
            instances: self.instances.update(i as int, Slot::CheckedOut),
        }
    }

    /// The tables once a call has handed back its method and instance.
    pub open spec fn returned_from_call(self, method: usize, i: usize, m: M, d: D) -> Self {
        BindingView {
            ctors: self.ctors,
            methods: checked_in(self.methods, method, m),
            instances: checked_in(self.instances, i, d),
        }
    }
}

/// Where the materialized parts of a class live.
///
/// The interpreter-side constructor function carries `ctor`; its prototype
/// holds one function per entry of `methods`, each carrying its handle. Where
/// `parent` is set, the prototype is created with the parent's prototype as
/// its ancestor and that prototype is stored under `__super__`; without a
/// parent the prototype is a fresh bare object with no `__super__`.
pub struct ClassLayout<P> {
    /// The value of the constructor's `name` property, when one was set.
    pub name: Option<String>,
    pub parent: Option<P>,
    /// The handle of the custom constructor.
    pub ctor: Option<usize>,
    /// Each method name with the handle of its method.
    pub methods: Vec<(String, usize)>,
}

/// The native values of the classes bound into one interpreter heap.
pub struct Binding<M, D> {
    ctors: SlotTable<M>,
    methods: SlotTable<M>,
    instances: SlotTable<D>,
}

impl<M, D> View for Binding<M, D> {
    type V = BindingView<M, D>;

    closed spec fn view(&self) -> BindingView<M, D> {
        BindingView { ctors: self.ctors@, methods: self.methods@, instances: self.instances@ }
    }
}

impl<M, D> Binding<M, D> {
    pub fn new() -> (r: Self)
        ensures
            r@.ctors.len() == 0,
            r@.methods.len() == 0,
            r@.instances.len() == 0,
    {
        Binding { ctors: SlotTable::new(), methods: SlotTable::new(), instances: SlotTable::new() }
    }

    /// Materializes the class that `builder` describes: its constructor and
    /// methods move into the binding, and the layout says where each went.
    /// Fails, changing nothing, only when the tables have no handle left.
    pub fn push_class_builder<P>(&mut self, builder: Builder<M, P>) -> (r: DukResult<
        ClassLayout<P>,
    >)
        ensures
            r is Err <==> !(old(self)@.methods.len() + builder.entries().len() < usize::MAX
                && old(self)@.ctors.len() < usize::MAX),
            r is Err ==> final(self)@ == old(self)@,
            r matches Err(e) ==> e is Error,
            r matches Ok(layout) ==> {
                &&& layout.parent == builder.parent_view()
                &&& (layout.name is None <==> builder.name_view().len() == 0)
                &&& (layout.name matches Some(s) ==> s@ == builder.name_view())
                &&& (builder.ctor_view() matches Some(c) ==> layout.ctor == Some(
                    old(self)@.ctors.len() as usize,
                ) && final(self)@.ctors == old(self)@.ctors.push(Slot::Resident(c)))
                &&& (builder.ctor_view() is None ==> layout.ctor is None && final(self)@.ctors
                    == old(self)@.ctors)
                &&& layout.methods@.len() == builder.entries().len()
                &&& final(self)@.methods.len() == old(self)@.methods.len()
                    + builder.entries().len()
                &&& final(self)@.methods.subrange(0, old(self)@.methods.len() as int)
                    == old(self)@.methods
                &&& forall|j: int|
                    0 <= j < builder.entries().len() ==> {
                        &&& (#[trigger] layout.methods@[j]).0@ == builder.entries()[j].0
                        &&& layout.methods@[j].1 == old(self)@.methods.len() + j
                        &&& final(self)@.methods[old(self)@.methods.len() + j] == Slot::Resident(
                            method_of(builder.entries()[j].1),
                        )
                    }
                &&& final(self)@.instances == old(self)@.instances
            },
    {
        let ghost entries = builder.entries();
        let (name, ctor, parent, mut methods) = builder.into_parts();
        let n = methods.len();
        if usize::MAX - self.methods.len() <= n || self.ctors.len() == usize::MAX {
            return Err(ErrorKind::Error(String::from_str("no free handle for the class")));
        }
        let ghost old_methods = self.methods@;
        let ghost old_ctors = self.ctors@;
        let ghost old_instances = self.instances@;
        let base = self.methods.len();
        let mut placed: Vec<(String, usize)> = Vec::new();
        proof {
            assert(entries.subrange(0, n as int) =~= entries);
        }
        while methods.len() > 0
            invariant
                base == old_methods.len(),
                base + n < usize::MAX,
                self.ctors@ == old_ctors,
                old_ctors.len() < usize::MAX,
                self.instances@ == old_instances,
                entries.len() == n,
                placed@.len() + methods@.len() == n,
                entries_of(methods@) == entries.subrange(placed@.len() as int, n as int),
                self.methods@.len() == base + placed@.len(),
                self.methods@.subrange(0, base as int) == old_methods,
                forall|j: int|
                    0 <= j < placed@.len() ==> {
                        &&& (#[trigger] placed@[j]).0@ == entries[j].0
                        &&& placed@[j].1 == base + j
                        &&& self.methods@[base + j] == Slot::Resident(method_of(entries[j].1))
                    },
            decreases methods@.len(),
        {
            let ghost k = placed@.len() as int;
            let ghost prev = methods@;
            let (method_name, proto) = methods.remove(0);
            proof {
                assert(entries_of(methods@) =~= entries_of(prev).subrange(1, prev.len() as int));
                assert(entries_of(methods@) =~= entries.subrange(k + 1, n as int));
                assert(method_name@ == entries[k].0 && proto == entries[k].1) by {
                    assert(entries.subrange(k, n as int)[0] == entries[k]);
                };
            }
            let m = match proto {
                Prototype::Method(m) => m,
            };
            let h = self.methods.insert(m);
            placed.push((method_name, h));
            proof {
                assert(self.methods@.subrange(0, base as int) =~= old_methods);
            }
        }
        let ctor_handle = match ctor {
            Some(c) => Some(self.ctors.insert(c)),
            None => None,
        };
        let layout_name = if name.as_str().is_empty() {
            None
        } else {
            Some(name)
        };
        Ok(ClassLayout { name: layout_name, parent, ctor: ctor_handle, methods: placed })
    }

    /// The method under `method`, while it is resident.
    pub fn method(&self, method: usize) -> (r: Option<&M>)
        ensures
            resident_in(self@.methods, method) ==> r == Some(&self@.methods[method as int]->Resident_0),
            !resident_in(self@.methods, method) ==> r is None,
    {
        self.methods.get(method)
    }

    /// Lends the custom constructor under `ctor` to a construction in
    /// progress. A class without one gives `Ok(None)`; a constructor that is
    /// already lent out (a construction of the class from inside its own
    /// constructor) or gone gives an error.
    pub fn check_out_constructor(&mut self, ctor: Option<usize>) -> (r: DukResult<Option<M>>)
        ensures
            ctor is None ==> r == Ok::<Option<M>, ErrorKind>(None) && final(self)@ == old(self)@,
            ctor matches Some(h) ==> {
                &&& resident_in(old(self)@.ctors, h) ==> r == Ok::<Option<M>, ErrorKind>(
                    Some(old(self)@.ctors[h as int]->Resident_0),
                ) && final(self)@ == (BindingView {
                    ctors: old(self)@.ctors.update(h as int, Slot::CheckedOut),
                    ..old(self)@
                })
                &&& !resident_in(old(self)@.ctors, h) ==> (r is Err && r->Err_0 is Error)
                    && final(self)@ == old(self)@
            },
    {
        match ctor {
            None => Ok(None),
            Some(h) => match self.ctors.check_out(h) {
                Some(c) => Ok(Some(c)),
                None => Err(ErrorKind::Error(String::from_str("class constructor is not available"))),
            },
        }
    }

    /// Ends the construction of an object: the lent constructor, if any, goes
    /// back to its slot, whatever the outcome. When the constructor succeeded
    /// (or there was none, `Ok`) the instance data is attached and its handle
    /// returned. When it failed the instance data is dropped and the object is
    /// left without any, so every method call on it is refused.
    pub fn finish_construct(
        &mut self,
        ctor: Option<(usize, M)>,
        instance: D,
        outcome: DukResult<i32>,
    ) -> (r: DukResult<usize>)
        ensures
            final(self)@.ctors == (match ctor {
                Some(c) => checked_in(old(self)@.ctors, c.0, c.1),
                None => old(self)@.ctors,
            }),
            final(self)@.methods == old(self)@.methods,
            outcome matches Err(e) ==> (r is Err && r->Err_0 is ConstructorError
                && r->Err_0.text() == "ctor call failed: "@ + e.text())
                && final(self)@.instances == old(self)@.instances,
            outcome is Ok && old(self)@.instances.len() < usize::MAX ==> r == Ok::<usize, ErrorKind>(
                old(self)@.instances.len() as usize,
            ) && final(self)@.instances == old(self)@.instances.push(Slot::Resident(instance)),
            outcome is Ok && old(self)@.instances.len() == usize::MAX ==> (r is Err && r->Err_0 is Error)
                && final(self)@.instances == old(self)@.instances,
    {
        match ctor {
            Some((h, c)) => {
                let _ = self.ctors.check_in(h, c);
            },
            None => {},
        }
        match outcome {
            Err(e) => {
                let text = String::from_str("ctor call failed: ").concat(e.message().as_str());
                Err(ErrorKind::ConstructorError(text))
            },
            Ok(_) => {
                if self.instances.len() == usize::MAX {
                    Err(ErrorKind::Error(String::from_str("no free handle for the instance")))
                } else {
                    Ok(self.instances.insert(instance))
                }
            },
        }
    }

    /// Lends the method under `method` and the instance data of `receiver`
    /// to a call. Nothing is lent unless both can be: a receiver without
    /// instance data gives a `ReferenceError`, and the method stays as it was,
    /// callable with another receiver.
    pub fn check_out_call(&mut self, method: usize, receiver: Option<usize>) -> (r: DukResult<(M, D)>)
        ensures
            old(self)@.can_call(method, receiver) ==> r == Ok::<(M, D), ErrorKind>(
                (old(self)@.methods[method as int]->Resident_0,
                old(self)@.instances[receiver->Some_0 as int]->Resident_0),
            ) && final(self)@ == old(self)@.lent_for_call(method, receiver->Some_0),
            !old(self)@.can_call(method, receiver) ==> r is Err && final(self)@ == old(self)@,
            !resident_in(old(self)@.methods, method) ==> (r is Err && r->Err_0 is Error),
            resident_in(old(self)@.methods, method) && old(self)@.lacks_instance(receiver)
                ==> (r is Err && r->Err_0 is ReferenceError),
            resident_in(old(self)@.methods, method) && receiver is Some && checked_out_in(
                old(self)@.instances,
                receiver->Some_0,
            ) ==> (r is Err && r->Err_0 is Error),
    {
        if !self.methods.contains(method) {
            return Err(ErrorKind::Error(String::from_str("method is not available")));
        }
        let i = match receiver {
            None => {
                return Err(ErrorKind::ReferenceError(String::from_str("receiver is not an instance")));
            },
            Some(i) => i,
        };
        if !self.instances.contains(i) {
            if i < self.instances.len() && !self.instances.is_released(i) {
                return Err(ErrorKind::Error(String::from_str("instance is in use")));
            }
            return Err(ErrorKind::ReferenceError(String::from_str("receiver is not an instance")));
        }
        let m = self.methods.check_out(method);
        let d = self.instances.check_out(i);
        match (m, d) {
            (Some(m), Some(d)) => Ok((m, d)),
            _ => Err(ErrorKind::Error(String::from_str("method is not available"))),
        }
    }

    /// Ends a call: the method and the instance data go back to their slots,
    /// on success and on failure alike, and the callable's outcome is passed
    /// on.
    pub fn check_in_call(
        &mut self,
        method: usize,
        receiver: usize,
        m: M,
        d: D,
        outcome: DukResult<i32>,
    ) -> (r: DukResult<i32>)
        ensures
            r == outcome,
            final(self)@ == old(self)@.returned_from_call(method, receiver, m, d),
    {
        let _ = self.methods.check_in(method, m);
        let _ = self.instances.check_in(receiver, d);
        outcome
    }

    /// Lends the instance data of `receiver` to native code outside a method
    /// call; `put_instance` takes it back.
    pub fn get_instance(&mut self, receiver: Option<usize>) -> (r: DukResult<D>)
        ensures
            receiver is Some && resident_in(old(self)@.instances, receiver->Some_0) ==> r
                == Ok::<D, ErrorKind>(old(self)@.instances[receiver->Some_0 as int]->Resident_0)
                && final(self)@ == (BindingView {
                instances: old(self)@.instances.update(receiver->Some_0 as int, Slot::CheckedOut),
                ..old(self)@
            }),
            !(receiver is Some && resident_in(old(self)@.instances, receiver->Some_0)) ==> r is Err
                && final(self)@ == old(self)@,
            old(self)@.lacks_instance(receiver) ==> (r is Err && r->Err_0 is ReferenceError),
    {
        let i = match receiver {
            None => {
                return Err(ErrorKind::ReferenceError(String::from_str("not an instance")));
            },
            Some(i) => i,
        };
        match self.instances.check_out(i) {
            Some(d) => Ok(d),
            None => {
                if i < self.instances.len() && !self.instances.is_released(i) {
                    Err(ErrorKind::Error(String::from_str("instance is in use")))
                } else {
                    Err(ErrorKind::ReferenceError(String::from_str("not an instance")))
                }
            },
        }
    }

    /// Returns instance data lent by `get_instance`.
    pub fn put_instance(&mut self, receiver: usize, d: D)
        ensures
            final(self)@ == (BindingView {
                instances: checked_in(old(self)@.instances, receiver, d),
                ..old(self)@
            }),
    {
        let _ = self.instances.check_in(receiver, d);
    }

    /// Finalizer of a class's constructor function: releases its custom
    /// constructor, if the class has one that is still held.
    pub fn constructor_dtor(&mut self, ctor: Option<usize>) -> (r: Option<M>)
        ensures
            ctor is Some && resident_in(old(self)@.ctors, ctor->Some_0) ==> r == Some(
                old(self)@.ctors[ctor->Some_0 as int]->Resident_0,
            ),
            !(ctor is Some && resident_in(old(self)@.ctors, ctor->Some_0)) ==> r is None,
            final(self)@ == (BindingView {
                ctors: match ctor {
                    Some(h) => released(old(self)@.ctors, h),
                    None => old(self)@.ctors,
                },
                ..old(self)@
            }),
    {
        match ctor {
            Some(h) => self.ctors.release(h),
            None => None,
        }
    }

    /// Finalizer of a method function: releases its method.
    pub fn method_dtor(&mut self, method: usize) -> (r: Option<M>)
        ensures
            resident_in(old(self)@.methods, method) ==> r == Some(
                old(self)@.methods[method as int]->Resident_0,
            ),
            !resident_in(old(self)@.methods, method) ==> r is None,
            final(self)@ == (BindingView {
                methods: released(old(self)@.methods, method),
                ..old(self)@
            }),
    {
        self.methods.release(method)
    }

    /// Finalizer of a constructed object: releases its instance data. An
    /// object that never received any (its constructor failed) has nothing to
    /// release.
    pub fn class_dtor(&mut self, instance: Option<usize>) -> (r: Option<D>)
        ensures
            instance is Some && resident_in(old(self)@.instances, instance->Some_0) ==> r == Some(
                old(self)@.instances[instance->Some_0 as int]->Resident_0,
            ),
            !(instance is Some && resident_in(old(self)@.instances, instance->Some_0)) ==> r is None,
            final(self)@ == (BindingView {
                instances: match instance {
                    Some(h) => released(old(self)@.instances, h),
                    None => old(self)@.instances,
                },
                ..old(self)@
            }),
    {
        match instance {
            Some(h) => self.instances.release(h),
            None => None,
        }
    }
}

/// A method call that hands its method and instance data back leaves the
/// binding exactly as it was: each later call meets the same callable and the
/// same instance data, however many calls are made, and nothing is freed or
/// lost on the way.
pub proof fn lemma_call_round_trip<M, D>(v: BindingView<M, D>, method: usize, i: usize)
    requires
        v.can_call(method, Some(i)),
    ensures
        v.lent_for_call(method, i).returned_from_call(
            method,
            i,
            v.methods[method as int]->Resident_0,
            v.instances[i as int]->Resident_0,
        ) == v,
{
    let w = v.lent_for_call(method, i).returned_from_call(
        method,
        i,
        v.methods[method as int]->Resident_0,
        v.instances[i as int]->Resident_0,
    );
    assert(w.methods =~= v.methods);
    assert(w.instances =~= v.instances);
}

/// A call on a receiver without instance data can not begin, and since the
/// refusal changes nothing the method stays callable with any receiver that
/// holds instance data.
pub proof fn lemma_foreign_receiver_refused<M, D>(
    v: BindingView<M, D>,
    method: usize,
    receiver: Option<usize>,
    i: usize,
)
    requires
        resident_in(v.methods, method),
        v.lacks_instance(receiver),
        resident_in(v.instances, i),
    ensures
        !v.can_call(method, receiver),
        v.can_call(method, Some(i)),
{
}

/// An object whose constructor failed received no instance handle, so every
/// method call on it is refused as lacking instance data, in every state of
/// the binding.
pub proof fn lemma_failed_construction_inert<M, D>(v: BindingView<M, D>, method: usize)
    ensures
        v.lacks_instance(None),
        !v.can_call(method, None),
{
}

/// A value is released at most once: its slot is not resident afterwards, a
/// second release changes nothing, nothing brings a released slot back, and
/// releasing one handle leaves every other slot as it was.
pub proof fn lemma_release_once<T>(s: Seq<Slot<T>>, h: usize, other: usize, v: T)
    ensures
        !resident_in(released(s, h), h),
        released(released(s, h), h) == released(s, h),
        released(s, h).len() == s.len(),
        other != h && other < s.len() ==> released(s, h)[other as int] == s[other as int],
        resident_in(s, h) ==> released(checked_in(released(s, h), h, v), h) == released(s, h),
        resident_in(s, h) ==> checked_in(released(s, h), h, v)[h as int] is Released,
{
}

/// Methods belong to the class, instance data to each object: a call on one
/// instance and a call on another borrow the same method value, and a call
/// that returns new data for one instance leaves every other instance's data
/// as it was.
pub proof fn lemma_instances_independent<M, D>(
    v: BindingView<M, D>,
    method: usize,
    i: usize,
    j: usize,
    d: D,
)
    requires
        v.can_call(method, Some(i)),
        resident_in(v.instances, j),
        i != j,
    ensures
        ({
            let w = v.lent_for_call(method, i).returned_from_call(
                method,
                i,
                v.methods[method as int]->Resident_0,
                d,
            );
            &&& w.instances[j as int] == v.instances[j as int]
            &&& w.instances[i as int] == Slot::Resident(d)
            &&& w.methods[method as int] == v.methods[method as int]
            &&& w.can_call(method, Some(j))
        }),
{
}

/// The slots after the finalizers of the handles `hs` ran, in order.
pub open spec fn released_all<T>(s: Seq<Slot<T>>, hs: Seq<usize>) -> Seq<Slot<T>>
    decreases hs.len(),
{
    if hs.len() == 0 {
        s
    } else {
        released_all(released(s, hs[0]), hs.drop_first())
    }
}

/// How many of the finalizers of `hs`, run in order, released a value.
pub open spec fn release_count<T>(s: Seq<Slot<T>>, hs: Seq<usize>) -> nat
    decreases hs.len(),
{
    if hs.len() == 0 {
        0
    } else {
        (if resident_in(s, hs[0]) {
            1nat
        } else {
            0nat
        }) + release_count(released(s, hs[0]), hs.drop_first())
    }
}

/// Finalizing `n` distinct live objects, each once, releases each instance
/// exactly once: every one of them is released, nothing else changes, and
/// running all those finalizers again releases nothing more. An object that
/// never received instance data has no handle and no finalizer work.
pub proof fn lemma_lifetimes_release_once<T>(s: Seq<Slot<T>>, hs: Seq<usize>)
    requires
        hs.no_duplicates(),
        forall|k: int| 0 <= k < hs.len() ==> resident_in(s, #[trigger] hs[k]),
    ensures
        release_count(s, hs) == hs.len(),
        released_all(s, hs).len() == s.len(),
        forall|k: int| 0 <= k < hs.len() ==> released_all(s, hs)[#[trigger] hs[k] as int] is Released,
        forall|j: usize| j < s.len() && !hs.contains(j) ==> released_all(s, hs)[j as int] == s[j as int],
        release_count(released_all(s, hs), hs) == 0,
        released_all(released_all(s, hs), hs) == released_all(s, hs),
    decreases hs.len(),
{
    if hs.len() > 0 {
        let h = hs[0];
        let t = released(s, h);
        let rest = hs.drop_first();
        assert forall|k: int| 0 <= k < rest.len() implies resident_in(t, #[trigger] rest[k]) by {
            assert(rest[k] == hs[k + 1]);
            assert(hs[k + 1] != hs[0]);
        }
        assert(rest.no_duplicates()) by {
            assert forall|a: int, b: int| 0 <= a < b < rest.len() implies rest[a] != rest[b] by {
                assert(rest[a] == hs[a + 1] && rest[b] == hs[b + 1]);
            }
        }
        lemma_lifetimes_release_once(t, rest);
        let u = released_all(t, rest);
        assert forall|k: int| 0 <= k < hs.len() implies u[#[trigger] hs[k] as int] is Released by {
            if k > 0 {
                assert(hs[k] == rest[k - 1]);
            } else {
                assert(!rest.contains(h)) by {
                    if rest.contains(h) {
                        let i = choose|i: int| 0 <= i < rest.len() && rest[i] == h;
                        assert(hs[i + 1] == hs[0]);
                    }
                }
            }
        }
        assert forall|j: usize| j < s.len() && !hs.contains(j) implies u[j as int] == s[j as int] by {
            assert(j != h);
            if rest.contains(j) {
                let i = choose|i: int| 0 <= i < rest.len() && rest[i] == j;
                assert(hs[i + 1] == j);
            }
        }
        lemma_nothing_left(u, hs);
    }
}

/// Where every handle of `hs` names a released slot, their finalizers
/// release nothing and change nothing.
pub proof fn lemma_nothing_left<T>(s: Seq<Slot<T>>, hs: Seq<usize>)
    requires
        forall|k: int| 0 <= k < hs.len() ==> s[#[trigger] hs[k] as int] is Released && hs[k] < s.len(),
    ensures
        release_count(s, hs) == 0,
        released_all(s, hs) == s,
    decreases hs.len(),
{
    if hs.len() > 0 {
        let rest = hs.drop_first();
        assert forall|k: int| 0 <= k < rest.len() implies s[#[trigger] rest[k] as int] is Released
            && rest[k] < s.len() by {
            assert(rest[k] == hs[k + 1]);
        }
        lemma_nothing_left(s, rest);
    }
}

} // verus!
