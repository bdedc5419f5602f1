//! The description of a native class before it is materialized.
use vstd::prelude::*;

verus! {

/// What a class puts on its prototype under a name.
pub enum Prototype<M> {
    Method(M),
}

/// The map that a list of named entries describes, read front to back: a
/// later entry under a name replaces an earlier one.
pub open spec fn map_of<V>(s: Seq<(Seq<char>, V)>) -> Map<Seq<char>, V>
    decreases s.len(),
{
    if s.len() == 0 {
        Map::empty()
    } else {
        map_of(s.drop_last()).insert(s.last().0, s.last().1)
    }
}

/// No two entries share a name.
pub open spec fn names_unique<V>(s: Seq<(Seq<char>, V)>) -> bool {
    forall|i: int, j: int| 0 <= i < j < s.len() ==> s[i].0 != s[j].0
}

/// Replacing the entry that holds a name, in a list whose names are unique,
/// stores the new value under that name.
pub proof fn lemma_map_of_update<V>(s: Seq<(Seq<char>, V)>, i: int, v: V)
    requires
        names_unique(s),
        0 <= i < s.len(),
    ensures
        map_of(s.update(i, (s[i].0, v))) == map_of(s).insert(s[i].0, v),
    decreases s.len(),
{
    let k = s[i].0;
    let t = s.update(i, (k, v));
    if i == s.len() - 1 {
        assert(t.drop_last() =~= s.drop_last());
        assert(map_of(t) =~= map_of(s).insert(k, v));
    } else {
        let d = s.drop_last();
        assert(t.drop_last() =~= d.update(i, (k, v)));
        lemma_map_of_update(d, i, v);
        assert(s.last().0 != k);
        assert(map_of(t) =~= map_of(s).insert(k, v));
    }
}

/// The list holds a name exactly when its map does.
pub proof fn lemma_map_of_dom<V>(s: Seq<(Seq<char>, V)>, k: Seq<char>)
    ensures
        map_of(s).contains_key(k) <==> exists|i: int| 0 <= i < s.len() && s[i].0 == k,
    decreases s.len(),
{
    if s.len() > 0 {
        let d = s.drop_last();
        lemma_map_of_dom(d, k);
        if map_of(s).contains_key(k) && s.last().0 != k {
            let i = choose|i: int| 0 <= i < d.len() && d[i].0 == k;
            assert(s[i].0 == k);
        }
        if exists|i: int| 0 <= i < s.len() && s[i].0 == k {
            let i = choose|i: int| 0 <= i < s.len() && s[i].0 == k;
            if i < s.len() - 1 {
                assert(d[i].0 == k);
            }
        }
    }
}

/// Named entries with each name read as its characters.
pub open spec fn entries_of<V>(s: Seq<(String, V)>) -> Seq<(Seq<char>, V)> {
    s.map_values(|e: (String, V)| (e.0@, e.1))
}

/// Accumulates the name, constructor, parent and methods of a class.
pub struct Builder<M, P> {
    name: String,
    ctor: Option<M>,
    parent: Option<P>,
    methods: Vec<(String, Prototype<M>)>,
}

/// A fresh builder: no name, constructor, parent or method.
pub fn build<M, P>() -> (r: Builder<M, P>)
    ensures
        r.name_view().len() == 0,
        r.ctor_view() is None,
        r.parent_view() is None,
        r.entries().len() == 0,
{
    Builder { name: String::new(), ctor: None, parent: None, methods: Vec::new() }
}

impl<M, P> Builder<M, P> {
    #[verifier::type_invariant]
    spec fn well_formed(self) -> bool {
        names_unique(self.entries())
    }

    /// The class name; empty when none was set.
    pub closed spec fn name_view(self) -> Seq<char> {
        self.name@
    }

    pub closed spec fn ctor_view(self) -> Option<M> {
        self.ctor
    }

    pub closed spec fn parent_view(self) -> Option<P> {
        self.parent
    }

    /// The registered entries by name, in the order their names were first
    /// registered.
    pub closed spec fn entries(self) -> Seq<(Seq<char>, Prototype<M>)> {
        entries_of(self.methods@)
    }

    /// What the prototype will hold under each name.
    pub open spec fn prototype_map(self) -> Map<Seq<char>, Prototype<M>> {
        map_of(self.entries())
    }

    pub fn name(&mut self, name: &str) -> (r: &mut Self)
        ensures
            r.name_view() == name@,
            r.ctor_view() == old(self).ctor_view(),
            r.parent_view() == old(self).parent_view(),
            r.entries() == old(self).entries(),
            *final(self) == *final(r),
    {
        proof {
            use_type_invariant(&*self);
        }
        self.name = name.to_owned();
        self
    }

    /// The index of the entry named `name`, if any.
    fn find(&self, name: &String) -> (r: Option<usize>)
        ensures
            r matches Some(i) ==> i < self.entries().len() && self.entries()[i as int].0 == name@,
            r is None ==> forall|i: int| 0 <= i < self.entries().len() ==> self.entries()[i].0 != name@,
    {
        let mut i: usize = 0;
        while i < self.methods.len()
            invariant
                i <= self.methods@.len(),
                self.entries().len() == self.methods@.len(),
                forall|j: int| 0 <= j < i ==> self.entries()[j].0 != name@,
            decreases self.methods@.len() - i,
        {
            if self.methods[i].0 == *name {
                return Some(i);
            }
            i = i + 1;
        }
        None
    }

    /// Registers `prop` under `name`; an entry already under that name is
    /// replaced.
    pub fn set(&mut self, name: &str, prop: Prototype<M>) -> (r: &mut Self)
        ensures
            r.prototype_map() == old(self).prototype_map().insert(name@, prop),
            old(self).prototype_map().contains_key(name@) ==> r.entries().len()
                == old(self).entries().len(),
            !old(self).prototype_map().contains_key(name@) ==> r.entries()
                == old(self).entries().push((name@, prop)),
            r.name_view() == old(self).name_view(),
            r.ctor_view() == old(self).ctor_view(),
            r.parent_view() == old(self).parent_view(),
            *final(self) == *final(r),
    {
        proof {
            use_type_invariant(&*self);
        }
        let ghost before = self.entries();
        let key = name.to_owned();
        let found = self.find(&key);
        proof {
            lemma_map_of_dom(before, name@);
        }
        let mut methods: Vec<(String, Prototype<M>)> = Vec::new();
        proof {
            assert(entries_of(methods@) =~= Seq::empty());
        }
        std::mem::swap(&mut self.methods, &mut methods);
        match found {
            Some(i) => {
                let mut entry = (key, prop);
                std::mem::swap(&mut methods[i], &mut entry);
                proof {
                    assert(entries_of(methods@) =~= before.update(i as int, (name@, prop)));
                    lemma_map_of_update(before, i as int, prop);
                }
            },
            None => {
                methods.push((key, prop));
                proof {
                    assert(entries_of(methods@) =~= before.push((name@, prop)));
                    assert(entries_of(methods@).drop_last() =~= before);
                }
            },
        }
        std::mem::swap(&mut self.methods, &mut methods);
        self
    }

    /// Registers a method under `name`; a method already under that name is
    /// replaced.
    pub fn method(&mut self, name: &str, method: M) -> (r: &mut Self)
        ensures
            r.prototype_map() == old(self).prototype_map().insert(
                name@,
                Prototype::Method(method),
            ),
            old(self).prototype_map().contains_key(name@) ==> r.entries().len()
                == old(self).entries().len(),
            !old(self).prototype_map().contains_key(name@) ==> r.entries()
                == old(self).entries().push((name@, Prototype::Method(method))),
            r.name_view() == old(self).name_view(),
            r.ctor_view() == old(self).ctor_view(),
            r.parent_view() == old(self).parent_view(),
            *final(self) == *final(r),
    {
        self.set(name, Prototype::Method(method))
    }

    /// Sets the custom constructor, replacing any earlier one.
    pub fn constructor(&mut self, ctor: M) -> (r: &mut Self)
        ensures
            r.ctor_view() == Some(ctor),
            r.name_view() == old(self).name_view(),
            r.parent_view() == old(self).parent_view(),
            r.entries() == old(self).entries(),
            *final(self) == *final(r),
    {
        proof {
            use_type_invariant(&*self);
        }
        self.ctor = Some(ctor);
        self
    }

    /// Makes the class inherit from the class whose constructor is `parent`.
    pub fn inherit(&mut self, parent: P) -> (r: &mut Self)
        ensures
            r.parent_view() == Some(parent),
            r.name_view() == old(self).name_view(),
            r.ctor_view() == old(self).ctor_view(),
            r.entries() == old(self).entries(),
            *final(self) == *final(r),
    {
        proof {
            use_type_invariant(&*self);
        }
        self.parent = Some(parent);
        self
    }

    /// Takes the builder apart into its name, constructor, parent and entries.
    pub fn into_parts(self) -> (r: (String, Option<M>, Option<P>, Vec<(String, Prototype<M>)>))
        ensures
            r.0@ == self.name_view(),
            r.1 == self.ctor_view(),
            r.2 == self.parent_view(),
            entries_of(r.3@) == self.entries(),
    {
        proof {
            use_type_invariant(&self);
        }
        let Builder { name, ctor, parent, methods } = self;
        (name, ctor, parent, methods)
    }
}

/// The method that an entry of the prototype stands for.
pub open spec fn method_of<M>(p: Prototype<M>) -> M {
    match p {
        Prototype::Method(m) => m,
    }
}

/// Registering two methods under one name keeps the second alone: the first
/// leaves no trace in the prototype.
pub proof fn lemma_last_method_wins<M>(
    prototype: Map<Seq<char>, Prototype<M>>,
    name: Seq<char>,
    first: M,
    second: M,
)
    ensures
        prototype.insert(name, Prototype::Method(first)).insert(name, Prototype::Method(second))
            == prototype.insert(name, Prototype::Method(second)),
        prototype.insert(name, Prototype::Method(first)).insert(
            name,
            Prototype::Method(second),
        )[name] == Prototype::Method(second),
{
    assert(prototype.insert(name, Prototype::Method(first)).insert(name, Prototype::Method(second))
        =~= prototype.insert(name, Prototype::Method(second)));
}

} // verus!
