//! The session's view of already-specialized types.
//!
//! A [`SpecializationContext`] maps the names of concrete types that earlier
//! declarations produced to their descriptors.  Specialization calls read it
//! to resolve type-valued generic arguments and member layouts; the framework
//! never writes to it, so its mathematical value is simply a map from names
//! to descriptor views, with later declarations shadowing earlier ones.

use vstd::prelude::*;

use crate::ids::ConcreteTypeId;
use crate::types::ConcreteTypeInfo;
use crate::types::ConcreteTypeInfoView;

verus! {

/// The map denoted by a declaration list: each entry inserted in order, so a
/// later declaration of the same name shadows an earlier one.
pub open spec fn entries_map(s: Seq<(ConcreteTypeId, ConcreteTypeInfo)>) -> Map<
    Seq<char>,
    ConcreteTypeInfoView,
>
    decreases s.len(),
{
    if s.len() == 0 {
        Map::empty()
    } else {
        entries_map(s.drop_last()).insert(s.last().0@, s.last().1@)
    }
}

/// Entries whose names all differ from `k` do not affect what the map says
/// about `k`.
proof fn lemma_entries_map_skip(s: Seq<(ConcreteTypeId, ConcreteTypeInfo)>, k: Seq<char>, i: int)
    requires
        0 <= i <= s.len(),
        forall|j: int| i <= j < s.len() ==> (#[trigger] s[j]).0@ != k,
    ensures
        entries_map(s).contains_key(k) == entries_map(s.take(i)).contains_key(k),
        entries_map(s).contains_key(k) ==> entries_map(s)[k] == entries_map(s.take(i))[k],
    decreases s.len() - i,
{
    if i == s.len() {
        assert(s.take(i) =~= s);
    } else {
        lemma_entries_map_skip(s.drop_last(), k, i);
        assert(s.drop_last().take(i) =~= s.take(i));
    }
}

/// Read access to the types a session has specialized so far, keyed by their
/// concrete names.
#[derive(Debug)]
pub struct SpecializationContext {
    types: Vec<(ConcreteTypeId, ConcreteTypeInfo)>,
}

impl View for SpecializationContext {
    type V = Map<Seq<char>, ConcreteTypeInfoView>;

    closed spec fn view(&self) -> Map<Seq<char>, ConcreteTypeInfoView> {
        entries_map(self.types@)
    }
}

impl SpecializationContext {
    /// An empty context: no type resolves.
    pub fn new() -> (r: SpecializationContext)
        ensures
            r@ == Map::<Seq<char>, ConcreteTypeInfoView>::empty(),
    {
        SpecializationContext { types: Vec::new() }
    }

    /// Records a specialized type under its concrete name, shadowing any
    /// earlier declaration of that name.
    pub fn declare_type(&mut self, id: ConcreteTypeId, info: ConcreteTypeInfo)
        ensures
            final(self)@ == old(self)@.insert(id@, info@),
    {
        let ghost gid = id@;
        let ghost ginfo = info@;
        self.types.push((id, info));
        proof {
            assert(self.types@.drop_last() =~= old(self).types@);
            assert(self.types@.last().0@ == gid);
            assert(self.types@.last().1@ == ginfo);
        }
    }

    /// Resolves a concrete type name to its descriptor, or `None` when the
    /// session knows no such type.
    pub fn get_type_info(&self, id: &ConcreteTypeId) -> (r: Option<&ConcreteTypeInfo>)
        ensures
            (match r {
                Some(info) => self@.contains_key(id@) && info@ == self@[id@],
                None => !self@.contains_key(id@),
            }),
    {
        let mut i: usize = self.types.len();
        while i > 0
            invariant
                i <= self.types@.len(),
                forall|j: int| i <= j < self.types@.len() ==> (#[trigger] self.types@[j]).0@ != id@,
            decreases i,
        {
            i = i - 1;
            if self.types[i].0 == *id {
                proof {
                    lemma_entries_map_skip(self.types@, id@, i + 1);
                    assert(self.types@.take(i + 1).drop_last() =~= self.types@.take(i as int));
                    assert(self.types@.take(i + 1).last() == self.types@[i as int]);
                }
                return Some(&self.types[i].1);
            }
        }
        proof {
            lemma_entries_map_skip(self.types@, id@, 0);
            assert(self.types@.take(0).len() == 0);
        }
        None
    }

    /// Whether the session knows a type of this name.
    pub fn contains_type(&self, id: &ConcreteTypeId) -> (r: bool)
        ensures
            r == self@.contains_key(id@),
    {
        match self.get_type_info(id) {
            Some(_) => true,
            None => false,
        }
    }
}

} // verus!
