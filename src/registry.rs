//! The ownership records: which identity owns which child.
use vstd::prelude::*;
use crate::error::RegistryError;

verus! {

/// An ownership record as text: the child, then its owner.
pub type EntryText = (Seq<char>, Seq<char>);

/// The texts of a sequence of records.
pub open spec fn entry_texts(v: Seq<(String, String)>) -> Seq<EntryText> {
    v.map_values(|e: (String, String)| (e.0@, e.1@))
}

/// The children of a sequence of records, in order.
pub open spec fn children_of(s: Seq<EntryText>) -> Seq<Seq<char>> {
    s.map_values(|e: EntryText| e.0)
}

/// The owner recorded for `child`, if it has a record.
pub open spec fn owner_in(s: Seq<EntryText>, child: Seq<char>) -> Option<Seq<char>> {
    if children_of(s).contains(child) {
        Some(s[children_of(s).index_of(child)].1)
    } else {
        None
    }
}

/// The records with the one of `child` taken out.
pub open spec fn without_child(s: Seq<EntryText>, child: Seq<char>) -> Seq<EntryText> {
    s.remove(children_of(s).index_of(child))
}

/// The page of at most `limit` records that starts at position `offset`.
pub open spec fn page(s: Seq<EntryText>, offset: int, limit: int) -> Seq<EntryText> {
    let start = if offset < s.len() { offset } else { s.len() as int };
    let end = if limit < s.len() - start { start + limit } else { s.len() as int };
    s.subrange(start, end)
}

/// In a sequence without duplicates, the position of a member is the one
/// where it stands.
pub proof fn lemma_index_of_unique(s: Seq<Seq<char>>, i: int)
    requires
        s.no_duplicates(),
        0 <= i < s.len(),
    ensures
        s.index_of(s[i]) == i,
{
    assert(s.contains(s[i]));
}

/// The ownership records in the order in which they were made; one record
/// per child.
pub struct OwnershipRegistry {
    entries: Vec<(String, String)>,
}

impl View for OwnershipRegistry {
    type V = Seq<EntryText>;

    closed spec fn view(&self) -> Seq<EntryText> {
        entry_texts(self.entries@)
    }
}

impl OwnershipRegistry {
    /// No child has two records.
    pub open spec fn wf(&self) -> bool {
        children_of(self@).no_duplicates()
    }

    /// A registry with no records.
    pub fn new() -> (r: OwnershipRegistry)
        ensures
            r.wf(),
            r@ == Seq::<EntryText>::empty(),
    {
        let r = OwnershipRegistry { entries: Vec::new() };
        assert(r@ =~= Seq::<EntryText>::empty());
        assert(children_of(r@) =~= Seq::<Seq<char>>::empty());
        r
    }

    /// The number of records.
    pub fn len(&self) -> (r: usize)
        ensures
            r == self@.len(),
    {
        self.entries.len()
    }

    /// The position of the record of `child`, if there is one.
    fn position(&self, child: &String) -> (r: Option<usize>)
        requires
            self.wf(),
        ensures
            match r {
                Some(i) => {
                    &&& i < self@.len()
                    &&& self@[i as int].0 == child@
                    &&& children_of(self@).index_of(child@) == i
                    &&& children_of(self@).contains(child@)
                },
                None => !children_of(self@).contains(child@),
            },
    {
        let mut i: usize = 0;
        while i < self.entries.len()
            invariant
                i <= self.entries@.len(),
                self@ == entry_texts(self.entries@),
                children_of(self@).no_duplicates(),
                forall|j: int| 0 <= j < i ==> self@[j].0 != child@,
            decreases self.entries@.len() - i,
        {
            if self.entries[i].0 == *child {
                proof {
                    lemma_index_of_unique(children_of(self@), i as int);
                }
                return Some(i);
            }
            i = i + 1;
        }
        proof {
            assert forall|j: int| 0 <= j < children_of(self@).len() implies children_of(self@)[j]
                != child@ by {
                assert(self@[j].0 != child@);
            }
        }
        None
    }

    /// Whether `child` has a record.
    pub fn contains(&self, child: &String) -> (r: bool)
        requires
            self.wf(),
        ensures
            r == children_of(self@).contains(child@),
    {
        self.position(child).is_some()
    }

    /// The recorded owner of `child`.
    pub fn lookup(&self, child: &String) -> (r: Result<String, RegistryError>)
        requires
            self.wf(),
        ensures
            match r {
                Ok(o) => owner_in(self@, child@) == Some(o@),
                Err(e) => e == RegistryError::UnknownIdentity && owner_in(self@, child@) is None,
            },
    {
        match self.position(child) {
            Some(i) => Ok(self.entries[i].1.clone()),
            None => Err(RegistryError::UnknownIdentity),
        }
    }

    /// Records `owner` as the owner of `child`, which must have no record.
    pub fn insert(&mut self, child: String, owner: String) -> (r: Result<(), RegistryError>)
        requires
            old(self).wf(),
        ensures
            final(self).wf(),
            r is Err <==> children_of(old(self)@).contains(child@),
            r is Err ==> r == Err::<(), RegistryError>(RegistryError::DuplicateIdentity) && final(self)@ == old(self)@,
            r is Ok ==> final(self)@ == old(self)@.push((child@, owner@)),
    {
        if self.contains(&child) {
            return Err(RegistryError::DuplicateIdentity);
        }
        let ghost e = (child@, owner@);
        self.entries.push((child, owner));
        assert(self@ =~= old(self)@.push(e));
        assert(children_of(self@) =~= children_of(old(self)@).push(e.0));
        Ok(())
    }

    /// Takes out the record of `child`, keeping the order of the others.
    pub fn remove(&mut self, child: &String) -> (r: Result<(), RegistryError>)
        requires
            old(self).wf(),
        ensures
            final(self).wf(),
            r is Err <==> !children_of(old(self)@).contains(child@),
            r is Err ==> r == Err::<(), RegistryError>(RegistryError::UnknownIdentity) && final(self)@ == old(self)@,
            r is Ok ==> final(self)@ == without_child(old(self)@, child@),
            forall|e: EntryText| #[trigger] final(self)@.contains(e) ==> old(self)@.contains(e),
    {
        match self.position(child) {
            Some(i) => {
                let ghost before = self@;
                self.entries.remove(i);
                assert(self@ =~= before.remove(i as int));
                assert(children_of(self@) =~= children_of(before).remove(i as int));
                Ok(())
            },
            None => Err(RegistryError::UnknownIdentity),
        }
    }

    /// At most `limit` records, from position `offset` on, in the order in
    /// which they were made.
    pub fn list(&self, offset: usize, limit: usize) -> (r: Vec<(String, String)>)
        ensures
            entry_texts(r@) == page(self@, offset as int, limit as int),
    {
        let len = self.entries.len();
        let start = if offset < len { offset } else { len };
        let end = if limit < len - start { start + limit } else { len };
        let mut r: Vec<(String, String)> = Vec::new();
        let mut i = start;
        while i < end
            invariant
                start <= i <= end <= len,
                len == self.entries@.len(),
                self@ == entry_texts(self.entries@),
                entry_texts(r@) =~= self@.subrange(start as int, i as int),
            decreases end - i,
        {
            let e = &self.entries[i];
            let ghost before = r@;
            r.push((e.0.clone(), e.1.clone()));
            assert(entry_texts(r@) =~= entry_texts(before).push(self@[i as int]));
            i = i + 1;
        }
        r
    }
}

} // verus!
