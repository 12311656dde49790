//! A set of strings that remembers the order in which its members came in.
use vstd::prelude::*;

verus! {

/// The texts of a sequence of strings.
pub open spec fn texts(v: Seq<String>) -> Seq<Seq<char>> {
    v.map_values(|s: String| s@)
}

/// A set of strings kept in insertion order, each member held once.
pub struct StringSet {
    items: Vec<String>,
}

impl View for StringSet {
    type V = Seq<Seq<char>>;

    closed spec fn view(&self) -> Seq<Seq<char>> {
        texts(self.items@)
    }
}

/// A sequence with the first occurrence of `x` taken out.
pub open spec fn without(s: Seq<Seq<char>>, x: Seq<char>) -> Seq<Seq<char>> {
    s.remove_value(x)
}

/// Taking out the member at `i` of a sequence without duplicates is taking
/// out its value.
proof fn lemma_remove_at_is_remove_value(s: Seq<Seq<char>>, i: int)
    requires
        s.no_duplicates(),
        0 <= i < s.len(),
    ensures
        s.remove_value(s[i]) == s.remove(i),
        s.remove(i).no_duplicates(),
        !s.remove(i).contains(s[i]),
{
    s.index_of_first_ensures(s[i]);
    assert(!s.remove(i).contains(s[i]));
}

/// A member of `s.push(x)` is `x` or a member of `s`.
pub proof fn lemma_push_members<A>(s: Seq<A>, x: A)
    ensures
        forall|y: A| #[trigger] s.push(x).contains(y) ==> s.contains(y) || y == x,
{
    assert forall|y: A| #[trigger] s.push(x).contains(y) implies s.contains(y) || y == x by {
        let i = choose|i: int| 0 <= i < s.push(x).len() && s.push(x)[i] == y;
        if i < s.len() {
            assert(s[i] == y);
        }
    }
}

impl StringSet {
    /// Members are held once each.
    pub open spec fn wf(&self) -> bool {
        self@.no_duplicates()
    }

    /// An empty set.
    pub fn new() -> (r: StringSet)
        ensures
            r.wf(),
            r@ == Seq::<Seq<char>>::empty(),
    {
        let r = StringSet { items: Vec::new() };
        assert(r@ =~= Seq::<Seq<char>>::empty());
        r
    }

    /// The number of members.
    pub fn len(&self) -> (r: usize)
        ensures
            r == self@.len(),
    {
        self.items.len()
    }

    /// The position of `x` among the members, if it is one.
    fn position(&self, x: &String) -> (r: Option<usize>)
        ensures
            match r {
                Some(i) => i < self@.len() && self@[i as int] == x@,
                None => !self@.contains(x@),
            },
    {
        let mut i: usize = 0;
        while i < self.items.len()
            invariant
                i <= self.items@.len(),
                self@ == texts(self.items@),
                forall|j: int| 0 <= j < i ==> self@[j] != x@,
            decreases self.items@.len() - i,
        {
            if self.items[i] == *x {
                return Some(i);
            }
            i = i + 1;
        }
        None
    }

    /// Whether `x` is a member.
    pub fn contains(&self, x: &String) -> (r: bool)
        ensures
            r == self@.contains(x@),
    {
        self.position(x).is_some()
    }

    /// Adds `x` at the end unless it is a member already; says whether it
    /// was added.
    pub fn insert(&mut self, x: String) -> (r: bool)
        requires
            old(self).wf(),
        ensures
            final(self).wf(),
            r == !old(self)@.contains(x@),
            final(self)@ == if r { old(self)@.push(x@) } else { old(self)@ },
    {
        if self.contains(&x) {
            false
        } else {
            let ghost xv = x@;
            self.items.push(x);
            assert(self@ =~= old(self)@.push(xv));
            true
        }
    }

    /// Takes `x` out if it is a member, keeping the order of the others;
    /// says whether it was a member.
    pub fn remove(&mut self, x: &String) -> (r: bool)
        requires
            old(self).wf(),
        ensures
            final(self).wf(),
            r == old(self)@.contains(x@),
            final(self)@ == without(old(self)@, x@),
            !final(self)@.contains(x@),
            forall|y: Seq<char>| #[trigger] final(self)@.contains(y) ==> old(self)@.contains(y),
    {
        match self.position(x) {
            Some(i) => {
                proof {
                    lemma_remove_at_is_remove_value(self@, i as int);
                }
                let ghost before = self@;
                self.items.remove(i);
                assert(self@ =~= before.remove(i as int));
                true
            },
            None => {
                proof {
                    self@.index_of_first_ensures(x@);
                }
                false
            },
        }
    }

    /// The members, in the order in which they came in.
    pub fn to_vec(&self) -> (r: Vec<String>)
        ensures
            texts(r@) == self@,
    {
        self.items.clone()
    }
}

} // verus!
