use vstd::prelude::*;

verus! {

/// What removing every occurrence of `name` leaves of the list `s`,
/// keeping the order of the survivors.
pub open spec fn without_name(s: Seq<Seq<char>>, name: Seq<char>) -> Seq<Seq<char>>
    decreases s.len(),
{
    if s.len() == 0 {
        s
    } else {
        let rest = without_name(s.drop_last(), name);
        if s.last() == name {
            rest
        } else {
            rest.push(s.last())
        }
    }
}

/// The ordered collection of currently-joined display names.
///
/// Order is join order; duplicates are permitted (two sessions may draw the
/// same generated name).
pub struct Registry {
    pub names: Vec<String>,
}

impl Registry {
    /// The registry's contents as a sequence of character sequences.
    pub open spec fn view_names(self) -> Seq<Seq<char>> {
        self.names.deep_view()
    }

    pub fn new() -> (r: Registry)
        ensures
            r.view_names() == Seq::<Seq<char>>::empty(),
    {
        let r = Registry { names: Vec::new() };
        assert(r.view_names() =~= Seq::<Seq<char>>::empty());
        r
    }

    /// Appends `name`; never fails, and never rejects a duplicate.
    pub fn add(&mut self, name: String)
        ensures
            final(self).view_names() == old(self).view_names().push(name@),
    {
        let ghost n = name@;
        self.names.push(name);
        assert(self.names.deep_view() =~= old(self).names.deep_view().push(n));
    }

    /// Removes every entry equal to `name`; removing an absent name leaves
    /// the registry unchanged.
    pub fn remove(&mut self, name: &String)
        ensures
            final(self).view_names() == without_name(old(self).view_names(), name@),
    {
        let mut kept: Vec<String> = Vec::new();
        let mut i: usize = 0;
        while i < self.names.len()
            invariant
                i <= self.names.len(),
                kept.deep_view() == without_name(
                    self.names.deep_view().subrange(0, i as int),
                    name@,
                ),
            decreases self.names.len() - i,
        {
            let ghost prefix = self.names.deep_view().subrange(0, i as int);
            let ghost next_prefix = self.names.deep_view().subrange(0, i as int + 1);
            assert(next_prefix.drop_last() =~= prefix);
            assert(next_prefix.last() == self.names.deep_view()[i as int]);
            if !string_eq(&self.names[i], name) {
                kept.push(self.names[i].clone());
                assert(kept.deep_view() =~= without_name(prefix, name@).push(
                    self.names.deep_view()[i as int],
                ));
            }
            i += 1;
        }
        assert(self.names.deep_view().subrange(0, self.names@.len() as int) =~= self
            .names
            .deep_view());
        self.names = kept;
    }

    /// An immutable copy of the current contents, consistent with the most
    /// recently completed `add`/`remove`.
    pub fn snapshot(&self) -> (r: Vec<String>)
        ensures
            r.deep_view() == self.view_names(),
    {
        crate::message::clone_names(&self.names)
    }

    /// How many names are currently joined.
    pub fn len(&self) -> (n: usize)
        ensures
            n == self.view_names().len(),
    {
        self.names.len()
    }
}

/// Character-for-character equality of two names.
pub fn string_eq(a: &String, b: &String) -> (r: bool)
    ensures
        r == (a@ == b@),
{
    a.eq(b)
}

/// Removal really removes every occurrence: no entry equal to `name`
/// survives it.
pub proof fn lemma_remove_removes_all(s: Seq<Seq<char>>, name: Seq<char>)
    ensures
        forall|k: int|
            0 <= k < without_name(s, name).len() ==> #[trigger] without_name(s, name)[k] != name,
    decreases s.len(),
{
    if s.len() > 0 {
        lemma_remove_removes_all(s.drop_last(), name);
        let rest = without_name(s.drop_last(), name);
        if s.last() != name {
            assert(without_name(s, name) == rest.push(s.last()));
            assert forall|k: int|
                0 <= k < without_name(s, name).len() implies #[trigger] without_name(s, name)[k]
                != name by {
                if k < rest.len() {
                    assert(rest[k] != name);
                }
            }
        }
    }
}

/// Removing a name that is not present is a no-op on the registry.
pub proof fn lemma_remove_absent(s: Seq<Seq<char>>, name: Seq<char>)
    requires
        !s.contains(name),
    ensures
        without_name(s, name) == s,
    decreases s.len(),
{
    if s.len() > 0 {
        assert(s[s.len() - 1] != name);
        assert(forall|k: int| 0 <= k < s.len() - 1 ==> s.drop_last()[k] == s[k]);
        lemma_remove_absent(s.drop_last(), name);
        assert(without_name(s, name) =~= s);
    }
}

} // verus!
