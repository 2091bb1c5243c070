//! Nested scopes of names: a name stands for what the innermost scope that
//! binds it says.

use vstd::prelude::*;

verus! {

/// A name and what it is bound to.
pub struct Binding<T> {
    pub name: String,
    pub bound: T,
}

/// A stack of scopes, the innermost last.
pub struct Scopes<T> {
    frames: Vec<Vec<Binding<T>>>,
}

/// What the bindings of one scope say: each name stands for what was bound
/// to it last.
pub open spec fn frame_map<T: View>(entries: Seq<Binding<T>>) -> Map<Seq<char>, T::V>
    decreases entries.len(),
{
    if entries.len() == 0 {
        Map::empty()
    } else {
        frame_map(entries.drop_last()).insert(entries.last().name@, entries.last().bound@)
    }
}

/// What `name` stands for in `scopes`: what the innermost scope that binds
/// it says.
pub open spec fn resolve<V>(scopes: Seq<Map<Seq<char>, V>>, name: Seq<char>) -> Option<V>
    decreases scopes.len(),
{
    if scopes.len() == 0 {
        None
    } else if scopes.last().contains_key(name) {
        Some(scopes.last()[name])
    } else {
        resolve(scopes.drop_last(), name)
    }
}

/// A scope binds `name` exactly if one of its bindings has that name, and
/// says what the last such binding holds.
pub proof fn frame_map_says_latest<T: View>(entries: Seq<Binding<T>>, name: Seq<char>, from: int)
    requires
        0 <= from <= entries.len(),
        forall|k: int| from <= k < entries.len() ==> (#[trigger] entries[k]).name@ != name,
    ensures
        from == 0 ==> !frame_map(entries).contains_key(name),
        from > 0 && entries[from - 1].name@ == name ==> frame_map(entries).contains_key(name)
            && frame_map(entries)[name] == entries[from - 1].bound@,
    decreases entries.len(),
{
    if entries.len() > 0 {
        if from < entries.len() {
            frame_map_says_latest(entries.drop_last(), name, from);
        } else if entries[from - 1].name@ != name {
        }
    }
}

impl<T: View> View for Scopes<T> {
    type V = Seq<Map<Seq<char>, T::V>>;

    closed spec fn view(&self) -> Seq<Map<Seq<char>, T::V>> {
        Seq::new(self.frames@.len(), |i: int| frame_map(self.frames@[i]@))
    }
}

impl<T: View> Scopes<T> {
    /// No scope at all.
    pub fn new() -> (scopes: Scopes<T>)
        ensures
            scopes@ == Seq::<Map<Seq<char>, T::V>>::empty(),
    {
        let scopes = Scopes { frames: Vec::new() };
        assert(scopes@ =~= Seq::<Map<Seq<char>, T::V>>::empty());
        scopes
    }

    /// How many scopes are open.
    pub fn depth(&self) -> (n: usize)
        ensures
            n == self@.len(),
    {
        self.frames.len()
    }

    /// Opens a scope that binds nothing.
    pub fn enter(&mut self)
        ensures
            final(self)@ == old(self)@.push(Map::empty()),
    {
        self.frames.push(Vec::new());
        assert(final(self)@ =~= old(self)@.push(Map::empty()));
    }

    /// Closes the innermost scope; with no scope open nothing changes.
    pub fn leave(&mut self)
        ensures
            final(self)@ == if old(self)@.len() > 0 {
                old(self)@.drop_last()
            } else {
                old(self)@
            },
    {
        self.frames.pop();
        proof {
            if old(self)@.len() > 0 {
                assert(final(self)@ =~= old(self)@.drop_last());
            } else {
                assert(final(self)@ =~= old(self)@);
            }
        }
    }

    /// Binds `name` to `bound` in the innermost scope, in place of what it
    /// stood for there. `None`, and no change, with no scope open.
    pub fn bind(&mut self, name: String, bound: T) -> (r: Option<()>)
        ensures
            r is Some <==> old(self)@.len() > 0,
            final(self)@ == if old(self)@.len() > 0 {
                old(self)@.drop_last().push(old(self)@.last().insert(name@, bound@))
            } else {
                old(self)@
            },
    {
        match self.frames.pop() {
            Some(mut frame) => {
                let ghost before = frame@;
                frame.push(Binding { name, bound });
                assert(frame@.drop_last() =~= before);
                self.frames.push(frame);
                assert(final(self)@ =~= old(self)@.drop_last().push(
                    old(self)@.last().insert(name@, bound@),
                ));
                Some(())
            },
            None => {
                assert(final(self)@ =~= old(self)@);
                None
            },
        }
    }

    /// What `name` is bound to in the scope at `depth`, counted from the
    /// outermost, if there is such a scope and it binds the name.
    pub fn find_in(&self, depth: usize, name: &String) -> (r: Option<&T>)
        ensures
            r is Some <==> depth < self@.len() && self@[depth as int].contains_key(name@),
            r matches Some(bound) ==> bound@ == self@[depth as int][name@],
    {
        if depth >= self.frames.len() {
            return None;
        }
        let frame = &self.frames[depth];
        let mut left: usize = frame.len();
        while left > 0
            invariant
                left <= frame@.len(),
                frame@ == self.frames@[depth as int]@,
                depth < self.frames@.len(),
                forall|k: int| left <= k < frame@.len() ==> (#[trigger] frame@[k]).name@ != name@,
            decreases left,
        {
            if frame[left - 1].name == *name {
                proof {
                    frame_map_says_latest(frame@, name@, left as int);
                }
                return Some(&frame[left - 1].bound);
            }
            left -= 1;
        }
        proof {
            frame_map_says_latest(frame@, name@, 0);
        }
        None
    }

    /// What `name` stands for: what the innermost scope that binds it says.
    pub fn find(&self, name: &String) -> (r: Option<&T>)
        ensures
            r is Some <==> resolve(self@, name@) is Some,
            r matches Some(bound) ==> Some(bound@) == resolve(self@, name@),
    {
        let mut depth: usize = self.frames.len();
        assert(self@.take(depth as int) =~= self@);
        while depth > 0
            invariant
                depth <= self@.len(),
                self@.len() == self.frames@.len(),
                resolve(self@, name@) == resolve(self@.take(depth as int), name@),
            decreases depth,
        {
            let found = self.find_in(depth - 1, name);
            if found.is_some() {
                assert(self@.take(depth as int).last() == self@[depth - 1]);
                return found;
            }
            assert(self@.take(depth as int).drop_last() =~= self@.take(depth - 1));
            assert(self@.take(depth as int).last() == self@[depth - 1]);
            depth -= 1;
        }
        None
    }

    /// What `name` is bound to in the innermost scope, if a scope is open
    /// and binds it.
    pub fn find_innermost(&self, name: &String) -> (r: Option<&T>)
        ensures
            r is Some <==> self@.len() > 0 && self@.last().contains_key(name@),
            r matches Some(bound) ==> bound@ == self@.last()[name@],
    {
        if self.frames.len() == 0 {
            None
        } else {
            self.find_in(self.frames.len() - 1, name)
        }
    }
}

} // verus!
