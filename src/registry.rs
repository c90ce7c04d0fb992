//! The active watch sessions, at most one per folder path.
use vstd::prelude::*;
use crate::keyed::KeyedList;

verus! {

/// Active sessions keyed by folder path; `T` is whatever the host keeps per session.
pub struct SessionRegistry<T> {
    sessions: KeyedList<T>,
}

impl<T> View for SessionRegistry<T> {
    type V = Map<Seq<char>, T>;

    closed spec fn view(&self) -> Map<Seq<char>, T> {
        self.sessions@
    }
}

impl<T> SessionRegistry<T> {
    /// Internal consistency of the registry.
    pub closed spec fn wf(&self) -> bool {
        self.sessions.wf()
    }

    /// A registry without sessions.
    pub fn new() -> (r: Self)
        ensures
            r.wf(),
            r@ == Map::<Seq<char>, T>::empty(),
    {
        SessionRegistry { sessions: KeyedList::new() }
    }

    /// Whether a session runs for `folder`.
    pub fn is_watching(&self, folder: &str) -> (r: bool)
        requires
            self.wf(),
        ensures
            r == self@.contains_key(folder@),
    {
        self.sessions.contains_key(folder)
    }

    /// The session of `folder`, if one runs.
    pub fn session(&self, folder: &str) -> (r: Option<&T>)
        requires
            self.wf(),
        ensures
            match r {
                Some(s) => self@.contains_key(folder@) && *s == self@[folder@],
                None => !self@.contains_key(folder@),
            },
    {
        self.sessions.get(folder)
    }

    /// Registers `session` for `folder`. A session already running for that folder is
    /// replaced and handed back, for the caller to stop: starting is stop-then-start.
    pub fn start_watch(&mut self, folder: String, session: T) -> (r: Option<T>)
        requires
            old(self).wf(),
        ensures
            final(self).wf(),
            final(self)@ == old(self)@.insert(folder@, session),
            match r {
                Some(s) => old(self)@.contains_key(folder@) && s == old(self)@[folder@],
                None => !old(self)@.contains_key(folder@),
            },
    {
        let previous = self.sessions.remove(folder.as_str());
        proof {
            assert(old(self)@.remove(folder@).insert(folder@, session) =~= old(self)@.insert(folder@, session));
        }
        self.sessions.insert(folder, session);
        previous
    }

    /// Unregisters the session of `folder` and hands it back for the caller to stop;
    /// does nothing when none runs.
    pub fn stop_watch(&mut self, folder: &str) -> (r: Option<T>)
        requires
            old(self).wf(),
        ensures
            final(self).wf(),
            final(self)@ == old(self)@.remove(folder@),
            match r {
                Some(s) => old(self)@.contains_key(folder@) && s == old(self)@[folder@],
                None => !old(self)@.contains_key(folder@),
            },
    {
        self.sessions.remove(folder)
    }

    /// The folders with a running session.
    pub fn folders(&self) -> (r: Vec<String>)
        requires
            self.wf(),
        ensures
            r@.len() == self@.dom().len(),
            forall|i: int| 0 <= i < r@.len() ==> self@.contains_key(#[trigger] r@[i]@),
            forall|k: Seq<char>| #[trigger] self@.contains_key(k) ==> exists|i: int| 0 <= i < r@.len() && r@[i]@ == k,
    {
        self.sessions.keys()
    }

    /// The number of running sessions.
    pub fn len(&self) -> (r: usize)
        requires
            self.wf(),
        ensures
            r == self@.dom().len(),
    {
        self.sessions.len()
    }
}

} // verus!
