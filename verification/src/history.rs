//! Session history: a list of visited addresses with a cursor.

use vstd::prelude::*;

verus! {

/// Visited addresses in order, with the index of the current one.
/// Pushing while back in the list drops the forward entries first.
#[derive(Debug)]
pub struct History {
    entries: Vec<String>,
    current_index: Option<usize>,
}

impl History {
    /// The addresses held, in order.
    pub closed spec fn spec_entries(&self) -> Seq<String> {
        self.entries@
    }

    /// The cursor, when any address is held.
    pub closed spec fn spec_index(&self) -> Option<usize> {
        self.current_index
    }

    /// The cursor always points at a held entry.
    pub open spec fn wf(&self) -> bool {
        match self.spec_index() {
            Some(i) => i < self.spec_entries().len(),
            None => self.spec_entries().len() == 0,
        }
    }

    pub fn new() -> (r: History)
        ensures
            r.wf(),
            r.spec_entries().len() == 0,
            r.spec_index() is None,
    {
        History { entries: Vec::new(), current_index: None }
    }

    /// Visit a new address: forward entries are dropped, the new address
    /// appended, and the cursor moved onto it.
    pub fn push(&mut self, url: String)
        requires
            old(self).wf(),
        ensures
            final(self).wf(),
            final(self).spec_entries() == old(self).spec_entries().take(
                match old(self).spec_index() {
                    Some(i) => i + 1,
                    None => 0,
                },
            ).push(url),
            final(self).spec_index() == Some(
                (final(self).spec_entries().len() - 1) as usize,
            ),
    {
        match self.current_index {
            Some(index) => {
                let n = self.entries.len();
                proof {
                    assert(index < n);
                }
                self.entries.truncate(index + 1);
            },
            None => {
                self.entries.truncate(0);
            },
        }
        self.entries.push(url);
        self.current_index = Some(self.entries.len() - 1);
    }

    /// The current address, if any.
    pub fn current(&self) -> (r: Option<&String>)
        requires
            self.wf(),
        ensures
            match (r, self.spec_index()) {
                (Some(u), Some(i)) => *u == self.spec_entries()[i as int],
                (None, None) => true,
                _ => false,
            },
    {
        match self.current_index {
            Some(i) => Some(&self.entries[i]),
            None => None,
        }
    }

    pub fn can_go_back(&self) -> (r: bool)
        ensures
            r == match self.spec_index() {
                Some(i) => i > 0,
                None => false,
            },
    {
        match self.current_index {
            Some(i) => i > 0,
            None => false,
        }
    }

    pub fn can_go_forward(&self) -> (r: bool)
        requires
            self.wf(),
        ensures
            r == match self.spec_index() {
                Some(i) => i + 1 < self.spec_entries().len(),
                None => false,
            },
    {
        match self.current_index {
            Some(i) => i < self.entries.len() - 1,
            None => false,
        }
    }

    /// Step back one entry and return the address there.
    pub fn go_back(&mut self) -> (r: Option<&String>)
        requires
            old(self).wf(),
        ensures
            final(self).wf(),
            final(self).spec_entries() == old(self).spec_entries(),
            match old(self).spec_index() {
                Some(i) => if i > 0 {
                    final(self).spec_index() == Some((i - 1) as usize) && (r matches Some(u) && *u
                        == final(self).spec_entries()[i - 1])
                } else {
                    final(self).spec_index() == old(self).spec_index() && r is None
                },
                None => final(self).spec_index() is None && r is None,
            },
    {
        if self.can_go_back() {
            match self.current_index {
                Some(i) => {
                    self.current_index = Some(i - 1);
                },
                None => {},
            }
            self.current()
        } else {
            None
        }
    }

    /// Step forward one entry and return the address there.
    pub fn go_forward(&mut self) -> (r: Option<&String>)
        requires
            old(self).wf(),
        ensures
            final(self).wf(),
            final(self).spec_entries() == old(self).spec_entries(),
            match old(self).spec_index() {
                Some(i) => if i + 1 < old(self).spec_entries().len() {
                    final(self).spec_index() == Some((i + 1) as usize) && (r matches Some(u) && *u
                        == final(self).spec_entries()[i + 1])
                } else {
                    final(self).spec_index() == old(self).spec_index() && r is None
                },
                None => final(self).spec_index() is None && r is None,
            },
    {
        if self.can_go_forward() {
            match self.current_index {
                Some(i) => {
                    let n = self.entries.len();
                    proof {
                        assert(i + 1 < n);
                    }
                    self.current_index = Some(i + 1);
                },
                None => {},
            }
            self.current()
        } else {
            None
        }
    }

    pub fn len(&self) -> (r: usize)
        ensures
            r == self.spec_entries().len(),
    {
        self.entries.len()
    }

    pub fn is_empty(&self) -> (r: bool)
        ensures
            r == (self.spec_entries().len() == 0),
    {
        self.entries.len() == 0
    }
}

impl Default for History {
    fn default() -> (r: History)
        ensures
            r.wf(),
            r.spec_entries().len() == 0,
    {
        History::new()
    }
}

} // verus!
