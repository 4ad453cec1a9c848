//! The dispatcher's bookkeeping: the registry of channels keyed by name,
//! the routing of an outbound send back to the channel that produced a
//! message, and the health marks that isolate one crashed channel from the
//! rest. The surrounding process owns the channel tasks themselves — their
//! spawning, cancellation and the merge of their outputs — and consults
//! this registry for every decision about them.

use vstd::prelude::*;
use vstd::string::*;
use crate::text::is_prefix_of;
use crate::text::str_eq;
use crate::text::str_starts_with;

verus! {

/// Whether a message's channel tag names the channel called `name`: the
/// tag is either the bare channel name or the name followed by `-` and a
/// provider sub-type, the shape every channel stamps on its messages.
pub open spec fn tag_names_channel(tag: Seq<char>, name: Seq<char>) -> bool {
    tag == name || (tag.len() > name.len() && is_prefix_of(name, tag) && tag[name.len() as int]
        == '-')
}

/// The first registered channel the tag names, if any.
pub open spec fn route_of(names: Seq<Seq<char>>, tag: Seq<char>) -> Option<int>
    decreases names.len(),
{
    if names.len() == 0 {
        None
    } else if tag_names_channel(tag, names[0]) {
        Some(0)
    } else {
        match route_of(names.drop_first(), tag) {
            Some(i) => Some(i + 1),
            None => None,
        }
    }
}

/// One registered channel: its stable name and whether its task is still
/// considered healthy.
pub struct ChannelEntry {
    pub name: String,
    pub healthy: bool,
}

/// The dispatcher's registry of channels, keyed by name.
pub struct ChannelRegistry {
    pub entries: Vec<ChannelEntry>,
}

/// The registered names, in registration order.
pub open spec fn names_of(entries: Seq<ChannelEntry>) -> Seq<Seq<char>> {
    entries.map_values(|e: ChannelEntry| e.name@)
}

impl ChannelRegistry {
    /// No two channels may answer to the same name.
    pub open spec fn wf(&self) -> bool {
        forall|i: int, j: int|
            0 <= i < j < self.entries@.len() ==> names_of(self.entries@)[i] != names_of(
                self.entries@,
            )[j]
    }

    pub fn new() -> (r: Self)
        ensures
            r.entries@.len() == 0,
            r.wf(),
    {
        ChannelRegistry { entries: Vec::new() }
    }

    /// The index registered under exactly `name`, if any.
    pub fn index_of(&self, name: &str) -> (r: Option<usize>)
        ensures
            match r {
                Some(i) => i < self.entries@.len() && self.entries@[i as int].name@ == name@,
                None => forall|i: int|
                    0 <= i < self.entries@.len() ==> (#[trigger] self.entries@[i]).name@ != name@,
            },
    {
        let n = self.entries.len();
        let mut i: usize = 0;
        while i < n
            invariant
                0 <= i <= n,
                n == self.entries@.len(),
                forall|j: int| 0 <= j < i ==> (#[trigger] self.entries@[j]).name@ != name@,
            decreases n - i,
        {
            if str_eq(self.entries[i].name.as_str(), name) {
                return Some(i);
            }
            i = i + 1;
        }
        None
    }

    /// Adds a channel under `name`, healthy; a name already taken is
    /// refused and nothing changes.
    pub fn register(&mut self, name: String) -> (r: bool)
        requires
            old(self).wf(),
        ensures
            final(self).wf(),
            r == (forall|i: int|
                0 <= i < old(self).entries@.len() ==> (#[trigger] old(self).entries@[i]).name@
                    != name@),
            r ==> final(self).entries@.len() == old(self).entries@.len() + 1
                && final(self).entries@.last().name@ == name@
                && final(self).entries@.last().healthy
                && final(self).entries@.drop_last() == old(self).entries@,
            !r ==> final(self).entries@ == old(self).entries@,
    {
        match self.index_of(name.as_str()) {
            Some(_) => false,
            None => {
                let ghost name_v = name@;
                let ghost olde = self.entries@;
                self.entries.push(ChannelEntry { name, healthy: true });
                proof {
                    assert(self.entries@.drop_last() =~= olde);
                    assert forall|i: int, j: int|
                        0 <= i < j < self.entries@.len() implies names_of(self.entries@)[i]
                        != names_of(self.entries@)[j] by {
                        assert(names_of(self.entries@)[i] == self.entries@[i].name@);
                        assert(names_of(self.entries@)[j] == self.entries@[j].name@);
                        if j == self.entries@.len() - 1 {
                            assert(self.entries@[j].name@ == name_v);
                            assert(self.entries@[i] == olde[i]);
                        } else {
                            assert(self.entries@[i] == olde[i]);
                            assert(self.entries@[j] == olde[j]);
                            assert(names_of(olde)[i] == olde[i].name@);
                            assert(names_of(olde)[j] == olde[j].name@);
                        }
                    }
                }
                true
            },
        }
    }

    /// The channel an outbound send for `tag` is routed to: the first
    /// registered channel the tag names.
    pub fn route_for_tag(&self, tag: &str) -> (r: Option<usize>)
        ensures
            match r {
                Some(i) => i < self.entries@.len() && route_of(names_of(self.entries@), tag@)
                    == Some(i as int),
                None => route_of(names_of(self.entries@), tag@) is None,
            },
    {
        let n = self.entries.len();
        let mut i: usize = 0;
        while i < n
            invariant
                0 <= i <= n,
                n == self.entries@.len(),
                forall|j: int| 0 <= j < i ==> !tag_names_channel(tag@, names_of(self.entries@)[j]),
            decreases n - i,
        {
            let name = &self.entries[i].name;
            let hit = if str_eq(tag, name.as_str()) {
                true
            } else {
                let nlen = name.as_str().unicode_len();
                if tag.unicode_len() > nlen && str_starts_with(tag, name.as_str()) {
                    tag.get_char(nlen) == '-'
                } else {
                    false
                }
            };
            proof {
                assert(names_of(self.entries@)[i as int] == self.entries@[i as int].name@);
                assert(hit == tag_names_channel(tag@, names_of(self.entries@)[i as int]));
            }
            if hit {
                proof {
                    lemma_route_of_first_hit(names_of(self.entries@), tag@, i as int);
                }
                return Some(i);
            }
            i = i + 1;
        }
        proof {
            lemma_route_of_no_hit(names_of(self.entries@), tag@);
        }
        None
    }

    /// Marks the channel registered under `name` unhealthy — the fault
    /// isolation step after its task dies; the other channels are
    /// untouched.
    pub fn mark_unhealthy(&mut self, name: &str)
        requires
            old(self).wf(),
        ensures
            final(self).wf(),
            final(self).entries@.len() == old(self).entries@.len(),
            forall|i: int|
                0 <= i < old(self).entries@.len() ==> (#[trigger] final(self).entries@[i]).name
                    == old(self).entries@[i].name,
            forall|i: int|
                0 <= i < old(self).entries@.len() ==> (#[trigger] final(self).entries@[i]).healthy
                    == (if old(self).entries@[i].name@ == name@ {
                    false
                } else {
                    old(self).entries@[i].healthy
                }),
    {
        let n = self.entries.len();
        let mut i: usize = 0;
        while i < n
            invariant
                0 <= i <= n,
                n == self.entries@.len(),
                self.entries@.len() == old(self).entries@.len(),
                forall|j: int|
                    0 <= j < n ==> (#[trigger] self.entries@[j]).name == old(self).entries@[j].name,
                forall|j: int|
                    0 <= j < i ==> (#[trigger] self.entries@[j]).healthy == (if old(
                        self,
                    ).entries@[j].name@ == name@ {
                        false
                    } else {
                        old(self).entries@[j].healthy
                    }),
                forall|j: int|
                    i <= j < n ==> (#[trigger] self.entries@[j]).healthy == old(
                        self,
                    ).entries@[j].healthy,
            decreases n - i,
        {
            if str_eq(self.entries[i].name.as_str(), name) {
                let e = &self.entries[i];
                let replacement = ChannelEntry { name: e.name.clone(), healthy: false };
                self.entries.set(i, replacement);
            }
            i = i + 1;
        }
        proof {
            assert(names_of(self.entries@) =~= names_of(old(self).entries@));
        }
    }

    /// Whether the channel registered under `name` is still healthy; an
    /// unknown name reports unhealthy.
    pub fn is_healthy(&self, name: &str) -> (r: bool)
        requires
            self.wf(),
        ensures
            r == exists|i: int|
                0 <= i < self.entries@.len() && (#[trigger] self.entries@[i]).name@ == name@
                    && self.entries@[i].healthy,
    {
        match self.index_of(name) {
            Some(i) => {
                let h = self.entries[i].healthy;
                proof {
                    if h {
                        assert(self.entries@[i as int].name@ == name@
                            && self.entries@[i as int].healthy);
                    } else {
                        assert forall|j: int|
                            0 <= j < self.entries@.len() && (#[trigger] self.entries@[j]).name@
                                == name@ implies !self.entries@[j].healthy by {
                            if j != i {
                                assert(names_of(self.entries@)[j] == self.entries@[j].name@);
                                assert(names_of(self.entries@)[i as int]
                                    == self.entries@[i as int].name@);
                            }
                        }
                    }
                }
                h
            },
            None => false,
        }
    }
}

proof fn lemma_route_of_first_hit(names: Seq<Seq<char>>, tag: Seq<char>, i: int)
    requires
        0 <= i < names.len(),
        tag_names_channel(tag, names[i]),
        forall|j: int| 0 <= j < i ==> !tag_names_channel(tag, #[trigger] names[j]),
    ensures
        route_of(names, tag) == Some(i),
    decreases i,
{
    if i > 0 {
        lemma_route_of_first_hit(names.drop_first(), tag, i - 1);
    }
}

proof fn lemma_route_of_no_hit(names: Seq<Seq<char>>, tag: Seq<char>)
    requires
        forall|j: int| 0 <= j < names.len() ==> !tag_names_channel(tag, #[trigger] names[j]),
    ensures
        route_of(names, tag) is None,
    decreases names.len(),
{
    if names.len() > 0 {
        lemma_route_of_no_hit(names.drop_first(), tag);
    }
}

/// A message tagged by a registered channel is always routable: whatever
/// tag a channel builds from its name and a sub-type, some channel —
/// possibly an earlier one whose name also fits — is found for it.
pub proof fn lemma_tagged_message_routable(
    names: Seq<Seq<char>>,
    i: int,
    sub: Seq<char>,
    tag: Seq<char>,
)
    requires
        0 <= i < names.len(),
        tag == names[i] + seq!['-'] + sub,
    ensures
        route_of(names, tag) is Some,
    decreases names.len(),
{
    assert(tag.subrange(0, names[i].len() as int) =~= names[i]);
    assert(tag_names_channel(tag, names[i]));
    if i > 0 && !tag_names_channel(tag, names[0]) {
        lemma_tagged_message_routable(names.drop_first(), i - 1, sub, tag);
    }
}

} // verus!
