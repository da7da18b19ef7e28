//! Grouping of drawable items by style, in order of first appearance.
//!
//! Items that share a style are written as one group. A style is identified
//! by its key, a pair of integers; the groups are found again through an
//! `FxHashMap` from keys to positions, and written in the order in which
//! their first items came.

use vstd::prelude::*;
use rustc_hash::FxHashMap;
use crate::fx::{index_get, index_insert};
use crate::text::{decimal_digits, push_decimal, push_wire_all, wire_all, Wire};

verus! {

/// A style that a key identifies: two styles with the same key belong to the
/// same group.
pub trait Keyed {
    /// The key of the style.
    spec fn key(&self) -> (u64, u64);

    /// Computes the key.
    fn key_of(&self) -> (k: (u64, u64))
        ensures
            k == self.key(),
    ;
}

/// One group as the contracts see it: its style, and the members in the
/// order in which they were added.
pub struct GroupView<H, T> {
    pub head: H,
    pub members: Seq<T>,
}

/// The position of the group with the given key among the first `n` groups.
pub open spec fn group_position<H: Keyed, T>(
    gs: Seq<GroupView<H, T>>,
    key: (u64, u64),
    n: int,
) -> Option<int>
    decreases n,
{
    if n <= 0 {
        None
    } else if group_position(gs, key, n - 1) is Some {
        group_position(gs, key, n - 1)
    } else if n <= gs.len() && gs[n - 1].head.key() == key {
        Some(n - 1)
    } else {
        None
    }
}

/// The groups after `items` were added under the style `head`: appended to
/// the group whose style has the same key where there is one, else held by a
/// new last group with that style.
pub open spec fn grouped_extend<H: Keyed, T>(
    gs: Seq<GroupView<H, T>>,
    head: H,
    items: Seq<T>,
) -> Seq<GroupView<H, T>> {
    match group_position(gs, head.key(), gs.len() as int) {
        Some(i) => gs.update(i, GroupView { head: gs[i].head, members: gs[i].members + items }),
        None => gs.push(GroupView { head, members: items }),
    }
}

/// No two groups share a key.
pub open spec fn keys_distinct<H: Keyed, T>(gs: Seq<GroupView<H, T>>) -> bool {
    forall|i: int, j: int|
        0 <= i < gs.len() && 0 <= j < gs.len() && i != j ==> (#[trigger] gs[i]).head.key() != (
        #[trigger] gs[j]).head.key()
}

/// `group_position` finds a key exactly when a group has it, and then
/// returns a position that holds it.
pub proof fn lemma_group_position<H: Keyed, T>(gs: Seq<GroupView<H, T>>, key: (u64, u64), n: int)
    requires
        0 <= n <= gs.len(),
    ensures
        match group_position(gs, key, n) {
            Some(i) => 0 <= i < n && gs[i].head.key() == key,
            None => forall|j: int| 0 <= j < n ==> (#[trigger] gs[j]).head.key() != key,
        },
    decreases n,
{
    if n > 0 {
        lemma_group_position(gs, key, n - 1);
    }
}

/// Adding items keeps the keys distinct, and never removes a group or a
/// member.
pub proof fn lemma_extend_keeps_distinct<H: Keyed, T>(
    gs: Seq<GroupView<H, T>>,
    head: H,
    items: Seq<T>,
)
    requires
        keys_distinct(gs),
    ensures
        keys_distinct(grouped_extend(gs, head, items)),
        grouped_extend(gs, head, items).len() >= gs.len(),
{
    lemma_group_position(gs, head.key(), gs.len() as int);
}

/// The line that one group writes: its style, the number of its members,
/// then the members.
pub open spec fn group_line<H: Wire, T: Wire>(g: GroupView<H, T>) -> Seq<char> {
    g.head.wire() + " "@ + decimal_digits(g.members.len()) + wire_all(g.members) + "\n"@
}

/// The lines of the groups, in their order.
pub open spec fn group_lines<H: Wire, T: Wire>(gs: Seq<GroupView<H, T>>) -> Seq<char>
    decreases gs.len(),
{
    if gs.len() == 0 {
        Seq::empty()
    } else {
        group_lines(gs.drop_last()) + group_line(gs.last())
    }
}

/// A counted block of group lines: the number of groups on a line of its
/// own, then one line for each group.
pub open spec fn group_block<H: Wire, T: Wire>(gs: Seq<GroupView<H, T>>) -> Seq<char> {
    decimal_digits(gs.len()) + "\n"@ + group_lines(gs)
}

struct Group<H, T> {
    head: H,
    members: Vec<T>,
}

/// Items grouped by the key of their style, the groups kept in order of
/// first appearance.
pub struct Groups<H: Keyed, T> {
    entries: Vec<Group<H, T>>,
    index: FxHashMap<(u64, u64), usize>,
}

impl<H: Keyed, T> Groups<H, T> {
    #[verifier::type_invariant]
    spec fn well_formed(self) -> bool {
        &&& forall|i: int|
            0 <= i < self.entries@.len() ==> {
                &&& self.index@.contains_key((#[trigger] self.entries@[i]).head.key())
                &&& self.index@[self.entries@[i].head.key()] == i
            }
        &&& forall|k: (u64, u64)| #[trigger]
            self.index@.contains_key(k) ==> {
                &&& self.index@[k] < self.entries@.len()
                &&& self.entries@[self.index@[k] as int].head.key() == k
            }
    }

    /// The groups, first added first.
    pub closed spec fn view(&self) -> Seq<GroupView<H, T>> {
        Seq::new(
            self.entries@.len(),
            |i: int| GroupView { head: self.entries@[i].head, members: self.entries@[i].members@ },
        )
    }

    /// No groups.
    pub fn new() -> (g: Self)
        ensures
            g@ == Seq::<GroupView<H, T>>::empty(),
    {
        let g = Groups { entries: Vec::new(), index: FxHashMap::default() };
        assert(g@ =~= Seq::<GroupView<H, T>>::empty());
        g
    }

    /// Adds `items` under the style `head`.
    pub fn extend(self, head: H, items: Vec<T>) -> (g: Self)
        ensures
            g@ == grouped_extend(self@, head, items@),
            keys_distinct(g@),
    {
        let key = head.key_of();
        proof {
            use_type_invariant(&self);
            lemma_group_position(self@, key, self@.len() as int);
        }
        let ghost before = self@;
        let ghost found = group_position(before, key, before.len() as int);
        proof {
            if found is Some {
                let j = found->0;
                assert(self.entries@[j].head.key() == key);
                assert(self.index@[key] == j);
            }
        }
        let Groups { mut entries, mut index } = self;
        let mut items = items;
        let ghost added = items@;
        match index_get(&index, key) {
            Some(i) => {
                assert(before[i as int].head.key() == key);
                assert(found == Some(i as int));
                entries[i].members.append(&mut items);
                let g = Groups { entries, index };
                assert(g@ =~= grouped_extend(before, head, added));
                g
            },
            None => {
                let at = entries.len();
                entries.push(Group { head, members: items });
                index_insert(&mut index, key, at);
                let g = Groups { entries, index };
                assert(g@ =~= grouped_extend(before, head, added));
                g
            },
        }
    }

    /// Adds one item under the style `head`.
    pub fn push(self, head: H, item: T) -> (g: Self)
        ensures
            g@ == grouped_extend(self@, head, seq![item]),
            keys_distinct(g@),
    {
        let key = head.key_of();
        proof {
            use_type_invariant(&self);
            lemma_group_position(self@, key, self@.len() as int);
        }
        let ghost before = self@;
        let ghost found = group_position(before, key, before.len() as int);
        proof {
            if found is Some {
                let j = found->0;
                assert(self.entries@[j].head.key() == key);
                assert(self.index@[key] == j);
            }
        }
        let Groups { mut entries, mut index } = self;
        match index_get(&index, key) {
            Some(i) => {
                assert(before[i as int].head.key() == key);
                assert(found == Some(i as int));
                let ghost earlier = entries@[i as int].members@;
                entries[i].members.push(item);
                let g = Groups { entries, index };
                assert(earlier.push(item) =~= earlier + seq![item]);
                assert(g@[i as int].members == before[i as int].members + seq![item]);
                assert(g@ =~= grouped_extend(before, head, seq![item]));
                g
            },
            None => {
                let at = entries.len();
                let mut members = Vec::new();
                members.push(item);
                entries.push(Group { head, members });
                index_insert(&mut index, key, at);
                let g = Groups { entries, index };
                assert(g@ =~= grouped_extend(before, head, seq![item]));
                g
            },
        }
    }

    /// The number of groups.
    pub fn len(&self) -> (n: usize)
        ensures
            n == self@.len(),
            keys_distinct(self@),
    {
        proof {
            use_type_invariant(self);
        }
        self.entries.len()
    }

    /// The style of the group at position `i`.
    pub fn head(&self, i: usize) -> (h: &H)
        requires
            i < self@.len(),
        ensures
            *h == self@[i as int].head,
    {
        &self.entries[i].head
    }

    /// The members of the group at position `i`.
    pub fn members(&self, i: usize) -> (m: &Vec<T>)
        requires
            i < self@.len(),
        ensures
            m@ == self@[i as int].members,
    {
        &self.entries[i].members
    }
}

impl<H: Keyed + Wire, T: Wire> Groups<H, T> {
    /// Appends the counted block of the groups' lines to `out`.
    pub fn push_block(&self, out: &mut String)
        ensures
            final(out)@ == old(out)@ + group_block(self@),
    {
        let n = self.len();
        let ghost gs = self@;
        push_decimal(out, n as u64);
        out.append("\n");
        let ghost start = out@;
        let mut i: usize = 0;
        assert(out@ =~= start + group_lines(gs.take(0)));
        while i < n
            invariant
                n == gs.len(),
                gs == self@,
                0 <= i <= n,
                out@ == start + group_lines(gs.take(i as int)),
            decreases n - i,
        {
            let ghost before = out@;
            let members = self.members(i);
            self.head(i).push_wire(out);
            out.append(" ");
            push_decimal(out, members.len() as u64);
            push_wire_all(out, members);
            out.append("\n");
            proof {
                assert(gs.take(i as int + 1).drop_last() =~= gs.take(i as int));
                assert(gs.take(i as int + 1).last() == gs[i as int]);
                assert(out@ =~= before + group_line(gs[i as int]));
                assert(out@ =~= start + group_lines(gs.take(i as int + 1)));
            }
            i += 1;
        }
        assert(gs.take(n as int) =~= gs);
        assert(out@ =~= old(out)@ + group_block(gs));
    }
}

} // verus!
