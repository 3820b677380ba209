use vstd::prelude::*;
use crate::seqs::copy_vec;
use crate::spell::{Spell, SpellHandle};
use crate::warrior::JihadiWarrior;

verus! {

/// `s` without its first spell whose identifier is `id`; `s` itself where no
/// spell has that identifier.
pub open spec fn without_first(s: Seq<SpellHandle>, id: u32) -> Seq<SpellHandle>
    decreases s.len(),
{
    if s.len() == 0 {
        s
    } else if s[0].spell_id() == id {
        s.subrange(1, s.len() as int)
    } else {
        seq![s[0]].add(without_first(s.subrange(1, s.len() as int), id))
    }
}

/// Some spell of `s` has identifier `id`.
pub open spec fn holds_id(s: Seq<SpellHandle>, id: u32) -> bool {
    exists|i: int| 0 <= i < s.len() && (#[trigger] s[i]).spell_id() == id
}

/// Where index `i` holds the first spell with identifier `id`, removing that
/// first spell is removing index `i`.
pub proof fn lemma_without_first_at(s: Seq<SpellHandle>, id: u32, i: int)
    requires
        0 <= i < s.len(),
        s[i].spell_id() == id,
        forall|j: int| 0 <= j < i ==> (#[trigger] s[j]).spell_id() != id,
    ensures
        without_first(s, id) == s.remove(i),
    decreases s.len(),
{
    if i == 0 {
        assert(s.subrange(1, s.len() as int) =~= s.remove(0));
    } else {
        let t = s.subrange(1, s.len() as int);
        assert forall|j: int| 0 <= j < i - 1 implies (#[trigger] t[j]).spell_id() != id by {
            assert(t[j] == s[j + 1]);
        }
        lemma_without_first_at(t, id, i - 1);
        assert(seq![s[0]].add(t.remove(i - 1)) =~= s.remove(i));
    }
}

/// Where no spell has identifier `id`, nothing is removed.
pub proof fn lemma_without_first_absent(s: Seq<SpellHandle>, id: u32)
    requires
        forall|j: int| 0 <= j < s.len() ==> (#[trigger] s[j]).spell_id() != id,
    ensures
        without_first(s, id) == s,
    decreases s.len(),
{
    if s.len() > 0 {
        let t = s.subrange(1, s.len() as int);
        assert forall|j: int| 0 <= j < t.len() implies (#[trigger] t[j]).spell_id() != id by {
            assert(t[j] == s[j + 1]);
        }
        lemma_without_first_absent(t, id);
        assert(seq![s[0]].add(t) =~= s);
    }
}

/// Removing by identifier shortens the sequence by exactly one where the
/// identifier is held, and by nothing where it is not.
pub proof fn lemma_without_first_len(s: Seq<SpellHandle>, id: u32)
    ensures
        holds_id(s, id) ==> without_first(s, id).len() == s.len() - 1,
        !holds_id(s, id) ==> without_first(s, id) == s,
    decreases s.len(),
{
    if s.len() > 0 {
        let t = s.subrange(1, s.len() as int);
        lemma_without_first_len(t, id);
        if s[0].spell_id() != id {
            if holds_id(s, id) {
                let i = choose|i: int| 0 <= i < s.len() && (#[trigger] s[i]).spell_id() == id;
                assert(t[i - 1] == s[i]);
            } else {
                assert forall|j: int| 0 <= j < t.len() implies (#[trigger] t[j]).spell_id() != id by {
                    assert(t[j] == s[j + 1]);
                }
            }
            assert(!holds_id(s, id) ==> seq![s[0]].add(t) =~= s);
        } else {
            assert(holds_id(s, id));
        }
    }
}

/// The spells a player has collected and not yet cast, in the order of
/// collection.
#[derive(Clone)]
pub struct Inventory {
    spells: Vec<SpellHandle>,
}

impl View for Inventory {
    type V = Seq<SpellHandle>;

    closed spec fn view(&self) -> Seq<SpellHandle> {
        self.spells@
    }
}

impl Default for Inventory {
    fn default() -> (r: Inventory)
        ensures
            r@ == Seq::<SpellHandle>::empty(),
    {
        Inventory { spells: Vec::new() }
    }
}

impl Inventory {
    /// An inventory seeded with one area spell.
    pub fn test() -> (r: Inventory)
        ensures
            r@ == seq![SpellHandle::Warrior(JihadiWarrior::initial())],
    {
        let mut spells: Vec<SpellHandle> = Vec::new();
        spells.push(SpellHandle::Warrior(JihadiWarrior::default()));
        Inventory { spells }
    }

    pub fn collect_spell(self, spell: SpellHandle) -> (r: Inventory)
        ensures
            r@ == self@.push(spell),
    {
        let mut spells = self.spells;
        spells.push(spell);
        Inventory { spells }
    }

    /// Drops the first spell with identifier `id`, if there is one.
    pub fn remove_spell(self, id: u32) -> (r: Inventory)
        ensures
            r@ == without_first(self@, id),
    {
        let mut spells = self.spells;
        assert(spells@ == self@);
        let mut i: usize = 0;
        while i < spells.len()
            invariant
                i <= spells.len(),
                spells@ == self@,
                forall|j: int| 0 <= j < i ==> (#[trigger] spells@[j]).spell_id() != id,
            decreases spells.len() - i,
        {
            if spells[i].identifier() == id {
                proof {
                    lemma_without_first_at(spells@, id, i as int);
                }
                spells.remove(i);
                return Inventory { spells };
            }
            i += 1;
        }
        proof {
            lemma_without_first_absent(spells@, id);
        }
        Inventory { spells }
    }

    pub fn spells(&self) -> (r: Vec<SpellHandle>)
        ensures
            r@ == self@,
    {
        copy_vec(&self.spells)
    }

    /// A copy of the inventory.
    pub fn copy(&self) -> (r: Inventory)
        ensures
            r@ == self@,
    {
        Inventory { spells: copy_vec(&self.spells) }
    }
}

} // verus!
