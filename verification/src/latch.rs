//! Latched modifiers: which ones are armed, and the mask they add up to.

use vstd::hash_map::StringHashMap;
use vstd::prelude::*;

verus! {

/// Bit `b` of `mask`.
pub open spec fn bit(mask: u32, b: u32) -> bool {
    (mask >> b) & 1 == 1
}

/// Some latched modifier has bit `b` in its mask.
pub open spec fn armed_bit(latched: Set<Seq<char>>, masks: Map<Seq<char>, u32>, b: u32) -> bool {
    exists|name: Seq<char>| #[trigger]
        latched.contains(name) && masks.contains_key(name) && bit(masks[name], b)
}

/// `mask` has exactly the bits that the latched modifiers have between them.
pub open spec fn is_combined_mask(
    mask: u32,
    latched: Set<Seq<char>>,
    masks: Map<Seq<char>, u32>,
) -> bool {
    forall|b: u32| b < 32 ==> (#[trigger] bit(mask, b) <==> armed_bit(latched, masks, b))
}

/// The one mask that has exactly the bits of the latched modifiers. A latched
/// modifier without a mask adds nothing.
pub open spec fn combined_mask(latched: Set<Seq<char>>, masks: Map<Seq<char>, u32>) -> u32 {
    choose|mask: u32| is_combined_mask(mask, latched, masks)
}

/// Two masks with the same bits are the same mask.
proof fn lemma_same_bits(m1: u32, m2: u32)
    requires
        forall|b: u32| b < 32 ==> (#[trigger] bit(m1, b) <==> bit(m2, b)),
    ensures
        m1 == m2,
{
    if m1 != m2 {
        assert((m1 >> 0) != (m2 >> 0)) by (bit_vector)
            requires
                m1 != m2,
        ;
        let b = lemma_differing_bit_from(m1, m2, 0);
        assert(bit(m1, b) != bit(m2, b));
    }
}

/// If everything below bit `from` agrees, a difference lies at `from` or above.
proof fn lemma_differing_bit_from(m1: u32, m2: u32, from: u32) -> (b: u32)
    requires
        from < 32,
        (m1 >> from) != (m2 >> from),
    ensures
        b < 32,
        bit(m1, b) != bit(m2, b),
    decreases 32 - from,
{
    if bit(m1, from) != bit(m2, from) {
        from
    } else if from == 31 {
        assert((m1 >> 31) == (m2 >> 31)) by (bit_vector)
            requires
                (m1 >> 31) & 1 == 1 <==> (m2 >> 31) & 1 == 1,
        ;
        from
    } else {
        let next: u32 = (from + 1) as u32;
        assert((m1 >> next) != (m2 >> next)) by (bit_vector)
            requires
                from < 31,
                next == from + 1,
                (m1 >> from) != (m2 >> from),
                (m1 >> from) & 1 == 1 <==> (m2 >> from) & 1 == 1,
        ;
        lemma_differing_bit_from(m1, m2, next)
    }
}

/// A mask with exactly the latched bits is the combined mask.
pub proof fn lemma_combined_mask_unique(
    mask: u32,
    latched: Set<Seq<char>>,
    masks: Map<Seq<char>, u32>,
)
    requires
        is_combined_mask(mask, latched, masks),
    ensures
        combined_mask(latched, masks) == mask,
{
    let chosen = combined_mask(latched, masks);
    assert(is_combined_mask(chosen, latched, masks));
    assert forall|b: u32| b < 32 implies (#[trigger] bit(chosen, b) <==> bit(mask, b)) by {
        assert(bit(mask, b) <==> armed_bit(latched, masks, b));
    }
    lemma_same_bits(chosen, mask);
}

/// With nothing latched the combined mask is empty.
pub proof fn lemma_nothing_latched(masks: Map<Seq<char>, u32>)
    ensures
        is_combined_mask(0, Set::empty(), masks),
        combined_mask(Set::empty(), masks) == 0,
{
    assert forall|b: u32| b < 32 implies (#[trigger] bit(0, b) <==> armed_bit(
        Set::empty(),
        masks,
        b,
    )) by {
        assert(!bit(0, b)) by {
            assert((0u32 >> b) & 1 == 0) by (bit_vector);
        }
    }
    lemma_combined_mask_unique(0, Set::empty(), masks);
}

/// A set of modifier names, kept in the order they were armed and free of
/// repetitions.
pub struct LatchSet {
    names: Vec<String>,
}

/// The names held by a vector, as a set.
spec fn name_set(names: Seq<String>) -> Set<Seq<char>> {
    Set::new(|name: Seq<char>| exists|i: int| 0 <= i < names.len() && #[trigger] names[i]@ == name)
}

/// No name occurs twice.
spec fn no_repeats(names: Seq<String>) -> bool {
    forall|i: int, j: int|
        0 <= i < j < names.len() ==> #[trigger] names[i]@ != #[trigger] names[j]@
}

impl View for LatchSet {
    type V = Set<Seq<char>>;

    closed spec fn view(&self) -> Set<Seq<char>> {
        name_set(self.names@)
    }
}

impl LatchSet {
    #[verifier::type_invariant]
    spec fn distinct(self) -> bool {
        no_repeats(self.names@)
    }

    /// Nothing armed.
    pub fn new() -> (set: Self)
        ensures
            set@ == Set::<Seq<char>>::empty(),
    {
        let set = LatchSet { names: Vec::new() };
        assert(set@ =~= Set::<Seq<char>>::empty());
        set
    }

    /// Where `name` stands among the armed names.
    fn position(names: &Vec<String>, name: &str) -> (found: Option<usize>)
        ensures
            match found {
                Some(i) => i < names@.len() && names@[i as int]@ == name@,
                None => forall|i: int| 0 <= i < names@.len() ==> #[trigger] names@[i]@ != name@,
            },
    {
        let wanted: String = name.to_owned();
        let mut i: usize = 0;
        while i < names.len()
            invariant
                i <= names@.len(),
                wanted@ == name@,
                forall|j: int| 0 <= j < i ==> #[trigger] names@[j]@ != name@,
            decreases names@.len() - i,
        {
            if names[i] == wanted {
                return Some(i);
            }
            i = i + 1;
        }
        None
    }

    /// Whether `name` is armed.
    pub fn contains(&self, name: &str) -> (armed: bool)
        ensures
            armed == self@.contains(name@),
    {
        Self::position(&self.names, name).is_some()
    }

    /// Whether nothing is armed.
    pub fn is_empty(&self) -> (empty: bool)
        ensures
            empty <==> self@ == Set::<Seq<char>>::empty(),
    {
        if self.names.len() == 0 {
            assert(self@ =~= Set::<Seq<char>>::empty());
            true
        } else {
            assert(self@.contains(self.names@[0]@));
            false
        }
    }

    /// Disarms everything.
    pub fn clear(&mut self)
        ensures
            final(self)@ == Set::<Seq<char>>::empty(),
    {
        let mut names: Vec<String> = Vec::new();
        std::mem::swap(&mut names, &mut self.names);
        assert(self@ =~= Set::<Seq<char>>::empty());
    }

    /// Disarms `name`; tells whether it was armed.
    pub fn remove(&mut self, name: &str) -> (was_armed: bool)
        ensures
            was_armed == old(self)@.contains(name@),
            final(self)@ == old(self)@.remove(name@),
    {
        proof {
            use_type_invariant(&*self);
        }
        let ghost before = self.names@;
        match Self::position(&self.names, name) {
            Some(i) => {
                let mut names: Vec<String> = Vec::new();
                std::mem::swap(&mut names, &mut self.names);
                names.remove(i);
                proof {
                    lemma_remove_name(before, i as int, name@);
                    assert(names@ =~= before.remove(i as int));
                }
                self.names = names;
                true
            },
            None => {
                assert(self@ =~= old(self)@.remove(name@));
                false
            },
        }
    }

    /// Arms `name`; tells whether it was idle before.
    pub fn insert(&mut self, name: &str) -> (was_idle: bool)
        ensures
            was_idle == !old(self)@.contains(name@),
            final(self)@ == old(self)@.insert(name@),
    {
        proof {
            use_type_invariant(&*self);
        }
        let ghost before = self.names@;
        match Self::position(&self.names, name) {
            Some(_) => {
                assert(self@ =~= old(self)@.insert(name@));
                false
            },
            None => {
                let mut names: Vec<String> = Vec::new();
                std::mem::swap(&mut names, &mut self.names);
                names.push(name.to_owned());
                proof {
                    lemma_push_name(before, names@.last());
                    assert(names@ =~= before.push(names@.last()));
                }
                self.names = names;
                true
            },
        }
    }

    /// The mask of everything that is armed: the bits of every armed modifier's
    /// mask, put together.
    pub fn mask(&self, masks: &StringHashMap<u32>) -> (mask: u32)
        ensures
            mask == combined_mask(self@, masks@),
            is_combined_mask(mask, self@, masks@),
    {
        let mut mask: u32 = 0;
        let mut i: usize = 0;
        assert(is_combined_mask(0, name_set(self.names@.take(0)), masks@)) by {
            lemma_nothing_latched(masks@);
            assert(name_set(self.names@.take(0)) =~= Set::<Seq<char>>::empty());
        }
        while i < self.names.len()
            invariant
                i <= self.names@.len(),
                is_combined_mask(mask, name_set(self.names@.take(i as int)), masks@),
            decreases self.names@.len() - i,
        {
            let ghost before = mask;
            match masks.get(self.names[i].as_str()) {
                Some(own) => {
                    mask = mask | *own;
                },
                None => {},
            }
            proof {
                lemma_mask_step(self.names@, i as int, masks@, before, mask);
            }
            i = i + 1;
        }
        proof {
            assert(self.names@.take(i as int) =~= self.names@);
            lemma_combined_mask_unique(mask, self@, masks@);
        }
        mask
    }
}

/// Taking the one occurrence of a name out of the vector takes it out of the
/// set.
proof fn lemma_remove_name(names: Seq<String>, i: int, name: Seq<char>)
    requires
        no_repeats(names),
        0 <= i < names.len(),
        names[i]@ == name,
    ensures
        no_repeats(names.remove(i)),
        name_set(names.remove(i)) == name_set(names).remove(name),
{
    let rest = names.remove(i);
    assert forall|n: Seq<char>| name_set(rest).contains(n) == name_set(names).remove(
        name,
    ).contains(n) by {
        if name_set(rest).contains(n) {
            let k = choose|k: int| 0 <= k < rest.len() && #[trigger] rest[k]@ == n;
            let k0 = if k < i {
                k
            } else {
                k + 1
            };
            assert(names[k0]@ == n);
            assert(names[i]@ == name);
        }
        if name_set(names).remove(name).contains(n) {
            let k = choose|k: int| 0 <= k < names.len() && #[trigger] names[k]@ == n;
            assert(k != i);
            let k1 = if k < i {
                k
            } else {
                k - 1
            };
            assert(rest[k1]@ == n);
        }
    }
    assert(name_set(rest) =~= name_set(names).remove(name));
}

/// Appending a new name to the vector puts it into the set.
proof fn lemma_push_name(names: Seq<String>, name: String)
    requires
        no_repeats(names),
        forall|i: int| 0 <= i < names.len() ==> #[trigger] names[i]@ != name@,
    ensures
        no_repeats(names.push(name)),
        name_set(names.push(name)) == name_set(names).insert(name@),
{
    let all = names.push(name);
    assert forall|n: Seq<char>| name_set(all).contains(n) == name_set(names).insert(
        name@,
    ).contains(n) by {
        if name_set(names).contains(n) {
            let k = choose|k: int| 0 <= k < names.len() && #[trigger] names[k]@ == n;
            assert(all[k]@ == n);
        }
        assert(all[names.len() as int]@ == name@);
    }
    assert(name_set(all) =~= name_set(names).insert(name@));
}

/// One more latched modifier adds the bits of its own mask, if it has one.
proof fn lemma_mask_step(
    names: Seq<String>,
    i: int,
    masks: Map<Seq<char>, u32>,
    before: u32,
    after: u32,
)
    requires
        0 <= i < names.len(),
        is_combined_mask(before, name_set(names.take(i)), masks),
        after == if masks.contains_key(names[i]@) {
            before | masks[names[i]@]
        } else {
            before
        },
    ensures
        is_combined_mask(after, name_set(names.take(i + 1)), masks),
{
    let fewer = name_set(names.take(i));
    let more = name_set(names.take(i + 1));
    assert(more =~= fewer.insert(names[i]@)) by {
        assert forall|n: Seq<char>| more.contains(n) == fewer.insert(names[i]@).contains(n) by {
            if more.contains(n) {
                let k = choose|k: int|
                    0 <= k < names.take(i + 1).len() && #[trigger] names.take(i + 1)[k]@ == n;
                if k < i {
                    assert(names.take(i)[k]@ == n);
                }
            }
            if fewer.contains(n) {
                let k = choose|k: int|
                    0 <= k < names.take(i).len() && #[trigger] names.take(i)[k]@ == n;
                assert(names.take(i + 1)[k]@ == n);
            }
            assert(names.take(i + 1)[i]@ == names[i]@);
        }
    }
    let name = names[i]@;
    assert forall|b: u32| b < 32 implies (#[trigger] bit(after, b) <==> armed_bit(
        more,
        masks,
        b,
    )) by {
        assert(bit(before, b) <==> armed_bit(fewer, masks, b));
        if masks.contains_key(name) {
            let own = masks[name];
            assert(((before | own) >> b) & 1 == 1 <==> ((before >> b) & 1 == 1 || (own >> b) & 1
                == 1)) by (bit_vector);
            if bit(own, b) {
                assert(more.contains(name));
            }
        }
        if armed_bit(fewer, masks, b) {
            let n = choose|n: Seq<char>| #[trigger]
                fewer.contains(n) && masks.contains_key(n) && bit(masks[n], b);
            assert(more.contains(n));
        }
        if armed_bit(more, masks, b) {
            let n = choose|n: Seq<char>| #[trigger]
                more.contains(n) && masks.contains_key(n) && bit(masks[n], b);
            if n != name {
                assert(fewer.contains(n));
            }
        }
    }
}

} // verus!
