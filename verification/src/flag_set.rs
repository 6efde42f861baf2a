use vstd::prelude::*;
use crate::text_order::ascending;
use crate::text_order::compare_text;
use crate::text_order::is_place;
use crate::text_order::lemma_ascending_distinct;
use crate::text_order::lemma_insert_ascending;
use crate::text_order::lemma_place_absent;
use crate::text_order::lemma_place_found;
use crate::text_order::lemma_remove_ascending;
use crate::text_order::text_lt;
use crate::text_order::Order;
use crate::util::lemma_remove_from_distinct;

verus! {

/// The texts that a list of strings holds, in its order.
pub open spec fn texts(v: Seq<String>) -> Seq<Seq<char>> {
    Seq::new(v.len(), |i: int| v[i]@)
}

/// A set of flags: short texts that mark a user's roles and claims. A flag is
/// in the set or it is not; adding one twice, or removing one that is not
/// there, changes nothing. The flags are kept in the order of the
/// dictionary.
#[derive(Debug)]
pub struct FlagSet {
    items: Vec<String>,
}

impl View for FlagSet {
    type V = Set<Seq<char>>;

    closed spec fn view(&self) -> Set<Seq<char>> {
        texts(self.items@).to_set()
    }
}

impl FlagSet {
    #[verifier::type_invariant]
    closed spec fn in_order(&self) -> bool {
        ascending(texts(self.items@))
    }

    /// The empty set.
    pub fn new() -> (r: FlagSet)
        ensures
            r@ == Set::<Seq<char>>::empty(),
    {
        FlagSet { items: Vec::new() }
    }

    /// The number of flags.
    pub fn len(&self) -> (r: usize)
        ensures
            r == self@.len(),
            self@.finite(),
    {
        proof {
            use_type_invariant(self);
            lemma_ascending_distinct(texts(self.items@));
            texts(self.items@).unique_seq_to_set();
        }
        self.items.len()
    }

    /// The place of `flag` in the order, and whether it stands there.
    fn locate(&self, flag: &str) -> (r: (usize, bool))
        ensures
            is_place(texts(self.items@), flag@, r.0 as int),
            r.1 ==> r.0 < self.items@.len() && self.items@[r.0 as int]@ == flag@,
            !r.1 && r.0 < self.items@.len() ==> text_lt(flag@, self.items@[r.0 as int]@),
            r.1 == self@.contains(flag@),
    {
        proof {
            use_type_invariant(self);
        }
        let ghost all = texts(self.items@);
        let n = self.items.len();
        let mut i: usize = 0;
        while i < n
            invariant
                n == self.items@.len(),
                all == texts(self.items@),
                ascending(all),
                i <= n,
                forall|j: int| 0 <= j < i ==> text_lt(#[trigger] all[j], flag@),
            decreases n - i,
        {
            match compare_text(self.items[i].as_str(), flag) {
                Order::Before => {
                    i += 1;
                },
                Order::Same => {
                    proof {
                        lemma_place_found(all, flag@, i as int);
                    }
                    return (i, true);
                },
                Order::After => {
                    proof {
                        lemma_place_absent(all, flag@, i as int);
                    }
                    return (i, false);
                },
            }
        }
        proof {
            lemma_place_absent(all, flag@, i as int);
        }
        (i, false)
    }

    /// Tells whether `flag` is in the set.
    pub fn contains(&self, flag: &str) -> (r: bool)
        ensures
            r == self@.contains(flag@),
    {
        self.locate(flag).1
    }

    /// Puts `flag` into the set and tells whether it was new.
    pub fn insert(&mut self, flag: &str) -> (r: bool)
        ensures
            r == !old(self)@.contains(flag@),
            final(self)@ == old(self)@.insert(flag@),
    {
        proof {
            use_type_invariant(&*self);
        }
        let (i, found) = self.locate(flag);
        if found {
            assert(self@.insert(flag@) =~= self@);
            return false;
        }
        let ghost before = texts(self.items@);
        let mut items: Vec<String> = Vec::new();
        core::mem::swap(&mut items, &mut self.items);
        items.insert(i, flag.to_owned());
        proof {
            assert(texts(items@) =~= before.insert(i as int, flag@));
            lemma_insert_ascending(before, flag@, i as int);
            assert(texts(Seq::<String>::empty()) =~= Seq::<Seq<char>>::empty());
            assert forall|x: Seq<char>| before.insert(i as int, flag@).to_set().contains(x)
                <==> before.to_set().insert(flag@).contains(x) by {
                let after = before.insert(i as int, flag@);
                if after.to_set().contains(x) {
                    let k = choose|k: int| 0 <= k < after.len() && after[k] == x;
                    if k < i {
                        assert(before[k] == x);
                    } else if k > i {
                        assert(before[k - 1] == x);
                    }
                }
                if before.to_set().insert(flag@).contains(x) {
                    if x == flag@ {
                        assert(after[i as int] == x);
                    } else {
                        let k = choose|k: int| 0 <= k < before.len() && before[k] == x;
                        if k < i {
                            assert(after[k] == x);
                        } else {
                            assert(after[k + 1] == x);
                        }
                    }
                }
            }
            assert(before.insert(i as int, flag@).to_set() =~= before.to_set().insert(flag@));
        }
        self.items = items;
        true
    }

    /// Takes `flag` out of the set and tells whether it was there.
    pub fn remove(&mut self, flag: &str) -> (r: bool)
        ensures
            r == old(self)@.contains(flag@),
            final(self)@ == old(self)@.remove(flag@),
    {
        proof {
            use_type_invariant(&*self);
        }
        let (i, found) = self.locate(flag);
        if !found {
            return false;
        }
        let ghost before = texts(self.items@);
        let mut items: Vec<String> = Vec::new();
        core::mem::swap(&mut items, &mut self.items);
        items.remove(i);
        proof {
            assert(texts(items@) =~= before.remove(i as int));
            lemma_ascending_distinct(before);
            lemma_remove_from_distinct(before, i as int);
            lemma_remove_ascending(before, i as int);
        }
        self.items = items;
        true
    }

    /// The flags as a list: each flag of the set once, in the order of the
    /// dictionary.
    pub fn to_list(&self) -> (r: Vec<String>)
        ensures
            ascending(texts(r@)),
            texts(r@).no_duplicates(),
            texts(r@).to_set() == self@,
    {
        proof {
            use_type_invariant(self);
            lemma_ascending_distinct(texts(self.items@));
        }
        let n = self.items.len();
        let mut out: Vec<String> = Vec::new();
        let mut i: usize = 0;
        while i < n
            invariant
                n == self.items@.len(),
                i <= n,
                out@.len() == i,
                forall|j: int| 0 <= j < i ==> out@[j]@ == self.items@[j]@,
            decreases n - i,
        {
            out.push(self.items[i].clone());
            i += 1;
        }
        assert(texts(out@) =~= texts(self.items@));
        out
    }

    /// The set of the texts in `list`.
    pub fn from_list(list: &Vec<String>) -> (r: FlagSet)
        ensures
            r@ == texts(list@).to_set(),
    {
        let mut out = FlagSet::new();
        let n = list.len();
        let mut i: usize = 0;
        while i < n
            invariant
                n == list@.len(),
                i <= n,
                out@ == texts(list@).take(i as int).to_set(),
            decreases n - i,
        {
            out.insert(list[i].as_str());
            proof {
                let t = texts(list@);
                assert(t.take(i + 1) =~= t.take(i as int).push(t[i as int]));
                t.take(i as int).lemma_push_to_set_commute(t[i as int]);
            }
            i += 1;
        }
        assert(texts(list@).take(n as int) =~= texts(list@));
        out
    }

    /// A copy of the set.
    pub fn duplicate(&self) -> (r: FlagSet)
        ensures
            r@ == self@,
    {
        let items = self.to_list();
        FlagSet { items }
    }
}

} // verus!
