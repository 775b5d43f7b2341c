//! Results kept under labels.
//!
//! Every result is registered under a label. The first result registered
//! under a label keeps it; later ones get the label followed by `_1`, `_2`,
//! and so on, counted per requested label. A result registered under a label
//! that is already taken replaces the earlier one. Labels are listed in
//! lexicographic order.
use vstd::prelude::*;

use crate::text::{
    chars_eq, chars_lt, chars_of, decimal_text, lemma_decimal_text_injective,
    lemma_text_lt_irreflexive, lemma_text_lt_total, lemma_text_lt_transitive, string_from_chars, string_views,
    text_lt, usize_text,
};

verus! {

/// The label given to the result registered under `label` when `count`
/// results were registered under it before.
pub open spec fn module_label_spec(label: Seq<char>, count: nat) -> Seq<char> {
    if count == 0 {
        label
    } else {
        label + "_"@ + decimal_text(count)
    }
}

/// Registering results again and again under one label never reuses a
/// label: the labels given for different counts differ.
pub proof fn lemma_repeated_labels_differ(label: Seq<char>, i: nat, j: nat)
    requires
        i != j,
    ensures
        module_label_spec(label, i) != module_label_spec(label, j),
{
    reveal_strlit("_");
    if i == 0 {
        assert(module_label_spec(label, j).len() > label.len());
    } else if j == 0 {
        assert(module_label_spec(label, i).len() > label.len());
    } else {
        let a = module_label_spec(label, i);
        let b = module_label_spec(label, j);
        if a == b {
            let p = label + "_"@;
            assert(a == p + decimal_text(i));
            assert(b == p + decimal_text(j));
            assert(a.skip(p.len() as int) =~= decimal_text(i));
            assert(b.skip(p.len() as int) =~= decimal_text(j));
            lemma_decimal_text_injective(i, j);
        }
    }
}

/// Texts in strictly increasing order.
pub open spec fn sorted_texts(s: Seq<Seq<char>>) -> bool {
    forall|i: int, j: int| 0 <= i < j < s.len() ==> text_lt(#[trigger] s[i], #[trigger] s[j])
}

/// Texts with no repetition.
pub open spec fn distinct_texts(s: Seq<Seq<char>>) -> bool {
    forall|i: int, j: int| 0 <= i < s.len() && 0 <= j < s.len() && i != j ==> #[trigger] s[i] != #[trigger] s[j]
}

/// Results of type `M` kept under labels.
pub struct ModuleRegistry<M> {
    modules: Vec<(Vec<char>, M)>,
    counters: Vec<(Vec<char>, usize)>,
}

impl<M> ModuleRegistry<M> {
    /// The labels of the kept results, in order.
    pub closed spec fn labels(self) -> Seq<Seq<char>> {
        self.modules@.map_values(|p: (Vec<char>, M)| p.0@)
    }

    closed spec fn counter_keys(self) -> Seq<Seq<char>> {
        self.counters@.map_values(|p: (Vec<char>, usize)| p.0@)
    }

    /// The registry is well formed: its labels are in strictly increasing
    /// order, and each requested label has one count.
    pub closed spec fn wf(self) -> bool {
        &&& sorted_texts(self.labels())
        &&& distinct_texts(self.counter_keys())
    }

    /// The result kept under `label`, if any.
    pub closed spec fn module_of(self, label: Seq<char>) -> Option<M> {
        if exists|i: int| 0 <= i < self.modules.len() && self.modules@[i].0@ == label {
            Some(self.modules@[self.module_index(label)].1)
        } else {
            None
        }
    }

    closed spec fn module_index(self, label: Seq<char>) -> int {
        choose|i: int| 0 <= i < self.modules.len() && self.modules@[i].0@ == label
    }

    closed spec fn counter_index(self, label: Seq<char>) -> int {
        choose|i: int| 0 <= i < self.counters.len() && self.counters@[i].0@ == label
    }

    /// How many results were registered under the requested `label`.
    pub closed spec fn count_of(self, label: Seq<char>) -> nat {
        if exists|i: int| 0 <= i < self.counters.len() && self.counters@[i].0@ == label {
            self.counters@[self.counter_index(label)].1 as nat
        } else {
            0
        }
    }

    proof fn lemma_module_at(self, i: int)
        requires
            self.wf(),
            0 <= i < self.modules.len(),
        ensures
            self.module_of(self.modules@[i].0@) == Some(self.modules@[i].1),
    {
        let k = self.modules@[i].0@;
        assert(0 <= i < self.modules.len() && self.modules@[i].0@ == k);
        let j = self.module_index(k);
        assert(0 <= j < self.modules.len() && self.modules@[j].0@ == k);
        assert(self.labels()[i] == k);
        assert(self.labels()[j] == self.modules@[j].0@);
        if j != i {
            lemma_text_lt_irreflexive(k);
            if i < j {
                assert(text_lt(self.labels()[i], self.labels()[j]));
            } else {
                assert(text_lt(self.labels()[j], self.labels()[i]));
            }
        }
        assert(j == i);
        assert(self.module_of(k) == Some(self.modules@[j].1));
    }

    proof fn lemma_counter_at(self, i: int)
        requires
            self.wf(),
            0 <= i < self.counters.len(),
        ensures
            self.count_of(self.counters@[i].0@) == self.counters@[i].1 as nat,
    {
        let k = self.counters@[i].0@;
        assert(0 <= i < self.counters.len() && self.counters@[i].0@ == k);
        let j = self.counter_index(k);
        assert(0 <= j < self.counters.len() && self.counters@[j].0@ == k);
        assert(self.counter_keys()[i] == k);
        assert(self.counter_keys()[j] == self.counters@[j].0@);
        if i != j {
            assert(self.counter_keys()[i] != self.counter_keys()[j]);
        }
        assert(j == i);
        assert(self.count_of(k) == self.counters@[j].1 as nat);
    }

    /// An empty registry.
    pub fn new() -> (r: Self)
        ensures
            r.wf(),
            r.labels() == Seq::<Seq<char>>::empty(),
            forall|k: Seq<char>| #[trigger] r.module_of(k) is None,
            forall|k: Seq<char>| #[trigger] r.count_of(k) == 0,
    {
        let r = ModuleRegistry { modules: Vec::new(), counters: Vec::new() };
        assert(r.labels() =~= Seq::<Seq<char>>::empty());
        r
    }

    /// Where `key` stands among the labels: its index if it is there, else
    /// the index at which it would be inserted.
    fn find_module(&self, key: &Vec<char>) -> (r: (usize, bool))
        requires
            self.wf(),
        ensures
            r.0 <= self.modules.len(),
            r.1 ==> r.0 < self.modules.len() && self.labels()[r.0 as int] == key@,
            !r.1 ==> (forall|i: int| 0 <= i < r.0 ==> text_lt(#[trigger] self.labels()[i], key@)),
            !r.1 ==> (forall|i: int|
                r.0 <= i < self.modules.len() ==> text_lt(key@, #[trigger] self.labels()[i])),
    {
        let mut p: usize = 0;
        while p < self.modules.len() && chars_lt(&self.modules[p].0, key)
            invariant
                self.wf(),
                p <= self.modules.len(),
                forall|i: int| 0 <= i < p ==> text_lt(#[trigger] self.labels()[i], key@),
            decreases self.modules.len() - p,
        {
            assert(self.labels()[p as int] == self.modules@[p as int].0@);
            p = p + 1;
        }
        if p < self.modules.len() {
            assert(self.labels()[p as int] == self.modules@[p as int].0@);
            if chars_eq(&self.modules[p].0, key) {
                return (p, true);
            }
            let ghost kp = self.labels()[p as int];
            proof {
                lemma_text_lt_total(kp, key@);
                assert forall|i: int| p <= i < self.modules.len() implies text_lt(
                    key@,
                    #[trigger] self.labels()[i],
                ) by {
                    if i > p {
                        assert(text_lt(self.labels()[p as int], self.labels()[i]));
                        lemma_text_lt_transitive(key@, kp, self.labels()[i]);
                    }
                }
            }
        }
        (p, false)
    }

    fn find_counter(&self, key: &Vec<char>) -> (r: Option<usize>)
        requires
            self.wf(),
        ensures
            match r {
                Some(i) => i < self.counters.len() && self.counter_keys()[i as int] == key@,
                None => forall|i: int|
                    0 <= i < self.counters.len() ==> #[trigger] self.counter_keys()[i] != key@,
            },
    {
        let mut i: usize = 0;
        while i < self.counters.len()
            invariant
                i <= self.counters.len(),
                forall|j: int| 0 <= j < i ==> #[trigger] self.counter_keys()[j] != key@,
            decreases self.counters.len() - i,
        {
            assert(self.counter_keys()[i as int] == self.counters@[i as int].0@);
            if chars_eq(&self.counters[i].0, key) {
                return Some(i);
            }
            i = i + 1;
        }
        None
    }

    /// The label for the next result requested under `label`: the label
    /// itself the first time, then the label followed by `_` and the number
    /// of earlier requests. Counts the request.
    pub fn next_module_label(&mut self, label: String) -> (r: String)
        requires
            old(self).wf(),
            old(self).count_of(label@) < usize::MAX,
        ensures
            final(self).wf(),
            r@ == module_label_spec(label@, old(self).count_of(label@)),
            final(self).count_of(label@) == old(self).count_of(label@) + 1,
            forall|k: Seq<char>| k != label@ ==> #[trigger] final(self).count_of(k) == old(self).count_of(k),
            final(self).labels() == old(self).labels(),
            forall|k: Seq<char>| #[trigger] final(self).module_of(k) == old(self).module_of(k),
    {
        let key = chars_of(label.as_str());
        let ghost old_self = *self;
        match self.find_counter(&key) {
            Some(idx) => {
                proof {
                    old_self.lemma_counter_at(idx as int);
                }
                let count = self.counters[idx].1;
                let out = if count == 0 {
                    label
                } else {
                    let mut text = label;
                    text.append("_");
                    let number = usize_text(count);
                    text.append(number.as_str());
                    text
                };
                self.counters.set(idx, (key, count + 1));
                proof {
                    assert(self.counter_keys() =~= old_self.counter_keys());
                    assert(self.labels() =~= old_self.labels());
                    self.lemma_counter_at(idx as int);
                    assert forall|k: Seq<char>| k != label@ implies #[trigger] self.count_of(k)
                        == old_self.count_of(k) by {
                        if exists|i: int| 0 <= i < self.counters.len() && self.counters@[i].0@ == k {
                            let i = choose|i: int|
                                0 <= i < self.counters.len() && self.counters@[i].0@ == k;
                            self.lemma_counter_at(i);
                            old_self.lemma_counter_at(i);
                        } else {
                            assert forall|i: int| 0 <= i < old_self.counters.len() implies old_self.counters@[i].0@ != k by {
                                assert(self.counters@[i].0@ == old_self.counters@[i].0@);
                            }
                        }
                    }
                    assert forall|k: Seq<char>| #[trigger] self.module_of(k) == old_self.module_of(k) by {
                    }
                }
                out
            },
            None => {
                self.counters.push((key, 1));
                proof {
                    assert(self.counter_keys() =~= old_self.counter_keys().push(label@));
                    assert(self.labels() =~= old_self.labels());
                    self.lemma_counter_at(self.counters.len() - 1);
                    assert(!(exists|i: int|
                        0 <= i < old_self.counters.len() && old_self.counters@[i].0@ == label@)) by {
                        assert forall|i: int| 0 <= i < old_self.counters.len() implies old_self.counters@[i].0@ != label@ by {
                            assert(old_self.counter_keys()[i] == old_self.counters@[i].0@);
                        }
                    }
                    assert forall|k: Seq<char>| k != label@ implies #[trigger] self.count_of(k)
                        == old_self.count_of(k) by {
                        if exists|i: int| 0 <= i < old_self.counters.len() && old_self.counters@[i].0@ == k {
                            let i = choose|i: int|
                                0 <= i < old_self.counters.len() && old_self.counters@[i].0@ == k;
                            old_self.lemma_counter_at(i);
                            assert(self.counters@[i] == old_self.counters@[i]);
                            self.lemma_counter_at(i);
                        } else {
                            assert forall|i: int| 0 <= i < self.counters.len() implies self.counters@[i].0@ != k by {
                                if i < old_self.counters.len() {
                                    assert(self.counters@[i] == old_self.counters@[i]);
                                }
                            }
                        }
                    }
                    assert forall|k: Seq<char>| #[trigger] self.module_of(k) == old_self.module_of(k) by {
                    }
                }
                label
            },
        }
    }

    /// Keeps `module` under the next label for `label` (see
    /// [`ModuleRegistry::next_module_label`]) and returns that label; a
    /// result already kept under it is replaced.
    pub fn register_module(&mut self, label: String, module: M) -> (r: String)
        requires
            old(self).wf(),
            old(self).count_of(label@) < usize::MAX,
        ensures
            final(self).wf(),
            r@ == module_label_spec(label@, old(self).count_of(label@)),
            final(self).module_of(r@) == Some(module),
            forall|k: Seq<char>| k != r@ ==> #[trigger] final(self).module_of(k) == old(self).module_of(k),
            final(self).count_of(label@) == old(self).count_of(label@) + 1,
            forall|k: Seq<char>| k != label@ ==> #[trigger] final(self).count_of(k) == old(self).count_of(k),
    {
        let final_label = self.next_module_label(label);
        let ghost mid = *self;
        let key = chars_of(final_label.as_str());
        let (p, found) = self.find_module(&key);
        if found {
            self.modules.set(p, (key, module));
            proof {
                assert(self.counters == mid.counters);
                assert(self.count_of(label@) == mid.count_of(label@));
                assert forall|k: Seq<char>| k != label@ implies #[trigger] self.count_of(k)
                    == mid.count_of(k) by {
                    assert(self.counters == mid.counters);
                }
            }
            proof {
                assert(self.labels() =~= mid.labels());
                self.lemma_module_at(p as int);
                assert forall|k: Seq<char>| k != final_label@ implies #[trigger] self.module_of(k)
                    == mid.module_of(k) by {
                    if exists|i: int| 0 <= i < self.modules.len() && self.modules@[i].0@ == k {
                        let i = choose|i: int| 0 <= i < self.modules.len() && self.modules@[i].0@ == k;
                        self.lemma_module_at(i);
                        assert(i != p);
                        mid.lemma_module_at(i);
                    } else {
                        assert forall|i: int| 0 <= i < mid.modules.len() implies mid.modules@[i].0@ != k by {
                            assert(self.modules@[i].0@ == mid.modules@[i].0@);
                        }
                    }
                }
            }
        } else {
            self.modules.insert(p, (key, module));
            proof {
                assert(self.counters == mid.counters);
                assert(self.count_of(label@) == mid.count_of(label@));
                assert forall|k: Seq<char>| k != label@ implies #[trigger] self.count_of(k)
                    == mid.count_of(k) by {
                    assert(self.counters == mid.counters);
                }
                assert(self.labels() =~= mid.labels().insert(p as int, final_label@));
                assert forall|i: int, j: int| 0 <= i < j < self.labels().len() implies text_lt(
                    #[trigger] self.labels()[i],
                    #[trigger] self.labels()[j],
                ) by {
                    if j < p {
                        assert(text_lt(mid.labels()[i], mid.labels()[j]));
                    } else if j == p {
                        assert(text_lt(mid.labels()[i], final_label@));
                    } else if i == p {
                        assert(text_lt(final_label@, mid.labels()[j - 1]));
                    } else if i < p {
                        assert(text_lt(mid.labels()[i], mid.labels()[j - 1]));
                    } else {
                        assert(text_lt(mid.labels()[i - 1], mid.labels()[j - 1]));
                    }
                }
                assert(self.counter_keys() =~= mid.counter_keys());
                self.lemma_module_at(p as int);
                assert forall|k: Seq<char>| k != final_label@ implies #[trigger] self.module_of(k)
                    == mid.module_of(k) by {
                    if exists|i: int| 0 <= i < self.modules.len() && self.modules@[i].0@ == k {
                        let i = choose|i: int| 0 <= i < self.modules.len() && self.modules@[i].0@ == k;
                        self.lemma_module_at(i);
                        assert(i != p);
                        let oi = if i < p {
                            i
                        } else {
                            i - 1
                        };
                        assert(self.modules@[i] == mid.modules@[oi]);
                        mid.lemma_module_at(oi);
                    } else {
                        assert forall|i: int| 0 <= i < mid.modules.len() implies mid.modules@[i].0@ != k by {
                            if i < p {
                                assert(self.modules@[i] == mid.modules@[i]);
                            } else {
                                assert(self.modules@[i + 1] == mid.modules@[i]);
                            }
                        }
                    }
                }
            }
        }
        final_label
    }

    /// The labels of the kept results, in lexicographic order.
    pub fn module_labels(&self) -> (r: Vec<String>)
        requires
            self.wf(),
        ensures
            string_views(r@) == self.labels(),
            sorted_texts(self.labels()),
            forall|k: Seq<char>| self.labels().contains(k) <==> #[trigger] self.module_of(k) is Some,
    {
        let mut out: Vec<String> = Vec::new();
        let mut i: usize = 0;
        while i < self.modules.len()
            invariant
                i <= self.modules.len(),
                string_views(out@) == self.labels().take(i as int),
            decreases self.modules.len() - i,
        {
            let ghost before = string_views(out@);
            let s = string_from_chars(self.modules[i].0.as_slice());
            assert(self.labels()[i as int] == self.modules@[i as int].0@);
            out.push(s);
            assert(string_views(out@) =~= before.push(s@));
            i = i + 1;
            assert(string_views(out@) =~= self.labels().take(i as int));
        }
        assert(self.labels().take(self.modules.len() as int) =~= self.labels());
        proof {
            assert forall|k: Seq<char>| self.labels().contains(k) <==> #[trigger] self.module_of(
                k,
            ) is Some by {
                if self.labels().contains(k) {
                    let i = choose|i: int| 0 <= i < self.labels().len() && self.labels()[i] == k;
                    assert(self.modules@[i].0@ == k);
                }
                if self.module_of(k) is Some {
                    let i = choose|i: int| 0 <= i < self.modules.len() && self.modules@[i].0@ == k;
                    assert(self.labels()[i] == k);
                }
            }
        }
        out
    }

    /// How many results are kept.
    pub fn module_count(&self) -> (r: usize)
        ensures
            r == self.labels().len(),
    {
        self.modules.len()
    }

    /// The result kept under `label`, if any.
    pub fn module(&self, label: &str) -> (r: Option<&M>)
        requires
            self.wf(),
        ensures
            match self.module_of(label@) {
                Some(m) => r matches Some(x) && *x == m,
                None => r is None,
            },
    {
        let key = chars_of(label);
        let (p, found) = self.find_module(&key);
        if found {
            proof {
                assert(self.labels()[p as int] == self.modules@[p as int].0@);
                self.lemma_module_at(p as int);
            }
            Some(&self.modules[p].1)
        } else {
            proof {
                assert forall|i: int| 0 <= i < self.modules.len() implies self.modules@[i].0@ != label@ by {
                    assert(self.labels()[i] == self.modules@[i].0@);
                    lemma_text_lt_irreflexive(label@);
                }
            }
            None
        }
    }
}

} // verus!
