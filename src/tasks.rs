//! The checklist under a moment: task names mapped to completion, kept with
//! unique names in ascending order of their UTF-8 bytes (the order of `str`).
use vstd::prelude::*;
use vstd::utf8::{encode_utf8, encode_utf8_decode_utf8};

verus! {

/// One checklist item.
pub struct Task {
    pub name: String,
    pub completed: bool,
}

impl View for Task {
    type V = (Seq<char>, bool);

    open spec fn view(&self) -> (Seq<char>, bool) {
        (self.name@, self.completed)
    }
}

/// Strict lexicographic order on byte strings; a proper prefix comes first.
pub open spec fn bytes_lt(a: Seq<u8>, b: Seq<u8>) -> bool
    decreases a.len(),
{
    if a.len() == 0 {
        b.len() > 0
    } else if b.len() == 0 {
        false
    } else if a[0] != b[0] {
        a[0] < b[0]
    } else {
        bytes_lt(a.drop_first(), b.drop_first())
    }
}

/// The order of task names: the order of their UTF-8 encodings.
pub open spec fn name_lt(a: Seq<char>, b: Seq<char>) -> bool {
    bytes_lt(encode_utf8(a), encode_utf8(b))
}

/// Names strictly ascending, hence unique.
pub open spec fn sorted_names(s: Seq<(Seq<char>, bool)>) -> bool {
    forall|i: int, j: int| 0 <= i < j < s.len() ==> name_lt(#[trigger] s[i].0, #[trigger] s[j].0)
}

/// The number of leading entries whose names come before `k`: where `k`
/// belongs in an ascending list.
pub open spec fn lower_bound(s: Seq<(Seq<char>, bool)>, k: Seq<char>) -> int
    decreases s.len(),
{
    if s.len() == 0 || !name_lt(s[0].0, k) {
        0
    } else {
        1 + lower_bound(s.drop_first(), k)
    }
}

/// The list after setting task `k` to not completed: the entry is replaced
/// where the name is present, else inserted in its place in the order.
pub open spec fn inserted(s: Seq<(Seq<char>, bool)>, k: Seq<char>) -> Seq<(Seq<char>, bool)> {
    let i = lower_bound(s, k);
    if i < s.len() && s[i].0 == k {
        s.update(i, (k, false))
    } else {
        s.insert(i, (k, false))
    }
}

proof fn lemma_bytes_lt_irreflexive(a: Seq<u8>)
    ensures
        !bytes_lt(a, a),
    decreases a.len(),
{
    if a.len() > 0 {
        lemma_bytes_lt_irreflexive(a.drop_first());
    }
}

proof fn lemma_bytes_lt_transitive(a: Seq<u8>, b: Seq<u8>, c: Seq<u8>)
    requires
        bytes_lt(a, b),
        bytes_lt(b, c),
    ensures
        bytes_lt(a, c),
    decreases a.len(),
{
    if a.len() > 0 && b.len() > 0 && c.len() > 0 && a[0] == b[0] && b[0] == c[0] {
        lemma_bytes_lt_transitive(a.drop_first(), b.drop_first(), c.drop_first());
    }
}

proof fn lemma_bytes_lt_total(a: Seq<u8>, b: Seq<u8>)
    requires
        a != b,
    ensures
        bytes_lt(a, b) || bytes_lt(b, a),
    decreases a.len(),
{
    if a.len() > 0 && b.len() > 0 && a[0] == b[0] {
        if a.drop_first() == b.drop_first() {
            assert(a =~= seq![a[0]] + a.drop_first());
            assert(b =~= seq![b[0]] + b.drop_first());
        }
        lemma_bytes_lt_total(a.drop_first(), b.drop_first());
    } else if a.len() == 0 && b.len() == 0 {
        assert(a =~= b);
    }
}

proof fn lemma_name_lt_total(a: Seq<char>, b: Seq<char>)
    requires
        a != b,
    ensures
        name_lt(a, b) || name_lt(b, a),
{
    encode_utf8_decode_utf8(a);
    encode_utf8_decode_utf8(b);
    lemma_bytes_lt_total(encode_utf8(a), encode_utf8(b));
}

/// Whether `a` comes strictly before `b` in byte order.
fn bytes_less(a: &[u8], b: &[u8]) -> (r: bool)
    ensures
        r == bytes_lt(a@, b@),
{
    let mut i: usize = 0;
    assert(a@.skip(0) =~= a@ && b@.skip(0) =~= b@);
    while i < a.len() && i < b.len()
        invariant
            i <= a.len(),
            i <= b.len(),
            bytes_lt(a@, b@) == bytes_lt(a@.skip(i as int), b@.skip(i as int)),
        decreases a.len() - i,
    {
        if a[i] != b[i] {
            return a[i] < b[i];
        }
        assert(a@.skip(i as int).drop_first() =~= a@.skip(i + 1));
        assert(b@.skip(i as int).drop_first() =~= b@.skip(i + 1));
        i = i + 1;
    }
    i == a.len() && i < b.len()
}

/// Whether name `a` comes strictly before name `b`.
fn name_less(a: &String, b: &String) -> (r: bool)
    ensures
        r == name_lt(a@, b@),
{
    bytes_less(a.as_str().as_bytes(), b.as_str().as_bytes())
}

/// Tasks with unique names, kept in ascending order.
pub struct Tasks {
    entries: Vec<Task>,
}

impl View for Tasks {
    type V = Seq<(Seq<char>, bool)>;

    closed spec fn view(&self) -> Seq<(Seq<char>, bool)> {
        self.entries@.map_values(|t: Task| t@)
    }
}

impl Tasks {
    /// Names strictly ascending, hence unique. Every list built by `new` and
    /// changed by the methods below keeps it.
    pub open spec fn wf(&self) -> bool {
        sorted_names(self@)
    }

    /// No tasks.
    pub fn new() -> (r: Tasks)
        ensures
            r@ == Seq::<(Seq<char>, bool)>::empty(),
            r.wf(),
    {
        let r = Tasks { entries: Vec::new() };
        assert(r@ =~= Seq::<(Seq<char>, bool)>::empty());
        r
    }

    /// The number of tasks.
    pub fn len(&self) -> (r: usize)
        ensures
            r == self@.len(),
    {
        self.entries.len()
    }

    /// Whether there are no tasks.
    pub fn is_empty(&self) -> (r: bool)
        ensures
            r == (self@.len() == 0),
    {
        self.entries.len() == 0
    }

    /// The task at position `i` in name order.
    pub fn get(&self, i: usize) -> (r: Option<&Task>)
        ensures
            i < self@.len() ==> (r matches Some(t) && t@ == self@[i as int]),
            i >= self@.len() ==> r is None,
    {
        if i < self.entries.len() {
            Some(&self.entries[i])
        } else {
            None
        }
    }

    /// Adds task `name` as not completed; a task of that name already present
    /// is reset to not completed.
    pub fn insert(&mut self, name: String)
        ensures
            final(self)@ == inserted(old(self)@, name@),
            old(self).wf() ==> final(self).wf(),
    {
        let ghost s = self@;
        let mut i: usize = 0;
        assert(s.skip(0) =~= s);
        while i < self.entries.len() && name_less(&self.entries[i].name, &name)
            invariant
                s == self@,
                i <= s.len(),
                forall|j: int| 0 <= j < i ==> name_lt(#[trigger] s[j].0, name@),
                lower_bound(s, name@) == i + lower_bound(s.skip(i as int), name@),
            decreases self.entries.len() - i,
        {
            assert(s.skip(i as int).drop_first() =~= s.skip(i + 1));
            i = i + 1;
        }
        assert(i < s.len() ==> s.skip(i as int)[0] == s[i as int]);
        assert(lower_bound(s, name@) == i);
        let t = Task { name, completed: false };
        if i < self.entries.len() && self.entries[i].name == t.name {
            let ghost r = s.update(i as int, (name@, false));
            assert(sorted_names(s) ==> sorted_names(r)) by {
                if sorted_names(s) {
                    assert forall|a: int, b: int| 0 <= a < b < r.len() implies name_lt(#[trigger] r[a].0, #[trigger] r[b].0) by {
                        assert(r[a].0 == s[a].0 && r[b].0 == s[b].0);
                    }
                }
            }
            self.set_entry(i, t);
        } else {
            let ghost r = s.insert(i as int, (name@, false));
            assert(sorted_names(s) ==> sorted_names(r)) by {
              if sorted_names(s) {
              assert forall|a: int, b: int| 0 <= a < b < r.len() implies name_lt(#[trigger] r[a].0, #[trigger] r[b].0) by {
                if i < s.len() {
                    lemma_name_lt_total(s[i as int].0, name@);
                    if !name_lt(name@, s[i as int].0) {
                        lemma_bytes_lt_irreflexive(encode_utf8(name@));
                    }
                }
                if b == i {
                } else if a == i {
                    if b - 1 > i {
                        lemma_bytes_lt_transitive(encode_utf8(name@), encode_utf8(s[i as int].0), encode_utf8(s[b - 1].0));
                    }
                } else if a < i && b > i {
                }
              }
              }
            }
            self.insert_entry(i, t);
        }
    }

    /// Replaces the entry at `i`.
    fn set_entry(&mut self, i: usize, t: Task)
        requires
            i < old(self)@.len(),
        ensures
            final(self)@ == old(self)@.update(i as int, t@),
    {
        self.entries.set(i, t);
        assert(self@ =~= old(self)@.update(i as int, t@));
    }

    /// Inserts an entry at `i`.
    fn insert_entry(&mut self, i: usize, t: Task)
        requires
            i <= old(self)@.len(),
        ensures
            final(self)@ == old(self)@.insert(i as int, t@),
    {
        self.entries.insert(i, t);
        assert(self@ =~= old(self)@.insert(i as int, t@));
    }

    /// Removes the task at position `i` in name order.
    pub fn remove(&mut self, i: usize)
        requires
            i < old(self)@.len(),
        ensures
            final(self)@ == old(self)@.remove(i as int),
            old(self).wf() ==> final(self).wf(),
    {
        let ghost s = self@;
        let _ = self.entries.remove(i);
        assert(self@ =~= s.remove(i as int));
        assert(sorted_names(s) ==> sorted_names(self@)) by {
            if sorted_names(s) {
                assert forall|a: int, b: int| 0 <= a < b < self@.len() implies name_lt(#[trigger] self@[a].0, #[trigger] self@[b].0) by {
                    let a2 = if a < i { a } else { a + 1 };
                    let b2 = if b < i { b } else { b + 1 };
                    assert(self@[a] == s[a2] && self@[b] == s[b2]);
                }
            }
        }
    }

    /// Flips the completion of the task at position `i`.
    pub fn toggle(&mut self, i: usize)
        requires
            i < old(self)@.len(),
        ensures
            final(self)@ == old(self)@.update(i as int, (old(self)@[i as int].0, !old(self)@[i as int].1)),
            old(self).wf() ==> final(self).wf(),
    {
        let ghost s = self@;
        let done = !self.entries[i].completed;
        let name = self.entries[i].name.clone();
        let t = Task { name, completed: done };
        self.set_entry(i, t);
        proof {
            if sorted_names(s) {
                assert forall|a: int, b: int| 0 <= a < b < self@.len() implies name_lt(#[trigger] self@[a].0, #[trigger] self@[b].0) by {
                    assert(self@[a].0 == s[a].0 && self@[b].0 == s[b].0);
                }
            }
        }
    }
}

} // verus!
