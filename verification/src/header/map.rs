//! The header map: fields in the order in which they were added, with more
//! than one value for a name where the sender wants that.

use vstd::prelude::*;
use crate::header::{HeaderName, HeaderValue};

verus! {

/// One header as the mathematics sees it.
pub struct Field {
    pub name: Seq<u8>,
    pub value: Seq<u8>,
    pub sensitive: bool,
}

/// Whether a field named `name` is among `fields`.
pub open spec fn contains_name(fields: Seq<Field>, name: Seq<u8>) -> bool {
    exists|i: int| 0 <= i < fields.len() && (#[trigger] fields[i]).name == name
}

/// The place of the first field named `name`, or the length of `fields`.
pub open spec fn first_of(fields: Seq<Field>, name: Seq<u8>) -> int
    decreases fields.len(),
{
    if fields.len() == 0 {
        0
    } else if fields[0].name == name {
        0
    } else {
        1 + first_of(fields.drop_first(), name)
    }
}

/// The fields named `name`, in their order.
pub open spec fn select(fields: Seq<Field>, name: Seq<u8>) -> Seq<Field>
    decreases fields.len(),
{
    if fields.len() == 0 {
        fields
    } else if fields.last().name == name {
        select(fields.drop_last(), name).push(fields.last())
    } else {
        select(fields.drop_last(), name)
    }
}

/// The fields not named `name`, in their order.
pub open spec fn reject(fields: Seq<Field>, name: Seq<u8>) -> Seq<Field>
    decreases fields.len(),
{
    if fields.len() == 0 {
        fields
    } else if fields.last().name == name {
        reject(fields.drop_last(), name)
    } else {
        reject(fields.drop_last(), name).push(fields.last())
    }
}

/// `fields` with `field` as the only field of its name: in the place of the
/// first one of that name, or at the end where there was none.
pub open spec fn replaced(fields: Seq<Field>, field: Field) -> Seq<Field> {
    let at = first_of(fields, field.name);
    if at < fields.len() {
        fields.take(at).push(field) + reject(fields.skip(at + 1), field.name)
    } else {
        fields.push(field)
    }
}

/// `fields` once every name that `src` bears was given the values that
/// `src` has for it: the first value of a name takes the place of what
/// `fields` had for the name, every further one goes behind all others.
pub open spec fn replaced_all(fields: Seq<Field>, src: Seq<Field>) -> Seq<Field>
    decreases src.len(),
{
    if src.len() == 0 {
        fields
    } else {
        let front = replaced_all(fields, src.drop_last());
        if contains_name(src.drop_last(), src.last().name) {
            front.push(src.last())
        } else {
            replaced(front, src.last())
        }
    }
}

/// The fields as the map of the wire codec holds them: the values of one
/// name together, in their order, at the place of the first of them.
pub open spec fn grouped(fields: Seq<Field>) -> Seq<Field>
    decreases fields.len(),
{
    if fields.len() == 0 {
        fields
    } else {
        let rest = reject(fields, fields[0].name);
        if rest.len() < fields.len() {
            select(fields, fields[0].name) + grouped(rest)
        } else {
            fields
        }
    }
}

/// The first place of a name is a place of the sequence or its length; no
/// field before it has the name, and the field at it has.
pub proof fn lemma_first_of(fields: Seq<Field>, name: Seq<u8>)
    ensures
        0 <= first_of(fields, name) <= fields.len(),
        first_of(fields, name) < fields.len() ==> fields[first_of(fields, name)].name == name,
        forall|i: int| 0 <= i < first_of(fields, name) ==> (#[trigger] fields[i]).name != name,
        first_of(fields, name) < fields.len() <==> contains_name(fields, name),
    decreases fields.len(),
{
    if fields.len() > 0 && fields[0].name != name {
        let rest = fields.drop_first();
        lemma_first_of(rest, name);
        assert forall|i: int| 0 <= i < first_of(fields, name) implies (#[trigger] fields[i]).name
            != name by {
            if i > 0 {
                assert(fields[i] == rest[i - 1]);
            }
        }
        if first_of(fields, name) < fields.len() {
            assert(fields[first_of(fields, name)] == rest[first_of(rest, name)]);
        }
        if contains_name(fields, name) {
            let i = choose|i: int| 0 <= i < fields.len() && (#[trigger] fields[i]).name == name;
            assert(rest[i - 1] == fields[i]);
        }
    }
}

/// Rejecting one name leaves the fields of every other name in.
pub proof fn lemma_reject_other(fields: Seq<Field>, name: Seq<u8>, other: Seq<u8>)
    requires
        other != name,
    ensures
        contains_name(reject(fields, name), other) <==> contains_name(fields, other),
    decreases fields.len(),
{
    if fields.len() > 0 {
        let front = fields.drop_last();
        lemma_reject_other(front, name, other);
        let r = reject(fields, name);
        let rf = reject(front, name);
        if contains_name(r, other) {
            let i = choose|i: int| 0 <= i < r.len() && (#[trigger] r[i]).name == other;
            if i < rf.len() {
                assert(rf[i] == r[i]);
                assert(contains_name(rf, other));
                assert(contains_name(front, other));
                let j = choose|j: int| 0 <= j < front.len() && (#[trigger] front[j]).name == other;
                assert(fields[j] == front[j]);
            } else {
                assert(fields[fields.len() - 1].name == other);
            }
        }
        if contains_name(fields, other) {
            let i = choose|i: int| 0 <= i < fields.len() && (#[trigger] fields[i]).name == other;
            if i < front.len() {
                assert(front[i] == fields[i]);
                assert(contains_name(front, other));
                assert(contains_name(rf, other));
                let j = choose|j: int| 0 <= j < rf.len() && (#[trigger] rf[j]).name == other;
                assert(r[j] == rf[j]);
            } else {
                assert(r[r.len() - 1].name == other);
            }
        }
    } else {
        assert(!contains_name(fields, other));
    }
}

/// What `select` and `reject` keep, and that they keep nothing else.
pub proof fn lemma_select_reject(fields: Seq<Field>, name: Seq<u8>)
    ensures
        forall|i: int|
            0 <= i < select(fields, name).len() ==> (#[trigger] select(fields, name)[i]).name
                == name,
        forall|i: int|
            0 <= i < reject(fields, name).len() ==> (#[trigger] reject(fields, name)[i]).name
                != name,
        select(fields, name).len() + reject(fields, name).len() == fields.len(),
        !contains_name(reject(fields, name), name),
        contains_name(fields, name) <==> select(fields, name).len() > 0,
        forall|other: Seq<u8>|
            other != name ==> (contains_name(reject(fields, name), other) <==> contains_name(
                fields,
                other,
            )),
    decreases fields.len(),
{
    if fields.len() > 0 {
        let front = fields.drop_last();
        lemma_select_reject(front, name);
        if contains_name(fields, name) && select(fields, name).len() == 0 {
            let i = choose|i: int| 0 <= i < fields.len() && (#[trigger] fields[i]).name == name;
            assert(front[i] == fields[i]);
        }
        if select(fields, name).len() > 0 {
            if fields.last().name == name {
                assert(fields[fields.len() - 1].name == name);
            } else {
                let i = choose|i: int| 0 <= i < front.len() && (#[trigger] front[i]).name == name;
                assert(fields[i] == front[i]);
            }
        }
        assert forall|other: Seq<u8>| other != name implies (contains_name(
            reject(fields, name),
            other,
        ) <==> contains_name(fields, other)) by {
            lemma_reject_other(fields, name, other);
        }
    } else {
        assert(!contains_name(fields, name));
    }
}

/// One header of a map: a name and a value.
#[derive(Debug)]
pub struct Entry {
    pub name: HeaderName,
    pub value: HeaderValue,
}

impl View for Entry {
    type V = Field;

    open spec fn view(&self) -> Field {
        Field { name: self.name@, value: self.value@, sensitive: self.value.sensitive() }
    }
}

/// A multimap of headers that keeps the order in which they were added.
#[derive(Debug)]
pub struct HeaderMap {
    entries: Vec<Entry>,
}

impl View for HeaderMap {
    type V = Seq<Field>;

    closed spec fn view(&self) -> Seq<Field> {
        Seq::new(self.entries@.len(), |i: int| self.entries@[i]@)
    }
}

impl Clone for HeaderMap {
    fn clone(&self) -> (r: HeaderMap)
        ensures
            r@ == self@,
    {
        let mut entries: Vec<Entry> = Vec::new();
        let mut i: usize = 0;
        while i < self.entries.len()
            invariant
                i <= self.entries@.len(),
                entries@.len() == i,
                forall|j: int| 0 <= j < i ==> (#[trigger] entries@[j])@ == self.entries@[j]@,
            decreases self.entries@.len() - i,
        {
            let entry = &self.entries[i];
            entries.push(Entry { name: entry.name.clone(), value: entry.value.clone() });
            i += 1;
        }
        let r = HeaderMap { entries };
        assert(r@ =~= self@);
        r
    }
}

impl HeaderMap {
    pub fn new() -> (r: HeaderMap)
        ensures
            r@ == Seq::<Field>::empty(),
    {
        let r = HeaderMap { entries: Vec::new() };
        assert(r@ =~= Seq::<Field>::empty());
        r
    }

    /// The number of fields, every value counted.
    pub fn len(&self) -> (n: usize)
        ensures
            n == self@.len(),
    {
        self.entries.len()
    }

    pub fn is_empty(&self) -> (b: bool)
        ensures
            b == (self@.len() == 0),
    {
        self.entries.len() == 0
    }

    /// The name of the field at place `i`.
    pub fn name_at(&self, i: usize) -> (r: &HeaderName)
        requires
            i < self@.len(),
        ensures
            r@ == self@[i as int].name,
    {
        &self.entries[i].name
    }

    /// The value of the field at place `i`.
    pub fn value_at(&self, i: usize) -> (r: &HeaderValue)
        requires
            i < self@.len(),
        ensures
            r@ == self@[i as int].value,
            r.sensitive() == self@[i as int].sensitive,
    {
        &self.entries[i].value
    }

    /// The place of the first field named `name`, or the number of fields.
    fn position(&self, name: &HeaderName) -> (at: usize)
        ensures
            at == first_of(self@, name@),
            at <= self@.len(),
    {
        let mut i: usize = 0;
        assert(self@.skip(0) =~= self@);
        while i < self.entries.len()
            invariant
                i <= self@.len(),
                self@.len() == self.entries@.len(),
                first_of(self@, name@) == i + first_of(self@.skip(i as int), name@),
            decreases self.entries@.len() - i,
        {
            assert(self@.skip(i as int)[0] == self@[i as int]);
            assert(self@.skip(i as int).drop_first() =~= self@.skip(i + 1));
            if self.entries[i].name.is(name) {
                return i;
            }
            i += 1;
        }
        i
    }

    pub fn contains_key(&self, name: &HeaderName) -> (b: bool)
        ensures
            b == contains_name(self@, name@),
    {
        proof {
            lemma_first_of(self@, name@);
        }
        self.position(name) < self.entries.len()
    }

    /// The first value of `name`, if it has one.
    pub fn get(&self, name: &HeaderName) -> (r: Option<&HeaderValue>)
        ensures
            r is Some == contains_name(self@, name@),
            r is Some ==> r->Some_0@ == self@[first_of(self@, name@)].value && r->Some_0.sensitive()
                == self@[first_of(self@, name@)].sensitive,
    {
        proof {
            lemma_first_of(self@, name@);
        }
        let at = self.position(name);
        if at < self.entries.len() {
            Some(&self.entries[at].value)
        } else {
            None
        }
    }

    /// All values of `name`, in their order.
    pub fn get_all(&self, name: &HeaderName) -> (r: Vec<&HeaderValue>)
        ensures
            r@.len() == select(self@, name@).len(),
            forall|i: int|
                0 <= i < r@.len() ==> (#[trigger] r@[i])@ == select(self@, name@)[i].value
                    && r@[i].sensitive() == select(self@, name@)[i].sensitive,
    {
        let mut out: Vec<&HeaderValue> = Vec::new();
        let mut i: usize = 0;
        assert(self@.take(0) =~= Seq::<Field>::empty());
        while i < self.entries.len()
            invariant
                i <= self@.len(),
                self@.len() == self.entries@.len(),
                out@.len() == select(self@.take(i as int), name@).len(),
                forall|j: int|
                    0 <= j < out@.len() ==> (#[trigger] out@[j])@ == select(
                        self@.take(i as int),
                        name@,
                    )[j].value && out@[j].sensitive() == select(
                        self@.take(i as int),
                        name@,
                    )[j].sensitive,
            decreases self.entries@.len() - i,
        {
            assert(self@.take(i + 1).drop_last() =~= self@.take(i as int));
            assert(self@.take(i + 1).last() == self@[i as int]);
            if self.entries[i].name.is(name) {
                out.push(&self.entries[i].value);
            }
            i += 1;
        }
        assert(self@.take(self@.len() as int) =~= self@);
        out
    }

    /// Adds a field behind all others, whatever the map holds for its name.
    pub fn append(&mut self, name: HeaderName, value: HeaderValue)
        ensures
            final(self)@ == old(self)@.push(
                Field { name: name@, value: value@, sensitive: value.sensitive() },
            ),
    {
        self.entries.push(Entry { name, value });
        assert(self@ =~= old(self)@.push(
            Field { name: name@, value: value@, sensitive: value.sensitive() },
        ));
    }

    /// Parts the map by `name`: the fields of that name leave, in their
    /// order, and are returned; the others stay, in theirs.
    pub fn split_by_name(&mut self, name: &HeaderName) -> (taken: HeaderMap)
        ensures
            final(self)@ == reject(old(self)@, name@),
            taken@ == select(old(self)@, name@),
    {
        let ghost whole = self@;
        let mut all: Vec<Entry> = Vec::new();
        std::mem::swap(&mut all, &mut self.entries);
        let mut kept: Vec<Entry> = Vec::new();
        let mut taken: Vec<Entry> = Vec::new();
        assert(whole.take(0) =~= Seq::<Field>::empty());
        for entry in it: all
            invariant
                it.seq().len() == whole.len(),
                forall|j: int| 0 <= j < whole.len() ==> (#[trigger] it.seq()[j])@ == whole[j],
                kept@.len() == reject(whole.take(it.index() as int), name@).len(),
                taken@.len() == select(whole.take(it.index() as int), name@).len(),
                forall|j: int|
                    0 <= j < kept@.len() ==> (#[trigger] kept@[j])@ == reject(
                        whole.take(it.index() as int),
                        name@,
                    )[j],
                forall|j: int|
                    0 <= j < taken@.len() ==> (#[trigger] taken@[j])@ == select(
                        whole.take(it.index() as int),
                        name@,
                    )[j],
        {
            proof {
                let i = it.index() as int;
                assert(entry@ == whole[i]);
                assert(whole.take(i + 1).drop_last() =~= whole.take(i));
                assert(whole.take(i + 1).last() == whole[i]);
            }
            if entry.name.is(name) {
                taken.push(entry);
            } else {
                kept.push(entry);
            }
        }
        assert(whole.take(whole.len() as int) =~= whole);
        self.entries = kept;
        let taken = HeaderMap { entries: taken };
        assert(self@ =~= reject(whole, name@));
        assert(taken@ =~= select(whole, name@));
        taken
    }

    /// Takes out every field named `name`. Says whether there was one.
    pub fn remove(&mut self, name: &HeaderName) -> (found: bool)
        ensures
            final(self)@ == reject(old(self)@, name@),
            found == contains_name(old(self)@, name@),
    {
        proof {
            lemma_select_reject(self@, name@);
        }
        let taken = self.split_by_name(name);
        taken.len() > 0
    }

    /// Puts the fields of `other` behind those of the map, in their order.
    pub fn extend(&mut self, other: HeaderMap)
        ensures
            final(self)@ == old(self)@ + other@,
    {
        let ghost tail = other@;
        let mut other = other;
        self.entries.append(&mut other.entries);
        assert(self@ =~= old(self)@ + tail);
    }

    /// Gives the field at place `i` the value `value`.
    pub fn set_value_at(&mut self, i: usize, value: HeaderValue)
        requires
            i < old(self)@.len(),
        ensures
            final(self)@ == old(self)@.update(
                i as int,
                Field { name: old(self)@[i as int].name, value: value@, sensitive: value.sensitive() },
            ),
    {
        let mut tail = self.entries.split_off(i);
        let mut rest = tail.split_off(1);
        let entry = tail.pop().unwrap();
        self.entries.push(Entry { name: entry.name, value });
        self.entries.append(&mut rest);
        assert(self@ =~= old(self)@.update(
            i as int,
            Field { name: old(self)@[i as int].name, value: value@, sensitive: value.sensitive() },
        ));
    }

    /// Makes `value` the one value of `name`: in the place of the first
    /// value that the name had, or behind all fields where it had none.
    pub fn insert(&mut self, name: HeaderName, value: HeaderValue)
        ensures
            final(self)@ == replaced(
                old(self)@,
                Field { name: name@, value: value@, sensitive: value.sensitive() },
            ),
    {
        let ghost field = Field { name: name@, value: value@, sensitive: value.sensitive() };
        let ghost whole = self@;
        proof {
            lemma_first_of(whole, name@);
        }
        let at = self.position(&name);
        if at >= self.entries.len() {
            self.append(name, value);
            return ;
        }
        let mut tail = self.entries.split_off(at);
        let mut rest = HeaderMap { entries: tail.split_off(1) };
        proof {
            assert(self@ =~= whole.take(at as int));
            assert(rest@ =~= whole.skip(at + 1));
        }
        rest.remove(&name);
        self.entries.push(Entry { name, value });
        assert(self@ =~= whole.take(at as int).push(field));
        let ghost front = self@;
        self.entries.append(&mut rest.entries);
        assert(self@ =~= front + reject(whole.skip(at + 1), field.name));
    }

    /// The headers in the order in which they go on the wire: the values of
    /// one name together, at the place of the first of them.
    pub fn wire_order(&self) -> (r: HeaderMap)
        ensures
            r@ == grouped(self@),
    {
        let mut rest = self.clone();
        let mut out = HeaderMap::new();
        proof {
            assert(out@ + grouped(rest@) =~= grouped(self@));
        }
        while rest.len() > 0
            invariant
                grouped(self@) == out@ + grouped(rest@),
            decreases rest@.len(),
        {
            let name = rest.name_at(0).clone();
            let ghost before = rest@;
            let ghost done = out@;
            proof {
                lemma_select_reject(before, name@);
                assert(before[0].name == name@);
            }
            let taken = rest.split_by_name(&name);
            out.extend(taken);
            proof {
                assert(done + (select(before, name@) + grouped(reject(before, name@))) =~= (done
                    + select(before, name@)) + grouped(reject(before, name@)));
            }
        }
        proof {
            assert(out@ + grouped(rest@) =~= out@);
        }
        out
    }

    /// Gives every name that `src` bears the values that `src` has for it.
    pub fn replace_all(&mut self, src: HeaderMap)
        ensures
            final(self)@ == replaced_all(old(self)@, src@),
    {
        let ghost whole = src@;
        let mut seen: Vec<HeaderName> = Vec::new();
        assert(whole.take(0) =~= Seq::<Field>::empty());
        for entry in it: src.entries
            invariant
                it.seq().len() == whole.len(),
                forall|j: int| 0 <= j < whole.len() ==> (#[trigger] it.seq()[j])@ == whole[j],
                seen@.len() == it.index(),
                forall|j: int| 0 <= j < seen@.len() ==> (#[trigger] seen@[j])@ == whole[j].name,
                self@ == replaced_all(old(self)@, whole.take(it.index() as int)),
        {
            let ghost i = it.index() as int;
            proof {
                assert(entry@ == whole[i]);
                assert(whole.take(i + 1).drop_last() =~= whole.take(i));
                assert(whole.take(i + 1).last() == whole[i]);
            }
            let mut earlier = false;
            let mut k: usize = 0;
            while k < seen.len()
                invariant
                    k <= seen@.len(),
                    seen@.len() == i,
                    i < whole.len(),
                    entry@ == whole[i],
                    forall|j: int| 0 <= j < seen@.len() ==> (#[trigger] seen@[j])@ == whole[j].name,
                    earlier == exists|j: int| 0 <= j < k && (#[trigger] whole.take(i)[j]).name == entry.name@,
                decreases seen@.len() - k,
            {
                if seen[k].is(&entry.name) {
                    assert(whole.take(i)[k as int].name == entry.name@);
                    earlier = true;
                }
                k += 1;
            }
            assert(earlier == contains_name(whole.take(i), entry.name@));
            seen.push(entry.name.clone());
            if earlier {
                self.append(entry.name, entry.value);
            } else {
                self.insert(entry.name, entry.value);
            }
        }
        assert(whole.take(whole.len() as int) =~= whole);
    }

    /// Adds the field where the map has none of its name. Says whether it
    /// did.
    pub fn insert_if_absent(&mut self, name: HeaderName, value: HeaderValue) -> (added: bool)
        ensures
            added == !contains_name(old(self)@, name@),
            final(self)@ == (if contains_name(old(self)@, name@) {
                old(self)@
            } else {
                old(self)@.push(Field { name: name@, value: value@, sensitive: value.sensitive() })
            }),
    {
        if self.contains_key(&name) {
            false
        } else {
            self.append(name, value);
            true
        }
    }
}

} // verus!
