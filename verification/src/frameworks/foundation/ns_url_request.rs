//! `NSMutableURLRequest`: the header fields of a request. Field names and
//! values are UTF-16 strings, and a name is matched exactly, as the
//! dictionary that holds them matches its keys.
use vstd::prelude::*;

verus! {

/// The value of the header field `name` in `fields`, if it is set.
pub open spec fn header_lookup(fields: Seq<(Seq<u16>, Seq<u16>)>, name: Seq<u16>) -> Option<Seq<u16>>
    decreases fields.len(),
{
    if fields.len() == 0 {
        None
    } else if fields.last().0 == name {
        Some(fields.last().1)
    } else {
        header_lookup(fields.drop_last(), name)
    }
}

/// `", "`, which joins the values added to one field.
pub open spec fn value_separator() -> Seq<u16> {
    seq![0x2cu16, 0x20u16]
}

/// No field name occurs twice in `fields`.
pub open spec fn distinct_names(fields: Seq<(Seq<u16>, Seq<u16>)>) -> bool {
    forall|i: int, j: int| 0 <= i < j < fields.len() ==> #[trigger] fields[i].0 != #[trigger] fields[j].0
}

proof fn lemma_lookup_at(fields: Seq<(Seq<u16>, Seq<u16>)>, i: int)
    requires
        distinct_names(fields),
        0 <= i < fields.len(),
    ensures
        header_lookup(fields, fields[i].0) == Some(fields[i].1),
    decreases fields.len(),
{
    if i < fields.len() - 1 {
        assert(fields[i].0 != fields[fields.len() - 1].0);
        assert(fields.drop_last()[i] == fields[i]);
        lemma_lookup_at(fields.drop_last(), i);
    }
}

proof fn lemma_lookup_absent(fields: Seq<(Seq<u16>, Seq<u16>)>, name: Seq<u16>)
    requires
        forall|i: int| 0 <= i < fields.len() ==> #[trigger] fields[i].0 != name,
    ensures
        header_lookup(fields, name) is None,
    decreases fields.len(),
{
    if fields.len() > 0 {
        assert(fields.last() == fields[fields.len() - 1]);
        assert forall|i: int| 0 <= i < fields.drop_last().len() implies #[trigger] fields.drop_last()[i].0 != name by {
            assert(fields.drop_last()[i] == fields[i]);
        }
        lemma_lookup_absent(fields.drop_last(), name);
    }
}

/// The header fields of a request, in the order they were first set.
pub struct HeaderFields {
    fields: Vec<(Vec<u16>, Vec<u16>)>,
}

impl HeaderFields {
    /// The fields as names and values.
    pub closed spec fn entries(&self) -> Seq<(Seq<u16>, Seq<u16>)> {
        Seq::new(self.fields@.len(), |i: int| (self.fields@[i].0@, self.fields@[i].1@))
    }

    /// The value of the field `name`, if it is set.
    pub open spec fn get(&self, name: Seq<u16>) -> Option<Seq<u16>> {
        header_lookup(self.entries(), name)
    }

    /// Each field is set once.
    pub open spec fn wf(&self) -> bool {
        distinct_names(self.entries())
    }

    /// No fields.
    pub fn new() -> (h: Self)
        ensures
            h.wf(),
            forall|name: Seq<u16>| #[trigger] h.get(name) is None,
    {
        let h = HeaderFields { fields: Vec::new() };
        assert forall|name: Seq<u16>| #[trigger] h.get(name) is None by {
            assert(h.entries().len() == 0);
        }
        h
    }

    /// The value of the field `name`, if it is set.
    pub fn value_for(&self, name: &[u16]) -> (v: Option<Vec<u16>>)
        ensures
            match v {
                Some(v) => self.get(name@) == Some(v@),
                None => self.get(name@) is None,
            },
    {
        let mut i = self.fields.len();
        assert(self.entries().take(i as int) =~= self.entries());
        while i > 0
            invariant
                i <= self.fields@.len(),
                self.get(name@) == header_lookup(self.entries().take(i as int), name@),
            decreases i,
        {
            let ghost prefix = self.entries().take(i as int);
            assert(prefix.drop_last() =~= self.entries().take(i - 1));
            assert(prefix.last() == self.entries()[i - 1]);
            if slices_equal(self.fields[i - 1].0.as_slice(), name) {
                return Some(copy_units(&self.fields[i - 1].1));
            }
            i = i - 1;
        }
        None
    }

    /// `-setValue:forHTTPHeaderField:`: the field `name` is set to `value`,
    /// in place if it was set before.
    pub fn set_value(&mut self, name: Vec<u16>, value: Vec<u16>)
        requires
            old(self).wf(),
        ensures
            final(self).wf(),
            final(self).get(name@) == Some(value@),
            forall|other: Seq<u16>| other != name@ ==> #[trigger] final(self).get(other) == old(self).get(other),
    {
        let ghost n = name@;
        let ghost v = value@;
        let ghost before = self.entries();
        let mut i: usize = 0;
        while i < self.fields.len()
            invariant
                i <= self.fields@.len(),
                before == self.entries(),
                before == old(self).entries(),
                distinct_names(before),
                n == name@,
                v == value@,
                forall|j: int| 0 <= j < i ==> #[trigger] before[j].0 != n,
            decreases self.fields@.len() - i,
        {
            if slices_equal(self.fields[i].0.as_slice(), name.as_slice()) {
                self.fields.set(i, (name, value));
                proof {
                    let after = self.entries();
                    assert(after =~= before.update(i as int, (n, v)));
                    assert forall|a: int, b: int| 0 <= a < b < after.len() implies #[trigger] after[a].0
                        != #[trigger] after[b].0 by {
                        assert(before[a].0 != before[b].0);
                    }
                    lemma_lookup_at(after, i as int);
                    assert forall|other: Seq<u16>| other != n implies #[trigger] self.get(other) == header_lookup(
                        before,
                        other,
                    ) by {
                        if exists|j: int| 0 <= j < before.len() && #[trigger] before[j].0 == other {
                            let j = choose|j: int| 0 <= j < before.len() && #[trigger] before[j].0 == other;
                            lemma_lookup_at(before, j);
                            assert(after[j] == before[j]);
                            lemma_lookup_at(after, j);
                        } else {
                            lemma_lookup_absent(before, other);
                            assert forall|j: int| 0 <= j < after.len() implies #[trigger] after[j].0 != other by {
                                if j != i {
                                    assert(after[j] == before[j]);
                                }
                            }
                            lemma_lookup_absent(after, other);
                        }
                    }
                }
                return;
            }
            i = i + 1;
        }
        self.fields.push((name, value));
        proof {
            let after = self.entries();
            assert(after.drop_last() =~= before);
            assert(after.last() == (n, v));
            assert forall|a: int, b: int| 0 <= a < b < after.len() implies #[trigger] after[a].0
                != #[trigger] after[b].0 by {
                if b < after.len() - 1 {
                    assert(after[a] == before[a] && after[b] == before[b]);
                } else {
                    assert(after[a] == before[a]);
                }
            }
        }
    }

    /// `-addValue:forHTTPHeaderField:`: `value` is appended to the field
    /// `name` after a comma and a space, or the field is set to it if it was
    /// not set.
    pub fn add_value(&mut self, name: Vec<u16>, value: Vec<u16>)
        requires
            old(self).wf(),
        ensures
            final(self).wf(),
            final(self).get(name@) == Some(
                match old(self).get(name@) {
                    Some(existing) => existing + value_separator() + value@,
                    None => value@,
                },
            ),
            forall|other: Seq<u16>| other != name@ ==> #[trigger] final(self).get(other) == old(self).get(other),
    {
        let combined = match self.value_for(name.as_slice()) {
            Some(existing) => {
                let ghost e = existing@;
                let mut c = existing;
                c.push(0x2c);
                c.push(0x20);
                assert(c@ =~= e + value_separator());
                let mut k: usize = 0;
                let ghost start = c@;
                while k < value.len()
                    invariant
                        k <= value@.len(),
                        c@ == start + value@.take(k as int),
                    decreases value@.len() - k,
                {
                    c.push(value[k]);
                    k = k + 1;
                    assert(c@ =~= start + value@.take(k as int));
                }
                assert(value@.take(value@.len() as int) =~= value@);
                c
            },
            None => value,
        };
        self.set_value(name, combined);
    }
}

fn slices_equal(a: &[u16], b: &[u16]) -> (eq: bool)
    ensures
        eq == (a@ == b@),
{
    if a.len() != b.len() {
        return false;
    }
    let mut i: usize = 0;
    while i < a.len()
        invariant
            a@.len() == b@.len(),
            i <= a@.len(),
            forall|j: int| 0 <= j < i ==> a@[j] == b@[j],
        decreases a@.len() - i,
    {
        if a[i] != b[i] {
            return false;
        }
        i = i + 1;
    }
    assert(a@ =~= b@);
    true
}

fn copy_units(v: &Vec<u16>) -> (out: Vec<u16>)
    ensures
        out@ == v@,
{
    let mut out: Vec<u16> = Vec::new();
    let mut i: usize = 0;
    while i < v.len()
        invariant
            i <= v@.len(),
            out@ == v@.take(i as int),
        decreases v@.len() - i,
    {
        out.push(v[i]);
        i = i + 1;
        assert(out@ =~= v@.take(i as int));
    }
    assert(v@.take(v@.len() as int) =~= v@);
    out
}

} // verus!
