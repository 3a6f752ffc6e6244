//! The carrier: a header-like list of byte-string fields that transports the
//! serialized trace context across a process boundary.

use vstd::prelude::*;

verus! {

/// One header-style field of a carrier.
pub struct HeaderField {
    pub name: Vec<u8>,
    pub value: Vec<u8>,
}

/// The value of the first field named `key`, if any.
pub open spec fn lookup_in(fields: Seq<HeaderField>, key: Seq<u8>) -> Option<Seq<u8>>
    decreases fields.len(),
{
    if fields.len() == 0 {
        None
    } else if fields[0].name@ == key {
        Some(fields[0].value@)
    } else {
        lookup_in(fields.drop_first(), key)
    }
}

/// A string-keyed mapping carrying the serialized form of a trace context,
/// attached to a request's metadata.  Unknown fields are kept and ignored.
pub struct Carrier {
    pub fields: Vec<HeaderField>,
}

impl Carrier {
    /// The value this carrier holds under `key`.
    pub open spec fn lookup(self, key: Seq<u8>) -> Option<Seq<u8>> {
        lookup_in(self.fields@, key)
    }

    /// An empty carrier: no field under any key.
    pub fn new() -> (c: Carrier)
        ensures
            forall|k: Seq<u8>| #[trigger] c.lookup(k) is None,
    {
        Carrier { fields: Vec::new() }
    }

    /// The value of the first field named `key`, if any.
    pub fn get(&self, key: &[u8]) -> (r: Option<&Vec<u8>>)
        ensures
            match r {
                Some(v) => self.lookup(key@) == Some(v@),
                None => self.lookup(key@) is None,
            },
    {
        let n = self.fields.len();
        let mut i: usize = 0;
        while i < n
            invariant
                0 <= i <= n == self.fields@.len(),
                forall|j: int| 0 <= j < i ==> (#[trigger] self.fields@[j].name@) != key@,
            decreases n - i,
        {
            if bytes_eq(self.fields[i].name.as_slice(), key) {
                proof {
                    lemma_lookup_first_match(self.fields@, i as int, key@);
                }
                return Some(&self.fields[i].value);
            }
            i = i + 1;
        }
        proof {
            lemma_lookup_no_match(self.fields@, key@);
        }
        None
    }

    /// Sets `key` to `value`: the first field of that name is overwritten if
    /// one exists, else a new field is appended.  Every other key keeps the
    /// value it had.
    pub fn set(&mut self, key: Vec<u8>, value: Vec<u8>)
        ensures
            final(self).lookup(key@) == Some(value@),
            forall|k: Seq<u8>| k != key@ ==> final(self).lookup(k) == old(self).lookup(k),
    {
        let n = self.fields.len();
        let mut i: usize = 0;
        while i < n
            invariant
                0 <= i <= n == self.fields@.len(),
                self == old(self),
                forall|j: int| 0 <= j < i ==> (#[trigger] self.fields@[j].name@) != key@,
            decreases n - i,
        {
            if bytes_eq(self.fields[i].name.as_slice(), key.as_slice()) {
                let ghost before = self.fields@;
                let f = HeaderField { name: key, value };
                proof {
                    assert forall|k: Seq<u8>| k != f.name@ implies lookup_in(
                        before.update(i as int, f),
                        k,
                    ) == lookup_in(before, k) by {
                        lemma_lookup_update(before, i as int, f, k);
                    };
                    lemma_lookup_update(before, i as int, f, key@);
                }
                self.fields.set(i, f);
                return ;
            }
            i = i + 1;
        }
        let ghost before = self.fields@;
        let f = HeaderField { name: key, value };
        proof {
            lemma_lookup_no_match(before, f.name@);
            lemma_lookup_push(before, f, f.name@);
            assert forall|k: Seq<u8>| k != f.name@ implies lookup_in(before.push(f), k)
                == lookup_in(before, k) by {
                lemma_lookup_push(before, f, k);
            };
        }
        self.fields.push(f);
    }
}

/// Whether two byte strings hold the same bytes.
pub fn bytes_eq(a: &[u8], b: &[u8]) -> (r: bool)
    ensures
        r == (a@ == b@),
{
    if a.len() != b.len() {
        return false;
    }
    let n = a.len();
    let mut i: usize = 0;
    while i < n
        invariant
            0 <= i <= n,
            n == a@.len() == b@.len(),
            forall|j: int| 0 <= j < i ==> a@[j] == b@[j],
        decreases n - i,
    {
        if a[i] != b[i] {
            return false;
        }
        i = i + 1;
    }
    proof {
        assert(a@ =~= b@);
    }
    true
}

/// If no field before `i` is named `k` and field `i` is, the lookup of `k`
/// yields field `i`'s value.
proof fn lemma_lookup_first_match(fields: Seq<HeaderField>, i: int, k: Seq<u8>)
    requires
        0 <= i < fields.len(),
        forall|j: int| 0 <= j < i ==> (#[trigger] fields[j].name@) != k,
        fields[i].name@ == k,
    ensures
        lookup_in(fields, k) == Some(fields[i].value@),
    decreases i,
{
    if i > 0 {
        assert(fields.drop_first() =~= fields.skip(1));
        lemma_lookup_first_match(fields.drop_first(), i - 1, k);
    }
}

/// If no field at all is named `k`, the lookup of `k` is empty.
proof fn lemma_lookup_no_match(fields: Seq<HeaderField>, k: Seq<u8>)
    requires
        forall|j: int| 0 <= j < fields.len() ==> (#[trigger] fields[j].name@) != k,
    ensures
        lookup_in(fields, k) is None,
    decreases fields.len(),
{
    if fields.len() > 0 {
        lemma_lookup_no_match(fields.drop_first(), k);
    }
}

/// Overwriting the first field named `f.name` changes that key's lookup to
/// `f.value` and no other key's.
proof fn lemma_lookup_update(fields: Seq<HeaderField>, i: int, f: HeaderField, k: Seq<u8>)
    requires
        0 <= i < fields.len(),
        forall|j: int| 0 <= j < i ==> (#[trigger] fields[j].name@) != f.name@,
        fields[i].name@ == f.name@,
    ensures
        lookup_in(fields.update(i, f), f.name@) == Some(f.value@),
        lookup_in(fields.update(i, f), k) == if k == f.name@ {
            Some(f.value@)
        } else {
            lookup_in(fields, k)
        },
    decreases i,
{
    let u = fields.update(i, f);
    if i == 0 {
        assert(u[0] == f);
        assert(u.drop_first() =~= fields.drop_first());
    } else {
        assert(u[0] == fields[0]);
        assert(u.drop_first() =~= fields.drop_first().update(i - 1, f));
        lemma_lookup_update(fields.drop_first(), i - 1, f, k);
    }
}

/// Appending a field leaves every present key's lookup unchanged and fills
/// in the new field's name where the lookup was empty.
proof fn lemma_lookup_push(fields: Seq<HeaderField>, f: HeaderField, k: Seq<u8>)
    ensures
        lookup_in(fields.push(f), k) == if lookup_in(fields, k) is Some {
            lookup_in(fields, k)
        } else if k == f.name@ {
            Some(f.value@)
        } else {
            None::<Seq<u8>>
        },
    decreases fields.len(),
{
    let p = fields.push(f);
    if fields.len() == 0 {
        assert(p[0] == f);
        assert(p.drop_first() =~= Seq::<HeaderField>::empty());
        assert(lookup_in(Seq::<HeaderField>::empty(), k) is None);
        assert(lookup_in(fields, k) is None);
    } else {
        assert(p[0] == fields[0]);
        assert(p.drop_first() =~= fields.drop_first().push(f));
        lemma_lookup_push(fields.drop_first(), f, k);
    }
}

} // verus!
