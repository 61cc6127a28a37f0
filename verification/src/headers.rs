//! Header fields: a mapping from case-insensitive names to values.

use vstd::prelude::*;
use vstd::std_specs::cmp::PartialEqSpecImpl;
use crate::text::{lower, to_lower};

verus! {

/// One header field. The name is kept in lower case.
#[derive(Debug)]
struct Field {
    name: Vec<u8>,
    value: Vec<u8>,
}

/// The header fields of a request or a response.
///
/// Names are ASCII case-insensitive: a name is folded to lower case before it
/// is stored or looked up, and a name occurs at most once.
#[derive(Debug)]
pub struct Headers {
    fields: Vec<Field>,
}

/// Compares two byte strings.
pub fn bytes_eq(a: &[u8], b: &[u8]) -> (same: bool)
    ensures
        same == (a@ == b@),
{
    if a.len() != b.len() {
        return false;
    }
    let mut i: usize = 0;
    while i < a.len()
        invariant
            i <= a.len(),
            a.len() == b.len(),
            forall|j: int| 0 <= j < i ==> a@[j] == b@[j],
        decreases a.len() - i,
    {
        if a[i] != b[i] {
            return false;
        }
        i += 1;
    }
    assert(a@ =~= b@);
    true
}

/// Copies a byte string.
pub fn copy_bytes(bytes: &[u8]) -> (out: Vec<u8>)
    ensures
        out@ == bytes@,
{
    let mut out: Vec<u8> = Vec::new();
    let mut i: usize = 0;
    while i < bytes.len()
        invariant
            i <= bytes.len(),
            out@ == bytes@.subrange(0, i as int),
        decreases bytes.len() - i,
    {
        out.push(bytes[i]);
        i += 1;
        assert(out@ =~= bytes@.subrange(0, i as int));
    }
    assert(bytes@.subrange(0, i as int) =~= bytes@);
    out
}

impl Headers {
    #[verifier::type_invariant]
    spec fn distinct_lower_names(self) -> bool {
        &&& forall|i: int|
            0 <= i < self.fields@.len() ==> lower(#[trigger] self.fields@[i].name@)
                == self.fields@[i].name@
        &&& forall|i: int, j: int|
            0 <= i < self.fields@.len() && 0 <= j < self.fields@.len() && i != j
                ==> #[trigger] self.fields@[i].name@ != #[trigger] self.fields@[j].name@
    }

    spec fn holds_at(self, key: Seq<u8>, i: int) -> bool {
        0 <= i < self.fields@.len() && self.fields@[i].name@ == key
    }

    /// An empty set of header fields.
    pub fn new() -> (headers: Headers)
        ensures
            headers@ == Map::<Seq<u8>, Seq<u8>>::empty(),
    {
        let headers = Headers { fields: Vec::new() };
        assert(headers@ =~= Map::<Seq<u8>, Seq<u8>>::empty());
        headers
    }

    fn position(&self, key: &[u8]) -> (found: Option<usize>)
        ensures
            match found {
                Some(i) => self.holds_at(key@, i as int),
                None => forall|i: int| !self.holds_at(key@, i),
            },
    {
        let mut i: usize = 0;
        while i < self.fields.len()
            invariant
                i <= self.fields.len(),
                forall|j: int| 0 <= j < i ==> !self.holds_at(key@, j),
            decreases self.fields.len() - i,
        {
            if bytes_eq(self.fields[i].name.as_slice(), key) {
                return Some(i);
            }
            i += 1;
        }
        None
    }

    /// True if a field named `name` is present, whatever the case of `name`.
    pub fn contains_key(&self, name: &[u8]) -> (present: bool)
        ensures
            present == self@.contains_key(lower(name@)),
    {
        let key = to_lower(name);
        self.position(key.as_slice()).is_some()
    }

    /// The value of the field named `name`, whatever the case of `name`.
    pub fn get(&self, name: &[u8]) -> (value: Option<&Vec<u8>>)
        ensures
            match value {
                Some(v) => self@.contains_key(lower(name@)) && v@ == self@[lower(name@)],
                None => !self@.contains_key(lower(name@)),
            },
    {
        proof {
            use_type_invariant(self);
        }
        let key = to_lower(name);
        match self.position(key.as_slice()) {
            Some(i) => {
                assert(self.holds_at(key@, i as int));
                Some(&self.fields[i].value)
            },
            None => None,
        }
    }

    /// The fields as pairs of lower-case name and value: every field once,
    /// in no stated order.
    pub fn to_vec(&self) -> (pairs: Vec<(Vec<u8>, Vec<u8>)>)
        ensures
            forall|i: int|
                0 <= i < pairs@.len() ==> self@.contains_key(#[trigger] pairs@[i].0@)
                    && self@[pairs@[i].0@] == pairs@[i].1@,
            forall|k: Seq<u8>| #[trigger]
                self@.contains_key(k) ==> exists|i: int|
                    0 <= i < pairs@.len() && pairs@[i].0@ == k,
            forall|i: int, j: int|
                0 <= i < pairs@.len() && 0 <= j < pairs@.len() && i != j ==> #[trigger] pairs@[i].0@
                    != #[trigger] pairs@[j].0@,
    {
        proof {
            use_type_invariant(self);
        }
        let mut pairs: Vec<(Vec<u8>, Vec<u8>)> = Vec::new();
        let mut i: usize = 0;
        while i < self.fields.len()
            invariant
                i <= self.fields.len(),
                pairs@.len() == i,
                forall|j: int|
                    0 <= j < i ==> #[trigger] pairs@[j].0@ == self.fields@[j].name@ && pairs@[j].1@
                        == self.fields@[j].value@,
            decreases self.fields.len() - i,
        {
            pairs.push(
                (
                    copy_bytes(self.fields[i].name.as_slice()),
                    copy_bytes(self.fields[i].value.as_slice()),
                ),
            );
            i += 1;
        }
        assert forall|j: int| 0 <= j < pairs@.len() implies self@.contains_key(
            #[trigger] pairs@[j].0@,
        ) && self@[pairs@[j].0@] == pairs@[j].1@ by {
            self.lemma_value_at(pairs@[j].0@, j);
        }
        assert forall|k: Seq<u8>| #[trigger] self@.contains_key(k) implies exists|j: int|
            0 <= j < pairs@.len() && pairs@[j].0@ == k by {
            let j = choose|j: int| self.holds_at(k, j);
            assert(pairs@[j].0@ == k);
        }
        pairs
    }

    /// Sets the field named `name` to `value`, replacing an earlier value of
    /// that name.
    pub fn insert(&mut self, name: &[u8], value: &[u8])
        ensures
            final(self)@ == old(self)@.insert(lower(name@), value@),
    {
        proof {
            use_type_invariant(&*self);
        }
        let key = to_lower(name);
        let field = Field { name: copy_bytes(key.as_slice()), value: copy_bytes(value) };
        assert(lower(key@) =~= key@);
        match self.position(key.as_slice()) {
            Some(i) => {
                assert(old(self).holds_at(key@, i as int));
                let mut fields: Vec<Field> = Vec::new();
                core::mem::swap(&mut self.fields, &mut fields);
                fields.set(i, field);
                core::mem::swap(&mut self.fields, &mut fields);
                assert forall|k: Seq<u8>| #[trigger]
                    self@.contains_key(k) == old(self)@.insert(key@, value@).contains_key(
                        k,
                    ) by {
                    if old(self)@.insert(key@, value@).contains_key(k) {
                        if k == key@ {
                            assert(self.holds_at(k, i as int));
                        } else {
                            let j = choose|j: int| old(self).holds_at(k, j);
                            assert(self.holds_at(k, j));
                        }
                    }
                    if self@.contains_key(k) {
                        let j = choose|j: int| self.holds_at(k, j);
                        if j != i {
                            assert(old(self).holds_at(k, j));
                        }
                    }
                }
                assert forall|k: Seq<u8>| #[trigger] self@.contains_key(k) implies self@[k]
                    == old(self)@.insert(key@, value@)[k] by {
                    let j = choose|j: int| self.holds_at(k, j);
                    if k != key@ {
                        let j0 = choose|j0: int| old(self).holds_at(k, j0);
                        assert(old(self).holds_at(k, j));
                    }
                }
            },
            None => {
                let mut fields: Vec<Field> = Vec::new();
                core::mem::swap(&mut self.fields, &mut fields);
                fields.push(field);
                assert forall|a: int, b: int|
                    0 <= a < fields@.len() && 0 <= b < fields@.len() && a != b implies
                    #[trigger] fields@[a].name@ != #[trigger] fields@[b].name@ by {
                    if a == old(self).fields@.len() {
                        assert(!old(self).holds_at(key@, b));
                    }
                    if b == old(self).fields@.len() {
                        assert(!old(self).holds_at(key@, a));
                    }
                }
                core::mem::swap(&mut self.fields, &mut fields);
                let ghost n = old(self).fields@.len() as int;
                assert forall|k: Seq<u8>| #[trigger]
                    self@.contains_key(k) == old(self)@.insert(key@, value@).contains_key(
                        k,
                    ) by {
                    if old(self)@.insert(key@, value@).contains_key(k) {
                        if k == key@ {
                            assert(self.holds_at(k, n));
                        } else {
                            let j = choose|j: int| old(self).holds_at(k, j);
                            assert(self.holds_at(k, j));
                        }
                    }
                    if self@.contains_key(k) {
                        let j = choose|j: int| self.holds_at(k, j);
                        if j != n {
                            assert(old(self).holds_at(k, j));
                        }
                    }
                }
                assert forall|k: Seq<u8>| #[trigger] self@.contains_key(k) implies self@[k]
                    == old(self)@.insert(key@, value@)[k] by {
                    let j = choose|j: int| self.holds_at(k, j);
                    if k != key@ {
                        let j0 = choose|j0: int| old(self).holds_at(k, j0);
                        assert(old(self).holds_at(k, j));
                        assert(old(self).holds_at(k, j0));
                    } else {
                        assert(!old(self).holds_at(k, j));
                    }
                }
            },
        }
        assert(self@ =~= old(self)@.insert(lower(name@), value@));
    }
}

impl Headers {
    /// True if every field of `self` is a field of `other`, with the same
    /// value.
    pub open spec fn within(self, other: Headers) -> bool {
        forall|k: Seq<u8>| #[trigger]
            self@.contains_key(k) ==> other@.contains_key(k) && other@[k] == self@[k]
    }

    proof fn lemma_value_at(self, k: Seq<u8>, i: int)
        requires
            self.distinct_lower_names(),
            self.holds_at(k, i),
        ensures
            self@.contains_key(k),
            self@[k] == self.fields@[i].value@,
    {
        let j = choose|j: int| self.holds_at(k, j);
        assert(j == i);
    }

    /// Decides whether every field of `self` is a field of `other`, with the
    /// same value.
    pub fn is_within(&self, other: &Headers) -> (all: bool)
        ensures
            all == self.within(*other),
    {
        proof {
            use_type_invariant(self);
            use_type_invariant(other);
        }
        let mut i: usize = 0;
        while i < self.fields.len()
            invariant
                i <= self.fields.len(),
                self.distinct_lower_names(),
                other.distinct_lower_names(),
                forall|j: int|
                    0 <= j < i ==> other@.contains_key(#[trigger] self.fields@[j].name@)
                        && other@[self.fields@[j].name@] == self.fields@[j].value@,
            decreases self.fields.len() - i,
        {
            let ghost key = self.fields@[i as int].name@;
            proof {
                self.lemma_value_at(key, i as int);
            }
            let matched = match other.position(self.fields[i].name.as_slice()) {
                Some(j) => {
                    proof {
                        other.lemma_value_at(key, j as int);
                    }
                    bytes_eq(other.fields[j].value.as_slice(), self.fields[i].value.as_slice())
                },
                None => false,
            };
            if !matched {
                assert(self@.contains_key(key));
                assert(!(other@.contains_key(key) && other@[key] == self@[key]));
                return false;
            }
            i += 1;
        }
        assert forall|k: Seq<u8>| #[trigger] self@.contains_key(k) implies other@.contains_key(k)
            && other@[k] == self@[k] by {
            let j = choose|j: int| self.holds_at(k, j);
            self.lemma_value_at(k, j);
        }
        true
    }
}

impl PartialEq for Headers {
    fn eq(&self, other: &Headers) -> (same: bool) {
        let same = self.is_within(other) && other.is_within(self);
        proof {
            if same {
                assert(self@ =~= other@);
            }
        }
        same
    }
}

impl PartialEqSpecImpl for Headers {
    open spec fn obeys_eq_spec() -> bool {
        true
    }

    /// Two sets of header fields are equal if they hold the same fields,
    /// whatever the order in which the fields were set.
    open spec fn eq_spec(&self, other: &Headers) -> bool {
        self@ == other@
    }
}

impl Eq for Headers {

}

impl Clone for Headers {
    fn clone(&self) -> (copy: Headers)
        ensures
            copy@ == self@,
    {
        proof {
            use_type_invariant(self);
        }
        let mut fields: Vec<Field> = Vec::new();
        let mut i: usize = 0;
        while i < self.fields.len()
            invariant
                i <= self.fields.len(),
                fields@.len() == i,
                forall|j: int|
                    0 <= j < i ==> #[trigger] fields@[j].name@ == self.fields@[j].name@
                        && fields@[j].value@ == self.fields@[j].value@,
            decreases self.fields.len() - i,
        {
            let field = Field {
                name: copy_bytes(self.fields[i].name.as_slice()),
                value: copy_bytes(self.fields[i].value.as_slice()),
            };
            fields.push(field);
            i += 1;
        }
        let copy = Headers { fields };
        assert forall|k: Seq<u8>| #[trigger] copy@.contains_key(k) == self@.contains_key(k) by {
            if copy@.contains_key(k) {
                let j = choose|j: int| copy.holds_at(k, j);
                assert(self.holds_at(k, j));
            }
            if self@.contains_key(k) {
                let j = choose|j: int| self.holds_at(k, j);
                assert(copy.holds_at(k, j));
            }
        }
        assert forall|k: Seq<u8>| #[trigger] copy@.contains_key(k) implies copy@[k] == self@[k] by {
            let j = choose|j: int| copy.holds_at(k, j);
            let j0 = choose|j0: int| self.holds_at(k, j0);
            assert(self.holds_at(k, j));
        }
        assert(copy@ =~= self@);
        copy
    }
}

impl View for Headers {
    type V = Map<Seq<u8>, Seq<u8>>;

    /// The fields as a map from lower-case name to value.
    closed spec fn view(&self) -> Map<Seq<u8>, Seq<u8>> {
        Map::new(
            |k: Seq<u8>| exists|i: int| self.holds_at(k, i),
            |k: Seq<u8>| self.fields@[choose|i: int| self.holds_at(k, i)].value@,
        )
    }
}

} // verus!
