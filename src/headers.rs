//! Header fields: an association list of names and values, names unique, kept
//! in the order in which they first arrived.
use vstd::prelude::*;

verus! {

/// The mapping that a list of fields stands for; a later field wins over an
/// earlier one of the same name.
pub open spec fn field_map(s: Seq<(Seq<char>, Seq<char>)>) -> Map<Seq<char>, Seq<char>>
    decreases s.len(),
{
    if s.len() == 0 {
        Map::empty()
    } else {
        field_map(s.drop_last()).insert(s.last().0, s.last().1)
    }
}

/// No two fields share a name.
pub open spec fn names_unique(s: Seq<(Seq<char>, Seq<char>)>) -> bool {
    forall|i: int, j: int| 0 <= i < j < s.len() ==> s[i].0 != s[j].0
}

/// Header fields of a message.
#[derive(Debug)]
pub struct Headers {
    fields: Vec<(String, String)>,
}

impl View for Headers {
    type V = Seq<(Seq<char>, Seq<char>)>;

    closed spec fn view(&self) -> Seq<(Seq<char>, Seq<char>)> {
        self.fields@.map_values(|f: (String, String)| (f.0@, f.1@))
    }
}

proof fn lemma_field_map_has(s: Seq<(Seq<char>, Seq<char>)>, k: Seq<char>)
    ensures
        field_map(s).contains_key(k) <==> exists|i: int| 0 <= i < s.len() && s[i].0 == k,
        forall|i: int|
            0 <= i < s.len() && s[i].0 == k && names_unique(s) ==> field_map(s)[k] == s[i].1,
    decreases s.len(),
{
    if s.len() > 0 {
        let p = s.drop_last();
        lemma_field_map_has(p, k);
        assert(names_unique(s) ==> names_unique(p));
        if exists|i: int| 0 <= i < p.len() && p[i].0 == k {
            let i = choose|i: int| 0 <= i < p.len() && p[i].0 == k;
            assert(s[i].0 == k);
        }
        if exists|i: int| 0 <= i < s.len() && s[i].0 == k {
            let i = choose|i: int| 0 <= i < s.len() && s[i].0 == k;
            if i < p.len() {
                assert(p[i].0 == k);
            }
        }
    }
}

proof fn lemma_field_map_update(s: Seq<(Seq<char>, Seq<char>)>, i: int, k: Seq<char>, v: Seq<char>)
    requires
        0 <= i < s.len(),
        s[i].0 == k,
        names_unique(s),
    ensures
        field_map(s.update(i, (k, v))) == field_map(s).insert(k, v),
    decreases s.len(),
{
    let t = s.update(i, (k, v));
    if i == s.len() - 1 {
        assert(t.drop_last() =~= s.drop_last());
        assert(field_map(t) =~= field_map(s).insert(k, v));
    } else {
        let p = s.drop_last();
        lemma_field_map_update(p, i, k, v);
        assert(t.drop_last() =~= p.update(i, (k, v)));
        assert(t.last() == s.last());
        assert(s.last().0 != k);
        assert(field_map(t) =~= field_map(s).insert(k, v));
    }
}

impl Headers {
    #[verifier::type_invariant]
    spec fn inv(self) -> bool {
        names_unique(self@)
    }

    /// The mapping from names to values.
    pub open spec fn map(&self) -> Map<Seq<char>, Seq<char>> {
        field_map(self@)
    }

    /// No fields.
    pub fn new() -> (r: Headers)
        ensures
            r@ == Seq::<(Seq<char>, Seq<char>)>::empty(),
    {
        let r = Headers { fields: Vec::new() };
        assert(r@ =~= Seq::<(Seq<char>, Seq<char>)>::empty());
        r
    }

    /// Number of fields.
    pub fn len(&self) -> (r: usize)
        ensures
            r == self@.len(),
    {
        self.fields.len()
    }

    /// Name and value of the field at `i`, in order of arrival.
    pub fn field(&self, i: usize) -> (r: (&String, &String))
        requires
            i < self@.len(),
        ensures
            r.0@ == self@[i as int].0,
            r.1@ == self@[i as int].1,
    {
        let f = &self.fields[i];
        (&f.0, &f.1)
    }

    /// Position of the field named `key`, if any.
    fn position(&self, key: &String) -> (r: Option<usize>)
        ensures
            match r {
                Some(i) => i < self@.len() && self@[i as int].0 == key@,
                None => forall|i: int| 0 <= i < self@.len() ==> self@[i].0 != key@,
            },
    {
        let mut i: usize = 0;
        while i < self.fields.len()
            invariant
                0 <= i <= self@.len(),
                self@.len() == self.fields@.len(),
                forall|j: int| 0 <= j < i ==> self@[j].0 != key@,
            decreases self@.len() - i,
        {
            if self.fields[i].0 == *key {
                return Some(i);
            }
            i = i + 1;
        }
        None
    }

    /// Sets the field `key` to `value`: a field of that name keeps its place and
    /// takes the new value, a new name goes last.
    pub fn insert(&mut self, key: String, value: String)
        ensures
            final(self).map() == old(self).map().insert(key@, value@),
            old(self).map().contains_key(key@) ==> final(self)@.len() == old(self)@.len(),
            !old(self).map().contains_key(key@) ==> final(self)@.len() == old(self)@.len() + 1
                && final(self)@.last() == (key@, value@),
            forall|i: int|
                0 <= i < old(self)@.len() ==> final(self)@[i] == if old(self)@[i].0 == key@ {
                    (key@, value@)
                } else {
                    old(self)@[i]
                },
    {
        proof {
            use_type_invariant(&*self);
            lemma_field_map_has(self@, key@);
        }
        let ghost s = self@;
        let ghost (k, v) = (key@, value@);
        let found = self.position(&key);
        let mut taken = Headers::new();
        core::mem::swap(self, &mut taken);
        let mut fields = taken.fields;
        match found {
            Some(i) => {
                fields.set(i, (key, value));
                proof {
                    lemma_field_map_update(s, i as int, k, v);
                }
            },
            None => {
                fields.push((key, value));
            },
        }
        let ghost t = fields@.map_values(|f: (String, String)| (f.0@, f.1@));
        proof {
            match found {
                Some(i) => {
                    assert(t =~= s.update(i as int, (k, v)));
                },
                None => {
                    assert(t =~= s.push((k, v)));
                    assert(t.drop_last() =~= s);
                },
            }
        }
        *self = Headers { fields };
    }

    /// The value of the field named `key`, if there is one.
    pub fn get(&self, key: &str) -> (r: Option<&String>)
        ensures
            match r {
                Some(v) => self.map().contains_key(key@) && v@ == self.map()[key@],
                None => !self.map().contains_key(key@),
            },
    {
        proof {
            use_type_invariant(self);
            lemma_field_map_has(self@, key@);
        }
        let k = key.to_owned();
        match self.position(&k) {
            Some(i) => Some(&self.fields[i].1),
            None => None,
        }
    }
}

} // verus!
