//! The header list of a request or a response.
//!
//! A [`Headers`] value maps header names to values. Names are HTTP tokens and
//! are compared without regard to the case of ASCII letters: they are kept in
//! lower case. Values are kept without the blanks around them and hold
//! printable ASCII, spaces and tabs only.

use crate::error::FetchError;
use crate::text::{
    lemma_field_ascii, lemma_trim_shape, pieces, same_ignoring_case, split_pieces, is_blank, lower_char, is_token_char,
    ascii_lower, check_field, check_token, is_field_char, is_field_text, is_lower, is_token,
    lemma_lower_token,
    to_lowercase, trim,
};
use vstd::prelude::*;
use vstd::string::*;

verus! {

/// What a header list holds: for each name, in lower case, its value.
pub type HeaderMap = Map<Seq<char>, Seq<char>>;

/// The separator between the values of one header.
pub open spec fn joint() -> Seq<char> {
    seq![',', ' ']
}

/// The value stored under a name, whatever the case of its letters.
pub open spec fn lookup(m: HeaderMap, name: Seq<char>) -> Option<Seq<char>> {
    if m.contains_key(ascii_lower(name)) {
        Some(m[ascii_lower(name)])
    } else {
        None
    }
}

/// The list after a value has been set: it replaces what the name had.
pub open spec fn after_set(m: HeaderMap, name: Seq<char>, value: Seq<char>) -> HeaderMap {
    m.insert(ascii_lower(name), trim(value))
}

/// The list after a value has been appended: it follows what the name had,
/// after a comma and a space, or stands alone where the name had nothing.
pub open spec fn after_append(m: HeaderMap, name: Seq<char>, value: Seq<char>) -> HeaderMap {
    let key = ascii_lower(name);
    if m.contains_key(key) {
        m.insert(key, m[key] + joint() + trim(value))
    } else {
        m.insert(key, trim(value))
    }
}

/// The list after a name has been deleted.
pub open spec fn after_delete(m: HeaderMap, name: Seq<char>) -> HeaderMap {
    m.remove(ascii_lower(name))
}

/// Whether a name and a value are accepted by `set` and `append`.
pub open spec fn accepted(name: Seq<char>, value: Seq<char>) -> bool {
    is_token(name) && is_field_text(trim(value))
}

/// The message of the failure that a name and a value are refused with.
pub open spec fn refusal(name: Seq<char>, value: Seq<char>) -> Seq<char> {
    if !is_token(name) {
        "Invalid header name"@
    } else {
        "Invalid header value"@
    }
}

/// What a list must satisfy: only lower-case tokens as names, only texts of
/// header value characters as values.
pub open spec fn well_formed(m: HeaderMap) -> bool {
    forall|k: Seq<char>| #[trigger]
        m.contains_key(k) ==> is_token(k) && is_lower(k) && is_field_text(m[k])
}

/// A name with its value, as texts.
pub type Pair = (Seq<char>, Seq<char>);

/// The list after each pair has been set in turn; a pair that `set` refuses
/// is passed over.
pub open spec fn set_all(m: HeaderMap, pairs: Seq<Pair>) -> HeaderMap
    decreases pairs.len(),
{
    if pairs.len() == 0 {
        m
    } else {
        let before = set_all(m, pairs.drop_last());
        let last = pairs.last();
        if accepted(last.0, last.1) {
            after_set(before, last.0, last.1)
        } else {
            before
        }
    }
}

/// Whether the names are those of the list, each of them once.
pub open spec fn names_of(names: Seq<Seq<char>>, m: HeaderMap) -> bool {
    &&& names.no_duplicates()
    &&& forall|k: Seq<char>| names.contains(k) <==> m.contains_key(k)
}

/// The pairs given as texts.
pub open spec fn pair_texts(pairs: Seq<(&str, &str)>) -> Seq<Pair> {
    Seq::new(pairs.len(), |i: int| (pairs[i].0@, pairs[i].1@))
}

/// The entries that a list is made of: names with their values.
type Entries = Seq<(String, String)>;

/// Whether an entry has the given name.
spec fn holds(es: Entries, key: Seq<char>) -> bool {
    exists|i: int| 0 <= i < es.len() && (#[trigger] es[i]).0@ == key
}

/// The index of an entry with the given name.
spec fn place(es: Entries, key: Seq<char>) -> int {
    choose|i: int| 0 <= i < es.len() && (#[trigger] es[i]).0@ == key
}

/// No name occurs twice.
spec fn distinct(es: Entries) -> bool {
    forall|i: int, j: int|
        0 <= i < j < es.len() ==> (#[trigger] es[i]).0@ != (#[trigger] es[j]).0@
}

/// Names are lower-case tokens, values are texts of header value characters.
spec fn valid(es: Entries) -> bool {
    forall|i: int|
        0 <= i < es.len() ==> {
            &&& is_token((#[trigger] es[i]).0@)
            &&& is_lower(es[i].0@)
            &&& is_field_text(es[i].1@)
        }
}

/// What the entries hold, as a map.
spec fn model(es: Entries) -> HeaderMap {
    Map::new(|k: Seq<char>| holds(es, k), |k: Seq<char>| es[place(es, k)].1@)
}

/// The entry at an index is what the map holds under its name.
proof fn lemma_entry(es: Entries, i: int)
    requires
        distinct(es),
        0 <= i < es.len(),
    ensures
        holds(es, es[i].0@),
        place(es, es[i].0@) == i,
        model(es).contains_key(es[i].0@),
        model(es)[es[i].0@] == es[i].1@,
{
    let key = es[i].0@;
    assert(holds(es, key));
    let p = place(es, key);
    if p < i {
        assert(es[p].0@ != es[i].0@);
    }
    if i < p {
        assert(es[i].0@ != es[p].0@);
    }
}

/// Replacing the value of an entry is inserting under its name.
proof fn lemma_model_update(es: Entries, i: int, e: (String, String))
    requires
        distinct(es),
        0 <= i < es.len(),
        es[i].0@ == e.0@,
    ensures
        distinct(es.update(i, e)),
        model(es.update(i, e)) == model(es).insert(e.0@, e.1@),
{
    let fs = es.update(i, e);
    assert(distinct(fs)) by {
        assert forall|a: int, b: int| 0 <= a < b < fs.len() implies (#[trigger] fs[a]).0@ != (
        #[trigger] fs[b]).0@ by {
            assert(es[a].0@ != es[b].0@);
        }
    }
    assert forall|k: Seq<char>| holds(fs, k) <==> (k == e.0@ || holds(es, k)) by {
        if holds(fs, k) {
            let p = place(fs, k);
            assert(es[p].0@ == k);
        }
        if holds(es, k) {
            let p = place(es, k);
            assert(fs[p].0@ == k);
        }
        if k == e.0@ {
            assert(fs[i].0@ == k);
        }
    }
    assert forall|k: Seq<char>| holds(fs, k) implies #[trigger] model(fs)[k] == model(es).insert(
        e.0@,
        e.1@,
    )[k] by {
        let p = place(fs, k);
        lemma_entry(fs, p);
        if p != i {
            assert(es[p].0@ == k);
            lemma_entry(es, p);
        }
    }
    assert(model(fs) =~= model(es).insert(e.0@, e.1@));
}

/// Adding an entry under a new name is inserting under that name.
proof fn lemma_model_push(es: Entries, e: (String, String))
    requires
        distinct(es),
        !holds(es, e.0@),
    ensures
        distinct(es.push(e)),
        model(es.push(e)) == model(es).insert(e.0@, e.1@),
{
    let fs = es.push(e);
    assert(distinct(fs)) by {
        assert forall|a: int, b: int| 0 <= a < b < fs.len() implies (#[trigger] fs[a]).0@ != (
        #[trigger] fs[b]).0@ by {
            if b < es.len() {
                assert(es[a].0@ != es[b].0@);
            } else {
                assert(es[a].0@ != e.0@);
            }
        }
    }
    assert forall|k: Seq<char>| holds(fs, k) <==> (k == e.0@ || holds(es, k)) by {
        if holds(fs, k) {
            let p = place(fs, k);
            if p < es.len() {
                assert(es[p].0@ == k);
            }
        }
        if holds(es, k) {
            let p = place(es, k);
            assert(fs[p].0@ == k);
        }
        if k == e.0@ {
            assert(fs[es.len() as int].0@ == k);
        }
    }
    assert forall|k: Seq<char>| holds(fs, k) implies #[trigger] model(fs)[k] == model(es).insert(
        e.0@,
        e.1@,
    )[k] by {
        let p = place(fs, k);
        lemma_entry(fs, p);
        if p < es.len() {
            assert(es[p].0@ == k);
            lemma_entry(es, p);
        }
    }
    assert(model(fs) =~= model(es).insert(e.0@, e.1@));
}

/// Taking an entry out is removing its name.
proof fn lemma_model_remove(es: Entries, i: int)
    requires
        distinct(es),
        0 <= i < es.len(),
    ensures
        distinct(es.remove(i)),
        model(es.remove(i)) == model(es).remove(es[i].0@),
{
    let fs = es.remove(i);
    let gone = es[i].0@;
    assert forall|a: int| 0 <= a < fs.len() implies #[trigger] fs[a] == es[if a < i {
        a
    } else {
        a + 1
    }] by {}
    assert(distinct(fs)) by {
        assert forall|a: int, b: int| 0 <= a < b < fs.len() implies (#[trigger] fs[a]).0@ != (
        #[trigger] fs[b]).0@ by {
            let ia = if a < i { a } else { a + 1 };
            let ib = if b < i { b } else { b + 1 };
            assert(es[ia].0@ != es[ib].0@);
        }
    }
    assert forall|k: Seq<char>| holds(fs, k) <==> (k != gone && holds(es, k)) by {
        if holds(fs, k) {
            let p = place(fs, k);
            let src = if p < i { p } else { p + 1 };
            assert(es[src].0@ == k);
            if src < i {
                assert(es[src].0@ != es[i].0@);
            } else {
                assert(es[i].0@ != es[src].0@);
            }
        }
        if k != gone && holds(es, k) {
            let p = place(es, k);
            let q = if p < i { p } else { p - 1 };
            assert(fs[q].0@ == k);
        }
    }
    assert forall|k: Seq<char>| holds(fs, k) implies #[trigger] model(fs)[k] == model(es)[k] by {
        let p = place(fs, k);
        lemma_entry(fs, p);
        let src = if p < i { p } else { p + 1 };
        assert(es[src].0@ == k);
        lemma_entry(es, src);
    }
    assert(model(fs) =~= model(es).remove(gone));
}

/// The map of valid entries is well formed.
proof fn lemma_model_well_formed(es: Entries)
    requires
        valid(es),
    ensures
        well_formed(model(es)),
{
    assert forall|k: Seq<char>| #[trigger] model(es).contains_key(k) implies is_token(k)
        && is_lower(k) && is_field_text(model(es)[k]) by {
        let p = place(es, k);
        assert(is_token(es[p].0@));
    }
}

/// A list of headers, keyed by name without regard to case.
#[derive(Debug)]
pub struct Headers {
    entries: Vec<(String, String)>,
}

impl View for Headers {
    type V = HeaderMap;

    /// What the list holds.
    closed spec fn view(&self) -> HeaderMap {
        model(self.entries@)
    }
}

impl Headers {
    /// No name occurs twice; names are lower-case tokens, values are texts of
    /// header value characters.
    #[verifier::type_invariant]
    spec fn inv(&self) -> bool {
        distinct(self.entries@) && valid(self.entries@)
    }

    /// An empty list: it holds no header and hands out no name.
    pub fn new() -> (r: Self)
        ensures
            r@ == HeaderMap::empty(),
            r.names() == Seq::<Seq<char>>::empty(),
    {
        let r = Headers { entries: Vec::new() };
        assert(r@ =~= HeaderMap::empty());
        assert(r.names() =~= Seq::<Seq<char>>::empty());
        r
    }

    /// The name as the list keeps it, in lower case; a name that is no token
    /// is refused.
    pub fn validate_name(name: &str) -> (r: Result<String, FetchError>)
        ensures
            match r {
                Ok(key) => is_token(name@) && key@ == ascii_lower(name@),
                Err(e) => !is_token(name@) && e.is_type("Invalid header name"@),
            },
    {
        if !check_token(name) {
            return Err(FetchError::type_error("Invalid header name"));
        }
        Ok(to_lowercase(name))
    }

    /// The value as the list keeps it, without the blanks at either end; a
    /// value that then holds a character that no header value may hold is
    /// refused.
    pub fn validate_value(value: &str) -> (r: Result<String, FetchError>)
        ensures
            match r {
                Ok(stored) => is_field_text(trim(value@)) && stored@ == trim(value@),
                Err(e) => !is_field_text(trim(value@)) && e.is_type("Invalid header value"@),
            },
    {
        match check_field(value) {
            Some(stored) => Ok(stored),
            None => Err(FetchError::type_error("Invalid header value")),
        }
    }

    /// Moves the entries out and leaves the list empty.
    fn take_entries(&mut self) -> (entries: Vec<(String, String)>)
        ensures
            entries@ == old(self).entries@,
            final(self).entries@.len() == 0,
    {
        let mut rest = Headers { entries: Vec::new() };
        core::mem::swap(self, &mut rest);
        rest.entries
    }

    /// The index of the entry with the given name, if there is one.
    fn find(&self, key: &String) -> (r: Option<usize>)
        ensures
            match r {
                Some(i) => i < self.entries@.len() && self.entries@[i as int].0@ == key@,
                None => !holds(self.entries@, key@),
            },
    {
        let n: usize = self.entries.len();
        let mut i: usize = 0;
        while i < n
            invariant
                n == self.entries@.len(),
                0 <= i <= n,
                forall|j: int| 0 <= j < i ==> (#[trigger] self.entries@[j]).0@ != key@,
            decreases n - i,
        {
            if self.entries[i].0 == *key {
                return Some(i);
            }
            i = i + 1;
        }
        None
    }

    /// The value of a header, looked up without regard to the case of the
    /// name; a name that is no token is refused.
    pub fn get(&self, name: &str) -> (r: Result<Option<String>, FetchError>)
        ensures
            well_formed(self@),
            match r {
                Ok(found) => is_token(name@) && match found {
                    Some(v) => lookup(self@, name@) == Some(v@),
                    None => lookup(self@, name@).is_none(),
                },
                Err(e) => !is_token(name@) && e.is_type("Invalid header name"@),
            },
    {
        proof {
            use_type_invariant(self);
            lemma_model_well_formed(self.entries@);
        }
        let key = match Headers::validate_name(name) {
            Ok(key) => key,
            Err(e) => {
                return Err(e);
            },
        };
        match self.find(&key) {
            Some(i) => {
                proof {
                    lemma_entry(self.entries@, i as int);
                }
                Ok(Some(self.entries[i].1.clone()))
            },
            None => Ok(None),
        }
    }

    /// Whether the list has a header of that name, whatever the case of its
    /// letters; a name that is no token is refused.
    pub fn has(&self, name: &str) -> (r: Result<bool, FetchError>)
        ensures
            match r {
                Ok(b) => is_token(name@) && b == lookup(self@, name@).is_some(),
                Err(e) => !is_token(name@) && e.is_type("Invalid header name"@),
            },
    {
        let key = match Headers::validate_name(name) {
            Ok(key) => key,
            Err(e) => {
                return Err(e);
            },
        };
        match self.find(&key) {
            Some(i) => {
                proof {
                    use_type_invariant(self);
                    lemma_entry(self.entries@, i as int);
                }
                Ok(true)
            },
            None => Ok(false),
        }
    }

    /// Sets a header: the value, without the blanks around it, replaces what
    /// the name had. A name that is no token, or a value with a character
    /// that no header value may hold, is refused and the list stays as it is.
    pub fn set(&mut self, name: &str, value: &str) -> (r: Result<(), FetchError>)
        ensures
            match r {
                Ok(_) => {
                    &&& accepted(name@, value@)
                    &&& final(self)@ == after_set(old(self)@, name@, value@)
                },
                Err(e) => {
                    &&& !accepted(name@, value@)
                    &&& e.is_type(refusal(name@, value@))
                    &&& final(self)@ == old(self)@
                },
            },
    {
        let key = match Headers::validate_name(name) {
            Ok(key) => key,
            Err(e) => {
                return Err(e);
            },
        };
        let stored = match Headers::validate_value(value) {
            Ok(stored) => stored,
            Err(e) => {
                return Err(e);
            },
        };
        proof {
            use_type_invariant(&*self);
            lemma_lower_token(name@);
        }
        let found = self.find(&key);
        let mut entries = self.take_entries();
        match found {
            Some(i) => {
                proof {
                    lemma_model_update(entries@, i as int, (key, stored));
                }
                entries.set(i, (key, stored));
            },
            None => {
                proof {
                    lemma_model_push(entries@, (key, stored));
                }
                entries.push((key, stored));
            },
        }
        self.entries = entries;
        Ok(())
    }

    /// Appends to a header: the value, without the blanks around it, follows
    /// what the name had, after a comma and a space; where the name had
    /// nothing, this is `set`. A name that is no token, or a value with a
    /// character that no header value may hold, is refused and the list stays
    /// as it is.
    pub fn append(&mut self, name: &str, value: &str) -> (r: Result<(), FetchError>)
        ensures
            match r {
                Ok(_) => {
                    &&& accepted(name@, value@)
                    &&& final(self)@ == after_append(old(self)@, name@, value@)
                },
                Err(e) => {
                    &&& !accepted(name@, value@)
                    &&& e.is_type(refusal(name@, value@))
                    &&& final(self)@ == old(self)@
                },
            },
    {
        let key = match Headers::validate_name(name) {
            Ok(key) => key,
            Err(e) => {
                return Err(e);
            },
        };
        let stored = match Headers::validate_value(value) {
            Ok(stored) => stored,
            Err(e) => {
                return Err(e);
            },
        };
        proof {
            use_type_invariant(&*self);
            lemma_lower_token(name@);
        }
        let found = self.find(&key);
        let mut entries = self.take_entries();
        match found {
            Some(i) => {
                let joined = entries[i].1.clone().concat(", ").concat(stored.as_str());
                proof {
                    reveal_strlit(", ");
                    assert(", "@ =~= joint());
                    lemma_entry(entries@, i as int);
                    assert(is_field_text(joined@)) by {
                        assert forall|j: int| 0 <= j < joined@.len() implies is_field_char(
                            #[trigger] joined@[j],
                        ) by {
                            let had = entries@[i as int].1@;
                            if j < had.len() {
                                assert(joined@[j] == had[j]);
                            } else if j < had.len() + 2 {
                                assert(joined@[j] == joint()[j - had.len()]);
                            } else {
                                assert(joined@[j] == stored@[j - had.len() - 2]);
                            }
                        }
                    }
                    lemma_model_update(entries@, i as int, (key, joined));
                }
                entries.set(i, (key, joined));
            },
            None => {
                proof {
                    lemma_model_push(entries@, (key, stored));
                }
                entries.push((key, stored));
            },
        }
        self.entries = entries;
        Ok(())
    }

    /// Deletes a header, whatever the case of the letters of its name; where
    /// the list has no such header, it stays as it is. A name that is no
    /// token is refused.
    pub fn delete(&mut self, name: &str) -> (r: Result<(), FetchError>)
        ensures
            match r {
                Ok(_) => is_token(name@) && final(self)@ == after_delete(old(self)@, name@),
                Err(e) => {
                    &&& !is_token(name@)
                    &&& e.is_type("Invalid header name"@)
                    &&& final(self)@ == old(self)@
                },
            },
    {
        let key = match Headers::validate_name(name) {
            Ok(key) => key,
            Err(e) => {
                return Err(e);
            },
        };
        proof {
            use_type_invariant(&*self);
        }
        match self.find(&key) {
            Some(i) => {
                let mut entries = self.take_entries();
                proof {
                    lemma_model_remove(entries@, i as int);
                }
                let _ = entries.remove(i);
                self.entries = entries;
            },
            None => {
                assert(self@ =~= after_delete(self@, name@));
            },
        }
        Ok(())
    }

    /// The names of the headers, in the order in which the list hands them
    /// out. The order is not that of insertion; it stays while the list is
    /// not changed.
    pub closed spec fn names(&self) -> Seq<Seq<char>> {
        Seq::new(self.entries@.len(), |i: int| self.entries@[i].0@)
    }

    /// The names are those of the map, each of them once.
    proof fn lemma_names(&self)
        requires
            self.inv(),
        ensures
            names_of(self.names(), self@),
    {
        let es = self.entries@;
        let names = self.names();
        assert forall|i: int, j: int| 0 <= i < names.len() && 0 <= j < names.len() && i != j implies names[i] != names[j] by {
            if i < j {
                assert(es[i].0@ != es[j].0@);
            } else {
                assert(es[j].0@ != es[i].0@);
            }
        }
        assert forall|k: Seq<char>| names.contains(k) <==> self@.contains_key(k) by {
            if names.contains(k) {
                let i = choose|i: int| 0 <= i < names.len() && names[i] == k;
                assert(es[i].0@ == k);
            }
            if self@.contains_key(k) {
                let p = place(es, k);
                assert(names[p] == k);
            }
        }
    }

    /// The headers as pairs of name and value, one for each name.
    pub fn entries(&self) -> (r: Vec<(String, String)>)
        ensures
            well_formed(self@),
            names_of(self.names(), self@),
            r@.len() == self.names().len(),
            forall|i: int|
                0 <= i < r@.len() ==> (#[trigger] r@[i]).0@ == self.names()[i] && r@[i].1@
                    == self@[self.names()[i]],
    {
        proof {
            use_type_invariant(self);
            self.lemma_names();
            lemma_model_well_formed(self.entries@);
        }
        let n: usize = self.entries.len();
        let mut r: Vec<(String, String)> = Vec::new();
        let mut i: usize = 0;
        while i < n
            invariant
                self.inv(),
                n == self.entries@.len(),
                0 <= i <= n,
                r@.len() == i,
                forall|j: int|
                    0 <= j < i ==> (#[trigger] r@[j]).0@ == self.names()[j] && r@[j].1@
                        == self@[self.names()[j]],
            decreases n - i,
        {
            proof {
                lemma_entry(self.entries@, i as int);
            }
            r.push((self.entries[i].0.clone(), self.entries[i].1.clone()));
            i = i + 1;
        }
        r
    }

    /// The names of the headers, each of them once.
    pub fn keys(&self) -> (r: Vec<String>)
        ensures
            names_of(self.names(), self@),
            r@.len() == self.names().len(),
            forall|i: int| 0 <= i < r@.len() ==> (#[trigger] r@[i])@ == self.names()[i],
    {
        proof {
            use_type_invariant(self);
            self.lemma_names();
        }
        let n: usize = self.entries.len();
        let mut r: Vec<String> = Vec::new();
        let mut i: usize = 0;
        while i < n
            invariant
                n == self.entries@.len(),
                0 <= i <= n,
                r@.len() == i,
                forall|j: int| 0 <= j < i ==> (#[trigger] r@[j])@ == self.names()[j],
            decreases n - i,
        {
            r.push(self.entries[i].0.clone());
            i = i + 1;
        }
        r
    }

    /// The values of the headers, in the order of their names.
    pub fn values(&self) -> (r: Vec<String>)
        ensures
            names_of(self.names(), self@),
            r@.len() == self.names().len(),
            forall|i: int| 0 <= i < r@.len() ==> (#[trigger] r@[i])@ == self@[self.names()[i]],
    {
        proof {
            use_type_invariant(self);
            self.lemma_names();
        }
        let n: usize = self.entries.len();
        let mut r: Vec<String> = Vec::new();
        let mut i: usize = 0;
        while i < n
            invariant
                self.inv(),
                n == self.entries@.len(),
                0 <= i <= n,
                r@.len() == i,
                forall|j: int| 0 <= j < i ==> (#[trigger] r@[j])@ == self@[self.names()[j]],
            decreases n - i,
        {
            proof {
                lemma_entry(self.entries@, i as int);
            }
            r.push(self.entries[i].1.clone());
            i = i + 1;
        }
        r
    }

    /// The values of the `set-cookie` header, one for each part between a
    /// comma and a space of what is stored; none where the list has no such
    /// header. A cookie that itself holds a comma and a space comes out in
    /// two parts.
    pub fn get_set_cookie(&self) -> (r: Vec<String>)
        ensures
            !self@.contains_key("set-cookie"@) ==> r@.len() == 0,
            self@.contains_key("set-cookie"@) ==> {
                &&& r@.len() == pieces(self@["set-cookie"@]).len()
                &&& forall|i: int|
                    0 <= i < r@.len() ==> (#[trigger] r@[i])@ == pieces(self@["set-cookie"@])[i]
            },
    {
        let key = String::from_str("set-cookie");
        match self.find(&key) {
            Some(i) => {
                proof {
                    use_type_invariant(self);
                    lemma_entry(self.entries@, i as int);
                    lemma_field_ascii(self.entries@[i as int].1@);
                }
                split_pieces(self.entries[i].1.as_str())
            },
            None => Vec::new(),
        }
    }

    /// The list that holds each of the pairs that `set` accepts, a later one
    /// replacing an earlier one of the same name.
    pub fn from_pairs(pairs: &[(&str, &str)]) -> (r: Self)
        ensures
            r@ == set_all(HeaderMap::empty(), pair_texts(pairs@)),
    {
        let mut r = Headers::new();
        let n: usize = pairs.len();
        let mut i: usize = 0;
        while i < n
            invariant
                n == pairs@.len(),
                0 <= i <= n,
                r@ == set_all(HeaderMap::empty(), pair_texts(pairs@).take(i as int)),
            decreases n - i,
        {
            let ghost before = pair_texts(pairs@).take(i as int);
            let ghost now = pair_texts(pairs@).take(i + 1);
            proof {
                assert(now.drop_last() =~= before);
                assert(now.last() == (pairs@[i as int].0@, pairs@[i as int].1@));
            }
            let _ = r.set(pairs[i].0, pairs[i].1);
            i = i + 1;
        }
        proof {
            assert(pair_texts(pairs@).take(n as int) =~= pair_texts(pairs@));
        }
        r
    }
}

impl Clone for Headers {
    /// A list of its own with the same headers.
    fn clone(&self) -> (r: Self)
        ensures
            r@ == self@,
            r.names() == self.names(),
    {
        proof {
            use_type_invariant(self);
        }
        let n: usize = self.entries.len();
        let mut entries: Vec<(String, String)> = Vec::new();
        let mut i: usize = 0;
        while i < n
            invariant
                n == self.entries@.len(),
                0 <= i <= n,
                entries@ == self.entries@.take(i as int),
            decreases n - i,
        {
            entries.push((self.entries[i].0.clone(), self.entries[i].1.clone()));
            proof {
                assert(entries@ =~= self.entries@.take(i + 1));
            }
            i = i + 1;
        }
        proof {
            assert(self.entries@.take(n as int) =~= self.entries@);
        }
        Headers { entries }
    }
}

impl Default for Headers {
    /// An empty list.
    fn default() -> (r: Self)
        ensures
            r@ == HeaderMap::empty(),
    {
        Headers::new()
    }
}

/// Lowering the case of a character neither makes nor unmakes a token
/// character.
proof fn lemma_lower_token_char(c: char)
    ensures
        is_token_char(lower_char(c)) == is_token_char(c),
{
}

/// Names that differ only in the case of their ASCII letters are tokens
/// together, and name one header: looking up, setting, appending and deleting
/// under one of them is doing so under the other.
pub proof fn law_names_ignore_case(m: HeaderMap, a: Seq<char>, b: Seq<char>, value: Seq<char>)
    requires
        same_ignoring_case(a, b),
    ensures
        is_token(a) == is_token(b),
        lookup(m, a) == lookup(m, b),
        after_set(m, a, value) == after_set(m, b, value),
        after_append(m, a, value) == after_append(m, b, value),
        after_delete(m, a) == after_delete(m, b),
        lookup(after_set(m, a, value), b) == Some(trim(value)),
        lookup(after_delete(m, a), b).is_none(),
{
    assert(a.len() == ascii_lower(a).len());
    assert(b.len() == ascii_lower(b).len());
    assert forall|i: int| 0 <= i < a.len() implies is_token_char(a[i]) == is_token_char(
        b[i],
    ) by {
        lemma_lower_token_char(a[i]);
        lemma_lower_token_char(b[i]);
        assert(ascii_lower(a)[i] == lower_char(a[i]));
        assert(ascii_lower(b)[i] == lower_char(b[i]));
    }
}

/// What is stored by `set` and then looked up under the same name is the
/// value without the blanks at either end: a part of the value that neither
/// begins nor ends with a blank, everything between unchanged.
pub proof fn law_set_then_get(m: HeaderMap, name: Seq<char>, value: Seq<char>)
    ensures
        lookup(after_set(m, name, value), name) == Some(trim(value)),
        exists|from: int|
            0 <= from && from + trim(value).len() <= value.len() && trim(value)
                == #[trigger] value.subrange(from, from + trim(value).len()),
        trim(value).len() > 0 ==> !is_blank(trim(value).first()) && !is_blank(
            trim(value).last(),
        ),
        forall|i: int| 0 <= i < value.len() && !is_blank(value[i]) ==> trim(value).contains(
            #[trigger] value[i],
        ),
{
    lemma_trim_shape(value);
    let from = crate::text::lead(value);
    assert(trim(value) == value.subrange(from, from + trim(value).len()));
    assert forall|i: int| 0 <= i < value.len() && !is_blank(value[i]) implies trim(
        value,
    ).contains(#[trigger] value[i]) by {
        crate::text::lemma_trim_keeps(value, i);
    }
}

/// Appending under a name that the list lacks is setting; under a name that
/// it has, the stored value becomes what it was, a comma, a space, and the
/// new value without the blanks around it.
pub proof fn law_append(m: HeaderMap, name: Seq<char>, value: Seq<char>)
    ensures
        lookup(m, name).is_none() ==> after_append(m, name, value) == after_set(m, name, value),
        lookup(m, name).is_some() ==> lookup(after_append(m, name, value), name) == Some(
            lookup(m, name).unwrap() + seq![',', ' '] + trim(value),
        ),
        forall|other: Seq<char>|
            !same_ignoring_case(other, name) ==> #[trigger] lookup(
                after_append(m, name, value),
                other,
            ) == lookup(m, other),
{
}

/// Setting and appending keep a list well formed where they are accepted,
/// and deleting keeps it so always.
pub proof fn law_well_formed_kept(m: HeaderMap, name: Seq<char>, value: Seq<char>)
    requires
        well_formed(m),
    ensures
        accepted(name, value) ==> well_formed(after_set(m, name, value)),
        accepted(name, value) ==> well_formed(after_append(m, name, value)),
        well_formed(after_delete(m, name)),
{
    if accepted(name, value) {
        lemma_lower_token(name);
        let key = ascii_lower(name);
        if m.contains_key(key) {
            let joined = m[key] + joint() + trim(value);
            assert forall|j: int| 0 <= j < joined.len() implies is_field_char(
                #[trigger] joined[j],
            ) by {
                let had = m[key];
                if j < had.len() {
                    assert(joined[j] == had[j]);
                } else if j < had.len() + 2 {
                    assert(joined[j] == joint()[j - had.len()]);
                } else {
                    assert(joined[j] == trim(value)[j - had.len() - 2]);
                }
            }
        }
    }
}

impl<'a, 'b, 'c> From<&'a [(&'b str, &'c str)]> for Headers {
    /// The list that holds each of the pairs that `set` accepts: see
    /// [`Headers::from_pairs`].
    fn from(pairs: &'a [(&'b str, &'c str)]) -> (r: Self)
        ensures
            r@ == set_all(HeaderMap::empty(), pair_texts(pairs@)),
    {
        Headers::from_pairs(pairs)
    }
}

impl<'a, 'b, 'c> vstd::std_specs::convert::FromSpecImpl<&'a [(&'b str, &'c str)]> for Headers {
    open spec fn obeys_from_spec() -> bool {
        false
    }

    open spec fn from_spec(pairs: &'a [(&'b str, &'c str)]) -> Self {
        arbitrary()
    }
}

impl<'a, 'b, 'c, const N: usize> From<&'a [(&'b str, &'c str); N]> for Headers {
    /// The list that holds each of the pairs that `set` accepts: see
    /// [`Headers::from_pairs`].
    fn from(pairs: &'a [(&'b str, &'c str); N]) -> (r: Self)
        ensures
            r@ == set_all(HeaderMap::empty(), pair_texts(pairs@)),
    {
        Headers::from_pairs(pairs.as_slice())
    }
}

impl<'a, 'b, 'c, const N: usize> vstd::std_specs::convert::FromSpecImpl<&'a [(&'b str, &'c str); N]> for Headers {
    open spec fn obeys_from_spec() -> bool {
        false
    }

    open spec fn from_spec(pairs: &'a [(&'b str, &'c str); N]) -> Self {
        arbitrary()
    }
}

} // verus!
