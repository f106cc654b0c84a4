//! Header fields of a request or response.
//!
//! A [`HeaderMap`] is a multimap: a name may carry several values, and the values of
//! one name keep the order in which they were added. The case in which a name is
//! written makes no difference: the map sees every name in lower case, and looks a
//! name up in whatever case it is asked for.

use vstd::prelude::*;

use crate::text::{lemma_lower_is_idempotent, lower, same_ignoring_case};

verus! {

/// One header field, as the contracts see it. The name is in lower case.
pub struct Header {
    pub name: Seq<char>,
    pub value: Seq<u8>,
    pub sensitive: bool,
}

/// One header field. The name counts as written in lower case.
#[derive(Clone, Debug, PartialEq, Eq)]
pub struct HeaderEntry {
    pub name: String,
    pub value: Vec<u8>,
    pub sensitive: bool,
}

impl View for HeaderEntry {
    type V = Header;

    open spec fn view(&self) -> Header {
        Header { name: lower(self.name@), value: self.value@, sensitive: self.sensitive }
    }
}

impl HeaderEntry {
    /// A copy of this field.
    pub fn duplicate(&self) -> (out: HeaderEntry)
        ensures
            out@ == self@,
    {
        HeaderEntry {
            name: self.name.clone(),
            value: self.value.clone(),
            sensitive: self.sensitive,
        }
    }
}

/// Whether a byte may stand in a header value: a tab, or anything from the space
/// on but the delete character.
pub open spec fn is_value_byte(b: u8) -> bool {
    (b >= 32 && b != 127) || b == 9
}

/// Whether `bytes` can be sent as a header value.
pub open spec fn is_header_value(bytes: Seq<u8>) -> bool {
    forall|i: int| 0 <= i < bytes.len() ==> is_value_byte(#[trigger] bytes[i])
}

/// Whether `bytes` can be sent as a header value.
pub fn check_header_value(bytes: &[u8]) -> (out: bool)
    ensures
        out == is_header_value(bytes@),
{
    let mut i: usize = 0;
    while i < bytes.len()
        invariant
            i <= bytes.len(),
            forall|k: int| 0 <= k < i ==> is_value_byte(#[trigger] bytes@[k]),
        decreases bytes.len() - i,
    {
        let b: u8 = bytes[i];
        if !((b >= 32 && b != 127) || b == 9) {
            return false;
        }
        i += 1;
    }
    true
}

/// The fields of `fields` whose name is not `name`, in their order.
pub open spec fn without_name(fields: Seq<Header>, name: Seq<char>) -> Seq<Header> {
    fields.filter(|h: Header| h.name != name)
}

/// The fields of `fields` whose name is `name`, in their order.
pub open spec fn with_name(fields: Seq<Header>, name: Seq<char>) -> Seq<Header> {
    fields.filter(|h: Header| h.name == name)
}

/// The fields of `fields` whose name is not among `names`, in their order.
pub open spec fn without_names(fields: Seq<Header>, names: Seq<Seq<char>>) -> Seq<Header>
    decreases names.len(),
{
    if names.len() == 0 {
        fields
    } else {
        without_name(without_names(fields, names.drop_last()), names.last())
    }
}

/// The names of `fields`, one for each field.
pub open spec fn names_of(fields: Seq<Header>) -> Seq<Seq<char>> {
    Seq::new(fields.len(), |i: int| fields[i].name)
}

/// Whether some field of `fields` has the name `name`.
pub open spec fn has_name(fields: Seq<Header>, name: Seq<char>) -> bool {
    exists|i: int| 0 <= i < fields.len() && (#[trigger] fields[i]).name == name
}

/// The value of the first field named `name`, if there is one.
pub open spec fn first_value(fields: Seq<Header>, name: Seq<char>) -> Option<Seq<u8>> {
    if with_name(fields, name).len() > 0 {
        Some(with_name(fields, name)[0].value)
    } else {
        None
    }
}

/// A name has a field exactly when filtering by it leaves something.
pub proof fn lemma_has_name_filter(fields: Seq<Header>, name: Seq<char>)
    ensures
        has_name(fields, name) <==> with_name(fields, name).len() > 0,
        !has_name(without_name(fields, name), name),
        !has_name(fields, name) ==> without_name(fields, name) == fields,
    decreases fields.len(),
{
    reveal(Seq::filter);
    let keep = |h: Header| h.name == name;
    let drop = |h: Header| h.name != name;
    if fields.len() > 0 {
        let front = fields.drop_last();
        lemma_has_name_filter(front, name);
        if has_name(fields, name) {
            let i = choose|i: int| 0 <= i < fields.len() && (#[trigger] fields[i]).name == name;
            if i < front.len() {
                assert(front[i].name == name);
            }
        }
        if has_name(front, name) {
            let i = choose|i: int| 0 <= i < front.len() && (#[trigger] front[i]).name == name;
            assert(fields[i].name == name);
        }
        if fields.last().name == name {
            assert(fields[fields.len() - 1].name == name);
        }
        let w = without_name(fields, name);
        if has_name(w, name) {
            let i = choose|i: int| 0 <= i < w.len() && (#[trigger] w[i]).name == name;
            fields.lemma_filter_pred(drop, i);
        }
        if !has_name(fields, name) {
            assert(!has_name(front, name)) by {
                if has_name(front, name) {
                    let i = choose|i: int| 0 <= i < front.len() && (#[trigger] front[i]).name == name;
                    assert(fields[i].name == name);
                }
            }
            assert(fields.last() == fields[fields.len() - 1]);
            assert(front.push(fields.last()) =~= fields);
        }
    } else {
        assert(without_name(fields, name) =~= fields);
    }
}

/// A multimap of header fields.
#[derive(Clone, Debug, PartialEq, Eq)]
pub struct HeaderMap {
    pub entries: Vec<HeaderEntry>,
}

impl View for HeaderMap {
    type V = Seq<Header>;

    open spec fn view(&self) -> Seq<Header> {
        Seq::new(self.entries@.len(), |i: int| self.entries@[i]@)
    }
}

impl HeaderMap {
    /// A map without fields.
    pub fn new() -> (out: HeaderMap)
        ensures
            out@ == Seq::<Header>::empty(),
    {
        let out = HeaderMap { entries: Vec::new() };
        assert(out@ =~= Seq::<Header>::empty());
        out
    }

    /// The number of fields, each value counted.
    pub fn len(&self) -> (out: usize)
        ensures
            out == self@.len(),
    {
        self.entries.len()
    }

    /// Whether the map has no field.
    pub fn is_empty(&self) -> (out: bool)
        ensures
            out == (self@.len() == 0),
    {
        self.entries.len() == 0
    }

    /// A copy of this map.
    pub fn duplicate(&self) -> (out: HeaderMap)
        ensures
            out@ == self@,
    {
        let mut entries: Vec<HeaderEntry> = Vec::new();
        let mut i: usize = 0;
        while i < self.entries.len()
            invariant
                i <= self.entries.len(),
                entries@.len() == i,
                forall|k: int| 0 <= k < i ==> (#[trigger] entries@[k])@ == self.entries@[k]@,
            decreases self.entries.len() - i,
        {
            entries.push(self.entries[i].duplicate());
            i += 1;
        }
        let out = HeaderMap { entries };
        assert(out@ =~= self@);
        out
    }

    /// Whether some field has the name `name`, in whatever case it is written.
    pub fn contains_key(&self, name: &str) -> (out: bool)
        ensures
            out == has_name(self@, lower(name@)),
    {
        let mut i: usize = 0;
        while i < self.entries.len()
            invariant
                i <= self.entries.len(),
                forall|k: int| 0 <= k < i ==> (#[trigger] self@[k]).name != lower(name@),
            decreases self.entries.len() - i,
        {
            if same_ignoring_case(self.entries[i].name.as_str(), name) {
                assert(self@[i as int].name == lower(name@));
                return true;
            }
            i += 1;
        }
        false
    }

    /// The value of the first field named `name`, in whatever case it is written.
    pub fn get(&self, name: &str) -> (out: Option<&Vec<u8>>)
        ensures
            out is Some <==> has_name(self@, lower(name@)),
            out is Some ==> Some(out.unwrap()@) == first_value(self@, lower(name@)),
    {
        let mut i: usize = 0;
        while i < self.entries.len()
            invariant
                i <= self.entries.len(),
                forall|k: int| 0 <= k < i ==> (#[trigger] self@[k]).name != lower(name@),
            decreases self.entries.len() - i,
        {
            if same_ignoring_case(self.entries[i].name.as_str(), name) {
                proof {
                    assert(self@[i as int].name == lower(name@));
                    lemma_first_match(self@, lower(name@), i as int);
                }
                return Some(&self.entries[i].value);
            }
            i += 1;
        }
        None
    }

    /// The fields named `name`, in whatever case it is written, in their order.
    pub fn get_all(&self, name: &str) -> (out: Vec<HeaderEntry>)
        ensures
            Seq::new(out@.len(), |k: int| out@[k]@) == with_name(self@, lower(name@)),
    {
        let mut found: Vec<HeaderEntry> = Vec::new();
        let mut i: usize = 0;
        while i < self.entries.len()
            invariant
                i <= self.entries.len(),
                Seq::new(found@.len(), |k: int| found@[k]@) == with_name(
                    self@.take(i as int),
                    lower(name@),
                ),
            decreases self.entries.len() - i,
        {
            let ghost seen = self@.take(i as int);
            let ghost found_before = Seq::new(found@.len(), |k: int| found@[k]@);
            proof {
                assert(self@.take(i as int + 1) =~= seen.push(self@[i as int]));
                seen.lemma_filter_push(self@[i as int], |h: Header| h.name == lower(name@));
            }
            if same_ignoring_case(self.entries[i].name.as_str(), name) {
                found.push(self.entries[i].duplicate());
                assert(Seq::new(found@.len(), |k: int| found@[k]@) =~= found_before.push(
                    self@[i as int],
                ));
            }
            i += 1;
        }
        assert(self@.take(i as int) =~= self@);
        found
    }

    /// Adds a field after those that are there.
    pub fn append(&mut self, name: String, value: Vec<u8>, sensitive: bool)
        ensures
            final(self)@ == old(self)@.push(
                Header { name: lower(name@), value: value@, sensitive },
            ),
    {
        self.entries.push(HeaderEntry { name, value, sensitive });
        assert(self@ =~= old(self)@.push(
            Header { name: lower(name@), value: value@, sensitive },
        ));
    }

    /// Removes every field named `name`, in whatever case it is written. Returns
    /// whether there was one.
    pub fn remove(&mut self, name: &str) -> (out: bool)
        ensures
            final(self)@ == without_name(old(self)@, lower(name@)),
            out == has_name(old(self)@, lower(name@)),
    {
        let mut kept: Vec<HeaderEntry> = Vec::new();
        let mut found = false;
        let mut i: usize = 0;
        let ghost before = self@;
        let ghost wanted = lower(name@);
        while i < self.entries.len()
            invariant
                i <= self.entries.len(),
                wanted == lower(name@),
                self@ == before,
                Seq::new(kept@.len(), |k: int| kept@[k]@) == without_name(
                    before.take(i as int),
                    wanted,
                ),
                found == has_name(before.take(i as int), wanted),
            decreases self.entries.len() - i,
        {
            let ghost seen = before.take(i as int);
            let ghost kept_before = Seq::new(kept@.len(), |k: int| kept@[k]@);
            proof {
                assert(before.take(i as int + 1) =~= seen.push(before[i as int]));
                seen.lemma_filter_push(before[i as int], |h: Header| h.name != wanted);
                lemma_has_name_push(seen, before[i as int], wanted);
            }
            if same_ignoring_case(self.entries[i].name.as_str(), name) {
                found = true;
            } else {
                kept.push(self.entries[i].duplicate());
                assert(Seq::new(kept@.len(), |k: int| kept@[k]@) =~= kept_before.push(
                    before[i as int],
                ));
            }
            i += 1;
        }
        assert(before.take(i as int) =~= before);
        self.entries = kept;
        assert(self@ =~= Seq::new(kept@.len(), |k: int| kept@[k]@));
        found
    }

    /// Puts the fields of `other` in the place of every field that has the name of
    /// one of them: those are removed, and the fields of `other` come after the
    /// fields that stay, in their order.
    pub fn replace_headers(&mut self, other: HeaderMap)
        ensures
            final(self)@ == without_names(old(self)@, names_of(other@)) + other@,
    {
        let ghost before = self@;
        let ghost names = names_of(other@);
        let mut i: usize = 0;
        while i < other.entries.len()
            invariant
                i <= other.entries.len(),
                names == names_of(other@),
                self@ == without_names(before, names.take(i as int)),
            decreases other.entries.len() - i,
        {
            proof {
                assert(names.take(i as int + 1).drop_last() =~= names.take(i as int));
                assert(names.take(i as int + 1).last() == other@[i as int].name);
            }
            self.remove(other.entries[i].name.as_str());
            i += 1;
        }
        assert(names.take(i as int) =~= names);
        let ghost kept = self@;
        let mut incoming = other.entries;
        let ghost added = other@;
        self.entries.append(&mut incoming);
        assert(self@ =~= kept + added);
    }

    /// Puts one field in the place of every field named `name`, in whatever case
    /// it is written: those are removed, and the new field comes after the fields
    /// that stay. Returns whether there was one before.
    pub fn insert(&mut self, name: String, value: Vec<u8>, sensitive: bool) -> (out: bool)
        ensures
            final(self)@ == without_name(old(self)@, lower(name@)).push(
                Header { name: lower(name@), value: value@, sensitive },
            ),
            out == has_name(old(self)@, lower(name@)),
    {
        let found = self.remove(name.as_str());
        self.append(name, value, sensitive);
        found
    }
}

/// The map sees every name in lower case, however it was written when it was added.
pub proof fn lemma_names_are_lower(map: HeaderMap, at: int)
    requires
        0 <= at < map@.len(),
    ensures
        lower(map@[at].name) == map@[at].name,
{
    lemma_lower_is_idempotent(map.entries@[at].name@);
}

/// The names of the headers that the library itself sets, removes and looks up are
/// written in lower case.
pub proof fn lemma_standard_names_are_lower()
    ensures
        lower("transfer-encoding"@) == "transfer-encoding"@,
        lower("content-encoding"@) == "content-encoding"@,
        lower("content-type"@) == "content-type"@,
        lower("content-length"@) == "content-length"@,
        lower("location"@) == "location"@,
        lower("referer"@) == "referer"@,
        lower("cookie"@) == "cookie"@,
        lower("authorization"@) == "authorization"@,
        lower("user-agent"@) == "user-agent"@,
{
    reveal_strlit("transfer-encoding");
    reveal_strlit("content-encoding");
    reveal_strlit("content-type");
    reveal_strlit("content-length");
    reveal_strlit("location");
    reveal_strlit("referer");
    reveal_strlit("cookie");
    reveal_strlit("authorization");
    reveal_strlit("user-agent");
    assert(lower("transfer-encoding"@) =~= "transfer-encoding"@);
    assert(lower("content-encoding"@) =~= "content-encoding"@);
    assert(lower("content-type"@) =~= "content-type"@);
    assert(lower("content-length"@) =~= "content-length"@);
    assert(lower("location"@) =~= "location"@);
    assert(lower("referer"@) =~= "referer"@);
    assert(lower("cookie"@) =~= "cookie"@);
    assert(lower("authorization"@) =~= "authorization"@);
    assert(lower("user-agent"@) =~= "user-agent"@);
}

/// The first field with a name is the first that filtering by the name leaves.
pub proof fn lemma_first_match(fields: Seq<Header>, name: Seq<char>, at: int)
    requires
        0 <= at < fields.len(),
        fields[at].name == name,
        forall|k: int| 0 <= k < at ==> (#[trigger] fields[k]).name != name,
    ensures
        has_name(fields, name),
        first_value(fields, name) == Some(fields[at].value),
    decreases fields.len(),
{
    reveal(Seq::filter);
    let keep = |h: Header| h.name == name;
    let front = fields.drop_last();
    if at == fields.len() - 1 {
        assert(!has_name(front, name)) by {
            if has_name(front, name) {
                let i = choose|i: int| 0 <= i < front.len() && (#[trigger] front[i]).name == name;
                assert(fields[i].name != name);
            }
        }
        lemma_has_name_filter(front, name);
        assert(with_name(front, name).len() == 0);
        assert(with_name(fields, name) =~= seq![fields[at]]);
    } else {
        assert(front[at].name == name);
        assert forall|k: int| 0 <= k < at implies (#[trigger] front[k]).name != name by {
            assert(fields[k].name != name);
        }
        lemma_first_match(front, name, at);
        assert(with_name(front, name).len() > 0);
        assert(with_name(fields, name)[0] == with_name(front, name)[0]);
    }
}

/// Adding a field adds its name to those that are present.
pub proof fn lemma_has_name_push(fields: Seq<Header>, field: Header, name: Seq<char>)
    ensures
        has_name(fields.push(field), name) <==> has_name(fields, name) || field.name == name,
{
    let all = fields.push(field);
    if has_name(all, name) {
        let i = choose|i: int| 0 <= i < all.len() && (#[trigger] all[i]).name == name;
        if i < fields.len() {
            assert(fields[i].name == name);
        }
    }
    if has_name(fields, name) {
        let i = choose|i: int| 0 <= i < fields.len() && (#[trigger] fields[i]).name == name;
        assert(all[i].name == name);
    }
    if field.name == name {
        assert(all[fields.len() as int].name == name);
    }
}

/// Removing the fields of one name brings in no field of another.
pub proof fn lemma_without_keeps_absent(fields: Seq<Header>, removed: Seq<char>, name: Seq<char>)
    requires
        !has_name(fields, name),
    ensures
        !has_name(without_name(fields, removed), name),
{
    let rest = without_name(fields, removed);
    if has_name(rest, name) {
        let i = choose|i: int| 0 <= i < rest.len() && (#[trigger] rest[i]).name == name;
        assert(rest.contains(rest[i]));
        fields.lemma_filter_contains_rev(|h: Header| h.name != removed, rest[i]);
        let j = choose|j: int| 0 <= j < fields.len() && fields[j] == rest[i];
        assert(fields[j].name == name);
    }
}

/// The value of a name whose only field was added last is that field's value.
pub proof fn lemma_first_value_of_inserted(fields: Seq<Header>, field: Header)
    ensures
        first_value(without_name(fields, field.name).push(field), field.name) == Some(
            field.value,
        ),
        has_name(without_name(fields, field.name).push(field), field.name),
{
    let rest = without_name(fields, field.name);
    let all = rest.push(field);
    lemma_has_name_filter(fields, field.name);
    assert forall|k: int| 0 <= k < rest.len() implies (#[trigger] all[k]).name != field.name by {
        assert(all[k] == rest[k]);
        if rest[k].name == field.name {
            assert(has_name(rest, field.name));
        }
    }
    lemma_first_match(all, field.name, rest.len() as int);
}

} // verus!
