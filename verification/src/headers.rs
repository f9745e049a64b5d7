//! The headers of one request.
//!
//! A request's headers are an ordered list of name and value pairs. A
//! header is found by its name without regard to ASCII letter case; where a
//! name occurs more than once, the first occurrence counts.

use crate::text::{name_matches, same_name};
use vstd::prelude::*;

verus! {

/// The headers of a request as contracts see them: pairs of name and value.
pub type HeaderList = Seq<(Seq<char>, Seq<char>)>;

/// The value of the first header at or after position `from` whose name is
/// `name`, if there is one.
pub open spec fn lookup_from(entries: HeaderList, name: Seq<char>, from: int) -> Option<Seq<char>>
    decreases entries.len() - from,
{
    if from < 0 || from >= entries.len() {
        None
    } else if same_name(entries[from].0, name) {
        Some(entries[from].1)
    } else {
        lookup_from(entries, name, from + 1)
    }
}

/// The value of the first header whose name is `name`, if there is one.
pub open spec fn lookup(entries: HeaderList, name: Seq<char>) -> Option<Seq<char>> {
    lookup_from(entries, name, 0)
}

/// No header at or after `from` is missed: the lookup finds nothing exactly
/// when no such header has the name, and what it finds is a header's value.
pub proof fn lemma_lookup_from_finds(entries: HeaderList, name: Seq<char>, from: int)
    requires
        0 <= from,
    ensures
        lookup_from(entries, name, from) is None <==> forall|i: int|
            from <= i < entries.len() ==> !same_name(#[trigger] entries[i].0, name),
        lookup_from(entries, name, from) is Some ==> exists|i: int|
            from <= i < entries.len() && same_name(#[trigger] entries[i].0, name)
                && lookup_from(entries, name, from) == Some(entries[i].1)
                && forall|j: int| from <= j < i ==> !same_name(#[trigger] entries[j].0, name),
    decreases entries.len() - from,
{
    if from < entries.len() {
        if same_name(entries[from].0, name) {
            assert(same_name(entries[from].0, name) && lookup_from(entries, name, from) == Some(
                entries[from].1,
            ));
        } else {
            lemma_lookup_from_finds(entries, name, from + 1);
            if lookup_from(entries, name, from) is Some {
                let i = choose|i: int|
                    from + 1 <= i < entries.len() && same_name(#[trigger] entries[i].0, name)
                        && lookup_from(entries, name, from + 1) == Some(entries[i].1)
                        && forall|j: int|
                        from + 1 <= j < i ==> !same_name(#[trigger] entries[j].0, name);
                assert(from <= i < entries.len() && same_name(entries[i].0, name));
            } else {
                assert forall|i: int| from <= i < entries.len() implies !same_name(
                    #[trigger] entries[i].0,
                    name,
                ) by {
                    if i > from {
                    }
                }
            }
        }
    }
}

/// A header added at the end is found only where no earlier header has
/// the name.
pub proof fn lemma_lookup_push(
    entries: HeaderList,
    entry: (Seq<char>, Seq<char>),
    name: Seq<char>,
    from: int,
)
    requires
        0 <= from <= entries.len(),
    ensures
        lookup_from(entries.push(entry), name, from) == (match lookup_from(entries, name, from) {
            Some(value) => Some(value),
            None => if same_name(entry.0, name) {
                Some(entry.1)
            } else {
                None
            },
        }),
    decreases entries.len() - from,
{
    let longer = entries.push(entry);
    if from < entries.len() {
        assert(longer[from] == entries[from]);
        if !same_name(entries[from].0, name) {
            lemma_lookup_push(entries, entry, name, from + 1);
        }
    } else {
        assert(longer[from] == entry);
        assert(lookup_from(longer, name, from + 1) is None);
    }
}

/// What a reader gets who asks for the given names one by one: each name
/// that the request carries, in the order asked, with the value found for
/// it.
pub open spec fn read_named(entries: HeaderList, names: Seq<Seq<char>>) -> HeaderList
    decreases names.len(),
{
    if names.len() == 0 {
        HeaderList::empty()
    } else {
        let earlier = read_named(entries, names.drop_last());
        match lookup(entries, names.last()) {
            Some(value) => earlier.push((names.last(), value)),
            None => earlier,
        }
    }
}

/// No two of the names are the same name.
pub open spec fn distinct_names(names: Seq<Seq<char>>) -> bool {
    forall|i: int, j: int|
        0 <= i < names.len() && 0 <= j < names.len() && i != j ==> !same_name(
            #[trigger] names[i],
            #[trigger] names[j],
        )
}

/// Every header that was read by name carries one of the names asked for.
pub proof fn lemma_read_named_names(entries: HeaderList, names: Seq<Seq<char>>)
    ensures
        forall|k: int|
            0 <= k < read_named(entries, names).len() ==> exists|i: int|
                0 <= i < names.len() && #[trigger] read_named(entries, names)[k].0
                    == #[trigger] names[i],
    decreases names.len(),
{
    if names.len() > 0 {
        let shorter = names.drop_last();
        let earlier = read_named(entries, shorter);
        lemma_read_named_names(entries, shorter);
        assert forall|k: int| 0 <= k < read_named(entries, names).len() implies exists|i: int|
            0 <= i < names.len() && #[trigger] read_named(entries, names)[k].0
                == #[trigger] names[i] by {
            if k < earlier.len() {
                let i = choose|i: int| 0 <= i < shorter.len() && earlier[k].0 == shorter[i];
                assert(read_named(entries, names)[k].0 == names[i]);
            } else {
                assert(read_named(entries, names)[k].0 == names[names.len() - 1]);
            }
        }
    }
}

/// Reading a request by distinct names loses nothing that a lookup by one
/// of those names would find.
pub proof fn lemma_read_named_keeps(entries: HeaderList, names: Seq<Seq<char>>, k: int)
    requires
        distinct_names(names),
        0 <= k < names.len(),
    ensures
        lookup(read_named(entries, names), names[k]) == lookup(entries, names[k]),
    decreases names.len(),
{
    let shorter = names.drop_last();
    let last = names.last();
    let earlier = read_named(entries, shorter);
    let name = names[k];
    assert(distinct_names(shorter)) by {
        assert forall|i: int, j: int|
            0 <= i < shorter.len() && 0 <= j < shorter.len() && i != j implies !same_name(
            #[trigger] shorter[i],
            #[trigger] shorter[j],
        ) by {
            assert(shorter[i] == names[i] && shorter[j] == names[j]);
        }
    }
    if k < names.len() - 1 {
        lemma_read_named_keeps(entries, shorter, k);
        assert(shorter[k] == name);
        assert(!same_name(names[names.len() - 1], names[k]));
    } else {
        lemma_read_named_names(entries, shorter);
        lemma_lookup_from_finds(earlier, name, 0);
        assert forall|e: int| 0 <= e < earlier.len() implies !same_name(
            #[trigger] earlier[e].0,
            name,
        ) by {
            let i = choose|i: int| 0 <= i < shorter.len() && earlier[e].0 == shorter[i];
            assert(shorter[i] == names[i]);
            assert(!same_name(names[i], names[k]));
        }
        assert(lookup(earlier, name) is None);
        crate::text::lemma_same_name_equivalence(name, name, name);
    }
    match lookup(entries, last) {
        Some(value) => {
            lemma_lookup_push(earlier, (last, value), name, 0);
        },
        None => {},
    }
}

/// The headers of one request.
#[derive(Clone, Debug)]
pub struct RequestHeaders {
    entries: Vec<(String, String)>,
}

impl View for RequestHeaders {
    type V = HeaderList;

    closed spec fn view(&self) -> HeaderList {
        Seq::new(self.entries@.len(), |i: int| (self.entries@[i].0@, self.entries@[i].1@))
    }
}

impl RequestHeaders {
    /// The value that the request carries for the header `name`, if any.
    pub open spec fn value_of(&self, name: Seq<char>) -> Option<Seq<char>> {
        lookup(self@, name)
    }

    /// A request without headers.
    pub fn new() -> (h: RequestHeaders)
        ensures
            h@ == HeaderList::empty(),
    {
        let h = RequestHeaders { entries: Vec::new() };
        assert(h@ =~= HeaderList::empty());
        h
    }

    /// The number of headers.
    pub fn len(&self) -> (n: usize)
        ensures
            n == self@.len(),
    {
        self.entries.len()
    }

    /// Adds a header after those that the request already has.
    pub fn append(&mut self, name: &str, value: &str)
        ensures
            final(self)@ == old(self)@.push((name@, value@)),
    {
        self.entries.push((name.to_owned(), value.to_owned()));
        assert(self@ =~= old(self)@.push((name@, value@)));
    }

    /// The request with one more header, added after those it has.
    pub fn with(self, name: &str, value: &str) -> (h: RequestHeaders)
        ensures
            h@ == self@.push((name@, value@)),
    {
        let mut h = self;
        h.append(name, value);
        h
    }

    /// The value of the first header whose name is `name` up to ASCII
    /// letter case, or `None` where the request has no such header.
    pub fn get(&self, name: &str) -> (r: Option<&str>)
        ensures
            r is Some <==> self.value_of(name@) is Some,
            r is Some ==> self.value_of(name@) == Some(r->Some_0@),
    {
        let n: usize = self.entries.len();
        let mut i: usize = 0;
        while i < n
            invariant
                n == self.entries@.len(),
                n == self@.len(),
                0 <= i <= n,
                lookup(self@, name@) == lookup_from(self@, name@, i as int),
            decreases n - i,
        {
            if name_matches(self.entries[i].0.as_str(), name) {
                return Some(self.entries[i].1.as_str());
            }
            i = i + 1;
        }
        None
    }
}

} // verus!
