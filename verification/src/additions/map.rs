//! The additions of one record: for each declared code, the bytes that the
//! record holds at the declared place.

use vstd::prelude::*;
use crate::additions::code::{AdditionCode, AdditionCodeView};
use crate::additions::definition::{defs_view, AdditionDef, AdditionDefView};
use crate::error::{Error, ErrorView, Expected, Found, FoundView};

verus! {

/// The additions of one record, by their codes.
#[derive(Debug)]
pub struct AdditionsMap {
    entries: Vec<(AdditionCode, Vec<u8>)>,
}

/// The map that a list of entries stands for. Of two entries of one code
/// the later counts.
pub open spec fn entries_map(s: Seq<(AdditionCode, Vec<u8>)>) -> Map<AdditionCodeView, Seq<u8>>
    decreases s.len(),
{
    if s.len() == 0 {
        Map::empty()
    } else {
        entries_map(s.drop_last()).insert(s.last().0@, s.last().1@)
    }
}

/// Whether no two entries have the same code.
pub open spec fn distinct_codes(s: Seq<(AdditionCode, Vec<u8>)>) -> bool {
    forall|i: int, j: int| 0 <= i < j < s.len() ==> (#[trigger] s[i]).0@ != (#[trigger] s[j]).0@
}

/// The codes of the map are the codes of the entries, and they are finitely many.
proof fn lemma_entries_dom(s: Seq<(AdditionCode, Vec<u8>)>)
    ensures
        entries_map(s).dom().finite(),
        forall|k: AdditionCodeView| #[trigger]
            entries_map(s).contains_key(k) <==> exists|i: int|
                0 <= i < s.len() && (#[trigger] s[i]).0@ == k,
    decreases s.len(),
{
    if s.len() > 0 {
        let front = s.drop_last();
        lemma_entries_dom(front);
        assert forall|k: AdditionCodeView| #[trigger]
            entries_map(s).contains_key(k) <==> exists|i: int|
                0 <= i < s.len() && (#[trigger] s[i]).0@ == k by {
            if entries_map(s).contains_key(k) {
                if k == s.last().0@ {
                    assert(s[s.len() - 1].0@ == k);
                } else {
                    assert(entries_map(front).contains_key(k));
                    let i = choose|i: int| 0 <= i < front.len() && (#[trigger] front[i]).0@ == k;
                    assert(s[i].0@ == k);
                }
            }
            if exists|i: int| 0 <= i < s.len() && (#[trigger] s[i]).0@ == k {
                let i = choose|i: int| 0 <= i < s.len() && (#[trigger] s[i]).0@ == k;
                if i < s.len() - 1 {
                    assert(front[i].0@ == k);
                }
            }
        }
    }
}

/// Where codes are distinct, each entry is what the map holds for its code,
/// and the map has as many codes as there are entries.
proof fn lemma_entries_values(s: Seq<(AdditionCode, Vec<u8>)>)
    requires
        distinct_codes(s),
    ensures
        entries_map(s).dom().len() == s.len(),
        forall|i: int| 0 <= i < s.len() ==> entries_map(s)[(#[trigger] s[i]).0@] == s[i].1@,
    decreases s.len(),
{
    if s.len() > 0 {
        let front = s.drop_last();
        assert(distinct_codes(front)) by {
            assert forall|i: int, j: int| 0 <= i < j < front.len() implies (#[trigger] front[i]).0@
                != (#[trigger] front[j]).0@ by {
                assert(front[i] == s[i] && front[j] == s[j]);
            }
        }
        lemma_entries_values(front);
        lemma_entries_dom(front);
        let last = s.len() - 1;
        assert(!entries_map(front).contains_key(s[last].0@)) by {
            if entries_map(front).contains_key(s[last].0@) {
                let i = choose|i: int| 0 <= i < front.len() && (#[trigger] front[i]).0@ == s[last].0@;
                assert(s[i].0@ != s[last].0@);
            }
        }
        assert forall|i: int| 0 <= i < s.len() implies entries_map(s)[(#[trigger] s[i]).0@]
            == s[i].1@ by {
            if i < last {
                assert(front[i] == s[i]);
                assert(s[i].0@ != s[last].0@);
            }
        }
    }
}

/// Replacing the value of an entry is inserting at its code.
proof fn lemma_entries_update(s: Seq<(AdditionCode, Vec<u8>)>, at: int, entry: (AdditionCode, Vec<u8>))
    requires
        distinct_codes(s),
        0 <= at < s.len(),
        entry.0@ == s[at].0@,
    ensures
        distinct_codes(s.update(at, entry)),
        entries_map(s.update(at, entry)) == entries_map(s).insert(entry.0@, entry.1@),
    decreases s.len(),
{
    let t = s.update(at, entry);
    assert(distinct_codes(t)) by {
        assert forall|i: int, j: int| 0 <= i < j < t.len() implies (#[trigger] t[i]).0@ != (
        #[trigger] t[j]).0@ by {
            assert(s[i].0@ != s[j].0@);
        }
    }
    let front = s.drop_last();
    let last = s.len() - 1;
    if at == last {
        assert(t.drop_last() =~= front);
        assert(entries_map(t) =~= entries_map(s).insert(entry.0@, entry.1@));
    } else {
        assert(distinct_codes(front)) by {
            assert forall|i: int, j: int| 0 <= i < j < front.len() implies (#[trigger] front[i]).0@
                != (#[trigger] front[j]).0@ by {
                assert(front[i] == s[i] && front[j] == s[j]);
            }
        }
        assert(front[at] == s[at]);
        lemma_entries_update(front, at, entry);
        assert(t.drop_last() =~= front.update(at, entry));
        assert(t.last() == s.last());
        assert(s[at].0@ != s[last].0@);
        assert(entries_map(t) =~= entries_map(s).insert(entry.0@, entry.1@));
    }
}

impl View for AdditionsMap {
    type V = Map<AdditionCodeView, Seq<u8>>;

    closed spec fn view(&self) -> Map<AdditionCodeView, Seq<u8>> {
        entries_map(self.entries@)
    }
}

impl AdditionsMap {
    #[verifier::type_invariant]
    spec fn no_code_twice(&self) -> bool {
        distinct_codes(self.entries@)
    }

    /// The map without any addition.
    pub fn new() -> (r: AdditionsMap)
        ensures
            r@ == Map::<AdditionCodeView, Seq<u8>>::empty(),
    {
        AdditionsMap { entries: Vec::new() }
    }

    /// Where the entry for `code` stands, if there is one.
    fn position(&self, code: &AdditionCode) -> (r: Option<usize>)
        ensures
            r matches Some(i) ==> i < self.entries@.len() && self.entries@[i as int].0@ == code@,
            r is None ==> forall|i: int|
                0 <= i < self.entries@.len() ==> (#[trigger] self.entries@[i]).0@ != code@,
    {
        let mut i: usize = 0;
        while i < self.entries.len()
            invariant
                i <= self.entries@.len(),
                forall|j: int| 0 <= j < i ==> (#[trigger] self.entries@[j]).0@ != code@,
            decreases self.entries@.len() - i,
        {
            if self.entries[i].0.same_as(code) {
                return Some(i);
            }
            i = i + 1;
        }
        None
    }

    /// The number of additions.
    pub fn len(&self) -> (r: usize)
        ensures
            self@.dom().finite(),
            r == self@.len(),
    {
        proof {
            use_type_invariant(self);
            lemma_entries_dom(self.entries@);
            lemma_entries_values(self.entries@);
        }
        self.entries.len()
    }

    /// Whether there is no addition.
    pub fn is_empty(&self) -> (r: bool)
        ensures
            r == (self@.len() == 0),
    {
        proof {
            use_type_invariant(self);
            lemma_entries_dom(self.entries@);
            lemma_entries_values(self.entries@);
        }
        self.entries.len() == 0
    }

    /// The bytes of the addition `code`, if the record has it.
    pub fn get(&self, code: &AdditionCode) -> (r: Option<&Vec<u8>>)
        ensures
            r.is_some() == self@.contains_key(code@),
            r matches Some(value) ==> value@ == self@[code@],
    {
        proof {
            use_type_invariant(self);
            lemma_entries_dom(self.entries@);
            lemma_entries_values(self.entries@);
        }
        match self.position(code) {
            Some(i) => Some(&self.entries[i].1),
            None => None,
        }
    }

    /// Whether the record has the addition `code`.
    pub fn contains_key(&self, code: &AdditionCode) -> (r: bool)
        ensures
            r == self@.contains_key(code@),
    {
        self.get(code).is_some()
    }

    /// Sets the bytes of the addition `code`, in place of what it had.
    pub fn insert(&mut self, code: AdditionCode, value: Vec<u8>)
        ensures
            final(self)@ == old(self)@.insert(code@, value@),
    {
        proof {
            use_type_invariant(&*self);
        }
        let found = self.position(&code);
        let mut entries: Vec<(AdditionCode, Vec<u8>)> = Vec::new();
        core::mem::swap(&mut entries, &mut self.entries);
        let ghost before = entries@;
        match found {
            Some(i) => {
                proof {
                    lemma_entries_update(before, i as int, (code, value));
                }
                entries[i] = (code, value);
            },
            None => {
                entries.push((code, value));
                proof {
                    assert(entries@.drop_last() =~= before);
                    assert forall|i: int, j: int| 0 <= i < j < entries@.len() implies (
                    #[trigger] entries@[i]).0@ != (#[trigger] entries@[j]).0@ by {
                        assert(entries@[i] == before[i]);
                        if j < before.len() {
                            assert(entries@[j] == before[j]);
                        }
                    }
                }
            },
        }
        core::mem::swap(&mut entries, &mut self.entries);
    }
}

/// Whether the declaration `def` fits a line of `len` bytes.
pub open spec fn fits(def: AdditionDefView, len: nat) -> bool {
    1 <= def.start_byte <= def.end_byte <= len
}

/// The bytes that the declaration `def` takes from `line`.
pub open spec fn slice_of(def: AdditionDefView, line: Seq<u8>) -> Seq<u8> {
    line.subrange(def.start_byte - 1, def.end_byte as int)
}

/// The additions that the declarations `defs` take from `line`. Of two
/// declarations of one code the later counts.
pub open spec fn additions_of(defs: Seq<AdditionDefView>, line: Seq<u8>) -> Map<
    AdditionCodeView,
    Seq<u8>,
>
    decreases defs.len(),
{
    if defs.len() == 0 {
        Map::empty()
    } else {
        additions_of(defs.drop_last(), line).insert(defs.last().code, slice_of(defs.last(), line))
    }
}

/// Whether every declaration of `defs` fits a line of `len` bytes.
pub open spec fn all_fit(defs: Seq<AdditionDefView>, len: nat) -> bool {
    forall|i: int| 0 <= i < defs.len() ==> fits(#[trigger] defs[i], len)
}

/// Whether `at` is the first declaration of `defs` that does not fit a line
/// of `len` bytes.
pub open spec fn is_first_unfit(defs: Seq<AdditionDefView>, len: nat, at: int) -> bool {
    0 <= at < defs.len() && !fits(defs[at], len) && all_fit(defs.take(at), len)
}

/// What is wrong with a declaration that does not fit a line of `len` bytes.
pub open spec fn unfit_error(def: AdditionDefView, len: nat) -> ErrorView {
    if 1 <= def.start_byte <= def.end_byte {
        ErrorView::Unexpected {
            expected: Expected::AtLeastCharacters(def.end_byte as usize),
            found: FoundView::Characters(len as usize),
        }
    } else {
        ErrorView::Unexpected {
            expected: Expected::StartBeforeEnd,
            found: FoundView::Bounds { start: def.start_byte, end: def.end_byte },
        }
    }
}

/// Takes from `bytes` what each declaration points at, or says which
/// declaration is the first that does not fit the line.
fn apply(defs: &Vec<AdditionDef>, bytes: &[u8]) -> (r: Result<AdditionsMap, usize>)
    ensures
        r is Ok == all_fit(defs_view(defs@), bytes@.len()),
        r matches Ok(map) ==> map@ == additions_of(defs_view(defs@), bytes@),
        r matches Err(at) ==> is_first_unfit(defs_view(defs@), bytes@.len(), at as int),
{
    let ghost all = defs_view(defs@);
    let input_length = bytes.len();
    let mut additions = AdditionsMap::new();
    let mut i: usize = 0;
    while i < defs.len()
        invariant
            i <= defs@.len(),
            all == defs_view(defs@),
            input_length == bytes@.len(),
            all_fit(all.take(i as int), bytes@.len()),
            additions@ == additions_of(all.take(i as int), bytes@),
        decreases defs@.len() - i,
    {
        let def = &defs[i];
        let start = def.start_byte as usize;
        let end = def.end_byte as usize;
        assert(all[i as int] == defs@[i as int]@);
        if start < 1 || start > end || end > input_length {
            assert(!fits(all[i as int], bytes@.len()));
            return Err(i);
        }
        let value = vstd::slice::slice_to_vec(&bytes[start - 1..end]);
        additions.insert(def.code.clone(), value);
        proof {
            let next = all.take(i + 1);
            assert(next.drop_last() =~= all.take(i as int));
            assert(next.last() == all[i as int]);
            assert forall|j: int| 0 <= j < next.len() implies fits(#[trigger] next[j], bytes@.len()) by {
                if j < i {
                    assert(next[j] == all.take(i as int)[j]);
                }
            }
        }
        i = i + 1;
    }
    assert(all.take(i as int) =~= all);
    Ok(additions)
}

/// Something that says where additions lie and can take them out of a record.
pub trait ParseAdditions {
    /// The declarations that say where the additions lie.
    spec fn definitions(&self) -> Seq<AdditionDefView>;

    /// Takes from the line `bytes` what each declaration points at. A
    /// declaration that reaches beyond the end of the line, or whose
    /// positions are out of order or zero, makes the whole line invalid:
    /// nothing is cut short.
    fn parse(&self, bytes: &[u8]) -> (r: Result<AdditionsMap, Error>)
        ensures
            all_fit(self.definitions(), bytes@.len()) ==> (r matches Ok(map) && map@ == additions_of(
                self.definitions(),
                bytes@,
            )),
            !all_fit(self.definitions(), bytes@.len()) ==> (r matches Err(e) && e@ == (
            ErrorView::InvalidRecord { line: bytes@ })),
    ;
}

impl ParseAdditions for Vec<AdditionDef> {
    open spec fn definitions(&self) -> Seq<AdditionDefView> {
        defs_view(self@)
    }

    fn parse(&self, bytes: &[u8]) -> (r: Result<AdditionsMap, Error>) {
        match apply(self, bytes) {
            Ok(additions) => Ok(additions),
            Err(_) => Err(Error::invalid_record(bytes)),
        }
    }
}

/// Takes from `input` what each declaration points at, and says of the first
/// declaration that does not fit what it would have needed.
pub fn parse_additions(input: &[u8], additions_decl: &Vec<AdditionDef>) -> (r: Result<
    AdditionsMap,
    Error,
>)
    ensures
        all_fit(defs_view(additions_decl@), input@.len()) ==> (r matches Ok(map) && map@
            == additions_of(defs_view(additions_decl@), input@)),
        !all_fit(defs_view(additions_decl@), input@.len()) ==> (r matches Err(e) && exists|at: int|
            is_first_unfit(defs_view(additions_decl@), input@.len(), at) && e@ == unfit_error(
                defs_view(additions_decl@)[at],
                input@.len(),
            )),
{
    match apply(additions_decl, input) {
        Ok(additions) => Ok(additions),
        Err(at) => {
            let def = &additions_decl[at];
            assert(defs_view(additions_decl@)[at as int] == def@);
            if 1 <= def.start_byte && def.start_byte <= def.end_byte {
                Err(
                    Error::unexpected(
                        Expected::AtLeastCharacters(def.end_byte as usize),
                        Found::Characters(input.len()),
                    ),
                )
            } else {
                Err(
                    Error::unexpected(
                        Expected::StartBeforeEnd,
                        Found::Bounds { start: def.start_byte, end: def.end_byte },
                    ),
                )
            }
        },
    }
}

/// Of the declarations of one code the last is the one that counts: the
/// addition of that code is the bytes of the line at its two positions, the
/// first and the last included.
pub proof fn lemma_last_declaration_counts(defs: Seq<AdditionDefView>, line: Seq<u8>, at: int)
    requires
        0 <= at < defs.len(),
        forall|later: int| at < later < defs.len() ==> (#[trigger] defs[later]).code != defs[at].code,
    ensures
        additions_of(defs, line).contains_key(defs[at].code),
        additions_of(defs, line)[defs[at].code] == line.subrange(
            defs[at].start_byte - 1,
            defs[at].end_byte as int,
        ),
    decreases defs.len(),
{
    if at < defs.len() - 1 {
        let front = defs.drop_last();
        assert(front[at] == defs[at]);
        assert forall|later: int| at < later < front.len() implies (#[trigger] front[later]).code
            != front[at].code by {
            assert(front[later] == defs[later]);
        }
        lemma_last_declaration_counts(front, line, at);
        assert(defs[defs.len() - 1].code != defs[at].code);
    }
}

/// One declaration that reaches beyond the end of the line is enough for the
/// declarations not to fit: applying them then fails, and no addition is cut short.
pub proof fn lemma_beyond_the_line_does_not_fit(defs: Seq<AdditionDefView>, len: nat, at: int)
    requires
        0 <= at < defs.len(),
        defs[at].end_byte > len,
    ensures
        !all_fit(defs, len),
{
    assert(!fits(defs[at], len));
}

} // verus!
