//! SQLSTATE error codes and the registry that classifies them.

use crate::catalogue::catalogue;
use crate::catalogue::distinct_codes;
use crate::catalogue::entries_of;
use crate::catalogue::entries_view;
use crate::catalogue::Entry;
use crate::catalogue::lemma_position;
use crate::catalogue::position;
use crate::text::chars_of;
use linked_hash_map::LinkedHashMap;
use std::collections::HashMap;
use vstd::prelude::*;
use vstd::std_specs::cmp::PartialEqSpec;
use vstd::std_specs::hash::group_hash_axioms;
use vstd::utf8::char_is_scalar;
use vstd::utf8::char_u32_cast;

verus! {

/// A SQLSTATE error code: one of the registry's canonical codes, or any other text, kept as it came.
#[derive(Debug)]
pub enum SqlState {
    Canonical(String),
    Other(String),
}

impl View for SqlState {
    type V = Seq<char>;

    /// The code's text.
    open spec fn view(&self) -> Seq<char> {
        match *self {
            SqlState::Canonical(code) => code@,
            SqlState::Other(code) => code@,
        }
    }
}

impl SqlState {
    fn text(&self) -> (code: &String)
        ensures
            code@ == self@,
    {
        match self {
            SqlState::Canonical(code) => code,
            SqlState::Other(code) => code,
        }
    }

    /// The error code.
    pub fn code(&self) -> (code: &str)
        ensures
            code@ == self@,
    {
        match self {
            SqlState::Canonical(code) => code.as_str(),
            SqlState::Other(code) => code.as_str(),
        }
    }
}

impl Clone for SqlState {
    fn clone(&self) -> (copy: Self)
        ensures
            copy == *self,
    {
        match self {
            SqlState::Canonical(code) => SqlState::Canonical(code.clone()),
            SqlState::Other(code) => SqlState::Other(code.clone()),
        }
    }
}

/// Two states are equal where their codes are the same text, however each was made.
impl PartialEq for SqlState {
    fn eq(&self, other: &SqlState) -> (same: bool) {
        *self.text() == *other.text()
    }
}

impl vstd::std_specs::cmp::PartialEqSpecImpl for SqlState {
    open spec fn obeys_eq_spec() -> bool {
        true
    }

    open spec fn eq_spec(&self, other: &SqlState) -> bool {
        self@ == other@
    }
}

impl Eq for SqlState {

}

/// The shape of a canonical code: five characters.
pub open spec fn canonical_shape(code: Seq<char>) -> bool {
    code.len() == 5
}

/// The number of code points, and the base to which a code is read as a number.
const BASE: u128 = 0x11_0000;

/// A canonical code as one number, its characters read as digits to the base `BASE`.
spec fn packed(code: Seq<char>) -> int {
    ((((code[0] as u32 as int) * BASE + (code[1] as u32 as int)) * BASE + (code[2] as u32 as int))
        * BASE + (code[3] as u32 as int)) * BASE + (code[4] as u32 as int)
}

/// Every character is a digit to the base `BASE`.
proof fn lemma_digits(code: Seq<char>)
    ensures
        forall|i: int| 0 <= i < code.len() ==> 0 <= (#[trigger] code[i] as u32) < 0x11_0000,
{
    assert forall|i: int| 0 <= i < code.len() implies 0 <= (#[trigger] code[i] as u32)
        < 0x11_0000 by {
        char_is_scalar(code[i]);
    }
}

/// Two canonical codes with the same number are the same text.
proof fn lemma_packed_injective(a: Seq<char>, b: Seq<char>)
    requires
        canonical_shape(a),
        canonical_shape(b),
        packed(a) == packed(b),
    ensures
        a == b,
{
    lemma_digits(a);
    lemma_digits(b);
    assert(a[0] as u32 == b[0] as u32 && a[1] as u32 == b[1] as u32 && a[2] as u32 == b[2] as u32
        && a[3] as u32 == b[3] as u32 && a[4] as u32 == b[4] as u32);
    assert forall|i: int| 0 <= i < 5 implies a[i] == b[i] by {
        char_u32_cast(a[i], a[i] as u32);
        char_u32_cast(b[i], b[i] as u32);
    }
    assert(a =~= b);
}

/// The position of the first entry that has the name, or the number of entries where none has it.
pub open spec fn named_at(entries: Seq<Entry>, name: Seq<char>) -> int
    decreases entries.len(),
{
    if entries.len() == 0 {
        0
    } else {
        let before = named_at(entries.drop_last(), name);
        if before < entries.len() - 1 {
            before
        } else if entries.last().1.contains(name) {
            entries.len() - 1
        } else {
            entries.len() as int
        }
    }
}

/// An entry found among the first ones is the one found among all.
proof fn lemma_named_at_prefix(entries: Seq<Entry>, name: Seq<char>, upto: int)
    requires
        0 <= upto <= entries.len(),
        named_at(entries.take(upto), name) < upto,
    ensures
        named_at(entries, name) == named_at(entries.take(upto), name),
    decreases entries.len() - upto,
{
    if upto < entries.len() {
        assert(entries.take(upto + 1).drop_last() =~= entries.take(upto));
        lemma_named_at_prefix(entries, name, upto + 1);
    } else {
        assert(entries.take(upto) =~= entries);
    }
}

/// The registry of canonical codes: the catalogue's entries, and for
/// each code the place of its entry, found in constant time.
pub struct SqlStateRegistry {
    entries: Vec<(String, Vec<String>)>,
    index: HashMap<u128, usize>,
}

impl SqlStateRegistry {
    #[verifier::type_invariant]
    spec fn well_formed(self) -> bool {
        &&& forall|i: int|
            0 <= i < self.entries.len() ==> canonical_shape((#[trigger] self.entries@[i]).0@)
        &&& forall|i: int|
            0 <= i < self.entries.len() ==> self.index@.contains_key(
                packed((#[trigger] self.entries@[i]).0@) as u128,
            )
        &&& forall|key: u128| #[trigger]
            self.index@.contains_key(key) ==> self.index@[key] < self.entries.len() && packed(
                self.entries@[self.index@[key] as int].0@,
            ) == key
    }

    /// The entries of the catalogue that the registry was built from.
    pub closed spec fn entries(&self) -> Seq<Entry> {
        entries_view(self.entries@)
    }

    /// Whether the code is one of the registry's.
    pub open spec fn knows(&self, code: Seq<char>) -> bool {
        position(self.entries(), code) < self.entries().len()
    }

    /// Whether `state` is what the registry makes of `code`: the same
    /// text, canonical where the registry knows the code and verbatim
    /// where it does not.
    pub open spec fn classifies(&self, code: Seq<char>, state: SqlState) -> bool {
        &&& state@ == code
        &&& state is Canonical <==> self.knows(code)
    }

    /// Builds the registry of a catalogue whose codes all have five
    /// characters; there is none for another catalogue.
    pub fn new(codes: &LinkedHashMap<String, Vec<String>>) -> (made: Option<SqlStateRegistry>)
        ensures
            made is Some <==> forall|i: int|
                0 <= i < catalogue(*codes).len() ==> canonical_shape(
                    (#[trigger] catalogue(*codes)[i]).0,
                ),
            made matches Some(registry) ==> registry.entries() == catalogue(*codes),
    {
        broadcast use group_hash_axioms;

        let entries = entries_of(codes);
        let ghost all = entries_view(entries@);
        let mut index: HashMap<u128, usize> = HashMap::new();
        let mut i: usize = 0;
        while i < entries.len()
            invariant
                i <= entries.len(),
                all == entries_view(entries@),
                all == catalogue(*codes),
                distinct_codes(all),
                forall|j: int| 0 <= j < i ==> canonical_shape((#[trigger] entries@[j]).0@),
                forall|j: int|
                    0 <= j < i ==> index@.contains_key(packed((#[trigger] entries@[j]).0@) as u128),
                forall|key: u128| #[trigger]
                    index@.contains_key(key) ==> index@[key] < i && packed(
                        entries@[index@[key] as int].0@,
                    ) == key,
            decreases entries.len() - i,
        {
            let code = chars_of(entries[i].0.as_str());
            if code.len() != 5 {
                assert(!canonical_shape(catalogue(*codes)[i as int].0));
                return None;
            }
            let key = pack(&code);
            proof {
                if index@.contains_key(key) {
                    let j = index@[key] as int;
                    lemma_packed_injective(entries@[j].0@, code@);
                    assert(all[j].0 == all[i as int].0);
                }
            }
            index.insert(key, i);
            i += 1;
        }
        assert forall|j: int| 0 <= j < all.len() implies canonical_shape((#[trigger] all[j]).0) by {
            assert(canonical_shape(entries@[j].0@));
        }
        Some(SqlStateRegistry { entries, index })
    }

    /// Whether the names hold the name.
    fn has_name(names: &Vec<String>, name: &String) -> (found: bool)
        ensures
            found == crate::catalogue::texts(names@).contains(name@),
    {
        let mut j: usize = 0;
        while j < names.len()
            invariant
                j <= names.len(),
                forall|k: int| 0 <= k < j ==> crate::catalogue::texts(names@)[k] != name@,
            decreases names.len() - j,
        {
            if names[j] == *name {
                assert(crate::catalogue::texts(names@)[j as int] == name@);
                return true;
            }
            j += 1;
        }
        false
    }

    /// The canonical state that the catalogue declares under `name`:
    /// that of the first code with this name. Every name of a code
    /// gives the same state; a name that no code has gives none.
    pub fn by_name(&self, name: &str) -> (state: Option<SqlState>)
        ensures
            match state {
                Some(found) => named_at(self.entries(), name@) < self.entries().len() && found
                    is Canonical && found@ == self.entries()[named_at(self.entries(), name@)].0,
                None => named_at(self.entries(), name@) >= self.entries().len(),
            },
    {
        let wanted = name.to_owned();
        let ghost all = self.entries();
        let mut i: usize = 0;
        while i < self.entries.len()
            invariant
                i <= self.entries.len(),
                all == self.entries(),
                wanted@ == name@,
                named_at(all.take(i as int), name@) == i,
            decreases self.entries.len() - i,
        {
            assert(all.take(i + 1).drop_last() =~= all.take(i as int));
            assert(all.take(i + 1).last() == all[i as int]);
            if Self::has_name(&self.entries[i].1, &wanted) {
                proof {
                    lemma_named_at_prefix(all, name@, i + 1);
                }
                return Some(SqlState::Canonical(self.entries[i].0.clone()));
            }
            i += 1;
        }
        assert(all.take(self.entries.len() as int) =~= all);
        None
    }

    /// The state that stands for `code`. Every text has one: the
    /// canonical state of a code that the registry holds, and a state
    /// that keeps the text as it is for any other.
    pub fn classify(&self, code: &str) -> (state: SqlState)
        ensures
            self.classifies(code@, state),
    {
        broadcast use group_hash_axioms;

        proof {
            use_type_invariant(self);
            lemma_position(self.entries(), code@);
        }
        let letters = chars_of(code);
        if letters.len() != 5 {
            return SqlState::Other(code.to_owned());
        }
        let key = pack(&letters);
        match self.index.get(&key) {
            Some(at) => {
                proof {
                    lemma_packed_injective(self.entries@[*at as int].0@, code@);
                    assert(self.entries()[*at as int].0 == code@);
                }
                SqlState::Canonical(code.to_owned())
            },
            None => {
                proof {
                    let at = position(self.entries(), code@);
                    if at < self.entries().len() {
                        assert(self.entries@[at].0@ == code@);
                        assert(self.index@.contains_key(packed(self.entries@[at].0@) as u128));
                    }
                }
                SqlState::Other(code.to_owned())
            },
        }
    }
}

/// The number of a canonical code.
fn pack(code: &Vec<char>) -> (key: u128)
    requires
        code.len() == 5,
    ensures
        key == packed(code@),
{
    proof {
        lemma_digits(code@);
    }
    let mut key: u128 = code[0] as u32 as u128;
    key = key * BASE + code[1] as u32 as u128;
    key = key * BASE + code[2] as u32 as u128;
    key = key * BASE + code[3] as u32 as u128;
    key = key * BASE + code[4] as u32 as u128;
    key
}

/// Classifying a text again gives an equal state of the same kind.
pub proof fn lemma_classification_is_stable(
    registry: SqlStateRegistry,
    code: Seq<char>,
    first: SqlState,
    second: SqlState,
)
    requires
        registry.classifies(code, first),
        registry.classifies(code, second),
    ensures
        first.eq_spec(&second),
        first is Canonical <==> second is Canonical,
{
}

/// A state is what the registry makes of its own code: classifying is idempotent.
pub proof fn lemma_classification_is_idempotent(
    registry: SqlStateRegistry,
    code: Seq<char>,
    state: SqlState,
)
    requires
        registry.classifies(code, state),
    ensures
        registry.classifies(state@, state),
{
}

/// A text that the registry does not hold comes back as it went in, in a verbatim state.
pub proof fn lemma_unknown_code_is_kept(registry: SqlStateRegistry, code: Seq<char>, state: SqlState)
    requires
        registry.classifies(code, state),
        !registry.knows(code),
    ensures
        state is Other,
        state@ == code,
{
}

} // verus!
