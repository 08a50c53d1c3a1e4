//! The error-code catalogue: an insertion-ordered map from each code
//! to its names, and the reading of it from its text.

use crate::text::chars_of;
use crate::text::is_space;
use crate::text::space;
use linked_hash_map::LinkedHashMap;
use vstd::prelude::*;
use vstd::string::StringExecFns;
use vstd::string::StrSliceExecFns;

verus! {

/// `linked_hash_map::LinkedHashMap`, a hash map that keeps its
/// entries in the order in which their keys were first inserted.
#[verifier::external_type_specification]
#[verifier::external_body]
#[verifier::reject_recursive_types(K)]
#[verifier::reject_recursive_types(V)]
#[verifier::reject_recursive_types(S)]
pub struct ExLinkedHashMap<K, V, S>(LinkedHashMap<K, V, S>);

/// A code and the names declared for it, first declared first.
pub type Entry = (Seq<char>, Seq<Seq<char>>);

/// The entries that the map holds, in the order in which their codes were first inserted.
pub uninterp spec fn catalogue(codes: LinkedHashMap<String, Vec<String>>) -> Seq<Entry>;

/// The text of each string.
pub open spec fn texts(names: Seq<String>) -> Seq<Seq<char>> {
    Seq::new(names.len(), |i: int| names[i]@)
}

/// The entries as the contracts see them.
pub open spec fn entries_view(entries: Seq<(String, Vec<String>)>) -> Seq<Entry> {
    Seq::new(entries.len(), |i: int| (entries[i].0@, texts(entries[i].1@)))
}

/// The position of the code among the entries, or their number where it is not there.
pub open spec fn position(entries: Seq<Entry>, code: Seq<char>) -> int
    decreases entries.len(),
{
    if entries.len() == 0 {
        0
    } else {
        let before = position(entries.drop_last(), code);
        if before < entries.len() - 1 {
            before
        } else if entries.last().0 == code {
            entries.len() - 1
        } else {
            entries.len() as int
        }
    }
}

/// The position is within bounds and is that of the first entry with the code.
pub proof fn lemma_position(entries: Seq<Entry>, code: Seq<char>)
    ensures
        0 <= position(entries, code) <= entries.len(),
        position(entries, code) < entries.len() ==> entries[position(entries, code)].0 == code,
        forall|j: int| 0 <= j < position(entries, code) ==> (#[trigger] entries[j]).0 != code,
    decreases entries.len(),
{
    if entries.len() > 0 {
        let front = entries.drop_last();
        lemma_position(front, code);
        assert forall|j: int| 0 <= j < position(entries, code) implies (#[trigger] entries[j]).0
            != code by {
            if j < front.len() {
                assert(front[j] == entries[j]);
            }
        }
    }
}

/// No code stands twice.
pub open spec fn distinct_codes(entries: Seq<Entry>) -> bool {
    forall|i: int, j: int|
        0 <= i < j < entries.len() ==> (#[trigger] entries[i]).0 != (#[trigger] entries[j]).0
}

/// The entries once `code` is looked up and, where missing, entered
/// at the end with no name; then given the names `names`.
pub open spec fn with_names(entries: Seq<Entry>, code: Seq<char>, names: Seq<Seq<char>>) -> Seq<
    Entry,
> {
    let at = position(entries, code);
    if at < entries.len() {
        entries.update(at, (code, names))
    } else {
        entries.push((code, names))
    }
}

/// The names that the entries hold for `code`; none where it is not there.
pub open spec fn names_of(entries: Seq<Entry>, code: Seq<char>) -> Seq<Seq<char>> {
    let at = position(entries, code);
    if at < entries.len() {
        entries[at].1
    } else {
        Seq::empty()
    }
}

/// The entries with one more name for a code, which is entered at the end where it is new.
pub open spec fn with_name(entries: Seq<Entry>, code: Seq<char>, name: Seq<char>) -> Seq<Entry> {
    with_names(entries, code, names_of(entries, code).push(name))
}

/// `LinkedHashMap::new`: a map that holds nothing.
#[verifier::external_body]
pub(crate) fn new_codes() -> (codes: LinkedHashMap<String, Vec<String>>)
    ensures
        catalogue(codes) == Seq::<Entry>::empty(),
{
    LinkedHashMap::new()
}

/// `LinkedHashMap::entry` and `Entry::or_insert_with`: the names held
/// for the code, which is entered at the end with no name where the map
/// does not have it. What the caller leaves in the returned vector is
/// what the map then holds for the code; no other entry changes.
#[verifier::external_body]
pub(crate) fn names_entry<'a>(
    codes: &'a mut LinkedHashMap<String, Vec<String>>,
    code: String,
) -> (names: &'a mut Vec<String>)
    ensures
        texts(names@) == names_of(catalogue(*old(codes)), code@),
        catalogue(*final(codes)) == with_names(
            catalogue(*old(codes)),
            code@,
            texts(final(names)@),
        ),
{
    codes.entry(code).or_insert_with(Vec::new)
}

/// `LinkedHashMap::iter`: a copy of each entry, in the map's order. A map holds no key twice.
#[verifier::external_body]
pub(crate) fn entries_of(codes: &LinkedHashMap<String, Vec<String>>) -> (entries: Vec<
    (String, Vec<String>),
>)
    ensures
        entries_view(entries@) == catalogue(*codes),
        distinct_codes(entries_view(entries@)),
{
    codes.iter().map(|(code, names)| (code.clone(), names.clone())).collect()
}

/// Adds a name to those of a code: behind the names that the code
/// has, or as the first name of a code that is entered behind all others.
pub fn add_name(codes: &mut LinkedHashMap<String, Vec<String>>, code: String, name: String)
    ensures
        catalogue(*final(codes)) == with_name(catalogue(*old(codes)), code@, name@),
{
    let names = names_entry(codes, code);
    let ghost before = names@;
    names.push(name);
    assert(texts(names@) =~= texts(before).push(name@));
}

/// Every code has a name.
pub open spec fn all_named(entries: Seq<Entry>) -> bool {
    forall|i: int| 0 <= i < entries.len() ==> (#[trigger] entries[i]).1.len() > 0
}

/// Lines that begin with this word head a class of codes and declare nothing.
pub const SECTION: &'static str = "Section";

/// The catalogue's names begin with this word, which the constants leave out.
pub const NAME_PREFIX: &'static str = "ERRCODE_";

/// Why a catalogue could not be read.
#[derive(Clone, Copy, Debug, PartialEq, Eq, Structural)]
pub enum CatalogueError {
    /// The line that starts at this character declares a code without a third field.
    Malformed { at: usize },
}

/// What one line of the catalogue says.
pub enum Line {
    /// A comment, a section heading or a blank line.
    Ignored,
    /// A code and one name for it.
    Declares { code: Seq<char>, name: Seq<char> },
    /// Fewer than three fields.
    Malformed,
}

/// The number of characters from `from` up to the next line feed or the end.
pub open spec fn line_len(text: Seq<char>, from: int) -> nat
    decreases text.len() - from,
{
    if from < 0 || from >= text.len() || text[from] == '\n' {
        0
    } else {
        1 + line_len(text, from + 1)
    }
}

/// The number of characters from `from` on that are white space
/// (`spaces`) or that are not (`!spaces`), up to the first of the other kind.
pub open spec fn run(line: Seq<char>, from: int, spaces: bool) -> nat
    decreases line.len() - from,
{
    if from < 0 || from >= line.len() || is_space(line[from]) != spaces {
        0
    } else {
        1 + run(line, from + 1, spaces)
    }
}

/// The text without any occurrence of `word`, found from left to right.
pub open spec fn without(text: Seq<char>, word: Seq<char>) -> Seq<char>
    decreases text.len(),
{
    if word.len() == 0 || text.len() < word.len() {
        text
    } else if word.is_prefix_of(text) {
        without(text.skip(word.len() as int), word)
    } else {
        seq![text[0]] + without(text.skip(1), word)
    }
}

/// What a line says. A line that begins with `#` or with `Section`, or
/// that holds white space only, is ignored. Of any other line the first
/// field is the code and the third, without `ERRCODE_`, the name.
pub open spec fn read_line(line: Seq<char>) -> Line {
    let code_from = run(line, 0, true) as int;
    let code_to = code_from + run(line, code_from, false);
    let class_from = code_to + run(line, code_to, true);
    let class_to = class_from + run(line, class_from, false);
    let name_from = class_to + run(line, class_to, true);
    let name_to = name_from + run(line, name_from, false);
    if (line.len() > 0 && line[0] == '#') || SECTION@.is_prefix_of(line) || code_from
        >= line.len() {
        Line::Ignored
    } else if name_from >= line.len() {
        Line::Malformed
    } else {
        Line::Declares {
            code: line.subrange(code_from, code_to),
            name: without(line.subrange(name_from, name_to), NAME_PREFIX@),
        }
    }
}

/// The catalogue that the lines from `from` on add to `entries`, or
/// the offset of the first malformed line.
pub open spec fn read_from(text: Seq<char>, from: int, entries: Seq<Entry>) -> Result<
    Seq<Entry>,
    int,
>
    decreases text.len() - from,
{
    if from < 0 || from >= text.len() {
        Ok(entries)
    } else {
        let end = from + line_len(text, from);
        let now = match read_line(text.subrange(from, end)) {
            Line::Ignored => Ok(entries),
            Line::Malformed => Err(from),
            Line::Declares { code, name } => Ok(with_name(entries, code, name)),
        };
        match now {
            Ok(entries) if end < text.len() => read_from(text, end + 1, entries),
            _ => now,
        }
    }
}

/// Whether `word` stands in `text` at `at`.
fn stands_at(text: &Vec<char>, at: usize, word: &Vec<char>) -> (found: bool)
    requires
        at <= text.len(),
    ensures
        found == word@.is_prefix_of(text@.skip(at as int)),
{
    let n = text.len();
    let m = word.len();
    if m > n - at {
        return false;
    }
    let mut k: usize = 0;
    while k < m
        invariant
            k <= m,
            m == word.len(),
            n == text.len(),
            at + m <= n,
            forall|j: int| 0 <= j < k ==> text@[at + j] == word@[j],
        decreases m - k,
    {
        if text[at + k] != word[k] {
            assert(text@.skip(at as int)[k as int] != word@[k as int]);
            return false;
        }
        k += 1;
    }
    assert(word@ =~= text@.skip(at as int).subrange(0, m as int));
    true
}

/// The end of the run of white space (`spaces`) or of other characters that starts at `from`.
fn scan(line: &Vec<char>, from: usize, spaces: bool) -> (to: usize)
    requires
        from <= line.len(),
    ensures
        to == from + run(line@, from as int, spaces),
        to <= line.len(),
{
    let n = line.len();
    let mut j: usize = from;
    while j < n
        invariant
            from <= j <= n,
            n == line.len(),
            from + run(line@, from as int, spaces) == j + run(line@, j as int, spaces),
        decreases n - j,
    {
        if space(line[j]) != spaces {
            return j;
        }
        j += 1;
    }
    j
}

/// The offset of the line feed that ends the line starting at `from`, or the text's length.
fn line_end(text: &Vec<char>, from: usize) -> (to: usize)
    requires
        from <= text.len(),
    ensures
        to == from + line_len(text@, from as int),
        to <= text.len(),
{
    let n = text.len();
    let mut j: usize = from;
    while j < n
        invariant
            from <= j <= n,
            n == text.len(),
            from + line_len(text@, from as int) == j + line_len(text@, j as int),
        decreases n - j,
    {
        if text[j] == '\n' {
            return j;
        }
        j += 1;
    }
    j
}

/// The text without any occurrence of `word`.
fn strip(text: &str, word: &str) -> (rest: String)
    ensures
        rest@ == without(text@, word@),
{
    let chars = chars_of(text);
    let letters = chars_of(word);
    let n = chars.len();
    let m = letters.len();
    if m == 0 {
        return text.to_owned();
    }
    let mut rest = String::new();
    let mut i: usize = 0;
    assert(text@.skip(0) =~= text@);
    while i < n && m <= n - i
        invariant
            i <= n,
            n == text@.len(),
            m == word@.len(),
            m > 0,
            chars@ == text@,
            letters@ == word@,
            rest@ + without(text@.skip(i as int), word@) == without(text@, word@),
        decreases n - i,
    {
        let ghost tail = text@.skip(i as int);
        if stands_at(&chars, i, &letters) {
            assert(tail.skip(m as int) =~= text@.skip(i + m));
            i += m;
        } else {
            rest.append(text.substring_char(i, i + 1));
            assert(text@.subrange(i as int, i + 1) =~= seq![tail[0]]);
            assert(tail.skip(1) =~= text@.skip(i + 1));
            assert(rest@ + without(text@.skip(i + 1), word@) =~= without(text@, word@));
            i += 1;
        }
    }
    rest.append(text.substring_char(i, n));
    assert(text@.subrange(i as int, n as int) =~= text@.skip(i as int));
    rest
}

/// Reads one line of the catalogue.
fn read(line: &str) -> (said: Option<Option<(String, String)>>)
    ensures
        match read_line(line@) {
            Line::Ignored => said == Some(None::<(String, String)>),
            Line::Malformed => said is None,
            Line::Declares { code, name } => said matches Some(Some(pair)) && pair.0@ == code
                && pair.1@ == name,
        },
{
    let chars = chars_of(line);
    let n = chars.len();
    assert(line@.skip(0) =~= line@);
    if n > 0 && chars[0] == '#' {
        return Some(None);
    }
    if stands_at(&chars, 0, &chars_of(SECTION)) {
        return Some(None);
    }
    let code_from = scan(&chars, 0, true);
    if code_from >= n {
        return Some(None);
    }
    let code_to = scan(&chars, code_from, false);
    let class_from = scan(&chars, code_to, true);
    let class_to = scan(&chars, class_from, false);
    let name_from = scan(&chars, class_to, true);
    if name_from >= n {
        return None;
    }
    let name_to = scan(&chars, name_from, false);
    let code = line.substring_char(code_from, code_to).to_owned();
    let name = strip(line.substring_char(name_from, name_to), NAME_PREFIX);
    Some(Some((code, name)))
}

/// One more name keeps every code named.
pub proof fn lemma_with_name_named(entries: Seq<Entry>, code: Seq<char>, name: Seq<char>)
    requires
        all_named(entries),
    ensures
        all_named(with_name(entries, code, name)),
{
    let at = position(entries, code);
    let after = with_name(entries, code, name);
    lemma_position(entries, code);
    assert forall|i: int| 0 <= i < after.len() implies (#[trigger] after[i]).1.len() > 0 by {
        if i < entries.len() && i != at {
            assert(after[i] == entries[i]);
        }
    }
}

/// Reads the catalogue: one line for each name of a code, with the
/// code in the first field and the name in the third. The codes keep
/// the order in which they first appear, and each code's names the
/// order of their lines.
pub fn parse_codes(text: &str) -> (r: Result<LinkedHashMap<String, Vec<String>>, CatalogueError>)
    ensures
        match read_from(text@, 0, Seq::<Entry>::empty()) {
            Ok(entries) => r matches Ok(codes) && catalogue(codes) == entries && all_named(
                entries,
            ),
            Err(at) => r == Err::<LinkedHashMap<String, Vec<String>>, CatalogueError>(
                CatalogueError::Malformed { at: at as usize },
            ),
        },
{
    let chars = chars_of(text);
    let n = chars.len();
    let mut codes = new_codes();
    let mut from: usize = 0;
    while from < n
        invariant
            from <= n,
            n == text@.len(),
            chars@ == text@,
            all_named(catalogue(codes)),
            read_from(text@, 0, Seq::<Entry>::empty()) == read_from(
                text@,
                from as int,
                catalogue(codes),
            ),
        decreases n - from,
    {
        let end = line_end(&chars, from);
        match read(text.substring_char(from, end)) {
            None => {
                return Err(CatalogueError::Malformed { at: from });
            },
            Some(None) => {},
            Some(Some(pair)) => {
                proof {
                    lemma_with_name_named(catalogue(codes), pair.0@, pair.1@);
                }
                add_name(&mut codes, pair.0, pair.1);
            },
        }
        if end < n {
            from = end + 1;
        } else {
            from = n;
        }
    }
    Ok(codes)
}

} // verus!
