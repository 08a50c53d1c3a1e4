//! Source text of the SQLSTATE module, written from the error-code
//! catalogue, with the lookup table of a perfect-hash generator.

use crate::catalogue::all_named;
use crate::catalogue::catalogue;
use crate::catalogue::entries_of;
use crate::catalogue::entries_view;
use crate::catalogue::parse_codes;
use crate::catalogue::read_from;
use crate::catalogue::texts;
use crate::catalogue::CatalogueError;
use crate::catalogue::Entry;
use linked_hash_map::LinkedHashMap;
use vstd::prelude::*;
use vstd::string::StringExecFns;

verus! {

/// `phf_codegen::Map`, the builder of a perfect-hash table's source text.
#[verifier::external_type_specification]
#[verifier::external_body]
#[verifier::reject_recursive_types(K)]
pub struct ExPhfMap<K>(phf_codegen::Map<K>);

/// The keys that were given to a table builder, in order.
pub uninterp spec fn table_keys(builder: phf_codegen::Map<String>) -> Seq<Seq<char>>;

/// The source text of the value that was given with each key, in the same order.
pub uninterp spec fn table_values(builder: phf_codegen::Map<String>) -> Seq<Seq<char>>;

/// A key as the table prints it: a string literal of the language, in
/// quotes and with what needs it escaped.
pub uninterp spec fn quoted(key: Seq<char>) -> Seq<char>;

/// A row of a table up to its key.
pub const ROW_OPEN: &'static str = "\n        (";

/// A row of a table between its key and its value.
pub const ROW_MID: &'static str = ", ";

/// The end of a row.
pub const ROW_CLOSE: &'static str = "),";

/// The end of a table, behind its last row.
pub const TABLE_TAIL: &'static str = "\n    ],\n}";

/// No text stands twice.
pub open spec fn distinct(keys: Seq<Seq<char>>) -> bool {
    forall|i: int, j: int| 0 <= i < j < keys.len() ==> #[trigger] keys[i] != #[trigger] keys[j]
}

/// Whether `order` names each of `places` places once.
pub open spec fn names_each_once(order: Seq<int>, places: nat) -> bool {
    &&& order.len() == places
    &&& forall|i: int| 0 <= i < order.len() ==> 0 <= #[trigger] order[i] < places
    &&& forall|i: int, j: int|
        0 <= i < j < order.len() ==> #[trigger] order[i] != #[trigger] order[j]
}

/// Each key as the table prints it.
pub open spec fn each_quoted(keys: Seq<Seq<char>>) -> Seq<Seq<char>> {
    Seq::new(keys.len(), |i: int| quoted(keys[i]))
}

/// One row for each place that `order` names, in that order: the
/// printed key of the place and the text of its value.
pub open spec fn table_rows(keys: Seq<Seq<char>>, values: Seq<Seq<char>>, order: Seq<int>) -> Seq<
    char,
>
    decreases order.len(),
{
    if order.len() == 0 {
        Seq::empty()
    } else {
        table_rows(keys, values, order.drop_last()) + ROW_OPEN@ + keys[order.last()] + ROW_MID@
            + values[order.last()] + ROW_CLOSE@
    }
}

/// Whether `table` is `head`, then the rows of the places that `order` names, then the closing text.
pub open spec fn lays_out(
    table: Seq<char>,
    head: Seq<char>,
    keys: Seq<Seq<char>>,
    values: Seq<Seq<char>>,
    order: Seq<int>,
) -> bool {
    table == head + table_rows(keys, values, order) + TABLE_TAIL@
}

/// Whether `table` is a lookup table of the printed keys with their
/// values: some head, which holds the hash key and the displacements,
/// then one row for each key with its value, in some order that
/// leaves no key out and takes none twice, then the closing text.
pub open spec fn tabulates(table: Seq<char>, keys: Seq<Seq<char>>, values: Seq<Seq<char>>) -> bool {
    exists|head: Seq<char>, order: Seq<int>|
        names_each_once(order, keys.len()) && #[trigger] lays_out(table, head, keys, values, order)
}

/// `phf_codegen::Map::new`: a builder without entries.
#[verifier::external_body]
pub(crate) fn new_table() -> (builder: phf_codegen::Map<String>)
    ensures
        table_keys(builder) == Seq::<Seq<char>>::empty(),
        table_values(builder) == Seq::<Seq<char>>::empty(),
{
    phf_codegen::Map::new()
}

/// `phf_codegen::Map::entry`: one more key, with the source text of its value.
#[verifier::external_body]
pub(crate) fn table_entry(builder: &mut phf_codegen::Map<String>, key: String, value: &str)
    ensures
        table_keys(*final(builder)) == table_keys(*old(builder)).push(key@),
        table_values(*final(builder)) == table_values(*old(builder)).push(value@),
{
    builder.entry(key, value);
}

/// `phf_codegen::Map::build`, printed: the source text of the table,
/// which holds one row for each entry, with the key as `Debug` prints
/// it and the value as it was given. The text in front of the rows and
/// the order of the rows come from a search whose pseudo-random numbers
/// depend on the machine's word size, so they are left open. A key
/// given twice makes `build` panic.
#[verifier::external_body]
pub(crate) fn table_source(builder: &phf_codegen::Map<String>) -> (source: String)
    requires
        distinct(table_keys(*builder)),
    ensures
        tabulates(
            source@,
            Seq::new(table_keys(*builder).len(), |i: int| quoted(table_keys(*builder)[i])),
            table_values(*builder),
        ),
{
    format!("{}", builder.build())
}

/// The declaration of the type and the head of its `impl`, with the function that looks a code up.
pub const TYPE_SOURCE: &'static str =
    "// Autogenerated file - DO NOT EDIT\n\n/// A SQLSTATE error code\n#[derive(PartialEq, Eq, Clone, Debug)]\npub struct SqlState(Inner);\n\nimpl SqlState {\n    /// Creates a `SqlState` from its error code.\n    pub fn from_code(s: &str) -> SqlState {\n        match SQLSTATE_MAP.get(s) {\n            Some(state) => state.clone(),\n            None => SqlState(Inner::Other(s.into())),\n        }\n    }\n";

/// The head of the method that gives a state its code.
pub const CODE_HEAD: &'static str =
    "\n    /// Returns the error code corresponding to the `SqlState`.\n    pub fn code(&self) -> &str {\n        match &self.0 {";

/// A match arm of that method up to the code in its variant.
pub const ARM_OPEN: &'static str = "\n            Inner::E";

/// A match arm between its variant and its text.
pub const ARM_MID: &'static str = " => \"";

/// The end of a match arm.
pub const ARM_CLOSE: &'static str = "\",";

/// The arm for every other text, and the end of the method.
pub const CODE_TAIL: &'static str = "\n            Inner::Other(code) => code,\n        }\n    }\n        ";

/// A constant up to the code in its comment.
pub const CONST_DOC: &'static str = "\n    /// ";

/// A constant between its comment and its name.
pub const CONST_OPEN: &'static str = "\n    pub const ";

/// A constant between its name and the code in its variant.
pub const CONST_MID: &'static str = ": SqlState = SqlState(Inner::E";

/// The end of a constant.
pub const CONST_CLOSE: &'static str = ");\n";

/// The brace that closes the `impl`.
pub const CONSTS_TAIL: &'static str = "}";

/// The head of the enum behind the type.
pub const INNER_HEAD: &'static str =
    "\n\n#[derive(PartialEq, Eq, Clone, Debug)]\n#[allow(clippy::upper_case_acronyms)]\nenum Inner {";

/// A variant up to its code.
pub const VARIANT_OPEN: &'static str = "\n    E";

/// The end of a variant.
pub const VARIANT_CLOSE: &'static str = ",";

/// The variant for every other text, and the end of the enum.
pub const INNER_TAIL: &'static str = "\n    Other(Box<str>),\n}\n        ";

/// The static item of the lookup table up to the table.
pub const MAP_HEAD: &'static str =
    "\n#[rustfmt::skip]\nstatic SQLSTATE_MAP: phf::Map<&'static str, SqlState> = \n";

/// The end of the static item.
pub const MAP_TAIL: &'static str = ";\n";

/// The path in front of the name of a constant.
pub const VALUE_OPEN: &'static str = "SqlState::";

/// The match arm that gives a code's text.
pub open spec fn code_arm(code: Seq<char>) -> Seq<char> {
    ARM_OPEN@ + code + ARM_MID@ + code + ARM_CLOSE@
}

/// One match arm for each code, in the catalogue's order.
pub open spec fn code_arms(entries: Seq<Entry>) -> Seq<char>
    decreases entries.len(),
{
    if entries.len() == 0 {
        Seq::empty()
    } else {
        code_arms(entries.drop_last()) + code_arm(entries.last().0)
    }
}

/// The constant that gives a name to a code.
pub open spec fn const_item(code: Seq<char>, name: Seq<char>) -> Seq<char> {
    CONST_DOC@ + code + CONST_OPEN@ + name + CONST_MID@ + code + CONST_CLOSE@
}

/// One constant for each name of a code.
pub open spec fn const_items_of(code: Seq<char>, names: Seq<Seq<char>>) -> Seq<char>
    decreases names.len(),
{
    if names.len() == 0 {
        Seq::empty()
    } else {
        const_items_of(code, names.drop_last()) + const_item(code, names.last())
    }
}

/// The constants of every code, in the catalogue's order.
pub open spec fn const_items(entries: Seq<Entry>) -> Seq<char>
    decreases entries.len(),
{
    if entries.len() == 0 {
        Seq::empty()
    } else {
        const_items(entries.drop_last()) + const_items_of(entries.last().0, entries.last().1)
    }
}

/// The enum variant that stands for a code.
pub open spec fn variant(code: Seq<char>) -> Seq<char> {
    VARIANT_OPEN@ + code + VARIANT_CLOSE@
}

/// One variant for each code, in the catalogue's order.
pub open spec fn variants(entries: Seq<Entry>) -> Seq<char>
    decreases entries.len(),
{
    if entries.len() == 0 {
        Seq::empty()
    } else {
        variants(entries.drop_last()) + variant(entries.last().0)
    }
}

/// The code of each entry.
pub open spec fn codes_of(entries: Seq<Entry>) -> Seq<Seq<char>> {
    Seq::new(entries.len(), |i: int| entries[i].0)
}

/// The constant of the first name of each code, as the table refers to it.
pub open spec fn first_constants(entries: Seq<Entry>) -> Seq<Seq<char>> {
    Seq::new(entries.len(), |i: int| VALUE_OPEN@ + entries[i].1[0])
}

/// Whether `source` is the static item that holds the lookup table of
/// the entries: one row for each code, which leads to the constant of
/// the code's first name.
pub open spec fn maps(source: Seq<char>, entries: Seq<Entry>) -> bool {
    exists|table: Seq<char>|
        source == MAP_HEAD@ + table + MAP_TAIL@ && #[trigger] tabulates(
            table,
            each_quoted(codes_of(entries)),
            first_constants(entries),
        )
}

/// The declaration of the type and the head of its `impl`.
pub fn make_type() -> (source: String)
    ensures
        source@ == TYPE_SOURCE@,
{
    String::from_str(TYPE_SOURCE)
}

/// The method that gives each state its code.
pub fn make_code(codes: &LinkedHashMap<String, Vec<String>>) -> (source: String)
    ensures
        source@ == CODE_HEAD@ + code_arms(catalogue(*codes)) + CODE_TAIL@,
{
    let entries = entries_of(codes);
    let ghost all = entries_view(entries@);
    let mut source = String::from_str(CODE_HEAD);
    let mut i: usize = 0;
    while i < entries.len()
        invariant
            i <= entries.len(),
            all == entries_view(entries@),
            source@ == CODE_HEAD@ + code_arms(all.take(i as int)),
        decreases entries.len() - i,
    {
        let code = entries[i].0.as_str();
        source.append(ARM_OPEN);
        source.append(code);
        source.append(ARM_MID);
        source.append(code);
        source.append(ARM_CLOSE);
        proof {
            assert(all.take(i + 1).drop_last() =~= all.take(i as int));
            assert(source@ =~= CODE_HEAD@ + code_arms(all.take(i + 1)));
        }
        i += 1;
    }
    source.append(CODE_TAIL);
    assert(all.take(entries.len() as int) =~= all);
    source
}

/// The constants of one code.
fn consts_of(source: &mut String, code: &str, names: &Vec<String>)
    ensures
        final(source)@ == old(source)@ + const_items_of(code@, texts(names@)),
{
    let ghost all = texts(names@);
    let mut j: usize = 0;
    assert(source@ =~= old(source)@ + const_items_of(code@, all.take(0)));
    while j < names.len()
        invariant
            j <= names.len(),
            all == texts(names@),
            source@ == old(source)@ + const_items_of(code@, all.take(j as int)),
        decreases names.len() - j,
    {
        source.append(CONST_DOC);
        source.append(code);
        source.append(CONST_OPEN);
        source.append(names[j].as_str());
        source.append(CONST_MID);
        source.append(code);
        source.append(CONST_CLOSE);
        proof {
            assert(all.take(j + 1).drop_last() =~= all.take(j as int));
            assert(source@ =~= old(source)@ + const_items_of(code@, all.take(j + 1)));
        }
        j += 1;
    }
    assert(all.take(names.len() as int) =~= all);
}

/// One constant for each name of each code, and the brace that closes the `impl`.
pub fn make_consts(codes: &LinkedHashMap<String, Vec<String>>) -> (source: String)
    ensures
        source@ == const_items(catalogue(*codes)) + CONSTS_TAIL@,
{
    let entries = entries_of(codes);
    let ghost all = entries_view(entries@);
    let mut source = String::new();
    let mut i: usize = 0;
    assert(source@ =~= const_items(all.take(0)));
    while i < entries.len()
        invariant
            i <= entries.len(),
            all == entries_view(entries@),
            source@ == const_items(all.take(i as int)),
        decreases entries.len() - i,
    {
        consts_of(&mut source, entries[i].0.as_str(), &entries[i].1);
        proof {
            assert(all.take(i + 1).drop_last() =~= all.take(i as int));
        }
        i += 1;
    }
    source.append(CONSTS_TAIL);
    assert(all.take(entries.len() as int) =~= all);
    source
}

/// The enum behind the type: one variant for each code, and one for every other text.
pub fn make_inner(codes: &LinkedHashMap<String, Vec<String>>) -> (source: String)
    ensures
        source@ == INNER_HEAD@ + variants(catalogue(*codes)) + INNER_TAIL@,
{
    let entries = entries_of(codes);
    let ghost all = entries_view(entries@);
    let mut source = String::from_str(INNER_HEAD);
    let mut i: usize = 0;
    while i < entries.len()
        invariant
            i <= entries.len(),
            all == entries_view(entries@),
            source@ == INNER_HEAD@ + variants(all.take(i as int)),
        decreases entries.len() - i,
    {
        source.append(VARIANT_OPEN);
        source.append(entries[i].0.as_str());
        source.append(VARIANT_CLOSE);
        proof {
            assert(all.take(i + 1).drop_last() =~= all.take(i as int));
            assert(source@ =~= INNER_HEAD@ + variants(all.take(i + 1)));
        }
        i += 1;
    }
    source.append(INNER_TAIL);
    assert(all.take(entries.len() as int) =~= all);
    source
}

/// The static item that holds a lookup table with the given source text.
pub fn map_item(table: &str) -> (source: String)
    ensures
        source@ == MAP_HEAD@ + table@ + MAP_TAIL@,
{
    let mut source = String::from_str(MAP_HEAD);
    source.append(table);
    source.append(MAP_TAIL);
    source
}

/// The lookup table from each code to the constant of its first
/// name: one row for each code, and none for a name that is not the
/// first of its code.
pub fn make_map(codes: &LinkedHashMap<String, Vec<String>>) -> (source: String)
    requires
        all_named(catalogue(*codes)),
    ensures
        maps(source@, catalogue(*codes)),
{
    let entries = entries_of(codes);
    let ghost all = entries_view(entries@);
    let mut builder = new_table();
    let mut i: usize = 0;
    while i < entries.len()
        invariant
            i <= entries.len(),
            all == entries_view(entries@),
            all_named(all),
            table_keys(builder) == codes_of(all).take(i as int),
            table_values(builder) == first_constants(all).take(i as int),
        decreases entries.len() - i,
    {
        assert(all[i as int].1.len() > 0);
        let mut value = String::from_str(VALUE_OPEN);
        value.append(entries[i].1[0].as_str());
        table_entry(&mut builder, entries[i].0.clone(), value.as_str());
        assert(table_keys(builder) =~= codes_of(all).take(i + 1));
        assert(table_values(builder) =~= first_constants(all).take(i + 1));
        i += 1;
    }
    assert(codes_of(all).take(entries.len() as int) =~= codes_of(all));
    assert(first_constants(all).take(entries.len() as int) =~= first_constants(all));
    assert(distinct(codes_of(all)));
    let table = table_source(&builder);
    let source = map_item(table.as_str());
    assert(Seq::new(table_keys(builder).len(), |i: int| quoted(table_keys(builder)[i]))
        =~= each_quoted(codes_of(all)));
    assert(tabulates(table@, each_quoted(codes_of(all)), first_constants(all)));
    source
}

/// The whole module for a catalogue's entries, in front of the item of its lookup table.
pub open spec fn module_of(entries: Seq<Entry>) -> Seq<char> {
    TYPE_SOURCE@ + (CODE_HEAD@ + code_arms(entries) + CODE_TAIL@) + (const_items(entries)
        + CONSTS_TAIL@) + (INNER_HEAD@ + variants(entries) + INNER_TAIL@)
}

/// Whether `source` is the whole module for the entries: the type,
/// the method that gives the codes, the constants and the enum, and
/// behind them the item of the lookup table of the entries.
pub open spec fn builds(source: Seq<char>, entries: Seq<Entry>) -> bool {
    exists|map: Seq<char>| source == module_of(entries) + map && #[trigger] maps(map, entries)
}

/// The source text of the whole module for the catalogue `text`: the
/// type, the method that gives the codes, the constants, the enum and
/// the lookup table, in this order.
pub fn build(text: &str) -> (r: Result<String, CatalogueError>)
    ensures
        match read_from(text@, 0, Seq::<Entry>::empty()) {
            Ok(entries) => r matches Ok(source) && builds(source@, entries),
            Err(at) => r == Err::<String, CatalogueError>(
                CatalogueError::Malformed { at: at as usize },
            ),
        },
{
    let codes = match parse_codes(text) {
        Ok(codes) => codes,
        Err(e) => {
            return Err(e);
        },
    };
    let mut source = make_type();
    let code = make_code(&codes);
    let consts = make_consts(&codes);
    let inner = make_inner(&codes);
    let map = make_map(&codes);
    source.append(code.as_str());
    source.append(consts.as_str());
    source.append(inner.as_str());
    source.append(map.as_str());
    assert(source@ == module_of(catalogue(codes)) + map@);
    Ok(source)
}

} // verus!
