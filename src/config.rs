//! Configuration entries, and the parser that merges a `key=value` file with a schema.
use crate::schema::{default_schema_model, get_default_schema};
use crate::text::{
    chars_of, find_char, first_index, slice_chars, string_of, trim, trim_chars,
};
use vstd::prelude::*;

verus! {

/// The kind of value a known key takes.
#[derive(Clone, Copy, Debug, PartialEq, Eq, Structural)]
pub enum ConfigType {
    String,
    Integer,
    Boolean,
}

/// A known key: its type, the section it is shown in, what it does, and its default.
#[derive(Clone, Debug)]
pub struct ConfigSchema {
    pub key: String,
    pub value_type: ConfigType,
    pub section: String,
    pub description: String,
    pub default: String,
}

/// What a [`ConfigSchema`] holds.
pub struct SchemaModel {
    pub key: Seq<char>,
    pub value_type: ConfigType,
    pub section: Seq<char>,
    pub description: Seq<char>,
    pub default: Seq<char>,
}

impl View for ConfigSchema {
    type V = SchemaModel;

    open spec fn view(&self) -> SchemaModel {
        SchemaModel {
            key: self.key@,
            value_type: self.value_type,
            section: self.section@,
            description: self.description@,
            default: self.default@,
        }
    }
}

impl ConfigSchema {
    /// A copy of this row.
    pub fn duplicate(&self) -> (r: ConfigSchema)
        ensures
            r@ == self@,
    {
        ConfigSchema {
            key: self.key.clone(),
            value_type: self.value_type,
            section: self.section.clone(),
            description: self.description.clone(),
            default: self.default.clone(),
        }
    }
}

/// One line of a configuration: a key, its value, the schema row of the key if it is
/// known, and whether the line is written out on save.
#[derive(Clone, Debug)]
pub struct ConfigEntry {
    pub key: String,
    pub value: String,
    pub schema: Option<ConfigSchema>,
    pub enabled: bool,
}

/// What a [`ConfigEntry`] holds.
pub struct EntryModel {
    pub key: Seq<char>,
    pub value: Seq<char>,
    pub schema: Option<SchemaModel>,
    pub enabled: bool,
}

pub open spec fn schema_opt_model(s: Option<ConfigSchema>) -> Option<SchemaModel> {
    match s {
        Some(x) => Some(x@),
        None => None,
    }
}

impl View for ConfigEntry {
    type V = EntryModel;

    open spec fn view(&self) -> EntryModel {
        EntryModel {
            key: self.key@,
            value: self.value@,
            schema: schema_opt_model(self.schema),
            enabled: self.enabled,
        }
    }
}

impl ConfigEntry {
    /// A copy of this entry.
    pub fn duplicate(&self) -> (r: ConfigEntry)
        ensures
            r@ == self@,
    {
        let schema = match &self.schema {
            Some(s) => Some(s.duplicate()),
            None => None,
        };
        ConfigEntry {
            key: self.key.clone(),
            value: self.value.clone(),
            schema,
            enabled: self.enabled,
        }
    }
}

pub open spec fn schema_models(v: Seq<ConfigSchema>) -> Seq<SchemaModel> {
    v.map_values(|s: ConfigSchema| s@)
}

pub open spec fn entry_models(v: Seq<ConfigEntry>) -> Seq<EntryModel> {
    v.map_values(|e: ConfigEntry| e@)
}

pub open spec fn line_models(v: Seq<Vec<char>>) -> Seq<Seq<char>> {
    v.map_values(|l: Vec<char>| l@)
}

/// One character of the line splitter: the finished lines, and the line being read.
pub open spec fn split_step(st: (Seq<Seq<char>>, Seq<char>), c: char) -> (
    Seq<Seq<char>>,
    Seq<char>,
) {
    if c == '\n' {
        (st.0.push(st.1), Seq::empty())
    } else {
        (st.0, st.1.push(c))
    }
}

pub open spec fn split_state(s: Seq<char>) -> (Seq<Seq<char>>, Seq<char>)
    decreases s.len(),
{
    if s.len() == 0 {
        (Seq::empty(), Seq::empty())
    } else {
        split_step(split_state(s.drop_last()), s.last())
    }
}

/// The lines of `s`, split at each `'\n'`; the last one is what follows the last `'\n'`.
pub open spec fn lines_of(s: Seq<char>) -> Seq<Seq<char>> {
    split_state(s).0.push(split_state(s).1)
}

/// What one line holds: nothing for a blank line, a comment or a line with an empty
/// key; else the trimmed key and value on either side of the first `=`, or the
/// trimmed line with the value `1` where there is no `=`.
pub open spec fn parse_line(line: Seq<char>) -> Option<(Seq<char>, Seq<char>)> {
    let t = trim(line);
    if t.len() == 0 || t[0] == '#' {
        None
    } else {
        let i = first_index(t, '=');
        if i < 0 {
            Some((t, seq!['1']))
        } else {
            let k = trim(t.take(i));
            if k.len() == 0 {
                None
            } else {
                Some((k, trim(t.skip(i + 1))))
            }
        }
    }
}

/// The `(key, value)` pairs of `lines`, in order.
pub open spec fn pairs_of(lines: Seq<Seq<char>>) -> Seq<(Seq<char>, Seq<char>)>
    decreases lines.len(),
{
    if lines.len() == 0 {
        Seq::empty()
    } else {
        let p = pairs_of(lines.drop_last());
        match parse_line(lines.last()) {
            Some(kv) => p.push(kv),
            None => p,
        }
    }
}

/// The `(key, value)` pairs of a file's text, in order.
pub open spec fn file_pairs(text: Seq<char>) -> Seq<(Seq<char>, Seq<char>)> {
    pairs_of(lines_of(text))
}

/// The first row of `schema` with this key.
pub open spec fn lookup(schema: Seq<SchemaModel>, key: Seq<char>) -> Option<SchemaModel>
    decreases schema.len(),
{
    if schema.len() == 0 {
        None
    } else if schema[0].key == key {
        Some(schema[0])
    } else {
        lookup(schema.drop_first(), key)
    }
}

/// The entry of a pair read from a file.
pub open spec fn entry_model(kv: (Seq<char>, Seq<char>), schema: Seq<SchemaModel>) -> EntryModel {
    EntryModel { key: kv.0, value: kv.1, schema: lookup(schema, kv.0), enabled: true }
}

/// The entry of a known key that the file does not set.
pub open spec fn disabled_model(row: SchemaModel) -> EntryModel {
    EntryModel { key: row.key, value: row.default, schema: Some(row), enabled: false }
}

pub open spec fn pair_entries(pairs: Seq<(Seq<char>, Seq<char>)>, schema: Seq<SchemaModel>) -> Seq<
    EntryModel,
> {
    pairs.map_values(|kv: (Seq<char>, Seq<char>)| entry_model(kv, schema))
}

pub open spec fn key_found(pairs: Seq<(Seq<char>, Seq<char>)>, key: Seq<char>) -> bool {
    exists|j: int| 0 <= j < pairs.len() && pairs[j].0 == key
}

/// The disabled entries of the rows whose key no pair sets, in schema order.
pub open spec fn missing_entries(
    rows: Seq<SchemaModel>,
    pairs: Seq<(Seq<char>, Seq<char>)>,
) -> Seq<EntryModel>
    decreases rows.len(),
{
    if rows.len() == 0 {
        Seq::empty()
    } else {
        let m = missing_entries(rows.drop_last(), pairs);
        if key_found(pairs, rows.last().key) {
            m
        } else {
            m.push(disabled_model(rows.last()))
        }
    }
}

/// The entries of a file: one per pair in file order, then one disabled entry per
/// schema row whose key the file does not set.
pub open spec fn parse_model(text: Seq<char>, schema: Seq<SchemaModel>) -> Seq<EntryModel> {
    pair_entries(file_pairs(text), schema) + missing_entries(schema, file_pairs(text))
}

proof fn lemma_pairs_of_line(lines: Seq<Seq<char>>, l: int)
    requires
        0 <= l < lines.len(),
        parse_line(lines[l]) is Some,
    ensures
        exists|j: int|
            0 <= j < pairs_of(lines).len() && pairs_of(lines)[j] == parse_line(lines[l])->0,
    decreases lines.len(),
{
    let p = pairs_of(lines.drop_last());
    if l < lines.len() - 1 {
        lemma_pairs_of_line(lines.drop_last(), l);
        let j = choose|j: int| 0 <= j < p.len() && p[j] == parse_line(lines.drop_last()[l])->0;
        assert(pairs_of(lines)[j] == p[j]);
    } else {
        assert(pairs_of(lines)[p.len() as int] == parse_line(lines[l])->0);
    }
}

proof fn lemma_pair_from_line(lines: Seq<Seq<char>>, j: int)
    requires
        0 <= j < pairs_of(lines).len(),
    ensures
        exists|l: int| 0 <= l < lines.len() && parse_line(lines[l]) == Some(pairs_of(lines)[j]),
    decreases lines.len(),
{
    let p = pairs_of(lines.drop_last());
    if j < p.len() {
        lemma_pair_from_line(lines.drop_last(), j);
        let l = choose|l: int|
            0 <= l < lines.drop_last().len() && parse_line(lines.drop_last()[l]) == Some(p[j]);
        assert(lines[l] == lines.drop_last()[l]);
    } else {
        assert(parse_line(lines[lines.len() - 1]) == Some(pairs_of(lines)[j]));
    }
}

pub proof fn lemma_missing_disabled(rows: Seq<SchemaModel>, pairs: Seq<(Seq<char>, Seq<char>)>)
    ensures
        forall|j: int|
            0 <= j < missing_entries(rows, pairs).len() ==> !(#[trigger] missing_entries(
                rows,
                pairs,
            )[j]).enabled,
    decreases rows.len(),
{
    if rows.len() > 0 {
        lemma_missing_disabled(rows.drop_last(), pairs);
    }
}

proof fn lemma_missing_holds_row(
    rows: Seq<SchemaModel>,
    pairs: Seq<(Seq<char>, Seq<char>)>,
    i: int,
)
    requires
        0 <= i < rows.len(),
        !key_found(pairs, rows[i].key),
    ensures
        exists|j: int|
            0 <= j < missing_entries(rows, pairs).len() && missing_entries(rows, pairs)[j]
                == disabled_model(rows[i]),
    decreases rows.len(),
{
    let m = missing_entries(rows.drop_last(), pairs);
    if i < rows.len() - 1 {
        lemma_missing_holds_row(rows.drop_last(), pairs, i);
        let j = choose|j: int| 0 <= j < m.len() && m[j] == disabled_model(rows.drop_last()[i]);
        assert(missing_entries(rows, pairs)[j] == m[j]);
    } else {
        assert(missing_entries(rows, pairs)[m.len() as int] == disabled_model(rows[i]));
    }
}

/// Some element of `es` is `e`.
pub open spec fn holds_entry(es: Seq<EntryModel>, e: EntryModel) -> bool {
    exists|j: int| 0 <= j < es.len() && es[j] == e
}

/// `line` sets `key`.
pub open spec fn sets_key(line: Seq<char>, key: Seq<char>) -> bool {
    match parse_line(line) {
        Some(kv) => kv.0 == key,
        None => false,
    }
}

/// A line of the file that sets a key gives an enabled entry with that key, the
/// trimmed value that the line holds, and the schema row of the key if it is known.
pub proof fn lemma_present_key_enabled(text: Seq<char>, schema: Seq<SchemaModel>, l: int)
    requires
        0 <= l < lines_of(text).len(),
        parse_line(lines_of(text)[l]) is Some,
    ensures
        holds_entry(parse_model(text, schema), entry_model(parse_line(lines_of(text)[l])->0, schema)),
{
    lemma_pairs_of_line(lines_of(text), l);
    let pairs = file_pairs(text);
    let j = choose|j: int| 0 <= j < pairs.len() && pairs[j] == parse_line(lines_of(text)[l])->0;
    assert(parse_model(text, schema)[j] == pair_entries(pairs, schema)[j]);
}

/// A schema key that no line of the file sets gives a disabled entry holding the
/// schema's default, and no entry with that key is enabled.
pub proof fn lemma_absent_key_disabled(text: Seq<char>, schema: Seq<SchemaModel>, i: int)
    requires
        0 <= i < schema.len(),
        forall|l: int| 0 <= l < lines_of(text).len() ==> !sets_key(lines_of(text)[l], schema[i].key),
    ensures
        holds_entry(parse_model(text, schema), disabled_model(schema[i])),
        disabled_model(schema[i]).value == schema[i].default,
        forall|j: int|
            0 <= j < parse_model(text, schema).len() && parse_model(text, schema)[j].key
                == schema[i].key ==> !parse_model(text, schema)[j].enabled,
{
    let pairs = file_pairs(text);
    let lines = lines_of(text);
    let pe = pair_entries(pairs, schema);
    let me = missing_entries(schema, pairs);
    assert forall|q: int| 0 <= q < pairs.len() implies pairs[q].0 != schema[i].key by {
        lemma_pair_from_line(lines, q);
        let l = choose|l: int| 0 <= l < lines.len() && parse_line(lines[l]) == Some(pairs[q]);
        assert(!sets_key(lines[l], schema[i].key));
    }
    lemma_missing_holds_row(schema, pairs, i);
    let j = choose|j: int| 0 <= j < me.len() && me[j] == disabled_model(schema[i]);
    assert(parse_model(text, schema)[pe.len() + j] == me[j]);
    lemma_missing_disabled(schema, pairs);
    assert forall|q: int|
        0 <= q < parse_model(text, schema).len() && parse_model(text, schema)[q].key
            == schema[i].key implies !parse_model(text, schema)[q].enabled by {
        if q >= pe.len() {
            assert(parse_model(text, schema)[q] == me[q - pe.len()]);
        } else {
            assert(parse_model(text, schema)[q] == pe[q]);
        }
    }
}

pub(crate) fn split_lines(chars: &Vec<char>) -> (r: Vec<Vec<char>>)
    ensures
        line_models(r@) == lines_of(chars@),
{
    let mut done: Vec<Vec<char>> = Vec::new();
    let mut cur: Vec<char> = Vec::new();
    let mut i: usize = 0;
    while i < chars.len()
        invariant
            i <= chars.len(),
            line_models(done@) == split_state(chars@.take(i as int)).0,
            cur@ == split_state(chars@.take(i as int)).1,
        decreases chars.len() - i,
    {
        assert(chars@.take(i + 1).drop_last() =~= chars@.take(i as int));
        let c = chars[i];
        if c == '\n' {
            let line = cur;
            cur = Vec::new();
            let ghost before = done@;
            done.push(line);
            assert(line_models(done@) =~= line_models(before).push(line@));
        } else {
            cur.push(c);
        }
        i = i + 1;
    }
    assert(chars@.take(chars.len() as int) =~= chars@);
    let ghost before = done@;
    done.push(cur);
    assert(line_models(done@) =~= line_models(before).push(cur@));
    done
}

pub(crate) fn parse_line_chars(line: &Vec<char>) -> (r: Option<(Vec<char>, Vec<char>)>)
    ensures
        match r {
            None => parse_line(line@) is None,
            Some(kv) => parse_line(line@) == Some((kv.0@, kv.1@)),
        },
{
    let t = trim_chars(line);
    if t.len() == 0 || t[0] == '#' {
        return None;
    }
    match find_char(&t, '=') {
        None => {
            let mut one: Vec<char> = Vec::new();
            one.push('1');
            assert(one@ =~= seq!['1']);
            Some((t, one))
        },
        Some(i) => {
            let left = slice_chars(&t, 0, i);
            assert(left@ =~= t@.take(i as int));
            let k = trim_chars(&left);
            if k.len() == 0 {
                return None;
            }
            let right = slice_chars(&t, i + 1, t.len());
            assert(right@ =~= t@.skip(i + 1));
            let v = trim_chars(&right);
            Some((k, v))
        },
    }
}

fn lookup_schema(schema: &Vec<ConfigSchema>, key: &String) -> (r: Option<ConfigSchema>)
    ensures
        schema_opt_model(r) == lookup(schema_models(schema@), key@),
{
    let ghost sm = schema_models(schema@);
    let mut i: usize = 0;
    assert(sm.skip(0) =~= sm);
    while i < schema.len()
        invariant
            i <= schema.len(),
            sm == schema_models(schema@),
            lookup(sm, key@) == lookup(sm.skip(i as int), key@),
        decreases schema.len() - i,
    {
        assert(sm.skip(i as int)[0] == schema@[i as int]@);
        if schema[i].key == *key {
            return Some(schema[i].duplicate());
        }
        assert(sm.skip(i as int).drop_first() =~= sm.skip(i + 1));
        i = i + 1;
    }
    None
}

fn has_key(entries: &Vec<ConfigEntry>, n: usize, key: &String) -> (r: bool)
    requires
        n <= entries.len(),
    ensures
        r == exists|q: int| 0 <= q < n && entries@[q].key@ == key@,
{
    let mut t: usize = 0;
    while t < n
        invariant
            t <= n <= entries.len(),
            forall|q: int| 0 <= q < t ==> entries@[q].key@ != key@,
        decreases n - t,
    {
        if entries[t].key == *key {
            return true;
        }
        t = t + 1;
    }
    false
}

/// Merges the text of a configuration file with `schema`: each line that holds a
/// pair gives an enabled entry, in file order, with the schema row of its key if
/// there is one; each row whose key no line sets gives a disabled entry with the
/// row's default. Empty text, as for a file that does not exist, gives the
/// defaults alone.
pub fn parse_with_schema(content: &str, schema: &Vec<ConfigSchema>) -> (r: Vec<ConfigEntry>)
    ensures
        entry_models(r@) == parse_model(content@, schema_models(schema@)),
{
    let chars = chars_of(content);
    let lines = split_lines(&chars);
    let ghost sm = schema_models(schema@);
    let ghost ls = line_models(lines@);
    let mut entries: Vec<ConfigEntry> = Vec::new();
    let mut i: usize = 0;
    while i < lines.len()
        invariant
            i <= lines.len(),
            ls == line_models(lines@),
            sm == schema_models(schema@),
            entry_models(entries@) == pair_entries(pairs_of(ls.take(i as int)), sm),
        decreases lines.len() - i,
    {
        assert(ls.take(i + 1).drop_last() =~= ls.take(i as int));
        assert(ls.take(i + 1).last() == lines@[i as int]@);
        let ghost before = entries@;
        match parse_line_chars(&lines[i]) {
            Some(kv) => {
                let key = string_of(&kv.0);
                let value = string_of(&kv.1);
                let s = lookup_schema(schema, &key);
                entries.push(ConfigEntry { key, value, schema: s, enabled: true });
                assert(entry_models(entries@) =~= entry_models(before).push(
                    entry_model((kv.0@, kv.1@), sm),
                ));
                assert(entry_models(entries@) =~= pair_entries(pairs_of(ls.take(i + 1)), sm));
            },
            None => {},
        }
        i = i + 1;
    }
    assert(ls.take(lines.len() as int) =~= ls);
    let ghost pairs = file_pairs(content@);
    let n = entries.len();
    let mut j: usize = 0;
    assert(sm.take(0) =~= Seq::<SchemaModel>::empty());
    assert(entry_models(entries@) =~= pair_entries(pairs, sm) + missing_entries(sm.take(0), pairs));
    while j < schema.len()
        invariant
            j <= schema.len(),
            n == pairs.len() <= entries.len(),
            sm == schema_models(schema@),
            pairs == file_pairs(content@),
            entry_models(entries@) == pair_entries(pairs, sm) + missing_entries(
                sm.take(j as int),
                pairs,
            ),
        decreases schema.len() - j,
    {
        assert(sm.take(j + 1).drop_last() =~= sm.take(j as int));
        assert(sm.take(j + 1).last() == schema@[j as int]@);
        assert forall|q: int| 0 <= q < n implies entries@[q].key@ == pairs[q].0 by {
            assert(entry_models(entries@)[q] == pair_entries(pairs, sm)[q]);
        }
        let found = has_key(&entries, n, &schema[j].key);
        proof {
            let k = schema@[j as int].key@;
            if key_found(pairs, k) {
                let q = choose|q: int| 0 <= q < pairs.len() && pairs[q].0 == k;
                assert(entries@[q].key@ == k);
            }
            if found {
                let q = choose|q: int| 0 <= q < n && entries@[q].key@ == k;
                assert(pairs[q].0 == k);
            }
        }
        if !found {
            let s = schema[j].duplicate();
            let ghost before = entries@;
            entries.push(
                ConfigEntry { key: s.key.clone(), value: s.default.clone(), schema: Some(s), enabled: false },
            );
            assert(entry_models(entries@) =~= entry_models(before).push(disabled_model(schema@[j as int]@)));
        }
        assert(entry_models(entries@) =~= pair_entries(pairs, sm) + missing_entries(
            sm.take(j + 1),
            pairs,
        ));
        j = j + 1;
    }
    assert(sm.take(schema.len() as int) =~= sm);
    entries
}

/// Parses the text of a `bitcoin.conf` file against the table of known keys.
pub fn parse_config(content: &str) -> (r: Vec<ConfigEntry>)
    ensures
        entry_models(r@) == parse_model(content@, default_schema_model()),
{
    let schema = get_default_schema();
    parse_with_schema(content, &schema)
}

} // verus!
