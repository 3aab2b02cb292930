//! Sections of a loaded configuration: grouping of entries, and the text written on save.
use crate::config::{
    file_pairs, lemma_missing_disabled, lines_of, missing_entries, pair_entries, pairs_of,
    parse_line, parse_model, split_state, ConfigEntry, EntryModel, SchemaModel,
};
use crate::text::{first_index, is_space, is_trimmed, lemma_first_index_at, trim, trim_end};
use crate::grouping::{group_by_bucket, is_bucketing, Bucketed};
use vstd::prelude::*;

verus! {

/// The entries shown under one name.
#[derive(Clone, Debug)]
pub struct ConfigSection {
    pub name: String,
    pub items: Vec<ConfigEntry>,
}

/// The section an entry is shown in: its schema's section, or `Custom` for an unknown key.
pub open spec fn section_of(e: EntryModel) -> Seq<char> {
    match e.schema {
        Some(s) => s.section,
        None => "Custom"@,
    }
}

impl Bucketed for ConfigEntry {
    open spec fn bucket_view(&self) -> Seq<char> {
        section_of(self@)
    }

    fn bucket_name(&self) -> (r: String) {
        match &self.schema {
            Some(s) => s.section.clone(),
            None => "Custom".to_owned(),
        }
    }
}

pub open spec fn section_groups(secs: Seq<ConfigSection>) -> Seq<(String, Vec<ConfigEntry>)> {
    secs.map_values(|s: ConfigSection| (s.name, s.items))
}

/// The entries grouped into sections, in ascending order of name.
pub fn group_entries(entries: Vec<ConfigEntry>) -> (r: Vec<ConfigSection>)
    ensures
        is_bucketing(section_groups(r@), entries@),
{
    let mut groups = group_by_bucket(entries);
    let ghost all = groups@;
    let n = groups.len();
    let mut out: Vec<ConfigSection> = Vec::new();
    let mut k: usize = 0;
    assert(all.skip(0) =~= all);
    while groups.len() > 0
        invariant
            k + groups.len() == n == all.len(),
            groups@ == all.skip(k as int),
            section_groups(out@) == all.take(k as int),
            out.len() == k,
        decreases groups.len(),
    {
        assert(groups@[0] == all[k as int]);
        let g = groups.remove(0);
        assert(groups@ =~= all.skip(k + 1));
        let ghost before = out@;
        out.push(ConfigSection { name: g.0, items: g.1 });
        assert forall|j: int| 0 <= j < k implies section_groups(out@)[j] == section_groups(before)[j] by {
            assert(out@[j] == before[j]);
        }
        assert(section_groups(out@)[k as int] == (g.0, g.1));
        assert(section_groups(out@) =~= all.take(k + 1));
        k = k + 1;
    }
    assert(all.take(n as int) =~= all);
    out
}

/// The comment line that opens a section.
pub open spec fn header_line(name: Seq<char>) -> Seq<char> {
    "# Section: "@ + name
}

/// The line of an entry.
pub open spec fn entry_line(e: ConfigEntry) -> Seq<char> {
    e.key@ + "="@ + e.value@
}

/// The lines of the enabled entries, in order.
pub open spec fn enabled_lines(items: Seq<ConfigEntry>) -> Seq<Seq<char>>
    decreases items.len(),
{
    if items.len() == 0 {
        Seq::empty()
    } else if items.last().enabled {
        enabled_lines(items.drop_last()).push(entry_line(items.last()))
    } else {
        enabled_lines(items.drop_last())
    }
}

pub open spec fn has_enabled(items: Seq<ConfigEntry>) -> bool {
    exists|j: int| 0 <= j < items.len() && items[j].enabled
}

/// The lines of a section: none where no entry is enabled; else the header, the
/// enabled entries, and a blank line.
pub open spec fn section_lines(s: ConfigSection) -> Seq<Seq<char>> {
    if has_enabled(s.items@) {
        seq![header_line(s.name@)] + enabled_lines(s.items@) + seq![Seq::<char>::empty()]
    } else {
        Seq::empty()
    }
}

pub open spec fn all_lines(secs: Seq<ConfigSection>) -> Seq<Seq<char>>
    decreases secs.len(),
{
    if secs.len() == 0 {
        Seq::empty()
    } else {
        all_lines(secs.drop_last()) + section_lines(secs.last())
    }
}

/// Each line followed by a newline.
pub open spec fn joined(lines: Seq<Seq<char>>) -> Seq<char>
    decreases lines.len(),
{
    if lines.len() == 0 {
        Seq::empty()
    } else {
        joined(lines.drop_last()) + lines.last() + seq!['\n']
    }
}

/// The text written on save.
pub open spec fn serialize_model(secs: Seq<ConfigSection>) -> Seq<char> {
    joined(all_lines(secs))
}

pub proof fn lemma_joined_append(a: Seq<Seq<char>>, b: Seq<Seq<char>>)
    ensures
        joined(a + b) == joined(a) + joined(b),
    decreases b.len(),
{
    if b.len() == 0 {
        assert(a + b =~= a);
        assert(joined(b) =~= Seq::<char>::empty());
        assert(joined(a) + joined(b) =~= joined(a));
    } else {
        assert((a + b).drop_last() =~= a + b.drop_last());
        lemma_joined_append(a, b.drop_last());
        assert(joined(a + b) =~= joined(a) + joined(b));
    }
}

fn any_enabled(items: &Vec<ConfigEntry>) -> (r: bool)
    ensures
        r == has_enabled(items@),
{
    let mut i: usize = 0;
    while i < items.len()
        invariant
            i <= items.len(),
            forall|j: int| 0 <= j < i ==> !items@[j].enabled,
        decreases items.len() - i,
    {
        if items[i].enabled {
            return true;
        }
        i = i + 1;
    }
    false
}

/// The text written on save: for each section with an enabled entry, a header
/// comment naming it, a `key=value` line per enabled entry, and a blank line.
pub fn serialize_sections(sections: &Vec<ConfigSection>) -> (r: String)
    ensures
        r@ == serialize_model(sections@),
{
    proof {
        reveal_strlit("\n");
        assert("\n"@ =~= seq!['\n']);
    }
    let mut content = String::new();
    let mut i: usize = 0;
    assert(sections@.take(0) =~= Seq::<ConfigSection>::empty());
    while i < sections.len()
        invariant
            i <= sections.len(),
            content@ == joined(all_lines(sections@.take(i as int))),
            "\n"@ == seq!['\n'],
        decreases sections.len() - i,
    {
        let ghost done = all_lines(sections@.take(i as int));
        assert(sections@.take(i + 1).drop_last() =~= sections@.take(i as int));
        let section = &sections[i];
        proof {
            lemma_joined_append(done, section_lines(*section));
        }
        if any_enabled(&section.items) {
            let ghost head = seq![header_line(section.name@)];
            content.append("# Section: ");
            content.append(section.name.as_str());
            content.append("\n");
            assert(joined(head) =~= header_line(section.name@) + seq!['\n']) by {
                assert(head.drop_last() =~= Seq::<Seq<char>>::empty());
                assert(head.last() == header_line(section.name@));
                assert(joined(head.drop_last()) =~= Seq::<char>::empty());
            }
            assert(content@ =~= joined(done) + joined(head));
            let items = &section.items;
            let mut j: usize = 0;
            assert(items@.take(0) =~= Seq::<ConfigEntry>::empty());
            assert(joined(enabled_lines(items@.take(0))) =~= Seq::<char>::empty());
            assert(content@ =~= joined(done) + joined(head) + joined(
                enabled_lines(items@.take(0)),
            ));
            while j < items.len()
                invariant
                    j <= items.len(),
                    items == &section.items,
                    "\n"@ == seq!['\n'],
                    content@ == joined(done) + joined(head) + joined(
                        enabled_lines(items@.take(j as int)),
                    ),
                decreases items.len() - j,
            {
                assert(items@.take(j + 1).drop_last() =~= items@.take(j as int));
                let e = &items[j];
                if e.enabled {
                    let ghost prev = enabled_lines(items@.take(j as int));
                    content.append(e.key.as_str());
                    content.append("=");
                    content.append(e.value.as_str());
                    content.append("\n");
                    assert(enabled_lines(items@.take(j + 1)) == prev.push(entry_line(*e)));
                    assert(prev.push(entry_line(*e)).drop_last() =~= prev);
                    assert(joined(prev.push(entry_line(*e))) == joined(prev) + entry_line(*e)
                        + seq!['\n']);
                    assert(content@ =~= joined(done) + joined(head) + joined(
                        enabled_lines(items@.take(j + 1)),
                    ));
                }
                j = j + 1;
            }
            assert(items@.take(items.len() as int) =~= items@);
            content.append("\n");
            proof {
                let body = enabled_lines(items@);
                let blank = seq![Seq::<char>::empty()];
                lemma_joined_append(head, body);
                lemma_joined_append(head + body, blank);
                assert(joined(blank) =~= seq!['\n']) by {
                    assert(blank.drop_last() =~= Seq::<Seq<char>>::empty());
                }
                assert(section_lines(*section) == head + body + blank);
            }
            assert(content@ =~= joined(all_lines(sections@.take(i + 1))));
        } else {
            assert(section_lines(*section) =~= Seq::<Seq<char>>::empty());
            assert(done + section_lines(*section) =~= done);
        }
        i = i + 1;
    }
    assert(sections@.take(sections.len() as int) =~= sections@);
    content
}

/// A key that reads back as itself from its line: not empty, no white space at
/// either end, not opening a comment, and holding neither `=` nor a newline.
pub open spec fn savable_key(k: Seq<char>) -> bool {
    &&& k.len() > 0
    &&& is_trimmed(k)
    &&& k[0] != '#'
    &&& forall|i: int| 0 <= i < k.len() ==> k[i] != '=' && k[i] != '\n'
}

/// A value that reads back as itself: no white space at either end, no newline.
pub open spec fn savable_value(v: Seq<char>) -> bool {
    &&& is_trimmed(v)
    &&& forall|i: int| 0 <= i < v.len() ==> v[i] != '\n'
}

/// A section whose text reads back as the same pairs: a name without newlines,
/// and a savable key and value in every enabled entry.
pub open spec fn savable_section(s: ConfigSection) -> bool {
    &&& no_newline(s.name@)
    &&& forall|j: int|
        0 <= j < s.items@.len() && (#[trigger] s.items@[j]).enabled ==> savable_key(s.items@[j].key@)
            && savable_value(s.items@[j].value@)
}

/// Every section is savable.
pub open spec fn savable(secs: Seq<ConfigSection>) -> bool {
    forall|i: int| 0 <= i < secs.len() ==> savable_section(#[trigger] secs[i])
}

/// The `(key, value)` pairs of the enabled entries of the sections.
pub open spec fn enabled_pairs(secs: Seq<ConfigSection>) -> Set<(Seq<char>, Seq<char>)> {
    Set::new(
        |kv: (Seq<char>, Seq<char>)|
            exists|i: int, j: int|
                0 <= i < secs.len() && 0 <= j < secs[i].items@.len() && (#[trigger] secs[i].items@[j]).enabled
                    && kv == (secs[i].items@[j].key@, secs[i].items@[j].value@),
    )
}

/// The `(key, value)` pairs of the enabled entries among `es`.
pub open spec fn enabled_entry_pairs(es: Seq<EntryModel>) -> Set<(Seq<char>, Seq<char>)> {
    Set::new(
        |kv: (Seq<char>, Seq<char>)|
            exists|j: int| 0 <= j < es.len() && (#[trigger] es[j]).enabled && kv == (es[j].key, es[j].value),
    )
}

pub open spec fn item_pairs(items: Seq<ConfigEntry>) -> Seq<(Seq<char>, Seq<char>)>
    decreases items.len(),
{
    if items.len() == 0 {
        Seq::empty()
    } else if items.last().enabled {
        item_pairs(items.drop_last()).push((items.last().key@, items.last().value@))
    } else {
        item_pairs(items.drop_last())
    }
}

pub open spec fn section_pairs(secs: Seq<ConfigSection>) -> Seq<(Seq<char>, Seq<char>)>
    decreases secs.len(),
{
    if secs.len() == 0 {
        Seq::empty()
    } else {
        section_pairs(secs.drop_last()) + item_pairs(secs.last().items@)
    }
}

pub open spec fn no_newline(s: Seq<char>) -> bool {
    forall|i: int| 0 <= i < s.len() ==> s[i] != '\n'
}

proof fn lemma_split_plain(s: Seq<char>, l: Seq<char>)
    requires
        no_newline(l),
    ensures
        split_state(s + l) == (split_state(s).0, split_state(s).1 + l),
    decreases l.len(),
{
    if l.len() == 0 {
        assert(s + l =~= s);
        assert(split_state(s).1 + l =~= split_state(s).1);
    } else {
        assert((s + l).drop_last() =~= s + l.drop_last());
        lemma_split_plain(s, l.drop_last());
        assert(split_state(s).1 + l =~= (split_state(s).1 + l.drop_last()).push(l.last()));
    }
}

proof fn lemma_lines_of_joined(lines: Seq<Seq<char>>)
    requires
        forall|i: int| 0 <= i < lines.len() ==> no_newline(#[trigger] lines[i]),
    ensures
        split_state(joined(lines)) == (lines, Seq::<char>::empty()),
    decreases lines.len(),
{
    if lines.len() > 0 {
        let prev = joined(lines.drop_last());
        lemma_lines_of_joined(lines.drop_last());
        lemma_split_plain(prev, lines.last());
        assert((prev + lines.last() + seq!['\n']).drop_last() =~= prev + lines.last());
        assert(Seq::<char>::empty() + lines.last() =~= lines.last());
        assert(lines.drop_last().push(lines.last()) =~= lines);
    } else {
        assert(joined(lines) =~= Seq::<char>::empty());
    }
}

proof fn lemma_pairs_of_append(a: Seq<Seq<char>>, b: Seq<Seq<char>>)
    ensures
        pairs_of(a + b) == pairs_of(a) + pairs_of(b),
    decreases b.len(),
{
    if b.len() == 0 {
        assert(a + b =~= a);
        assert(pairs_of(a) + pairs_of(b) =~= pairs_of(a));
    } else {
        assert((a + b).drop_last() =~= a + b.drop_last());
        lemma_pairs_of_append(a, b.drop_last());
        match parse_line(b.last()) {
            Some(kv) => {
                assert(pairs_of(a) + pairs_of(b) =~= (pairs_of(a) + pairs_of(b.drop_last())).push(kv));
            },
            None => {},
        }
    }
}

proof fn lemma_pairs_of_single(l: Seq<char>)
    ensures
        pairs_of(seq![l]) == match parse_line(l) {
            Some(kv) => seq![kv],
            None => Seq::empty(),
        },
{
    assert(seq![l].drop_last() =~= Seq::<Seq<char>>::empty());
    assert(seq![l].last() == l);
    assert(pairs_of(Seq::<Seq<char>>::empty()) =~= Seq::<(Seq<char>, Seq<char>)>::empty());
    match parse_line(l) {
        Some(kv) => {
            assert(Seq::<(Seq<char>, Seq<char>)>::empty().push(kv) =~= seq![kv]);
        },
        None => {},
    }
}

proof fn lemma_trim_end_keeps_first(s: Seq<char>)
    requires
        s.len() > 0,
        !is_space(s[0]),
    ensures
        trim_end(s).len() > 0,
        trim_end(s)[0] == s[0],
    decreases s.len(),
{
    if is_space(s.last()) {
        assert(s.len() > 1);
        lemma_trim_end_keeps_first(s.drop_last());
    }
}

proof fn lemma_header_skipped(name: Seq<char>)
    ensures
        parse_line(header_line(name)) is None,
{
    reveal_strlit("# Section: ");
    let h = header_line(name);
    assert(h[0] == '#');
    assert(!is_space('#'));
    lemma_trim_end_keeps_first(h);
}

proof fn lemma_entry_line_read(e: ConfigEntry)
    requires
        savable_key(e.key@),
        savable_value(e.value@),
    ensures
        parse_line(entry_line(e)) == Some((e.key@, e.value@)),
{
    reveal_strlit("=");
    let k = e.key@;
    let v = e.value@;
    let l = entry_line(e);
    assert(l =~= k + seq!['='] + v);
    assert(l[0] == k[0]);
    assert(!is_space('='));
    if v.len() > 0 {
        assert(l.last() == v.last());
    } else {
        assert(l.last() == '=');
    }
    assert(trim(l) == l);
    assert(l[k.len() as int] == '=');
    lemma_first_index_at(l, '=', k.len() as int);
    assert(l.take(k.len() as int) =~= k);
    assert(l.skip(k.len() as int + 1) =~= v);
    assert(trim(k) == k);
    assert(trim(v) == v);
}

proof fn lemma_blank_skipped()
    ensures
        parse_line(Seq::<char>::empty()) is None,
{
    assert(trim(Seq::<char>::empty()) =~= Seq::<char>::empty());
}

proof fn lemma_enabled_lines_read(items: Seq<ConfigEntry>)
    requires
        forall|j: int|
            0 <= j < items.len() && (#[trigger] items[j]).enabled ==> savable_key(items[j].key@)
                && savable_value(items[j].value@),
    ensures
        pairs_of(enabled_lines(items)) == item_pairs(items),
        forall|i: int|
            0 <= i < enabled_lines(items).len() ==> no_newline(#[trigger] enabled_lines(items)[i]),
    decreases items.len(),
{
    if items.len() > 0 {
        let e = items.last();
        lemma_enabled_lines_read(items.drop_last());
        if e.enabled {
            let prev = enabled_lines(items.drop_last());
            lemma_entry_line_read(e);
            assert(enabled_lines(items).drop_last() =~= prev);
            reveal_strlit("=");
            assert(entry_line(e) =~= e.key@ + seq!['='] + e.value@);
            assert(no_newline(entry_line(e)));
        }
    }
}

proof fn lemma_no_enabled(items: Seq<ConfigEntry>)
    requires
        !has_enabled(items),
    ensures
        item_pairs(items) == Seq::<(Seq<char>, Seq<char>)>::empty(),
    decreases items.len(),
{
    if items.len() > 0 {
        lemma_no_enabled(items.drop_last());
    }
}

proof fn lemma_section_read(s: ConfigSection)
    requires
        savable_section(s),
    ensures
        pairs_of(section_lines(s)) == item_pairs(s.items@),
        forall|i: int|
            0 <= i < section_lines(s).len() ==> no_newline(#[trigger] section_lines(s)[i]),
{
    if has_enabled(s.items@) {
        let head = seq![header_line(s.name@)];
        let body = enabled_lines(s.items@);
        let blank = seq![Seq::<char>::empty()];
        lemma_enabled_lines_read(s.items@);
        lemma_pairs_of_append(head + body, blank);
        lemma_pairs_of_append(head, body);
        lemma_pairs_of_single(header_line(s.name@));
        lemma_header_skipped(s.name@);
        lemma_pairs_of_single(Seq::<char>::empty());
        lemma_blank_skipped();
        assert(pairs_of(section_lines(s)) =~= item_pairs(s.items@));
        reveal_strlit("# Section: ");
        assert(no_newline(header_line(s.name@))) by {
            assert forall|c: int| 0 <= c < header_line(s.name@).len() implies header_line(
                s.name@,
            )[c] != '\n' by {
                if c >= "# Section: "@.len() {
                    assert(header_line(s.name@)[c] == s.name@[c - "# Section: "@.len()]);
                }
            }
        }
        assert forall|i: int| 0 <= i < section_lines(s).len() implies no_newline(
            #[trigger] section_lines(s)[i],
        ) by {
            if i == 0 {
                assert(section_lines(s)[i] == header_line(s.name@));
            } else if i < 1 + body.len() {
                assert(section_lines(s)[i] == body[i - 1]);
            } else {
                assert(section_lines(s)[i] == Seq::<char>::empty());
            }
        }
    } else {
        lemma_no_enabled(s.items@);
        assert(pairs_of(Seq::<Seq<char>>::empty()) =~= Seq::<(Seq<char>, Seq<char>)>::empty());
    }
}

proof fn lemma_all_lines_read(secs: Seq<ConfigSection>)
    requires
        savable(secs),
    ensures
        pairs_of(all_lines(secs)) == section_pairs(secs),
        forall|i: int| 0 <= i < all_lines(secs).len() ==> no_newline(#[trigger] all_lines(secs)[i]),
    decreases secs.len(),
{
    if secs.len() > 0 {
        let prev = all_lines(secs.drop_last());
        let last = secs.last();
        assert(savable(secs.drop_last())) by {
            assert forall|i: int| 0 <= i < secs.drop_last().len() implies #[trigger] secs.drop_last()[i]
                == secs[i] by {}
        }
        lemma_all_lines_read(secs.drop_last());
        assert(savable_section(secs[secs.len() - 1]));
        lemma_section_read(last);
        lemma_pairs_of_append(prev, section_lines(last));
        assert forall|i: int| 0 <= i < all_lines(secs).len() implies no_newline(
            #[trigger] all_lines(secs)[i],
        ) by {
            if i < prev.len() {
                assert(all_lines(secs)[i] == prev[i]);
            } else {
                assert(all_lines(secs)[i] == section_lines(last)[i - prev.len()]);
            }
        }
    } else {
        assert(pairs_of(Seq::<Seq<char>>::empty()) =~= Seq::<(Seq<char>, Seq<char>)>::empty());
    }
}

proof fn lemma_item_pairs_member(items: Seq<ConfigEntry>, kv: (Seq<char>, Seq<char>))
    ensures
        item_pairs(items).contains(kv) <==> exists|j: int|
            0 <= j < items.len() && (#[trigger] items[j]).enabled && kv == (
                items[j].key@,
                items[j].value@,
            ),
    decreases items.len(),
{
    if items.len() > 0 {
        let d = items.drop_last();
        lemma_item_pairs_member(d, kv);
        if item_pairs(items).contains(kv) {
            let p = choose|p: int| 0 <= p < item_pairs(items).len() && item_pairs(items)[p] == kv;
            if p < item_pairs(d).len() {
                assert(item_pairs(d)[p] == kv);
                let j = choose|j: int| 0 <= j < d.len() && (#[trigger] d[j]).enabled && kv == (d[j].key@, d[j].value@);
                assert(items[j] == d[j]);
            } else {
                assert(items[items.len() - 1].enabled);
            }
        }
        if exists|j: int|
            0 <= j < items.len() && (#[trigger] items[j]).enabled && kv == (items[j].key@, items[j].value@) {
            let j = choose|j: int|
                0 <= j < items.len() && (#[trigger] items[j]).enabled && kv == (items[j].key@, items[j].value@);
            if j < d.len() {
                assert(d[j] == items[j]);
                let p = choose|p: int| 0 <= p < item_pairs(d).len() && item_pairs(d)[p] == kv;
                assert(item_pairs(items)[p] == kv);
            } else {
                assert(item_pairs(items)[item_pairs(d).len() as int] == kv);
            }
        }
    }
}

proof fn lemma_section_pairs_member(secs: Seq<ConfigSection>, kv: (Seq<char>, Seq<char>))
    ensures
        section_pairs(secs).contains(kv) <==> enabled_pairs(secs).contains(kv),
    decreases secs.len(),
{
    if secs.len() > 0 {
        let d = secs.drop_last();
        let last = secs.last();
        let a = section_pairs(d);
        let b = item_pairs(last.items@);
        lemma_section_pairs_member(d, kv);
        lemma_item_pairs_member(last.items@, kv);
        if section_pairs(secs).contains(kv) {
            let p = choose|p: int| 0 <= p < section_pairs(secs).len() && section_pairs(secs)[p] == kv;
            if p < a.len() {
                assert(a[p] == kv);
                let (i, j) = choose|i: int, j: int|
                    0 <= i < d.len() && 0 <= j < d[i].items@.len() && (#[trigger] d[i].items@[j]).enabled
                        && kv == (d[i].items@[j].key@, d[i].items@[j].value@);
                assert(secs[i] == d[i]);
                assert(secs[i].items@[j].enabled);
            } else {
                assert(b[p - a.len()] == kv);
                let j = choose|j: int|
                    0 <= j < last.items@.len() && (#[trigger] last.items@[j]).enabled && kv == (
                        last.items@[j].key@,
                        last.items@[j].value@,
                    );
                assert(secs[secs.len() - 1].items@[j].enabled);
            }
        }
        if enabled_pairs(secs).contains(kv) {
            let (i, j) = choose|i: int, j: int|
                0 <= i < secs.len() && 0 <= j < secs[i].items@.len() && (#[trigger] secs[i].items@[j]).enabled
                    && kv == (secs[i].items@[j].key@, secs[i].items@[j].value@);
            if i < d.len() {
                assert(d[i] == secs[i]);
                assert(d[i].items@[j].enabled);
                assert(enabled_pairs(d).contains(kv));
                let p = choose|p: int| 0 <= p < a.len() && a[p] == kv;
                assert(section_pairs(secs)[p] == kv);
            } else {
                assert(last.items@[j].enabled);
                let p = choose|p: int| 0 <= p < b.len() && b[p] == kv;
                assert(section_pairs(secs)[a.len() + p] == kv);
            }
        }
    }
}

/// Saving sections and reading the text back gives the same set of enabled
/// `(key, value)` pairs, for sections whose names hold no newline and whose enabled
/// entries have savable keys and values.
pub proof fn lemma_round_trip(secs: Seq<ConfigSection>, schema: Seq<SchemaModel>)
    requires
        savable(secs),
    ensures
        enabled_entry_pairs(parse_model(serialize_model(secs), schema)) == enabled_pairs(secs),
{
    let lines = all_lines(secs);
    lemma_all_lines_read(secs);
    lemma_lines_of_joined(lines);
    let text = serialize_model(secs);
    assert(lines_of(text) == lines.push(Seq::<char>::empty()));
    lemma_pairs_of_append(lines, seq![Seq::<char>::empty()]);
    lemma_pairs_of_single(Seq::<char>::empty());
    lemma_blank_skipped();
    assert(lines.push(Seq::<char>::empty()) =~= lines + seq![Seq::<char>::empty()]);
    let pairs = file_pairs(text);
    assert(pairs =~= section_pairs(secs));
    let es = parse_model(text, schema);
    let pe = pair_entries(pairs, schema);
    let me = missing_entries(schema, pairs);
    lemma_missing_disabled(schema, pairs);
    assert forall|kv: (Seq<char>, Seq<char>)| enabled_entry_pairs(es).contains(kv) <==> enabled_pairs(
        secs,
    ).contains(kv) by {
        lemma_section_pairs_member(secs, kv);
        if enabled_entry_pairs(es).contains(kv) {
            let j = choose|j: int| 0 <= j < es.len() && (#[trigger] es[j]).enabled && kv == (es[j].key, es[j].value);
            if j >= pe.len() {
                assert(es[j] == me[j - pe.len()]);
            } else {
                assert(es[j] == pe[j]);
                assert(pairs[j] == kv);
            }
        }
        if section_pairs(secs).contains(kv) {
            let p = choose|p: int| 0 <= p < pairs.len() && pairs[p] == kv;
            assert(es[p] == pe[p]);
        }
    }
    assert(enabled_entry_pairs(es) =~= enabled_pairs(secs));
}

} // verus!
