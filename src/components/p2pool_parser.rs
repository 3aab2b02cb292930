//! The `p2pool.conf` reader, which sorts keys into buckets by how they are named.
use crate::config::{line_models, lines_of, split_lines};
use crate::grouping::{group_by_bucket, is_bucketing, Bucketed};
use crate::text::{
    chars_of, contains_chars, contains_seq, find_char, first_index, occurs_at_index, slice_chars,
    starts_with, string_of, trim, trim_chars,
};
use vstd::prelude::*;

verus! {

/// One `key=value` line.
#[derive(Clone, Debug, PartialEq)]
pub struct ConfigField {
    pub key: String,
    pub value: String,
}

/// The fields of one bucket, under its title.
#[derive(Clone, Debug, PartialEq)]
pub struct ConfigSection {
    pub title: String,
    pub fields: Vec<ConfigField>,
}

/// The bucket of a key; the first rule that matches wins.
pub open spec fn bucket_of(key: Seq<char>) -> Seq<char> {
    if contains_seq(key, "user"@) || contains_seq(key, "pass"@) || contains_seq(key, "auth"@) {
        "Authentication"@
    } else if starts_with(key, "bitcoind"@) {
        "Bitcoin Node"@
    } else if contains_seq(key, "port"@) || contains_seq(key, "address"@) || contains_seq(
        key,
        "listen"@,
    ) {
        "Network"@
    } else if contains_seq(key, "payout"@) || contains_seq(key, "wallet"@) {
        "Payouts"@
    } else {
        "General Settings"@
    }
}

/// The bucket that a key is shown in.
pub fn classify_key(key: &str) -> (r: String)
    ensures
        r@ == bucket_of(key@),
{
    let k = chars_of(key);
    if contains_chars(&k, &chars_of("user")) || contains_chars(&k, &chars_of("pass"))
        || contains_chars(&k, &chars_of("auth")) {
        "Authentication".to_owned()
    } else if occurs_at_index(&k, &chars_of("bitcoind"), 0) {
        "Bitcoin Node".to_owned()
    } else if contains_chars(&k, &chars_of("port")) || contains_chars(&k, &chars_of("address"))
        || contains_chars(&k, &chars_of("listen")) {
        "Network".to_owned()
    } else if contains_chars(&k, &chars_of("payout")) || contains_chars(&k, &chars_of("wallet")) {
        "Payouts".to_owned()
    } else {
        "General Settings".to_owned()
    }
}

impl Bucketed for ConfigField {
    open spec fn bucket_view(&self) -> Seq<char> {
        bucket_of(self.key@)
    }

    fn bucket_name(&self) -> (r: String) {
        classify_key(self.key.as_str())
    }
}

/// What one line holds: nothing for a blank line, a comment or a line without
/// `=`; else the trimmed key and value on either side of the first `=`.
pub open spec fn field_of_line(line: Seq<char>) -> Option<(Seq<char>, Seq<char>)> {
    let t = trim(line);
    if t.len() == 0 || t[0] == '#' {
        None
    } else {
        let i = first_index(t, '=');
        if i < 0 {
            None
        } else {
            Some((trim(t.take(i)), trim(t.skip(i + 1))))
        }
    }
}

/// The `(key, value)` pairs of `lines`, in order.
pub open spec fn fields_of_lines(lines: Seq<Seq<char>>) -> Seq<(Seq<char>, Seq<char>)>
    decreases lines.len(),
{
    if lines.len() == 0 {
        Seq::empty()
    } else {
        let p = fields_of_lines(lines.drop_last());
        match field_of_line(lines.last()) {
            Some(kv) => p.push(kv),
            None => p,
        }
    }
}

pub open spec fn field_models(fs: Seq<ConfigField>) -> Seq<(Seq<char>, Seq<char>)> {
    fs.map_values(|f: ConfigField| (f.key@, f.value@))
}

pub open spec fn section_groups(secs: Seq<ConfigSection>) -> Seq<(String, Vec<ConfigField>)> {
    secs.map_values(|s: ConfigSection| (s.title, s.fields))
}

fn field_of_line_chars(line: &Vec<char>) -> (r: Option<ConfigField>)
    ensures
        match r {
            None => field_of_line(line@) is None,
            Some(f) => field_of_line(line@) == Some((f.key@, f.value@)),
        },
{
    let t = trim_chars(line);
    if t.len() == 0 || t[0] == '#' {
        return None;
    }
    match find_char(&t, '=') {
        None => None,
        Some(i) => {
            let left = slice_chars(&t, 0, i);
            assert(left@ =~= t@.take(i as int));
            let right = slice_chars(&t, i + 1, t.len());
            assert(right@ =~= t@.skip(i + 1));
            let k = trim_chars(&left);
            let v = trim_chars(&right);
            Some(ConfigField { key: string_of(&k), value: string_of(&v) })
        },
    }
}

/// The fields of a `p2pool.conf` text, in file order.
pub fn parse_p2pool_fields(content: &str) -> (r: Vec<ConfigField>)
    ensures
        field_models(r@) == fields_of_lines(lines_of(content@)),
{
    let chars = chars_of(content);
    let lines = split_lines(&chars);
    let ghost ls = line_models(lines@);
    let mut fields: Vec<ConfigField> = Vec::new();
    let mut i: usize = 0;
    while i < lines.len()
        invariant
            i <= lines.len(),
            ls == line_models(lines@),
            field_models(fields@) == fields_of_lines(ls.take(i as int)),
        decreases lines.len() - i,
    {
        assert(ls.take(i + 1).drop_last() =~= ls.take(i as int));
        assert(ls.take(i + 1).last() == lines@[i as int]@);
        let ghost before = fields@;
        match field_of_line_chars(&lines[i]) {
            Some(f) => {
                fields.push(f);
                assert(field_models(fields@) =~= field_models(before).push((f.key@, f.value@)));
            },
            None => {},
        }
        i = i + 1;
    }
    assert(ls.take(lines.len() as int) =~= ls);
    fields
}

/// The fields grouped into buckets, the buckets in ascending order of title.
pub fn group_fields(fields: Vec<ConfigField>) -> (r: Vec<ConfigSection>)
    ensures
        is_bucketing(section_groups(r@), fields@),
{
    let mut groups = group_by_bucket(fields);
    let ghost all = groups@;
    let n = groups.len();
    let mut out: Vec<ConfigSection> = Vec::new();
    let mut k: usize = 0;
    assert(all.skip(0) =~= all);
    while groups.len() > 0
        invariant
            k + groups.len() == n == all.len(),
            groups@ == all.skip(k as int),
            section_groups(out@) == all.take(k as int),
            out.len() == k,
        decreases groups.len(),
    {
        assert(groups@[0] == all[k as int]);
        let g = groups.remove(0);
        assert(groups@ =~= all.skip(k + 1));
        let ghost before = out@;
        out.push(ConfigSection { title: g.0, fields: g.1 });
        assert(out@ == before.push(ConfigSection { title: g.0, fields: g.1 }));
        assert forall|j: int| 0 <= j < k implies section_groups(out@)[j] == section_groups(before)[j] by {
            assert(out@[j] == before[j]);
        }
        assert(section_groups(out@)[k as int] == (g.0, g.1));
        assert(section_groups(out@) =~= all.take(k + 1));
        k = k + 1;
    }
    assert(all.take(n as int) =~= all);
    out
}

/// Reads a `p2pool.conf` text into buckets: each line with a `=` gives a field,
/// whose key decides its bucket; the buckets come in ascending order of title.
pub fn parse_p2pool_config(content: &str) -> (r: Vec<ConfigSection>)
    ensures
        exists|fs: Seq<ConfigField>|
            field_models(fs) == fields_of_lines(lines_of(content@)) && is_bucketing(
                section_groups(r@),
                fs,
            ),
{
    let fields = parse_p2pool_fields(content);
    let ghost fs = fields@;
    let r = group_fields(fields);
    assert(field_models(fs) == fields_of_lines(lines_of(content@)) && is_bucketing(
        section_groups(r@),
        fs,
    ));
    r
}

} // verus!
