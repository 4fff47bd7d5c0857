//! The pure decisions of the content loader: heading canonicalisation, list
//! markers, metadata weights, and section lookup.
//!
//! Reading the files, the strict-block grammar and the document walk stay
//! with the caller; sections and metadata arrive here as plain key-value
//! lists with unique keys.

use vstd::prelude::*;
use vstd::string::{StrSliceExecFns, StringExecFns};

use crate::text::{
    is_digit_char, is_u32_text, lower_seq, parse_u32, starts_with_seq, starts_with_str, str_eq,
    to_lowercase_str, trim_spec, trim_str, u32_text_value,
};

verus! {

/// The canonical form of a section heading: trimmed, ASCII lower case.
pub fn canonical_heading(h: &str) -> (r: String)
    ensures
        r@ == lower_seq(trim_spec(h@)),
{
    let trimmed = trim_str(h);
    to_lowercase_str(trimmed.as_str())
}

/// How many decimal digits the text begins with.
pub open spec fn leading_digits(s: Seq<char>) -> int
    decreases s.len(),
{
    if s.len() > 0 && is_digit_char(s[0]) {
        1 + leading_digits(s.skip(1))
    } else {
        0
    }
}

proof fn lemma_leading_digits_at(s: Seq<char>, q: int)
    requires
        0 <= q <= s.len(),
        forall|p: int| 0 <= p < q ==> is_digit_char(s[p]),
        q < s.len() ==> !is_digit_char(s[q]),
    ensures
        leading_digits(s) == q,
    decreases q,
{
    if s.len() > 0 && is_digit_char(s[0]) {
        let t = s.skip(1);
        assert(forall|p: int| 0 <= p < q - 1 ==> t[p] == s[p + 1]);
        lemma_leading_digits_at(t, q - 1);
    }
}

/// The text of a list item: what follows `- `, or a digit run with `) ` or
/// `. `, trimmed; `None` for lines that are no list items.
pub open spec fn strip_list_prefix_spec(line: Seq<char>) -> Option<Seq<char>> {
    if starts_with_seq(line, "- "@) {
        Some(trim_spec(line.skip(2)))
    } else {
        let digits = leading_digits(line);
        if digits > 0 {
            let rest = line.skip(digits);
            if starts_with_seq(rest, ") "@) {
                Some(trim_spec(rest.skip(2)))
            } else if starts_with_seq(rest, ". "@) {
                Some(trim_spec(rest.skip(2)))
            } else {
                None
            }
        } else {
            None
        }
    }
}

/// Extracts the text of a list item, bullet or numbered.
pub fn strip_list_prefix(line: &str) -> (r: Option<String>)
    ensures
        ({
            let s = strip_list_prefix_spec(line@);
            match r {
                Some(v) => s == Some(v@),
                None => s is None,
            }
        }),
{
    let n = line.unicode_len();
    if starts_with_str(line, "- ") {
        proof {
            reveal_strlit("- ");
            assert(line@.subrange(2, n as int) =~= line@.skip(2));
        }
        let rest = line.substring_char(2, n);
        return Some(trim_str(rest));
    }

    let mut digits: usize = 0;
    while digits < n && is_ascii_digit(line.get_char(digits))
        invariant
            0 <= digits <= n,
            n == line@.len(),
            forall|p: int| 0 <= p < digits ==> is_digit_char(line@[p]),
        decreases n - digits,
    {
        digits += 1;
    }
    proof {
        lemma_leading_digits_at(line@, digits as int);
    }

    if digits > 0 {
        let rest = line.substring_char(digits, n);
        proof {
            assert(rest@ =~= line@.skip(digits as int));
        }
        let m = rest.unicode_len();
        if starts_with_str(rest, ") ") || starts_with_str(rest, ". ") {
            proof {
                reveal_strlit(") ");
                reveal_strlit(". ");
                assert(rest@.subrange(2, m as int) =~= rest@.skip(2));
            }
            let value = rest.substring_char(2, m);
            return Some(trim_str(value));
        }
        return None;
    }
    None
}

fn is_ascii_digit(c: char) -> (b: bool)
    ensures
        b == is_digit_char(c),
{
    let code = c as u32;
    0x30 <= code && code <= 0x39
}

/// The first value stored under `key`; keys are unique.
pub open spec fn lookup_text(entries: Seq<(Seq<char>, Seq<char>)>, key: Seq<char>) -> Option<
    Seq<char>,
>
    decreases entries.len(),
{
    if entries.len() == 0 {
        None
    } else if entries[0].0 == key {
        Some(entries[0].1)
    } else {
        lookup_text(entries.skip(1), key)
    }
}

proof fn lemma_lookup_text_at(entries: Seq<(Seq<char>, Seq<char>)>, key: Seq<char>, q: int)
    requires
        0 <= q <= entries.len(),
        forall|p: int| 0 <= p < q ==> (#[trigger] entries[p]).0 != key,
        q < entries.len() ==> entries[q].0 == key,
    ensures
        q < entries.len() ==> lookup_text(entries, key) == Some(entries[q].1),
        q == entries.len() ==> lookup_text(entries, key) is None,
    decreases q,
{
    if entries.len() > 0 && entries[0].0 != key {
        let t = entries.skip(1);
        assert(forall|p: int| 0 <= p < q - 1 ==> #[trigger] t[p] == entries[p + 1]);
        lemma_lookup_text_at(t, key, q - 1);
    }
}

/// Looks a metadata key up in the parsed front matter.
fn meta_get<'a>(meta: &'a Vec<(String, String)>, key: &str) -> (r: Option<&'a String>)
    ensures
        ({
            let s = lookup_text(meta.deep_view(), key@);
            match r {
                Some(v) => s == Some(v@),
                None => s is None,
            }
        }),
{
    let n = meta.len();
    let mut i: usize = 0;
    while i < n
        invariant
            0 <= i <= n,
            n == meta@.len(),
            meta.deep_view().len() == meta@.len(),
            forall|j: int| 0 <= j < meta@.len() ==> #[trigger] meta.deep_view()[j] == (
            meta@[j].0@,
            meta@[j].1@,
            ),
            forall|j: int| 0 <= j < i ==> (#[trigger] meta.deep_view()[j]).0 != key@,
        decreases n - i,
    {
        if str_eq(meta[i].0.as_str(), key) {
            proof {
                lemma_lookup_text_at(meta.deep_view(), key@, i as int);
            }
            return Some(&meta[i].1);
        }
        i += 1;
    }
    proof {
        lemma_lookup_text_at(meta.deep_view(), key@, n as int);
    }
    None
}

/// The readiness weight the step type implies.
pub open spec fn type_weight_spec(meta: Seq<(Seq<char>, Seq<char>)>) -> u32 {
    match lookup_text(meta, "type"@) {
        Some(t) => if t == "project"@ {
            3u32
        } else if t == "bug"@ {
            2u32
        } else if t == "exam"@ {
            4u32
        } else {
            1u32
        },
        None => 1u32,
    }
}

/// The readiness weight for a step's metadata: an explicit `ready_weight`
/// (at least 1) wins; otherwise the step type decides.
pub open spec fn weight_from_type_spec(meta: Seq<(Seq<char>, Seq<char>)>) -> u32 {
    match lookup_text(meta, "ready_weight"@) {
        Some(raw) => if is_u32_text(raw) {
            if u32_text_value(raw) >= 1 {
                u32_text_value(raw)
            } else {
                1u32
            }
        } else {
            type_weight_spec(meta)
        },
        None => type_weight_spec(meta),
    }
}

/// Reads the readiness weight out of a step's metadata.
pub fn weight_from_type(meta: &Vec<(String, String)>) -> (r: u32)
    ensures
        r == weight_from_type_spec(meta.deep_view()),
{
    if let Some(raw) = meta_get(meta, "ready_weight") {
        if let Some(v) = parse_u32(raw.as_str()) {
            return if v >= 1 {
                v
            } else {
                1
            };
        }
    }
    match meta_get(meta, "type") {
        Some(t) => {
            if str_eq(t.as_str(), "project") {
                3
            } else if str_eq(t.as_str(), "bug") {
                2
            } else if str_eq(t.as_str(), "exam") {
                4
            } else {
                1
            }
        },
        None => 1,
    }
}

/// The first value stored under `key` in the parsed sections.
pub open spec fn lookup_section(
    sections: Seq<(Seq<char>, Seq<Seq<char>>)>,
    key: Seq<char>,
) -> Option<Seq<Seq<char>>>
    decreases sections.len(),
{
    if sections.len() == 0 {
        None
    } else if sections[0].0 == key {
        Some(sections[0].1)
    } else {
        lookup_section(sections.skip(1), key)
    }
}

proof fn lemma_lookup_section_at(
    sections: Seq<(Seq<char>, Seq<Seq<char>>)>,
    key: Seq<char>,
    q: int,
)
    requires
        0 <= q <= sections.len(),
        forall|p: int| 0 <= p < q ==> (#[trigger] sections[p]).0 != key,
        q < sections.len() ==> sections[q].0 == key,
    ensures
        q < sections.len() ==> lookup_section(sections, key) == Some(sections[q].1),
        q == sections.len() ==> lookup_section(sections, key) is None,
    decreases q,
{
    if sections.len() > 0 && sections[0].0 != key {
        let t = sections.skip(1);
        assert(forall|p: int| 0 <= p < q - 1 ==> #[trigger] t[p] == sections[p + 1]);
        lemma_lookup_section_at(t, key, q - 1);
    }
}

/// Looks a section up by its canonical heading.
fn section_get<'a>(
    sections: &'a Vec<(String, Vec<String>)>,
    key: &str,
) -> (r: Option<&'a Vec<String>>)
    ensures
        ({
            let s = lookup_section(sections.deep_view(), key@);
            match r {
                Some(items) => s == Some(items.deep_view()),
                None => s is None,
            }
        }),
{
    let n = sections.len();
    let mut i: usize = 0;
    while i < n
        invariant
            0 <= i <= n,
            n == sections@.len(),
            sections.deep_view().len() == sections@.len(),
            forall|j: int| 0 <= j < sections@.len() ==> #[trigger] sections.deep_view()[j] == (
            sections@[j].0@,
            sections@[j].1.deep_view(),
            ),
            forall|j: int| 0 <= j < i ==> (#[trigger] sections.deep_view()[j]).0 != key@,
        decreases n - i,
    {
        if str_eq(sections[i].0.as_str(), key) {
            proof {
                lemma_lookup_section_at(sections.deep_view(), key@, i as int);
            }
            return Some(&sections[i].1);
        }
        i += 1;
    }
    proof {
        lemma_lookup_section_at(sections.deep_view(), key@, n as int);
    }
    None
}

/// The index of the section stored under `key`, or the length.
pub open spec fn section_index(sections: Seq<(Seq<char>, Seq<Seq<char>>)>, key: Seq<char>) -> int
    decreases sections.len(),
{
    if sections.len() == 0 {
        0
    } else if sections[0].0 == key {
        0
    } else {
        1 + section_index(sections.skip(1), key)
    }
}

proof fn lemma_section_index_at(
    sections: Seq<(Seq<char>, Seq<Seq<char>>)>,
    key: Seq<char>,
    q: int,
)
    requires
        0 <= q <= sections.len(),
        forall|p: int| 0 <= p < q ==> (#[trigger] sections[p]).0 != key,
        q < sections.len() ==> sections[q].0 == key,
    ensures
        section_index(sections, key) == q,
    decreases q,
{
    if sections.len() > 0 && sections[0].0 != key {
        let t = sections.skip(1);
        assert(forall|p: int| 0 <= p < q - 1 ==> #[trigger] t[p] == sections[p + 1]);
        lemma_section_index_at(t, key, q - 1);
    }
}

/// The sections with an entry for `key`, created empty when missing.
pub open spec fn ensure_section(
    sections: Seq<(Seq<char>, Seq<Seq<char>>)>,
    key: Seq<char>,
) -> Seq<(Seq<char>, Seq<Seq<char>>)> {
    if section_index(sections, key) < sections.len() {
        sections
    } else {
        sections.push((key, Seq::empty()))
    }
}

/// The sections with `item` appended under `key`, creating the entry when
/// missing.
pub open spec fn append_item(
    sections: Seq<(Seq<char>, Seq<Seq<char>>)>,
    key: Seq<char>,
    item: Seq<char>,
) -> Seq<(Seq<char>, Seq<Seq<char>>)> {
    let idx = section_index(sections, key);
    if idx < sections.len() {
        sections.update(idx, (key, sections[idx].1.push(item)))
    } else {
        sections.push((key, seq![item]))
    }
}

/// One pass over the document lines, current heading carried along: a `## `
/// heading opens its section, other non-blank lines land in the open
/// section, list markers stripped.
pub open spec fn parse_sections_loop(
    sections: Seq<(Seq<char>, Seq<Seq<char>>)>,
    current: Seq<char>,
    lines: Seq<Seq<char>>,
    i: int,
) -> Seq<(Seq<char>, Seq<Seq<char>>)>
    decreases lines.len() - i,
{
    if i < 0 || i >= lines.len() {
        sections
    } else {
        let trimmed = trim_spec(lines[i]);
        if starts_with_seq(trimmed, "## "@) {
            let heading = lower_seq(trim_spec(trimmed.skip(3)));
            parse_sections_loop(ensure_section(sections, heading), heading, lines, i + 1)
        } else if current.len() == 0 {
            parse_sections_loop(sections, current, lines, i + 1)
        } else {
            match strip_list_prefix_spec(trimmed) {
                Some(item) => parse_sections_loop(
                    append_item(sections, current, item),
                    current,
                    lines,
                    i + 1,
                ),
                None => if trimmed.len() > 0 {
                    parse_sections_loop(append_item(sections, current, trimmed), current, lines, i + 1)
                } else {
                    parse_sections_loop(sections, current, lines, i + 1)
                },
            }
        }
    }
}

/// What [`parse_sections`] returns for the document lines.
pub open spec fn parse_sections_spec(lines: Seq<Seq<char>>) -> Seq<(Seq<char>, Seq<Seq<char>>)> {
    parse_sections_loop(Seq::empty(), Seq::empty(), lines, 0)
}

/// Makes sure an entry for `key` exists, empty when new.
fn ensure_section_exec(sections: &mut Vec<(String, Vec<String>)>, key: &String)
    ensures
        final(sections).deep_view() == ensure_section(old(sections).deep_view(), key@),
{
    let n = sections.len();
    let mut i: usize = 0;
    while i < n
        invariant
            0 <= i <= n,
            n == sections@.len(),
            sections == old(sections),
            sections.deep_view().len() == sections@.len(),
            forall|j: int| 0 <= j < sections@.len() ==> #[trigger] sections.deep_view()[j] == (
            sections@[j].0@,
            sections@[j].1.deep_view(),
            ),
            forall|j: int| 0 <= j < i ==> (#[trigger] sections.deep_view()[j]).0 != key@,
        decreases n - i,
    {
        if str_eq(sections[i].0.as_str(), key.as_str()) {
            proof {
                lemma_section_index_at(sections.deep_view(), key@, i as int);
            }
            return ;
        }
        i += 1;
    }
    proof {
        lemma_section_index_at(sections.deep_view(), key@, n as int);
    }
    let ghost pre = sections.deep_view();
    sections.push((key.clone(), Vec::new()));
    proof {
        assert(sections.deep_view() =~~= pre.push((key@, Seq::<Seq<char>>::empty())));
    }
}

/// Appends one line under `key`, creating the entry when missing.
fn append_item_exec(sections: &mut Vec<(String, Vec<String>)>, key: &String, item: String)
    ensures
        final(sections).deep_view() == append_item(old(sections).deep_view(), key@, item@),
{
    let ghost item_view = item@;
    let n = sections.len();
    let mut i: usize = 0;
    while i < n
        invariant
            item@ == item_view,
            0 <= i <= n,
            n == sections@.len(),
            sections == old(sections),
            sections.deep_view().len() == sections@.len(),
            forall|j: int| 0 <= j < sections@.len() ==> #[trigger] sections.deep_view()[j] == (
            sections@[j].0@,
            sections@[j].1.deep_view(),
            ),
            forall|j: int| 0 <= j < i ==> (#[trigger] sections.deep_view()[j]).0 != key@,
        decreases n - i,
    {
        if str_eq(sections[i].0.as_str(), key.as_str()) {
            proof {
                lemma_section_index_at(sections.deep_view(), key@, i as int);
            }
            let ghost pre = sections.deep_view();
            let ghost vec_pre = *sections;
            let (entry_key, mut items) = sections.remove(i);
            let ghost items_pre = items.deep_view();
            let ghost items_vec_pre = items;
            let ghost item_snap = item;
            items.push(item);
            proof {
                crate::text::lemma_deep_view_push(items_vec_pre, items, item_snap);
            }
            let ghost items_snap = items;
            let ghost entry_key_snap = entry_key;
            sections.insert(i, (entry_key, items));
            proof {
                assert(items_vec_pre.deep_view() == items_pre);
                assert(item_snap@ == item_view);
                assert(items_snap.deep_view() == items_pre.push(item_view));
                let target = pre.update(i as int, (key@, items_pre.push(item_view)));
                let removed = vec_pre@.remove(i as int);
                assert(removed.len() == vec_pre@.len() - 1);
                assert(sections@ == removed.insert(i as int, (entry_key_snap, items_snap)));
                assert(sections@.len() == vec_pre@.len());
                assert forall|k: int|
                    0 <= k < sections.deep_view().len() implies sections.deep_view()[k]
                    == target[k] by {
                    assert(sections.deep_view()[k] == sections@[k].deep_view());
                    assert(pre[k] == vec_pre@[k].deep_view());
                    if k < i {
                        assert(sections@[k] == removed[k]);
                        assert(removed[k] == vec_pre@[k]);
                        assert(sections.deep_view()[k] == pre[k]);
                        assert(target[k] == pre[k]);
                    } else if k == i {
                        assert(sections@[k] == (entry_key_snap, items_snap));
                        assert(sections.deep_view()[k] == (
                            entry_key_snap@,
                            items_snap.deep_view(),
                        ));
                        assert(entry_key_snap == vec_pre@[i as int].0);
                        assert(pre[i as int].0 == key@);
                        assert(pre[i as int].1 == items_pre);
                        assert(entry_key_snap@ == key@);
                        assert(items_snap.deep_view() == items_pre.push(item_view));
                        assert(target[k] == (key@, items_pre.push(item_view)));
                    } else {
                        assert(sections@[k] == removed[k - 1]);
                        assert(removed[k - 1] == vec_pre@[k]);
                        assert(sections.deep_view()[k] == pre[k]);
                        assert(target[k] == pre[k]);
                    }
                }
                assert(sections.deep_view() =~= target);
            }
            return ;
        }
        i += 1;
    }
    proof {
        lemma_section_index_at(sections.deep_view(), key@, n as int);
    }
    let ghost pre = sections.deep_view();
    let mut items: Vec<String> = Vec::new();
    items.push(item);
    sections.push((key.clone(), items));
    proof {
        assert(sections.deep_view() =~~= pre.push((key@, seq![item_view])));
    }
}

/// Splits the document's lines into sections keyed by canonical heading.
pub fn parse_sections(lines: &Vec<String>) -> (r: Vec<(String, Vec<String>)>)
    ensures
        r.deep_view() == parse_sections_spec(lines.deep_view()),
{
    let mut sections: Vec<(String, Vec<String>)> = Vec::new();
    let mut current = String::new();
    proof {
        assert(sections.deep_view() =~= Seq::<(Seq<char>, Seq<Seq<char>>)>::empty());
    }
    let n = lines.len();
    let mut i: usize = 0;
    while i < n
        invariant
            0 <= i <= n,
            n == lines@.len(),
            lines.deep_view().len() == lines@.len(),
            forall|j: int| 0 <= j < lines@.len() ==> #[trigger] lines.deep_view()[j] == lines@[j]@,
            parse_sections_spec(lines.deep_view()) == parse_sections_loop(
                sections.deep_view(),
                current@,
                lines.deep_view(),
                i as int,
            ),
        decreases n - i,
    {
        let trimmed = trim_str(lines[i].as_str());
        let m = trimmed.as_str().unicode_len();
        if starts_with_str(trimmed.as_str(), "## ") {
            proof {
                reveal_strlit("## ");
                assert(trimmed@.subrange(3, m as int) =~= trimmed@.skip(3));
            }
            let header = trimmed.as_str().substring_char(3, m);
            let heading = canonical_heading(header);
            ensure_section_exec(&mut sections, &heading);
            current = heading;
        } else if current.as_str().unicode_len() == 0 {
            proof {
                assert(current@.len() == 0);
            }
        } else {
            match strip_list_prefix(trimmed.as_str()) {
                Some(item) => {
                    append_item_exec(&mut sections, &current, item);
                },
                None => {
                    if m > 0 {
                        append_item_exec(&mut sections, &current, trimmed);
                    }
                },
            }
        }
        i += 1;
    }
    sections
}

/// The section of the first alias that has one.
pub open spec fn first_alias_section(
    sections: Seq<(Seq<char>, Seq<Seq<char>>)>,
    aliases: Seq<Seq<char>>,
    i: int,
) -> Option<Seq<Seq<char>>>
    decreases aliases.len() - i,
{
    if i < 0 || i >= aliases.len() {
        None
    } else {
        match lookup_section(sections, aliases[i]) {
            Some(items) => Some(items),
            None => first_alias_section(sections, aliases, i + 1),
        }
    }
}

/// The first line of the first aliased section, when that section has one.
pub open spec fn first_section_text_spec(
    sections: Seq<(Seq<char>, Seq<Seq<char>>)>,
    aliases: Seq<Seq<char>>,
) -> Option<Seq<char>> {
    match first_alias_section(sections, aliases, 0) {
        Some(items) => if items.len() > 0 {
            Some(items[0])
        } else {
            None
        },
        None => None,
    }
}

/// Finds the first text under any of the aliased headings.
pub fn first_section_text(
    sections: &Vec<(String, Vec<String>)>,
    aliases: &Vec<&'static str>,
) -> (r: Option<String>)
    ensures
        ({
            let s = first_section_text_spec(sections.deep_view(), aliases.deep_view());
            match r {
                Some(v) => s == Some(v@),
                None => s is None,
            }
        }),
{
    let n = aliases.len();
    let mut i: usize = 0;
    while i < n
        invariant
            0 <= i <= n,
            n == aliases@.len(),
            aliases.deep_view().len() == aliases@.len(),
            forall|j: int| 0 <= j < aliases@.len() ==> #[trigger] aliases.deep_view()[j]
                == aliases@[j]@,
            first_alias_section(sections.deep_view(), aliases.deep_view(), 0)
                == first_alias_section(sections.deep_view(), aliases.deep_view(), i as int),
        decreases n - i,
    {
        if let Some(items) = section_get(sections, aliases[i]) {
            if items.len() > 0 {
                proof {
                    assert(items.deep_view()[0] == items@[0]@);
                }
                return Some(items[0].clone());
            }
            return None;
        }
        i += 1;
    }
    None
}

/// All lines of all aliased sections, in alias order.
pub open spec fn merged_section_items_spec(
    sections: Seq<(Seq<char>, Seq<Seq<char>>)>,
    aliases: Seq<Seq<char>>,
    i: int,
) -> Seq<Seq<char>>
    decreases aliases.len() - i,
{
    if i < 0 || i >= aliases.len() {
        Seq::empty()
    } else {
        let here = match lookup_section(sections, aliases[i]) {
            Some(items) => items,
            None => Seq::empty(),
        };
        here + merged_section_items_spec(sections, aliases, i + 1)
    }
}

/// Collects the lines of every aliased section, in alias order.
pub fn merged_section_items(
    sections: &Vec<(String, Vec<String>)>,
    aliases: &Vec<&'static str>,
) -> (r: Vec<String>)
    ensures
        r.deep_view() == merged_section_items_spec(sections.deep_view(), aliases.deep_view(), 0),
{
    let mut out: Vec<String> = Vec::new();
    proof {
        assert(out.deep_view() =~= Seq::<Seq<char>>::empty());
    }
    let n = aliases.len();
    let mut i: usize = 0;
    while i < n
        invariant
            0 <= i <= n,
            n == aliases@.len(),
            aliases.deep_view().len() == aliases@.len(),
            forall|j: int| 0 <= j < aliases@.len() ==> #[trigger] aliases.deep_view()[j]
                == aliases@[j]@,
            merged_section_items_spec(sections.deep_view(), aliases.deep_view(), 0)
                == out.deep_view() + merged_section_items_spec(
                sections.deep_view(),
                aliases.deep_view(),
                i as int,
            ),
        decreases n - i,
    {
        let ghost before = out.deep_view();
        if let Some(items) = section_get(sections, aliases[i]) {
            let m = items.len();
            let mut k: usize = 0;
            while k < m
                invariant
                    0 <= k <= m,
                    m == items@.len(),
                    items.deep_view().len() == items@.len(),
                    forall|j: int| 0 <= j < items@.len() ==> #[trigger] items.deep_view()[j]
                        == items@[j]@,
                    out.deep_view() == before + items.deep_view().take(k as int),
                decreases m - k,
            {
                let ghost pre = out;
                let item = items[k].clone();
                let ghost item_snap = item;
                out.push(item);
                proof {
                    crate::text::lemma_deep_view_push(pre, out, item_snap);
                    assert(before + items.deep_view().take(k + 1) =~= (before
                        + items.deep_view().take(k as int)).push(items.deep_view()[k as int]));
                }
                k += 1;
            }
            proof {
                assert(items.deep_view().take(m as int) =~= items.deep_view());
                assert((before + items.deep_view()) + merged_section_items_spec(
                    sections.deep_view(),
                    aliases.deep_view(),
                    i + 1,
                ) =~= before + (items.deep_view() + merged_section_items_spec(
                    sections.deep_view(),
                    aliases.deep_view(),
                    i + 1,
                )));
            }
        } else {
            proof {
                assert(Seq::<Seq<char>>::empty() + merged_section_items_spec(
                    sections.deep_view(),
                    aliases.deep_view(),
                    i + 1,
                ) =~= merged_section_items_spec(sections.deep_view(), aliases.deep_view(), i + 1));
            }
        }
        i += 1;
    }
    proof {
        assert(out.deep_view() + Seq::<Seq<char>>::empty() =~= out.deep_view());
    }
    out
}

} // verus!
