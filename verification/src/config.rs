//! Configuration text: a TOML-like subset covering what the service reads —
//! `[section]` headers, `key = value` entries with quoted text or integer
//! values, comments and blank lines. `Configure::build` parses a whole
//! document against a character-level specification; typed lookups and the
//! database and listener settings are read off the parsed form.

use vstd::prelude::*;
use vstd::string::{StrSliceExecFns, StringExecFns};

use crate::strutil::str_eq;
use crate::users::MsgError;

verus! {

/// The whitespace that may surround keys, values and whole lines.
pub open spec fn is_space(c: char) -> bool {
    c == ' ' || c == '\t' || c == '\r'
}

pub open spec fn is_digit(c: char) -> bool {
    48 <= c as u32 <= 57
}

pub open spec fn digit_of(c: char) -> int {
    c as u32 - 48
}

fn is_space_exec(c: char) -> (r: bool)
    ensures
        r == is_space(c),
{
    c == ' ' || c == '\t' || c == '\r'
}

fn is_digit_exec(c: char) -> (r: bool)
    ensures
        r == is_digit(c),
{
    let u = c as u32;
    48 <= u && u <= 57
}

pub open spec fn trim_start(s: Seq<char>) -> Seq<char>
    decreases s.len(),
{
    if s.len() > 0 && is_space(s[0]) {
        trim_start(s.drop_first())
    } else {
        s
    }
}

pub open spec fn trim_end(s: Seq<char>) -> Seq<char>
    decreases s.len(),
{
    if s.len() > 0 && is_space(s.last()) {
        trim_end(s.drop_last())
    } else {
        s
    }
}

/// A line, key or value with surrounding whitespace removed.
pub open spec fn trim(s: Seq<char>) -> Seq<char> {
    trim_end(trim_start(s))
}

fn trim_str(s: &str) -> (r: String)
    ensures
        r@ == trim(s@),
{
    let len = s.unicode_len();
    proof {
        assert(s@.subrange(0, len as int) =~= s@);
    }
    let mut a: usize = 0;
    while a < len && is_space_exec(s.get_char(a))
        invariant
            a <= len,
            len == s@.len(),
            trim_start(s@) == trim_start(s@.subrange(a as int, len as int)),
        decreases len - a,
    {
        proof {
            assert(s@.subrange(a as int, len as int).drop_first() =~= s@.subrange(
                a + 1 as int,
                len as int,
            ));
        }
        a = a + 1;
    }
    proof {
        assert(trim_start(s@) == s@.subrange(a as int, len as int));
    }
    let mut b: usize = len;
    while b > a && is_space_exec(s.get_char(b - 1))
        invariant
            a <= b <= len,
            len == s@.len(),
            trim_start(s@) == s@.subrange(a as int, len as int),
            trim_end(s@.subrange(a as int, len as int)) == trim_end(
                s@.subrange(a as int, b as int),
            ),
        decreases b,
    {
        proof {
            assert(s@.subrange(a as int, b as int).drop_last() =~= s@.subrange(
                a as int,
                b - 1 as int,
            ));
        }
        b = b - 1;
    }
    proof {
        assert(trim(s@) == s@.subrange(a as int, b as int));
    }
    let out = s.substring_char(a, b);
    String::from_str(out)
}

/// The document cut at every newline; the separators do not appear in the
/// lines, and a trailing newline yields a final empty line.
pub open spec fn lines_acc(s: Seq<char>, cur: Seq<char>, done: Seq<Seq<char>>) -> Seq<Seq<char>>
    decreases s.len(),
{
    if s.len() == 0 {
        done.push(cur)
    } else if s[0] == '\n' {
        lines_acc(s.drop_first(), Seq::empty(), done.push(cur))
    } else {
        lines_acc(s.drop_first(), cur.push(s[0]), done)
    }
}

pub open spec fn spec_lines(s: Seq<char>) -> Seq<Seq<char>> {
    lines_acc(s, Seq::empty(), Seq::empty())
}

fn split_lines(s: &str) -> (r: Vec<String>)
    ensures
        r.deep_view() == spec_lines(s@),
{
    let len = s.unicode_len();
    let mut out: Vec<String> = Vec::new();
    let mut cur = String::new();
    proof {
        assert(s@.subrange(0, len as int) =~= s@);
        assert(out.deep_view() =~= Seq::<Seq<char>>::empty());
    }
    let mut i: usize = 0;
    while i < len
        invariant
            i <= len,
            len == s@.len(),
            lines_acc(s@.subrange(i as int, len as int), cur@, out.deep_view()) == spec_lines(
                s@,
            ),
        decreases len - i,
    {
        let c = s.get_char(i);
        proof {
            assert(s@.subrange(i as int, len as int).drop_first() =~= s@.subrange(
                i + 1 as int,
                len as int,
            ));
        }
        let ghost prev_out = out.deep_view();
        let ghost prev_cur = cur@;
        if c == '\n' {
            out.push(cur);
            cur = String::new();
            proof {
                assert(out.deep_view() =~= prev_out.push(prev_cur));
            }
        } else {
            crate::strutil::push_char(&mut cur, c);
        }
        i = i + 1;
    }
    proof {
        assert(s@.subrange(len as int, len as int) =~= Seq::<char>::empty());
    }
    let ghost prev_out = out.deep_view();
    let ghost prev_cur = cur@;
    out.push(cur);
    proof {
        assert(out.deep_view() =~= prev_out.push(prev_cur));
    }
    out
}

/// A line cut at its first `=`: the raw key before it, the raw value after.
pub open spec fn key_value_split(t: Seq<char>) -> Option<(Seq<char>, Seq<char>)>
    decreases t.len(),
{
    if t.len() == 0 {
        None
    } else if t[0] == '=' {
        Some((Seq::empty(), t.drop_first()))
    } else {
        match key_value_split(t.drop_first()) {
            Some(kv) => Some((seq![t[0]] + kv.0, kv.1)),
            None => None,
        }
    }
}

proof fn lemma_key_value_split_at(t: Seq<char>, e: int)
    requires
        0 <= e < t.len(),
        t[e] == '=',
        forall|i: int| 0 <= i < e ==> t[i] != '=',
    ensures
        key_value_split(t) == Some((t.subrange(0, e), t.subrange(e + 1, t.len() as int))),
    decreases e,
{
    if e == 0 {
        assert(t.subrange(0, 0) =~= Seq::<char>::empty());
        assert(t.subrange(1, t.len() as int) =~= t.drop_first());
    } else {
        assert(forall|i: int| 0 <= i < e - 1 ==> t.drop_first()[i] != '=');
        lemma_key_value_split_at(t.drop_first(), e - 1);
        assert(seq![t[0]] + t.drop_first().subrange(0, e - 1) =~= t.subrange(0, e));
        assert(t.drop_first().subrange(e, t.len() - 1) =~= t.subrange(e + 1, t.len() as int));
    }
}

proof fn lemma_key_value_split_none(t: Seq<char>)
    requires
        forall|i: int| 0 <= i < t.len() ==> t[i] != '=',
    ensures
        key_value_split(t) is None,
    decreases t.len(),
{
    if t.len() > 0 {
        lemma_key_value_split_none(t.drop_first());
    }
}

pub open spec fn all_digits(s: Seq<char>) -> bool {
    forall|i: int| 0 <= i < s.len() ==> is_digit(#[trigger] s[i])
}

pub open spec fn digits_val(s: Seq<char>, acc: int) -> int
    decreases s.len(),
{
    if s.len() == 0 {
        acc
    } else {
        digits_val(s.drop_first(), acc * 10 + digit_of(s[0]))
    }
}

/// The integer a value denotes: an optional minus sign, then only digits.
pub open spec fn spec_int(t: Seq<char>) -> Option<int> {
    if t.len() >= 2 && t[0] == '-' && all_digits(t.drop_first()) {
        Some(-digits_val(t.drop_first(), 0))
    } else if t.len() >= 1 && all_digits(t) {
        Some(digits_val(t, 0))
    } else {
        None
    }
}

/// The integers a configuration value may hold: exactly those of `i64`.
pub open spec fn int_fits(n: int) -> bool {
    i64::MIN as int <= n <= i64::MAX as int
}

proof fn lemma_digits_val_lower(s: Seq<char>, acc: int)
    requires
        acc >= 0,
        all_digits(s),
    ensures
        digits_val(s, acc) >= acc,
    decreases s.len(),
{
    if s.len() > 0 {
        assert(is_digit(s[0]));
        assert(forall|i: int| 0 <= i < s.drop_first().len() ==> is_digit(
            #[trigger] s.drop_first()[i],
        ));
        lemma_digits_val_lower(s.drop_first(), acc * 10 + digit_of(s[0]));
    }
}

fn parse_int_str(t: &str) -> (r: Option<i64>)
    ensures
        r is Some <==> (spec_int(t@) matches Some(n) && int_fits(n)),
        r matches Some(v) ==> spec_int(t@) == Some(v as int),
{
    let len = t.unicode_len();
    if len == 0 {
        return None;
    }
    let neg = t.get_char(0) == '-';
    let start: usize = if neg {
        1
    } else {
        0
    };
    if start == len {
        return None;
    }
    let mut i: usize = start;
    // `acc` carries the negated value of the digits read so far, so that
    // the most negative integer is reachable too
    let mut acc: i64 = 0;
    while i < len
        invariant
            start <= i <= len,
            len == t@.len(),
            start <= 1,
            neg ==> (start == 1 && t@[0] == '-'),
            !neg ==> (start == 0 && t@[0] != '-'),
            start < len,
            forall|j: int| start <= j < i ==> is_digit(#[trigger] t@[j]),
            acc <= 0,
            digits_val(t@.subrange(start as int, len as int), 0) == digits_val(
                t@.subrange(i as int, len as int),
                -(acc as int),
            ),
        decreases len - i,
    {
        let c = t.get_char(i);
        if !is_digit_exec(c) {
            proof {
                assert(!all_digits(t@.subrange(start as int, len as int))) by {
                    assert(t@.subrange(start as int, len as int)[i - start] == t@[i as int]);
                }
                if neg {
                    assert(t@.drop_first() =~= t@.subrange(1, len as int));
                } else {
                    assert(!all_digits(t@)) by {
                        assert(t@.subrange(0, len as int) =~= t@);
                    }
                }
            }
            return None;
        }
        let d: i64 = ((c as u32) - 48) as i64;
        let next = match acc.checked_mul(10) {
            Some(m) => m.checked_sub(d),
            None => None,
        };
        proof {
            assert(t@.subrange(i as int, len as int).drop_first() =~= t@.subrange(
                i + 1 as int,
                len as int,
            ));
            assert(t@.subrange(i as int, len as int)[0] == t@[i as int]);
        }
        match next {
            Some(a2) => {
                acc = a2;
            },
            None => {
                // the digits so far already exceed the magnitude any i64
                // can hold, so the denoted integer cannot fit either way
                proof {
                    assert(acc as int * 10 - d < i64::MIN as int);
                    let rest = t@.subrange(i + 1 as int, len as int);
                    let part = t@.subrange(start as int, len as int);
                    let a2 = -(acc as int) * 10 + digit_of(t@[i as int]);
                    assert(a2 > -(i64::MIN as int));
                    if all_digits(rest) {
                        lemma_digits_val_lower(rest, a2);
                        assert(digits_val(part, 0) > i64::MAX as int);
                        if neg {
                            assert(t@.drop_first() =~= part);
                            assert(-digits_val(part, 0) < i64::MIN as int);
                        } else {
                            assert(t@ =~= part);
                        }
                    } else {
                        let bad = choose|j: int|
                            0 <= j < rest.len() && !is_digit(#[trigger] rest[j]);
                        assert(t@[i + 1 + bad] == rest[bad]);
                        assert(!all_digits(part)) by {
                            assert(part[i + 1 + bad - start] == t@[i + 1 + bad]);
                        }
                        if neg {
                            assert(t@.drop_first() =~= part);
                        } else {
                            assert(t@ =~= part);
                        }
                    }
                }
                return None;
            },
        }
        i = i + 1;
    }
    proof {
        assert(t@.subrange(len as int, len as int) =~= Seq::<char>::empty());
        let part = t@.subrange(start as int, len as int);
        assert(all_digits(part)) by {
            assert(forall|j: int| 0 <= j < part.len() ==> part[j] == t@[j + start]);
        }
        assert(digits_val(part, 0) == -(acc as int));
        if neg {
            assert(t@.drop_first() =~= part);
        } else {
            assert(t@ =~= part);
        }
    }
    if neg {
        Some(acc)
    } else {
        if acc == i64::MIN {
            // the digits denote one more than the largest i64
            return None;
        }
        Some(-acc)
    }
}

// ---- classification of one trimmed line ----

pub open spec fn cls_skip(t: Seq<char>) -> bool {
    t.len() == 0 || t[0] == '#'
}

pub open spec fn cls_section_ok(t: Seq<char>) -> bool {
    !cls_skip(t) && t.len() >= 2 && t[0] == '[' && t.last() == ']'
}

pub open spec fn cls_section_bad(t: Seq<char>) -> bool {
    !cls_skip(t) && t[0] == '[' && !cls_section_ok(t)
}

pub open spec fn cls_entry(t: Seq<char>) -> bool {
    !cls_skip(t) && t[0] != '['
}

pub open spec fn section_name(t: Seq<char>) -> Seq<char> {
    t.subrange(1, t.len() - 1)
}

pub open spec fn cls_text_val(v: Seq<char>) -> bool {
    v.len() >= 2 && v[0] == '"' && v.last() == '"'
}

pub open spec fn entry_key(t: Seq<char>) -> Seq<char> {
    match key_value_split(t) {
        Some(kv) => trim(kv.0),
        None => Seq::empty(),
    }
}

pub open spec fn entry_val(t: Seq<char>) -> Seq<char> {
    match key_value_split(t) {
        Some(kv) => trim(kv.1),
        None => Seq::empty(),
    }
}

pub open spec fn entry_text_val(t: Seq<char>) -> Seq<char> {
    entry_val(t).subrange(1, entry_val(t).len() - 1)
}

pub open spec fn cls_is_text_entry(t: Seq<char>) -> bool {
    cls_entry(t) && key_value_split(t) is Some && cls_text_val(entry_val(t))
}

pub open spec fn cls_is_int_entry(t: Seq<char>) -> bool {
    cls_entry(t) && key_value_split(t) is Some && !cls_text_val(entry_val(t)) && (spec_int(
        entry_val(t),
    ) matches Some(n) && int_fits(n))
}

pub open spec fn cls_entry_bad(t: Seq<char>) -> bool {
    cls_entry(t) && !cls_is_text_entry(t) && !cls_is_int_entry(t)
}

enum LineStep {
    Skip,
    Section(String),
    TextEntry(String, String),
    IntEntry(String, i64),
    Bad,
}

fn classify_line(line: &str) -> (r: LineStep)
    ensures
        r is Skip <==> cls_skip(trim(line@)),
        r is Section <==> cls_section_ok(trim(line@)),
        r matches LineStep::Section(s) ==> s@ == section_name(trim(line@)),
        r is TextEntry <==> cls_is_text_entry(trim(line@)),
        r matches LineStep::TextEntry(k, v) ==> (k@ == entry_key(trim(line@)) && v@
            == entry_text_val(trim(line@))),
        r is IntEntry <==> cls_is_int_entry(trim(line@)),
        r matches LineStep::IntEntry(k, n) ==> (k@ == entry_key(trim(line@)) && Some(n as int)
            == spec_int(entry_val(trim(line@)))),
        r is Bad <==> (cls_section_bad(trim(line@)) || cls_entry_bad(trim(line@))),
{
    let t = trim_str(line);
    let tlen = t.as_str().unicode_len();
    if tlen == 0 {
        return LineStep::Skip;
    }
    let c0 = t.as_str().get_char(0);
    if c0 == '#' {
        return LineStep::Skip;
    }
    if c0 == '[' {
        if tlen >= 2 && t.as_str().get_char(tlen - 1) == ']' {
            let inner = t.as_str().substring_char(1, tlen - 1);
            return LineStep::Section(String::from_str(inner));
        }
        return LineStep::Bad;
    }
    // find the first '='
    let mut e: usize = 0;
    let mut found = false;
    while e < tlen && !found
        invariant
            e <= tlen,
            tlen == t@.len(),
            !found ==> forall|j: int| 0 <= j < e ==> t@[j] != '=',
            found ==> (e < tlen && t@[e as int] == '=' && forall|j: int|
                0 <= j < e ==> t@[j] != '='),
        decreases tlen - e + (if found { 0int } else { 1int }),
    {
        if t.as_str().get_char(e) == '=' {
            found = true;
        } else {
            e = e + 1;
        }
    }
    if !found {
        proof {
            lemma_key_value_split_none(t@);
        }
        return LineStep::Bad;
    }
    proof {
        lemma_key_value_split_at(t@, e as int);
    }
    let kraw = t.as_str().substring_char(0, e);
    let key = trim_str(kraw);
    let vraw = t.as_str().substring_char(e + 1, tlen);
    let val = trim_str(vraw);
    let vlen = val.as_str().unicode_len();
    if vlen >= 2 && val.as_str().get_char(0) == '"' && val.as_str().get_char(vlen - 1) == '"' {
        let inner = val.as_str().substring_char(1, vlen - 1);
        return LineStep::TextEntry(key, String::from_str(inner));
    }
    match parse_int_str(val.as_str()) {
        Some(n) => LineStep::IntEntry(key, n),
        None => LineStep::Bad,
    }
}

// ---- the parse of a whole document ----

/// The dotted key of an entry under a section; entries before the first
/// section header keep their bare key.
pub open spec fn full_key(section: Seq<char>, key: Seq<char>) -> Seq<char> {
    if section.len() == 0 {
        key
    } else {
        section + "."@ + key
    }
}

/// The maps a document denotes from line `i` on, given the current section
/// and what was collected so far: text values and integer values, a later
/// entry overwriting an earlier one under the same key. A malformed line
/// fails the whole parse.
pub open spec fn parse_lines(
    lines: Seq<Seq<char>>,
    i: int,
    section: Seq<char>,
    texts: Map<Seq<char>, Seq<char>>,
    ints: Map<Seq<char>, int>,
) -> Option<(Map<Seq<char>, Seq<char>>, Map<Seq<char>, int>)>
    decreases lines.len() - i,
{
    if i < 0 || i >= lines.len() {
        Some((texts, ints))
    } else {
        let t = trim(lines[i]);
        if cls_skip(t) {
            parse_lines(lines, i + 1, section, texts, ints)
        } else if cls_section_ok(t) {
            parse_lines(lines, i + 1, section_name(t), texts, ints)
        } else if cls_section_bad(t) {
            None
        } else if cls_is_text_entry(t) {
            parse_lines(
                lines,
                i + 1,
                section,
                texts.insert(full_key(section, entry_key(t)), entry_text_val(t)),
                ints,
            )
        } else if cls_is_int_entry(t) {
            parse_lines(
                lines,
                i + 1,
                section,
                texts,
                ints.insert(
                    full_key(section, entry_key(t)),
                    match spec_int(entry_val(t)) {
                        Some(n) => n,
                        None => 0,
                    },
                ),
            )
        } else {
            None
        }
    }
}

/// What a whole document denotes, or nothing if any line is malformed.
pub open spec fn spec_parse_config(s: Seq<char>) -> Option<
    (Map<Seq<char>, Seq<char>>, Map<Seq<char>, int>),
> {
    parse_lines(spec_lines(s), 0, Seq::empty(), Map::empty(), Map::empty())
}

// ---- the parsed configuration ----

spec fn assoc_text(s: Seq<(String, String)>) -> Map<Seq<char>, Seq<char>>
    decreases s.len(),
{
    if s.len() == 0 {
        Map::empty()
    } else {
        assoc_text(s.drop_last()).insert(s.last().0@, s.last().1@)
    }
}

spec fn assoc_int(s: Seq<(String, i64)>) -> Map<Seq<char>, int>
    decreases s.len(),
{
    if s.len() == 0 {
        Map::empty()
    } else {
        assoc_int(s.drop_last()).insert(s.last().0@, s.last().1 as int)
    }
}

proof fn lemma_assoc_text_contains(s: Seq<(String, String)>, k: Seq<char>)
    ensures
        assoc_text(s).contains_key(k) <==> (exists|i: int| 0 <= i < s.len() && s[i].0@ == k),
    decreases s.len(),
{
    if s.len() > 0 {
        lemma_assoc_text_contains(s.drop_last(), k);
        if s.last().0@ == k {
            assert(s[s.len() - 1].0@ == k);
        } else {
            if exists|i: int| 0 <= i < s.len() && s[i].0@ == k {
                let i = choose|i: int| 0 <= i < s.len() && s[i].0@ == k;
                assert(s.drop_last()[i] == s[i]);
            }
            if exists|i: int| 0 <= i < s.drop_last().len() && s.drop_last()[i].0@ == k {
                let i = choose|i: int| 0 <= i < s.drop_last().len() && s.drop_last()[i].0@ == k;
                assert(s[i].0@ == k);
            }
        }
    }
}

proof fn lemma_assoc_text_index(s: Seq<(String, String)>, j: int)
    requires
        0 <= j < s.len(),
        forall|l: int| j < l < s.len() ==> s[l].0@ != s[j].0@,
    ensures
        assoc_text(s).contains_key(s[j].0@),
        assoc_text(s)[s[j].0@] == s[j].1@,
    decreases s.len(),
{
    if j == s.len() - 1 {
    } else {
        assert(s.drop_last()[j] == s[j]);
        assert(forall|l: int| j < l < s.drop_last().len() ==> s.drop_last()[l] == s[l]);
        lemma_assoc_text_index(s.drop_last(), j);
        assert(s.last().0@ != s[j].0@);
    }
}

proof fn lemma_assoc_int_contains(s: Seq<(String, i64)>, k: Seq<char>)
    ensures
        assoc_int(s).contains_key(k) <==> (exists|i: int| 0 <= i < s.len() && s[i].0@ == k),
    decreases s.len(),
{
    if s.len() > 0 {
        lemma_assoc_int_contains(s.drop_last(), k);
        if s.last().0@ == k {
            assert(s[s.len() - 1].0@ == k);
        } else {
            if exists|i: int| 0 <= i < s.len() && s[i].0@ == k {
                let i = choose|i: int| 0 <= i < s.len() && s[i].0@ == k;
                assert(s.drop_last()[i] == s[i]);
            }
            if exists|i: int| 0 <= i < s.drop_last().len() && s.drop_last()[i].0@ == k {
                let i = choose|i: int| 0 <= i < s.drop_last().len() && s.drop_last()[i].0@ == k;
                assert(s[i].0@ == k);
            }
        }
    }
}

proof fn lemma_assoc_int_index(s: Seq<(String, i64)>, j: int)
    requires
        0 <= j < s.len(),
        forall|l: int| j < l < s.len() ==> s[l].0@ != s[j].0@,
    ensures
        assoc_int(s).contains_key(s[j].0@),
        assoc_int(s)[s[j].0@] == s[j].1 as int,
    decreases s.len(),
{
    if j == s.len() - 1 {
    } else {
        assert(s.drop_last()[j] == s[j]);
        assert(forall|l: int| j < l < s.drop_last().len() ==> s.drop_last()[l] == s[l]);
        lemma_assoc_int_index(s.drop_last(), j);
        assert(s.last().0@ != s[j].0@);
    }
}

/// A parsed configuration document.
#[derive(Debug)]
pub struct Configure {
    texts: Vec<(String, String)>,
    ints: Vec<(String, i64)>,
}

fn make_full_key(section: &String, key: String) -> (r: String)
    ensures
        r@ == full_key(section@, key@),
{
    if section.as_str().unicode_len() == 0 {
        key
    } else {
        let mut s = section.clone();
        s.append(".");
        s.append(key.as_str());
        proof {
            assert(s@ =~= full_key(section@, key@));
        }
        s
    }
}

impl Configure {
    /// The text values of the document, by dotted key.
    pub closed spec fn text_map(&self) -> Map<Seq<char>, Seq<char>> {
        assoc_text(self.texts@)
    }

    /// The integer values of the document, by dotted key.
    pub closed spec fn int_map(&self) -> Map<Seq<char>, int> {
        assoc_int(self.ints@)
    }

    /// Parses a whole configuration document; any malformed line refuses
    /// the document as a whole.
    pub fn build(source: &str) -> (r: Result<Configure, MsgError>)
        ensures
            spec_parse_config(source@) matches Some(m) ==> (r matches Ok(c) && c.text_map()
                == m.0 && c.int_map() == m.1),
            spec_parse_config(source@) is None ==> r is Err,
    {
        let lines = split_lines(source);
        let mut texts: Vec<(String, String)> = Vec::new();
        let mut ints: Vec<(String, i64)> = Vec::new();
        let mut section = String::new();
        let nlines = lines.len();
        let mut i: usize = 0;
        while i < nlines
            invariant
                i <= nlines,
                nlines == lines@.len(),
                lines.deep_view() == spec_lines(source@),
                parse_lines(
                    lines.deep_view(),
                    i as int,
                    section@,
                    assoc_text(texts@),
                    assoc_int(ints@),
                ) == spec_parse_config(source@),
            decreases nlines - i,
        {
            proof {
                assert(lines.deep_view()[i as int] == lines@[i as int]@);
            }
            match classify_line(lines[i].as_str()) {
                LineStep::Skip => {},
                LineStep::Section(s) => {
                    section = s;
                },
                LineStep::TextEntry(k, v) => {
                    let fk = make_full_key(&section, k);
                    let ghost prev = texts@;
                    texts.push((fk, v));
                    proof {
                        assert(texts@.drop_last() =~= prev);
                    }
                },
                LineStep::IntEntry(k, n) => {
                    let fk = make_full_key(&section, k);
                    let ghost prev = ints@;
                    ints.push((fk, n));
                    proof {
                        assert(ints@.drop_last() =~= prev);
                    }
                },
                LineStep::Bad => {
                    return Err(MsgError(String::from_str("malformed configuration line")));
                },
            }
            i = i + 1;
        }
        Ok(Configure { texts, ints })
    }

    /// The text value under a dotted key; a missing key or one holding an
    /// integer is an error.
    pub fn get_string(&self, key: &str) -> (r: Result<String, MsgError>)
        ensures
            self.text_map().contains_key(key@) ==> (r matches Ok(v) && v@ == self.text_map()[
                key@
            ]),
            !self.text_map().contains_key(key@) ==> r is Err,
    {
        let n = self.texts.len();
        let mut j: usize = n;
        while j > 0
            invariant
                j <= n,
                n == self.texts@.len(),
                forall|l: int| j <= l < n ==> self.texts@[l].0@ != key@,
            decreases j,
        {
            j = j - 1;
            if str_eq(self.texts[j].0.as_str(), key) {
                proof {
                    lemma_assoc_text_index(self.texts@, j as int);
                }
                return Ok(self.texts[j].1.clone());
            }
        }
        proof {
            lemma_assoc_text_contains(self.texts@, key@);
        }
        let mut msg = String::from_str("missing configuration key: ");
        msg.append(key);
        Err(MsgError(msg))
    }

    /// The integer value under a dotted key; a missing key or one holding
    /// text is an error.
    pub fn get_int(&self, key: &str) -> (r: Result<i64, MsgError>)
        ensures
            self.int_map().contains_key(key@) ==> (r matches Ok(v) && v as int == self.int_map()[
                key@
            ]),
            !self.int_map().contains_key(key@) ==> r is Err,
    {
        let n = self.ints.len();
        let mut j: usize = n;
        while j > 0
            invariant
                j <= n,
                n == self.ints@.len(),
                forall|l: int| j <= l < n ==> self.ints@[l].0@ != key@,
            decreases j,
        {
            j = j - 1;
            if str_eq(self.ints[j].0.as_str(), key) {
                proof {
                    lemma_assoc_int_index(self.ints@, j as int);
                }
                return Ok(self.ints[j].1);
            }
        }
        proof {
            lemma_assoc_int_contains(self.ints@, key@);
        }
        let mut msg = String::from_str("missing configuration key: ");
        msg.append(key);
        Err(MsgError(msg))
    }
}

/// Database settings, as the connection builder reads them.
#[derive(Debug)]
pub struct DB {
    pub user: String,
    pub password: String,
    pub host: String,
    pub port: i64,
    pub name: String,
    pub max_connection: i64,
    pub min_connection: i64,
    pub acquired_timout: i64,
    pub idle_timout: i64,
}

/// Listener settings.
#[derive(Debug)]
pub struct TCP {
    pub ip: String,
    pub port: i32,
}

/// Whether a parsed document carries every database key with its type.
pub open spec fn has_db_settings(c: Configure) -> bool {
    &&& c.text_map().contains_key("database.user"@)
    &&& c.text_map().contains_key("database.name"@)
    &&& c.text_map().contains_key("database.host"@)
    &&& c.int_map().contains_key("database.port"@)
    &&& c.text_map().contains_key("database.password"@)
    &&& c.int_map().contains_key("database.max_connection"@)
    &&& c.int_map().contains_key("database.min_connection"@)
    &&& c.int_map().contains_key("database.acquire_timeout"@)
    &&& c.int_map().contains_key("database.idle_timeout"@)
}

/// Reads the database settings off a parsed document; any missing key is
/// an error.
pub fn db_settings(cfg: &Configure) -> (r: Result<DB, MsgError>)
    ensures
        r is Ok <==> has_db_settings(*cfg),
        r matches Ok(db) ==> (db.user@ == cfg.text_map()["database.user"@] && db.name@
            == cfg.text_map()["database.name"@] && db.host@ == cfg.text_map()["database.host"@]
            && db.port as int == cfg.int_map()["database.port"@] && db.password@
            == cfg.text_map()["database.password"@] && db.max_connection as int
            == cfg.int_map()["database.max_connection"@] && db.min_connection as int
            == cfg.int_map()["database.min_connection"@] && db.acquired_timout as int
            == cfg.int_map()["database.acquire_timeout"@] && db.idle_timout as int
            == cfg.int_map()["database.idle_timeout"@]),
{
    let user = cfg.get_string("database.user")?;
    let name = cfg.get_string("database.name")?;
    let host = cfg.get_string("database.host")?;
    let port = cfg.get_int("database.port")?;
    let password = cfg.get_string("database.password")?;
    let max_connection = cfg.get_int("database.max_connection")?;
    let min_connection = cfg.get_int("database.min_connection")?;
    let acquired_timout = cfg.get_int("database.acquire_timeout")?;
    let idle_timout = cfg.get_int("database.idle_timeout")?;
    Ok(
        DB {
            user,
            password,
            host,
            port,
            name,
            max_connection,
            min_connection,
            acquired_timout,
            idle_timout,
        },
    )
}

/// The postgres connection URL of these settings.
pub fn db_url(db: &DB) -> (r: String)
    ensures
        r@ == "postgres://"@ + db.user@ + ":"@ + db.password@ + "@"@ + db.host@ + ":"@
            + crate::strutil::spec_decimal_i64(db.port as int) + "/"@ + db.name@,
{
    let mut s = String::from_str("postgres://");
    s.append(db.user.as_str());
    s.append(":");
    s.append(db.password.as_str());
    s.append("@");
    s.append(db.host.as_str());
    s.append(":");
    let port = crate::strutil::i64_to_string(db.port);
    s.append(port.as_str());
    s.append("/");
    s.append(db.name.as_str());
    proof {
        assert(s@ =~= "postgres://"@ + db.user@ + ":"@ + db.password@ + "@"@ + db.host@ + ":"@
            + crate::strutil::spec_decimal_i64(db.port as int) + "/"@ + db.name@);
    }
    s
}

/// Whether a document carries the listener settings, the port within the
/// range a socket address takes.
pub open spec fn has_tcp_settings(s: Seq<char>) -> bool {
    &&& spec_parse_config(s) is Some
    &&& spec_parse_config(s).unwrap().0.contains_key("tcp.ip"@)
    &&& spec_parse_config(s).unwrap().1.contains_key("tcp.port"@)
    &&& i32::MIN as int <= spec_parse_config(s).unwrap().1["tcp.port"@] <= i32::MAX as int
}

/// Holds the configuration text a connection is built from; the pool
/// itself is dialed outside, from the URL these settings give.
#[derive(Debug)]
pub struct ConnectionBuilder(pub String);

impl ConnectionBuilder {
    /// The listener settings from the configuration text.
    pub fn listen_on(&self) -> (r: Result<TCP, MsgError>)
        ensures
            r is Ok <==> has_tcp_settings(self.0@),
            r matches Ok(t) ==> (spec_parse_config(self.0@) matches Some(m) && t.ip@
                == m.0["tcp.ip"@] && t.port as int == m.1["tcp.port"@]),
    {
        let cfg = Configure::build(self.0.as_str())?;
        let ip = cfg.get_string("tcp.ip")?;
        let port = cfg.get_int("tcp.port")?;
        if port < (i32::MIN as i64) || port > (i32::MAX as i64) {
            return Err(MsgError(String::from_str("tcp.port out of range")));
        }
        Ok(TCP { ip, port: port as i32 })
    }
}

/// The display name of a deployment flavor.
pub fn flavor(environment: &str) -> (r: &str)
    ensures
        environment@ == "dev"@ ==> r@ == "Development"@,
        environment@ == "prod"@ ==> r@ == "Prodcution"@,
        (environment@ != "dev"@ && environment@ != "prod"@) ==> r@ == "Unknown"@,
{
    proof {
        reveal_strlit("dev");
        reveal_strlit("prod");
        assert("dev"@.len() == 3);
        assert("prod"@.len() == 4);
        assert("dev"@ != "prod"@);
    }
    if str_eq(environment, "dev") {
        "Development"
    } else if str_eq(environment, "prod") {
        "Prodcution"
    } else {
        "Unknown"
    }
}

/// The configuration file a flavor names.
pub fn config_file_name(environment: &str) -> (r: String)
    ensures
        r@ == environment@ + ".toml"@,
{
    let mut s = String::from_str(environment);
    s.append(".toml");
    s
}

} // verus!
