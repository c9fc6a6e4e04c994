//! The manifest document grammar and its verified parser.
//!
//! A manifest is a line-oriented key/value document. A line is, after
//! trimming surrounding blanks, one of:
//!   - empty, or a comment starting with `#` (ignored);
//!   - a section header `[name]`;
//!   - an entry `key = value`, where the value is a quoted string
//!     `"text"` or a list of quoted strings `["a", "b"]`.
//!
//! The grammar is stated once as spec functions over `Seq<char>`; every
//! executable parsing function returns exactly what those spec functions
//! say. Quoted text carries no escape sequences: the next `"` always ends
//! the string.

use vstd::prelude::*;

use crate::errors::ConfigError;

verus! {

// ---------------------------------------------------------------------------
// The parsed document and its mathematical model
// ---------------------------------------------------------------------------

/// A value of a manifest entry: a quoted string or a list of quoted strings.
#[derive(Debug, Clone)]
pub enum ManifestValue {
    Str(String),
    List(Vec<String>),
}

/// One `key = value` entry of a section.
#[derive(Debug, Clone)]
pub struct ManifestEntry {
    pub key: String,
    pub value: ManifestValue,
}

/// One `[name]` section with its entries, in document order.
#[derive(Debug, Clone)]
pub struct ManifestSection {
    pub name: String,
    pub entries: Vec<ManifestEntry>,
}

/// Model of a value: the character sequences it carries.
pub enum ValueModel {
    Str(Seq<char>),
    List(Seq<Seq<char>>),
}

/// Model of an entry.
pub struct EntryModel {
    pub key: Seq<char>,
    pub value: ValueModel,
}

/// Model of a section.
pub struct SectionModel {
    pub name: Seq<char>,
    pub entries: Seq<EntryModel>,
}

/// The character sequences held by a sequence of strings.
pub open spec fn strs_model(v: Seq<String>) -> Seq<Seq<char>> {
    v.map_values(|s: String| s@)
}

impl ManifestValue {
    pub open spec fn model(self) -> ValueModel {
        match self {
            ManifestValue::Str(s) => ValueModel::Str(s@),
            ManifestValue::List(items) => ValueModel::List(strs_model(items@)),
        }
    }
}

impl ManifestEntry {
    pub open spec fn model(self) -> EntryModel {
        EntryModel { key: self.key@, value: self.value.model() }
    }
}

impl ManifestSection {
    pub open spec fn model(self) -> SectionModel {
        SectionModel {
            name: self.name@,
            entries: self.entries@.map_values(|e: ManifestEntry| e.model()),
        }
    }
}

/// Model of a whole parsed document.
pub open spec fn doc_model(d: Seq<ManifestSection>) -> Seq<SectionModel> {
    d.map_values(|s: ManifestSection| s.model())
}

// ---------------------------------------------------------------------------
// The grammar, as spec functions
// ---------------------------------------------------------------------------

/// Blank characters that trimming removes at either end of a line fragment.
pub open spec fn is_blank(c: char) -> bool {
    c == ' ' || c == '\t' || c == '\r'
}

/// The input without its leading blanks.
pub open spec fn trim_start_model(s: Seq<char>) -> Seq<char>
    decreases s.len(),
{
    if s.len() > 0 && is_blank(s[0]) {
        trim_start_model(s.subrange(1, s.len() as int))
    } else {
        s
    }
}

/// The input without its trailing blanks.
pub open spec fn trim_end_model(s: Seq<char>) -> Seq<char>
    decreases s.len(),
{
    if s.len() > 0 && is_blank(s[s.len() - 1]) {
        trim_end_model(s.subrange(0, s.len() - 1))
    } else {
        s
    }
}

/// The input without blanks at either end.
pub open spec fn trim_model(s: Seq<char>) -> Seq<char> {
    trim_end_model(trim_start_model(s))
}

/// Index of the first occurrence of `c`, or the length if `c` is absent.
pub open spec fn find_index(s: Seq<char>, c: char) -> nat
    decreases s.len(),
{
    if s.len() == 0 {
        0
    } else if s[0] == c {
        0
    } else {
        (1 + find_index(s.subrange(1, s.len() as int), c)) as nat
    }
}

/// The items of a list value, read from just after the opening `[`:
/// a possibly empty, comma-separated sequence of quoted strings, with a
/// trailing comma allowed. `None` when the text fits no such sequence.
/// The input is expected with leading blanks already removed; blanks
/// between tokens are removed as they are reached.
pub open spec fn items_model(v: Seq<char>) -> Option<Seq<Seq<char>>>
    decreases v.len(),
    via items_model_decreases
{
    if v.len() == 0 {
        Some(Seq::empty())
    } else if v[0] != '"' {
        None
    } else {
        let rest = v.subrange(1, v.len() as int);
        let q = find_index(rest, '"');
        if q >= rest.len() {
            None
        } else {
            let elem = rest.subrange(0, q as int);
            let tail = trim_start_model(rest.subrange(q + 1 as int, rest.len() as int));
            if tail.len() == 0 {
                Some(seq![elem])
            } else if tail[0] == ',' {
                let next = trim_start_model(tail.subrange(1, tail.len() as int));
                match items_model(next) {
                    Some(items) => Some(seq![elem] + items),
                    None => None,
                }
            } else {
                None
            }
        }
    }
}

#[via_fn]
proof fn items_model_decreases(v: Seq<char>) {
    if v.len() > 0 && v[0] == '"' {
        let rest = v.subrange(1, v.len() as int);
        let q = find_index(rest, '"');
        if q < rest.len() {
            let after = rest.subrange(q + 1 as int, rest.len() as int);
            lemma_trim_start_len(after);
            let tail = trim_start_model(after);
            if tail.len() > 0 && tail[0] == ',' {
                lemma_trim_start_len(tail.subrange(1, tail.len() as int));
            }
        }
    }
}

/// The model of a (trimmed) value: a quoted string or a bracketed list.
pub open spec fn value_model(v: Seq<char>) -> Option<ValueModel> {
    if v.len() >= 1 && v[0] == '"' {
        if v.len() >= 2 && v[v.len() - 1] == '"' && (forall|i: int|
            1 <= i < v.len() - 1 ==> v[i] != '"') {
            Some(ValueModel::Str(v.subrange(1, v.len() - 1)))
        } else {
            None
        }
    } else if v.len() >= 1 && v[0] == '[' {
        if v.len() >= 2 && v[v.len() - 1] == ']' {
            match items_model(trim_model(v.subrange(1, v.len() - 1))) {
                Some(items) => Some(ValueModel::List(items)),
                None => None,
            }
        } else {
            None
        }
    } else {
        None
    }
}

/// What one raw line of the document means.
pub enum LineModel {
    Blank,
    Header(Seq<char>),
    Entry(EntryModel),
    Bad,
}

/// The model of one raw line: blank or comment, a section header, an
/// entry, or ill-formed.
pub open spec fn line_model(raw: Seq<char>) -> LineModel {
    let t = trim_model(raw);
    if t.len() == 0 || t[0] == '#' {
        LineModel::Blank
    } else if t[0] == '[' {
        if t.len() >= 2 && t[t.len() - 1] == ']' {
            let name = trim_model(t.subrange(1, t.len() - 1));
            if name.len() > 0 {
                LineModel::Header(name)
            } else {
                LineModel::Bad
            }
        } else {
            LineModel::Bad
        }
    } else {
        let e = find_index(t, '=');
        if e >= t.len() {
            LineModel::Bad
        } else {
            let key = trim_model(t.subrange(0, e as int));
            if key.len() == 0 {
                LineModel::Bad
            } else {
                match value_model(trim_model(t.subrange(e + 1 as int, t.len() as int))) {
                    Some(v) => LineModel::Entry(EntryModel { key, value: v }),
                    None => LineModel::Bad,
                }
            }
        }
    }
}

/// The document split at newlines; the text after the last newline is a
/// line too, so every text has at least one line.
pub open spec fn lines_of(s: Seq<char>) -> Seq<Seq<char>>
    decreases s.len(),
{
    let e = find_index(s, '\n');
    if e >= s.len() {
        seq![s]
    } else {
        seq![s.subrange(0, e as int)] + lines_of(s.subrange(e + 1 as int, s.len() as int))
    }
}

/// Folds the lines of a document into sections. `done` holds the finished
/// sections, `cur` the one being filled. An entry before any header, or an
/// ill-formed line, makes the whole document ill-formed; unknown sections
/// and keys are kept here and ignored by the typed readers.
pub open spec fn fold_lines(
    lines: Seq<Seq<char>>,
    done: Seq<SectionModel>,
    cur: Option<SectionModel>,
) -> Option<Seq<SectionModel>>
    decreases lines.len(),
{
    if lines.len() == 0 {
        match cur {
            Some(sec) => Some(done.push(sec)),
            None => Some(done),
        }
    } else {
        let rest = lines.subrange(1, lines.len() as int);
        match line_model(lines[0]) {
            LineModel::Blank => fold_lines(rest, done, cur),
            LineModel::Header(name) => match cur {
                Some(sec) => fold_lines(
                    rest,
                    done.push(sec),
                    Some(SectionModel { name, entries: Seq::empty() }),
                ),
                None => fold_lines(rest, done, Some(SectionModel { name, entries: Seq::empty() })),
            },
            LineModel::Entry(em) => match cur {
                Some(sec) => fold_lines(
                    rest,
                    done,
                    Some(SectionModel { name: sec.name, entries: sec.entries.push(em) }),
                ),
                None => None,
            },
            LineModel::Bad => None,
        }
    }
}

/// The model of a whole document text: its sections, or `None` when some
/// line is ill-formed or an entry stands before any section header.
pub open spec fn text_model(s: Seq<char>) -> Option<Seq<SectionModel>> {
    fold_lines(lines_of(s), Seq::empty(), None)
}

// ---------------------------------------------------------------------------
// Lemmas bridging index characterizations to the spec functions
// ---------------------------------------------------------------------------

/// Trimming the start never lengthens the input.
pub proof fn lemma_trim_start_len(s: Seq<char>)
    ensures
        trim_start_model(s).len() <= s.len(),
    decreases s.len(),
{
    if s.len() > 0 && is_blank(s[0]) {
        lemma_trim_start_len(s.subrange(1, s.len() as int));
    }
}

/// A position whose prefix is all blanks and that is not itself blank
/// pins down what trimming the start leaves.
pub proof fn lemma_trim_start_at(s: Seq<char>, i: int)
    requires
        0 <= i <= s.len(),
        forall|j: int| 0 <= j < i ==> is_blank(s[j]),
        i < s.len() ==> !is_blank(s[i]),
    ensures
        trim_start_model(s) == s.subrange(i, s.len() as int),
    decreases i,
{
    if i == 0 {
        if !(s.len() > 0 && is_blank(s[0])) {
            assert(s.subrange(0, s.len() as int) =~= s);
        } else {
            assert(false);
        }
    } else {
        let sub = s.subrange(1, s.len() as int);
        lemma_trim_start_at(sub, i - 1);
        assert(sub.subrange(i - 1, sub.len() as int) =~= s.subrange(i, s.len() as int));
    }
}

/// A position whose suffix is all blanks and whose predecessor is not
/// blank pins down what trimming the end leaves.
pub proof fn lemma_trim_end_at(s: Seq<char>, k: int)
    requires
        0 <= k <= s.len(),
        forall|j: int| k <= j < s.len() ==> is_blank(s[j]),
        k > 0 ==> !is_blank(s[k - 1]),
    ensures
        trim_end_model(s) == s.subrange(0, k),
    decreases s.len(),
{
    if k < s.len() {
        assert(is_blank(s[s.len() - 1]));
        let sub = s.subrange(0, s.len() - 1);
        lemma_trim_end_at(sub, k);
        assert(sub.subrange(0, k) =~= s.subrange(0, k));
    } else {
        if s.len() == 0 {
            assert(s.subrange(0, 0) =~= s);
        } else {
            assert(!is_blank(s[s.len() - 1]));
            assert(s.subrange(0, s.len() as int) =~= s);
        }
    }
}

/// A position before which `c` is absent, and that holds `c` unless it is
/// the end, pins down `find_index`.
pub proof fn lemma_find_index_at(s: Seq<char>, c: char, f: int)
    requires
        0 <= f <= s.len(),
        forall|j: int| 0 <= j < f ==> s[j] != c,
        f < s.len() ==> s[f] == c,
    ensures
        find_index(s, c) == f,
    decreases f,
{
    if s.len() == 0 {
    } else if s[0] == c {
    } else {
        let sub = s.subrange(1, s.len() as int);
        lemma_find_index_at(sub, c, f - 1);
    }
}

// ---------------------------------------------------------------------------
// Executable scanning helpers
// ---------------------------------------------------------------------------

/// Whether `c` is a blank that trimming removes.
pub fn is_blank_char(c: char) -> (r: bool)
    ensures
        r == is_blank(c),
{
    c == ' ' || c == '\t' || c == '\r'
}

/// First position of `c` in `s` at or after `from`, or the length of `s`
/// when `c` does not occur there.
pub fn scan_char(s: &str, from: usize, c: char) -> (r: usize)
    requires
        from <= s@.len(),
    ensures
        from <= r <= s@.len(),
        forall|j: int| from <= j < r ==> s@[j] != c,
        r < s@.len() ==> s@[r as int] == c,
{
    let n = s.unicode_len();
    let mut i = from;
    while i < n && s.get_char(i) != c
        invariant
            from <= i <= n,
            n == s@.len(),
            forall|j: int| from <= j < i ==> s@[j] != c,
        decreases n - i,
    {
        i += 1;
    }
    i
}

/// First position at or after `from` that is not blank, or the length of
/// `s` when everything after `from` is blank.
pub fn skip_blanks(s: &str, from: usize) -> (r: usize)
    requires
        from <= s@.len(),
    ensures
        from <= r <= s@.len(),
        forall|j: int| from <= j < r ==> is_blank(s@[j]),
        r < s@.len() ==> !is_blank(s@[r as int]),
{
    let n = s.unicode_len();
    let mut i = from;
    while i < n && is_blank_char(s.get_char(i))
        invariant
            from <= i <= n,
            n == s@.len(),
            forall|j: int| from <= j < i ==> is_blank(s@[j]),
        decreases n - i,
    {
        i += 1;
    }
    i
}

/// The input without blanks at either end.
pub fn trim_str(s: &str) -> (r: &str)
    ensures
        r@ == trim_model(s@),
{
    let n = s.unicode_len();
    let a = skip_blanks(s, 0);
    proof {
        lemma_trim_start_at(s@, a as int);
    }
    let mut b = n;
    while b > a && is_blank_char(s.get_char(b - 1))
        invariant
            a <= b <= n,
            n == s@.len(),
            forall|j: int| b <= j < n ==> is_blank(s@[j]),
        decreases b,
    {
        b -= 1;
    }
    proof {
        let start = s@.subrange(a as int, n as int);
        assert(forall|j: int| b - a <= j < start.len() ==> is_blank(start[j]));
        if b > a {
            assert(!is_blank(s@[b - 1]));
            assert(start[b - a - 1] == s@[b - 1]);
        }
        lemma_trim_end_at(start, b - a);
        assert(start.subrange(0, b - a) =~= s@.subrange(a as int, b as int));
    }
    s.substring_char(a, b)
}

/// Whether two string slices hold the same characters.
pub fn str_eq(a: &str, b: &str) -> (r: bool)
    ensures
        r == (a@ == b@),
{
    let sa = String::from_str(a);
    let sb = String::from_str(b);
    sa == sb
}

// ---------------------------------------------------------------------------
// Executable parsing, proved against the grammar
// ---------------------------------------------------------------------------

/// Parses the comma-separated quoted strings of a list value, read from
/// just after the opening bracket with leading blanks already removed.
#[verifier::rlimit(60)]
pub fn parse_items(s: &str) -> (r: Option<Vec<String>>)
    ensures
        match r {
            Some(items) => items_model(s@) == Some(strs_model(items@)),
            None => items_model(s@) is None,
        },
{
    let n = s.unicode_len();
    let mut items: Vec<String> = Vec::new();
    let mut i: usize = 0;
    proof {
        assert(s@.subrange(0, n as int) =~= s@);
        assert(strs_model(items@) =~= Seq::<Seq<char>>::empty());
    }
    loop
        invariant
            i <= n,
            n == s@.len(),
            items_model(s@) == (match items_model(s@.subrange(i as int, n as int)) {
                Some(rest) => Some(strs_model(items@) + rest),
                None => None::<Seq<Seq<char>>>,
            }),
        decreases n - i,
    {
        let ghost rem = s@.subrange(i as int, n as int);
        if i == n {
            proof {
                assert(rem =~= Seq::<char>::empty());
                assert(strs_model(items@) + Seq::<Seq<char>>::empty() =~= strs_model(items@));
            }
            return Some(items);
        }
        if s.get_char(i) != '"' {
            proof {
                assert(rem[0] == s@[i as int]);
            }
            return None;
        }
        let q = scan_char(s, i + 1, '"');
        let ghost rest = s@.subrange(i + 1, n as int);
        proof {
            assert(rem[0] == s@[i as int]);
            assert(rest =~= rem.subrange(1, rem.len() as int));
            assert(forall|j: int| 0 <= j < q - i - 1 ==> rest[j] == s@[i + 1 + j]);
            if q < n {
                assert(rest[q - i - 1] == s@[q as int]);
            }
            lemma_find_index_at(rest, '"', q - i - 1);
        }
        if q == n {
            return None;
        }
        let elem = s.substring_char(i + 1, q);
        let ghost old_items = items@;
        items.push(String::from_str(elem));
        proof {
            assert(elem@ =~= rest.subrange(0, q - i - 1));
            assert(strs_model(items@) =~= strs_model(old_items).push(elem@));
        }
        let j = skip_blanks(s, q + 1);
        let ghost after = s@.subrange(q + 1, n as int);
        proof {
            assert(after =~= rest.subrange(q - i - 1 + 1, rest.len() as int));
            assert(forall|k: int| 0 <= k < j - q - 1 ==> after[k] == s@[q + 1 + k]);
            if j < n {
                assert(after[j - q - 1] == s@[j as int]);
            }
            lemma_trim_start_at(after, j - q - 1);
            assert(after.subrange(j - q - 1, after.len() as int) =~= s@.subrange(
                j as int,
                n as int,
            ));
        }
        let ghost tail = s@.subrange(j as int, n as int);
        if j == n {
            proof {
                assert(tail.len() == 0);
                assert(strs_model(items@) + Seq::<Seq<char>>::empty() =~= strs_model(items@));
                assert(strs_model(old_items) + seq![elem@] =~= strs_model(items@));
            }
            return Some(items);
        }
        if s.get_char(j) != ',' {
            proof {
                assert(tail[0] == s@[j as int]);
            }
            return None;
        }
        let i2 = skip_blanks(s, j + 1);
        proof {
            assert(tail[0] == s@[j as int]);
            let tail1 = s@.subrange(j + 1, n as int);
            assert(tail1 =~= tail.subrange(1, tail.len() as int));
            assert(forall|k: int| 0 <= k < i2 - j - 1 ==> tail1[k] == s@[j + 1 + k]);
            if i2 < n {
                assert(tail1[i2 - j - 1] == s@[i2 as int]);
            }
            lemma_trim_start_at(tail1, i2 - j - 1);
            assert(tail1.subrange(i2 - j - 1, tail1.len() as int) =~= s@.subrange(
                i2 as int,
                n as int,
            ));
            let next = s@.subrange(i2 as int, n as int);
            assert(items_model(rem) == (match items_model(next) {
                Some(its) => Some(seq![elem@] + its),
                None => None::<Seq<Seq<char>>>,
            }));
            if items_model(next) is Some {
                let its = items_model(next)->Some_0;
                assert(strs_model(old_items) + (seq![elem@] + its) =~= strs_model(items@) + its);
            }
        }
        i = i2;
    }
}

/// Parses a (trimmed) value: a quoted string or a bracketed list of
/// quoted strings.
pub fn parse_value(v: &str) -> (r: Option<ManifestValue>)
    ensures
        match r {
            Some(val) => value_model(v@) == Some(val.model()),
            None => value_model(v@) is None,
        },
{
    let n = v.unicode_len();
    if n == 0 {
        return None;
    }
    let c0 = v.get_char(0);
    if c0 == '"' {
        if n < 2 || v.get_char(n - 1) != '"' {
            return None;
        }
        let mut i: usize = 1;
        while i < n - 1
            invariant
                1 <= i <= n - 1,
                n == v@.len(),
                n >= 2,
                v@[0] == '"',
                v@[n - 1] == '"',
                forall|j: int| 1 <= j < i ==> v@[j] != '"',
            decreases n - i,
        {
            if v.get_char(i) == '"' {
                proof {
                    assert(!(forall|j: int| 1 <= j < v@.len() - 1 ==> v@[j] != '"')) by {
                        assert(1 <= i < v@.len() - 1 && v@[i as int] == '"');
                    }
                }
                return None;
            }
            i += 1;
        }
        let mid = v.substring_char(1, n - 1);
        Some(ManifestValue::Str(String::from_str(mid)))
    } else if c0 == '[' {
        if n < 2 || v.get_char(n - 1) != ']' {
            return None;
        }
        let inner = trim_str(v.substring_char(1, n - 1));
        match parse_items(inner) {
            Some(items) => Some(ManifestValue::List(items)),
            None => None,
        }
    } else {
        None
    }
}

/// The parsed form of one raw line.
#[derive(Debug)]
pub enum LineParsed {
    Blank,
    Header(String),
    Entry(ManifestEntry),
    Bad,
}

impl LineParsed {
    pub open spec fn model(self) -> LineModel {
        match self {
            LineParsed::Blank => LineModel::Blank,
            LineParsed::Header(name) => LineModel::Header(name@),
            LineParsed::Entry(e) => LineModel::Entry(e.model()),
            LineParsed::Bad => LineModel::Bad,
        }
    }
}

/// Parses one raw line of the document.
pub fn parse_line(line: &str) -> (r: LineParsed)
    ensures
        r.model() == line_model(line@),
{
    let t = trim_str(line);
    let n = t.unicode_len();
    if n == 0 {
        return LineParsed::Blank;
    }
    let c0 = t.get_char(0);
    if c0 == '#' {
        return LineParsed::Blank;
    }
    if c0 == '[' {
        if n >= 2 && t.get_char(n - 1) == ']' {
            let name = trim_str(t.substring_char(1, n - 1));
            if name.unicode_len() > 0 {
                LineParsed::Header(String::from_str(name))
            } else {
                LineParsed::Bad
            }
        } else {
            LineParsed::Bad
        }
    } else {
        let e = scan_char(t, 0, '=');
        proof {
            lemma_find_index_at(t@, '=', e as int);
        }
        if e == n {
            return LineParsed::Bad;
        }
        let key = trim_str(t.substring_char(0, e));
        if key.unicode_len() == 0 {
            return LineParsed::Bad;
        }
        let val_txt = trim_str(t.substring_char(e + 1, n));
        match parse_value(val_txt) {
            Some(v) => LineParsed::Entry(
                ManifestEntry { key: String::from_str(key), value: v },
            ),
            None => LineParsed::Bad,
        }
    }
}

/// The model of the section being filled, if one is open.
pub open spec fn section_opt_model(c: Option<ManifestSection>) -> Option<SectionModel> {
    match c {
        Some(s) => Some(s.model()),
        None => None,
    }
}

/// Parses a whole manifest document into its sections, exactly as the
/// grammar says: `Malformed` when and only when some line is ill-formed
/// or an entry stands before any section header.
#[verifier::rlimit(80)]
pub fn parse_manifest_doc(text: &str) -> (r: Result<Vec<ManifestSection>, ConfigError>)
    ensures
        match r {
            Ok(d) => text_model(text@) == Some(doc_model(d@)),
            Err(e) => e == ConfigError::Malformed && text_model(text@) is None,
        },
{
    let n = text.unicode_len();
    let mut done: Vec<ManifestSection> = Vec::new();
    let mut cur: Option<ManifestSection> = None;
    let mut pos: usize = 0;
    let mut at_end = false;
    proof {
        assert(text@.subrange(0, n as int) =~= text@);
        assert(doc_model(done@) =~= Seq::<SectionModel>::empty());
    }
    loop
        invariant
            pos <= n,
            n == text@.len(),
            !at_end ==> fold_lines(
                lines_of(text@.subrange(pos as int, n as int)),
                doc_model(done@),
                section_opt_model(cur),
            ) == text_model(text@),
            at_end ==> fold_lines(
                Seq::<Seq<char>>::empty(),
                doc_model(done@),
                section_opt_model(cur),
            ) == text_model(text@),
        decreases n - pos + (if at_end { 0int } else { 1int }),
    {
        if at_end {
            match cur {
                Some(sec) => {
                    let ghost old_done = done@;
                    done.push(sec);
                    proof {
                        assert(doc_model(done@) =~= doc_model(old_done).push(sec.model()));
                    }
                },
                None => {},
            }
            return Ok(done);
        }
        let ghost suffix = text@.subrange(pos as int, n as int);
        let e = scan_char(text, pos, '\n');
        proof {
            assert(forall|j: int| 0 <= j < e - pos ==> suffix[j] == text@[pos + j]);
            if e < n {
                assert(suffix[e - pos] == text@[e as int]);
            }
            lemma_find_index_at(suffix, '\n', e - pos);
        }
        let line = text.substring_char(pos, e);
        let ghost lines = lines_of(suffix);
        proof {
            if e == n {
                assert(line@ =~= suffix);
                assert(lines =~= seq![suffix]);
                assert(lines.subrange(1, lines.len() as int) =~= Seq::<Seq<char>>::empty());
            } else {
                assert(line@ =~= suffix.subrange(0, e - pos));
                assert(text@.subrange(e + 1, n as int) =~= suffix.subrange(
                    e - pos + 1,
                    suffix.len() as int,
                ));
                assert(lines.subrange(1, lines.len() as int) =~= lines_of(
                    text@.subrange(e + 1, n as int),
                ));
            }
            assert(lines[0] == line@);
        }
        let parsed = parse_line(line);
        match parsed {
            LineParsed::Blank => {},
            LineParsed::Header(name) => {
                let prev = cur;
                match prev {
                    Some(sec) => {
                        let ghost old_done = done@;
                        done.push(sec);
                        proof {
                            assert(doc_model(done@) =~= doc_model(old_done).push(sec.model()));
                        }
                    },
                    None => {},
                }
                cur = Some(ManifestSection { name, entries: Vec::new() });
                proof {
                    assert(cur->Some_0.model().entries =~= Seq::<EntryModel>::empty());
                }
            },
            LineParsed::Entry(em) => {
                let ghost em_model = em.model();
                let prev = cur;
                match prev {
                    Some(sec) => {
                        let mut sec2 = sec;
                        let ghost old_entries = sec2.entries@;
                        sec2.entries.push(em);
                        proof {
                            assert(sec2.entries@.map_values(|x: ManifestEntry| x.model())
                                =~= old_entries.map_values(|x: ManifestEntry| x.model()).push(
                                em_model,
                            ));
                        }
                        cur = Some(sec2);
                    },
                    None => {
                        return Err(ConfigError::Malformed);
                    },
                }
            },
            LineParsed::Bad => {
                return Err(ConfigError::Malformed);
            },
        }
        if e == n {
            at_end = true;
        } else {
            pos = e + 1;
        }
    }
}

} // verus!
