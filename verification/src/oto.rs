//! Reading the `oto.ini` timing file of a syllable voice bank: decoding its
//! bytes (UTF-8, else Shift_JIS) and picking, from each
//! `file.wav=alias,offset,preutterance,...` line, the file name and the
//! text of the preutterance field.

use vstd::prelude::*;
use vstd::utf8::{decode_utf8, valid_utf8};

verus! {

/// The characters that `char::is_whitespace` accepts: those with the
/// Unicode `White_Space` property.
pub open spec fn is_whitespace(c: char) -> bool {
    let u = c as u32;
    ||| 9 <= u <= 13
    ||| u == 32
    ||| u == 0x85
    ||| u == 0xa0
    ||| u == 0x1680
    ||| 0x2000 <= u <= 0x200a
    ||| u == 0x2028
    ||| u == 0x2029
    ||| u == 0x202f
    ||| u == 0x205f
    ||| u == 0x3000
}

/// Whether `c` is white space.
pub fn is_whitespace_char(c: char) -> (r: bool)
    ensures
        r == is_whitespace(c),
{
    let u = c as u32;
    (9 <= u && u <= 13) || u == 32 || u == 0x85 || u == 0xa0 || u == 0x1680 || (0x2000 <= u && u
        <= 0x200a) || u == 0x2028 || u == 0x2029 || u == 0x202f || u == 0x205f || u == 0x3000
}

/// The first index from `i` on that does not hold white space.
pub open spec fn trim_start_from(s: Seq<char>, i: int) -> int
    decreases s.len() - i,
{
    if i < 0 || i >= s.len() || !is_whitespace(s[i]) {
        i
    } else {
        trim_start_from(s, i + 1)
    }
}

/// The end of `s[lo..j]` once its trailing white space is dropped.
pub open spec fn trim_end_to(s: Seq<char>, lo: int, j: int) -> int
    decreases j - lo,
{
    if j <= lo || j > s.len() || !is_whitespace(s[j - 1]) {
        j
    } else {
        trim_end_to(s, lo, j - 1)
    }
}

/// `s` without leading and trailing white space, as `str::trim` gives it.
pub open spec fn trimmed(s: Seq<char>) -> Seq<char> {
    let a = trim_start_from(s, 0);
    s.subrange(a, trim_end_to(s, a, s.len() as int))
}

/// The first index from `from` on that holds `c`, or the length of `s`.
pub open spec fn find_char(s: Seq<char>, c: char, from: int) -> int
    decreases s.len() - from,
{
    if from < 0 || from >= s.len() {
        s.len() as int
    } else if s[from] == c {
        from
    } else {
        find_char(s, c, from + 1)
    }
}

pub proof fn lemma_find_char_bounds(s: Seq<char>, c: char, from: int)
    requires
        0 <= from,
    ensures
        from <= s.len() ==> from <= find_char(s, c, from) <= s.len(),
        find_char(s, c, from) < s.len() ==> s[find_char(s, c, from)] == c,
    decreases s.len() - from,
{
    if from < s.len() && s[from] != c {
        lemma_find_char_bounds(s, c, from + 1);
    }
}

/// The entry that one line of `oto.ini` gives. After trimming, empty lines
/// and comments (`;` or `#`) give none; so does a line without `=` or whose
/// value part has fewer than three comma-separated fields. Otherwise the
/// entry is the trimmed text before the first `=` and the trimmed third field
/// after it, the preutterance in milliseconds.
pub open spec fn oto_entry(line: Seq<char>) -> Option<(Seq<char>, Seq<char>)> {
    let t = trimmed(line);
    if t.len() == 0 || t[0] == ';' || t[0] == '#' {
        None
    } else {
        let eq = find_char(t, '=', 0);
        let c1 = find_char(t, ',', eq + 1);
        let c2 = find_char(t, ',', c1 + 1);
        let c3 = find_char(t, ',', c2 + 1);
        if eq >= t.len() || c1 >= t.len() || c2 >= t.len() {
            None
        } else {
            Some((trimmed(t.subrange(0, eq)), trimmed(t.subrange(c2 + 1, c3))))
        }
    }
}

/// The characters of `s`.
fn chars_of(s: &str) -> (v: Vec<char>)
    ensures
        v@ == s@,
{
    let n = s.unicode_len();
    let mut v: Vec<char> = Vec::new();
    let mut i: usize = 0;
    while i < n
        invariant
            n == s@.len(),
            i <= n,
            v@ == s@.subrange(0, i as int),
        decreases n - i,
    {
        v.push(s.get_char(i));
        i += 1;
        assert(v@ =~= s@.subrange(0, i as int));
    }
    v
}

/// The characters `v[lo..hi]`.
fn sub_chars(v: &Vec<char>, lo: usize, hi: usize) -> (r: Vec<char>)
    requires
        lo <= hi <= v@.len(),
    ensures
        r@ == v@.subrange(lo as int, hi as int),
{
    let mut r: Vec<char> = Vec::new();
    let mut i = lo;
    while i < hi
        invariant
            lo <= i <= hi,
            hi <= v@.len(),
            r@ == v@.subrange(lo as int, i as int),
        decreases hi - i,
    {
        r.push(v[i]);
        i += 1;
        assert(r@ =~= v@.subrange(lo as int, i as int));
    }
    r
}

/// The bounds of `v` without its leading and trailing white space.
fn trim_bounds(v: &Vec<char>) -> (r: (usize, usize))
    ensures
        r.0 <= r.1 <= v@.len(),
        v@.subrange(r.0 as int, r.1 as int) == trimmed(v@),
{
    let mut a: usize = 0;
    while a < v.len() && is_whitespace_char(v[a])
        invariant
            a <= v@.len(),
            trim_start_from(v@, 0) == trim_start_from(v@, a as int),
        decreases v@.len() - a,
    {
        a += 1;
    }
    let mut b: usize = v.len();
    while b > a && is_whitespace_char(v[b - 1])
        invariant
            a <= b <= v@.len(),
            a == trim_start_from(v@, 0),
            trim_end_to(v@, a as int, v@.len() as int) == trim_end_to(v@, a as int, b as int),
        decreases b - a,
    {
        b -= 1;
    }
    (a, b)
}

/// The first index from `from` on that holds `c`, or the length of `v`.
fn find_from(v: &Vec<char>, c: char, from: usize) -> (r: usize)
    requires
        from <= v@.len(),
    ensures
        r == find_char(v@, c, from as int),
        from <= r <= v@.len(),
{
    let mut i = from;
    while i < v.len() && v[i] != c
        invariant
            from <= i <= v@.len(),
            find_char(v@, c, from as int) == find_char(v@, c, i as int),
        decreases v@.len() - i,
    {
        i += 1;
    }
    i
}

/// Reads one line of `oto.ini`: the file name and the preutterance text, or
/// `None` for a line that holds no entry.
pub fn parse_oto_line(line: &str) -> (r: Option<(String, String)>)
    ensures
        r is None <==> oto_entry(line@) is None,
        r matches Some((name, value)) ==> oto_entry(line@) == Some((name@, value@)),
{
    let v = chars_of(line);
    let (a, b) = trim_bounds(&v);
    let t = sub_chars(&v, a, b);
    if t.len() == 0 || t[0] == ';' || t[0] == '#' {
        return None;
    }
    let eq = find_from(&t, '=', 0);
    if eq >= t.len() {
        return None;
    }
    let c1 = find_from(&t, ',', eq + 1);
    if c1 >= t.len() {
        return None;
    }
    let c2 = find_from(&t, ',', c1 + 1);
    if c2 >= t.len() {
        return None;
    }
    let c3 = find_from(&t, ',', c2 + 1);
    let name_part = sub_chars(&t, 0, eq);
    let (na, nb) = trim_bounds(&name_part);
    let value_part = sub_chars(&t, c2 + 1, c3);
    let (va, vb) = trim_bounds(&value_part);
    let name = String::from_str(line.substring_char(a + na, a + nb));
    let value = String::from_str(line.substring_char(a + c2 + 1 + va, a + c2 + 1 + vb));
    assert(name@ =~= trimmed(t@.subrange(0, eq as int)));
    assert(value@ =~= trimmed(t@.subrange(c2 + 1, c3 as int)));
    Some((name, value))
}

/// The lines of `s` from index `start` on, as `str::lines` gives them:
/// split at each `\n`, a `\r` just before a `\n` dropped, and no empty line
/// after a final `\n`.
pub open spec fn lines_from(s: Seq<char>, start: int) -> Seq<Seq<char>>
    decreases s.len() - start,
    via lines_from_decreases
{
    if start < 0 || start >= s.len() {
        Seq::empty()
    } else {
        let e = find_char(s, '\n', start);
        let raw = s.subrange(start, e);
        let line = if e < s.len() && raw.len() > 0 && raw.last() == '\r' {
            raw.drop_last()
        } else {
            raw
        };
        if e >= s.len() {
            seq![line]
        } else {
            seq![line] + lines_from(s, e + 1)
        }
    }
}

#[via_fn]
proof fn lines_from_decreases(s: Seq<char>, start: int) {
    if 0 <= start < s.len() {
        lemma_find_char_bounds(s, '\n', start);
    }
}

/// The lines of a text, as `str::lines` gives them.
pub open spec fn text_lines(s: Seq<char>) -> Seq<Seq<char>> {
    lines_from(s, 0)
}

/// `str::lines`: the lines of `s`, without their line endings (`\n` or
/// `\r\n`); a final line ending gives no empty last line.
#[verifier::external_body]
fn split_lines(s: &str) -> (r: Vec<String>)
    ensures
        r@.map_values(|l: String| l@) == text_lines(s@),
{
    s.lines().map(String::from).collect()
}

/// The entries that a sequence of `oto.ini` lines gives, in order.
pub open spec fn oto_entries(lines: Seq<Seq<char>>) -> Seq<(Seq<char>, Seq<char>)>
    decreases lines.len(),
{
    if lines.len() == 0 {
        Seq::empty()
    } else {
        let rest = oto_entries(lines.drop_last());
        match oto_entry(lines.last()) {
            Some(e) => rest.push(e),
            None => rest,
        }
    }
}

/// An entry of owned strings, seen as characters.
pub open spec fn entry_view(e: (String, String)) -> (Seq<char>, Seq<char>) {
    (e.0@, e.1@)
}

/// Reads all entries of an `oto.ini` text in the order of its lines: file
/// name and preutterance text. Lines without an entry are skipped.
pub fn parse_oto(content: &str) -> (r: Vec<(String, String)>)
    ensures
        r@.map_values(|e: (String, String)| entry_view(e)) == oto_entries(text_lines(content@)),
        forall|k: int|
            0 <= k < text_lines(content@).len() && (#[trigger] oto_entry(text_lines(content@)[k]))
                is Some ==> r@.map_values(|e: (String, String)| entry_view(e)).contains(
                oto_entry(text_lines(content@)[k])->0,
            ),
        content@.len() > 0 && !content@.contains('\n') ==> r@.map_values(
            |e: (String, String)| entry_view(e),
        ) == match oto_entry(content@) {
            Some(e) => seq![e],
            None => Seq::<(Seq<char>, Seq<char>)>::empty(),
        },
{
    let lines = split_lines(content);
    let ghost ls = text_lines(content@);
    let mut entries: Vec<(String, String)> = Vec::new();
    let mut i: usize = 0;
    while i < lines.len()
        invariant
            i <= lines@.len(),
            lines@.map_values(|l: String| l@) == ls,
            entries@.map_values(|e: (String, String)| entry_view(e)) == oto_entries(ls.take(i as int)),
        decreases lines@.len() - i,
    {
        let parsed = parse_oto_line(lines[i].as_str());
        proof {
            assert(ls.take(i + 1).drop_last() =~= ls.take(i as int));
            assert(ls.take(i + 1).last() == lines@[i as int]@);
        }
        match parsed {
            Some(e) => {
                entries.push(e);
            },
            None => {},
        }
        i += 1;
        proof {
            assert(entries@.map_values(|e: (String, String)| entry_view(e)) =~= oto_entries(
                ls.take(i as int),
            ));
        }
    }
    assert(ls.take(lines@.len() as int) =~= ls);
    proof {
        assert forall|k: int|
            0 <= k < ls.len() && (#[trigger] oto_entry(ls[k])) is Some implies entries@.map_values(
            |e: (String, String)| entry_view(e),
        ).contains(oto_entry(ls[k])->0) by {
            law_oto_keeps_every_entry(ls, k);
        }
        if content@.len() > 0 && !content@.contains('\n') {
            law_one_line_text_entries(content@);
        }
    }
    entries
}

/// The text that `encoding_rs::SHIFT_JIS.decode` makes of `bytes`: a byte
/// order mark, if any, selects its encoding and is dropped; malformed
/// sequences become U+FFFD.
pub uninterp spec fn shift_jis_decoded(bytes: Seq<u8>) -> Seq<char>;

/// `encoding_rs::SHIFT_JIS.decode`: decodes `bytes` as Shift_JIS (with byte
/// order mark sniffing). It panics only where the size of its output buffer
/// overflows `usize`, which the bound excludes.
#[verifier::external_body]
fn decode_shift_jis(bytes: &[u8]) -> (r: String)
    requires
        bytes@.len() <= usize::MAX / 8,
    ensures
        r@ == shift_jis_decoded(bytes@),
{
    encoding_rs::SHIFT_JIS.decode(bytes).0.into_owned()
}

/// `String::from_utf8`: the text that `bytes` encode when they are valid
/// UTF-8, else `None`.
#[verifier::external_body]
fn decode_utf8_text(bytes: &[u8]) -> (r: Option<String>)
    ensures
        r is Some <==> valid_utf8(bytes@),
        r matches Some(s) ==> s@ == decode_utf8(bytes@),
{
    String::from_utf8(bytes.to_vec()).ok()
}

/// The text of an `oto.ini` file: its bytes read as UTF-8 when they are
/// valid UTF-8, else as Shift_JIS, the usual encoding of these files.
pub fn decode_oto_text(raw: &[u8]) -> (r: String)
    requires
        raw@.len() <= usize::MAX / 8,
    ensures
        valid_utf8(raw@) ==> r@ == decode_utf8(raw@),
        !valid_utf8(raw@) ==> r@ == shift_jis_decoded(raw@),
{
    match decode_utf8_text(raw) {
        Some(s) => s,
        None => decode_shift_jis(raw),
    }
}

/// The entries of consecutive blocks of lines are the entries of the first
/// block followed by those of the second: every line is read on its own.
pub proof fn law_oto_entries_concat(a: Seq<Seq<char>>, b: Seq<Seq<char>>)
    ensures
        oto_entries(a + b) == oto_entries(a) + oto_entries(b),
    decreases b.len(),
{
    if b.len() == 0 {
        assert(a + b =~= a);
        assert(oto_entries(a) + oto_entries(b) =~= oto_entries(a));
    } else {
        law_oto_entries_concat(a, b.drop_last());
        assert((a + b).drop_last() =~= a + b.drop_last());
        assert((a + b).last() == b.last());
        match oto_entry(b.last()) {
            Some(e) => {
                assert(oto_entries(a) + oto_entries(b) =~= (oto_entries(a) + oto_entries(
                    b.drop_last(),
                )).push(e));
            },
            None => {},
        }
    }
}

/// A single line gives exactly its own entry, or nothing when it holds none.
pub proof fn law_oto_entries_single(line: Seq<char>)
    ensures
        oto_entry(line) matches Some(e) ==> oto_entries(seq![line]) == seq![e],
        oto_entry(line) is None ==> oto_entries(seq![line]) == Seq::<(Seq<char>, Seq<char>)>::empty(),
{
    let one = seq![line];
    let none = Seq::<Seq<char>>::empty();
    assert(one.drop_last() =~= none);
    assert(one.last() == line);
    assert(oto_entries(none) == Seq::<(Seq<char>, Seq<char>)>::empty());
    assert(oto_entries(one) == match oto_entry(line) {
        Some(e) => oto_entries(none).push(e),
        None => oto_entries(none),
    });
    if let Some(e) = oto_entry(line) {
        assert(Seq::<(Seq<char>, Seq<char>)>::empty().push(e) =~= seq![e]);
    }
}

/// Every line that holds an entry contributes it, and entries keep the order
/// of their lines: line `k` gives the entries of the lines before it, then
/// its own, then those after it.
pub proof fn law_oto_keeps_every_entry(lines: Seq<Seq<char>>, k: int)
    requires
        0 <= k < lines.len(),
    ensures
        oto_entry(lines[k]) matches Some(e) ==> oto_entries(lines) == oto_entries(lines.take(k))
            + seq![e] + oto_entries(lines.skip(k + 1)),
        oto_entry(lines[k]) matches Some(e) ==> oto_entries(lines).contains(e),
{
    let before = lines.take(k);
    let after = lines.skip(k + 1);
    assert(lines =~= before + seq![lines[k]] + after);
    law_oto_entries_concat(before + seq![lines[k]], after);
    law_oto_entries_concat(before, seq![lines[k]]);
    law_oto_entries_single(lines[k]);
    if let Some(e) = oto_entry(lines[k]) {
        let r = oto_entries(before) + seq![e] + oto_entries(after);
        assert(r[oto_entries(before).len() as int] == e);
    }
}

/// A search from `from` in a stretch without `c` runs to the end.
pub proof fn lemma_find_char_absent(s: Seq<char>, c: char, from: int)
    requires
        0 <= from,
        forall|i: int| from <= i < s.len() ==> s[i] != c,
    ensures
        find_char(s, c, from) == s.len(),
    decreases s.len() - from,
{
    if from < s.len() {
        lemma_find_char_absent(s, c, from + 1);
    }
}

/// A non-empty text without a line feed is one line.
pub proof fn law_text_without_newline_is_one_line(s: Seq<char>)
    requires
        s.len() > 0,
        !s.contains('\n'),
    ensures
        text_lines(s) == seq![s],
{
    lemma_find_char_absent(s, '\n', 0);
    assert(s.subrange(0, s.len() as int) =~= s);
}

/// The entries of a one-line text without a line feed are exactly the
/// entry of that line.
pub proof fn law_one_line_text_entries(s: Seq<char>)
    requires
        s.len() > 0,
        !s.contains('\n'),
    ensures
        oto_entry(s) matches Some(e) ==> oto_entries(text_lines(s)) == seq![e],
        oto_entry(s) is None ==> oto_entries(text_lines(s)) == Seq::<(Seq<char>, Seq<char>)>::empty(),
{
    law_text_without_newline_is_one_line(s);
    law_oto_entries_single(s);
}

} // verus!
