//! Quoting of bare hexadecimal values in a serialised configuration.
//!
//! A colour written as `0x1d1f21` without quotes reads as a number, and the
//! terminal then refuses the setting, which must be a string. The rewrite
//! works line by line: where the value of a `key = value` line is a bare
//! `0x` followed by hexadecimal digits, the value is put in double quotes.
//! Comment lines and lines whose key is quoted are left alone. So is all
//! the text from the first line on that holds three quotation marks in a
//! row: there a string may run over several lines, and what looks like a
//! line of the configuration may be a part of that string.

use crate::text::chars_of;
use crate::text::string_of;
use vstd::prelude::*;

verus! {

/// Whether `c` is a hexadecimal digit.
pub open spec fn is_hex_digit(c: char) -> bool {
    ('0' <= c && c <= '9') || ('a' <= c && c <= 'f') || ('A' <= c && c <= 'F')
}

/// Whether `c` is a space or a tab.
pub open spec fn is_blank(c: char) -> bool {
    c == ' ' || c == '\t'
}

/// Whether `c` may follow a bare value on its line: white space or the
/// start of a comment.
pub open spec fn ends_value(c: char) -> bool {
    c == ' ' || c == '\t' || c == '\r' || c == '#'
}

/// Whether `c` ends the bare key that a line starts with: the equals sign,
/// or a character that shows that the line starts with no bare key (a
/// comment sign or a quotation mark).
pub open spec fn is_key_stop(c: char) -> bool {
    c == '=' || c == '#' || c == '"' || c == '\''
}

/// The first place at or after `from` that holds a character which ends a
/// bare key; the length of `s` where there is none.
pub open spec fn key_end(s: Seq<char>, from: int) -> int
    decreases s.len() - from,
{
    if 0 <= from < s.len() && !is_key_stop(s[from]) {
        key_end(s, from + 1)
    } else {
        from
    }
}

/// The place of the first `c` in `s` at or after `from`; the length of `s`
/// where there is none.
pub open spec fn find_from(s: Seq<char>, c: char, from: int) -> int
    decreases s.len() - from,
{
    if from >= s.len() {
        s.len() as int
    } else if s[from] == c {
        from
    } else {
        find_from(s, c, from + 1)
    }
}

/// The first place at or after `from` that holds no blank.
pub open spec fn skip_blanks(s: Seq<char>, from: int) -> int
    decreases s.len() - from,
{
    if 0 <= from < s.len() && is_blank(s[from]) {
        skip_blanks(s, from + 1)
    } else {
        from
    }
}

/// The first place at or after `from` that holds no hexadecimal digit.
pub open spec fn hex_run_end(s: Seq<char>, from: int) -> int
    decreases s.len() - from,
{
    if 0 <= from < s.len() && is_hex_digit(s[from]) {
        hex_run_end(s, from + 1)
    } else {
        from
    }
}

/// Where the bare hexadecimal value of a line starts and ends: the line
/// has the form `key = 0x<digits>`, with a bare key and at least one digit,
/// and after the digits the line ends or white space or a comment follows.
/// `None` for every other line.
pub open spec fn bare_hex_value(line: Seq<char>) -> Option<(int, int)> {
    let eq = key_end(line, 0);
    let start = skip_blanks(line, eq + 1);
    let end = hex_run_end(line, start + 2);
    if 0 <= eq < line.len() && line[eq] == '=' && start + 2 < line.len() && line[start] == '0'
        && line[start + 1] == 'x' && end > start + 2 && (end == line.len() || ends_value(
        line[end],
    )) {
        Some((start, end))
    } else {
        None
    }
}

/// A line with its bare hexadecimal value, if it has one, in double quotes.
pub open spec fn quoted_line(line: Seq<char>) -> Seq<char> {
    match bare_hex_value(line) {
        Some((start, end)) => line.subrange(0, start) + seq!['"'] + line.subrange(start, end)
            + seq!['"'] + line.subrange(end, line.len() as int),
        None => line,
    }
}

/// Whether `line` holds, from place `i` on, three quotation marks of one
/// kind.
pub open spec fn long_string_mark(line: Seq<char>, i: int) -> bool {
    0 <= i && i + 2 < line.len() && (line[i] == '"' || line[i] == '\'') && line[i + 1] == line[i]
        && line[i + 2] == line[i]
}

/// Whether a line holds three quotation marks of one kind in a row, the
/// mark that opens or closes a string of several lines.
pub open spec fn has_long_string_mark(line: Seq<char>) -> bool {
    exists|i: int| long_string_mark(line, i)
}

/// A text with every line rewritten by `quoted_line`, up to the first line
/// that holds the mark of a string of several lines; from that line on the
/// text is kept as it is.
pub open spec fn quoted_text(text: Seq<char>) -> Seq<char>
    decreases text.len(),
{
    let n = find_from(text, '\n', 0);
    if !(0 <= n < text.len()) {
        if has_long_string_mark(text) {
            text
        } else {
            quoted_line(text)
        }
    } else if has_long_string_mark(text.subrange(0, n)) {
        text
    } else {
        quoted_line(text.subrange(0, n)) + seq!['\n'] + quoted_text(
            text.subrange(n + 1, text.len() as int),
        )
    }
}

/// `find_from` stays within the sequence, and nothing before its result is
/// the character looked for.
pub proof fn lemma_find_from(s: Seq<char>, c: char, from: int)
    requires
        0 <= from <= s.len(),
    ensures
        from <= find_from(s, c, from) <= s.len(),
        find_from(s, c, from) < s.len() ==> s[find_from(s, c, from)] == c,
        forall|i: int| from <= i < find_from(s, c, from) ==> s[i] != c,
    decreases s.len() - from,
{
    if from < s.len() && s[from] != c {
        lemma_find_from(s, c, from + 1);
    }
}

/// `key_end` stays within the sequence and passes over no character that
/// ends a bare key.
pub proof fn lemma_key_end(s: Seq<char>, from: int)
    requires
        0 <= from <= s.len(),
    ensures
        from <= key_end(s, from) <= s.len(),
        key_end(s, from) < s.len() ==> is_key_stop(s[key_end(s, from)]),
        forall|i: int| from <= i < key_end(s, from) ==> !is_key_stop(s[i]),
    decreases s.len() - from,
{
    if from < s.len() && !is_key_stop(s[from]) {
        lemma_key_end(s, from + 1);
    }
}

/// `skip_blanks` stays within the sequence and passes over blanks only.
pub proof fn lemma_skip_blanks(s: Seq<char>, from: int)
    requires
        0 <= from <= s.len(),
    ensures
        from <= skip_blanks(s, from) <= s.len(),
        skip_blanks(s, from) < s.len() ==> !is_blank(s[skip_blanks(s, from)]),
        forall|i: int| from <= i < skip_blanks(s, from) ==> is_blank(s[i]),
    decreases s.len() - from,
{
    if from < s.len() && is_blank(s[from]) {
        lemma_skip_blanks(s, from + 1);
    }
}

/// `hex_run_end` stays within the sequence and passes over hexadecimal
/// digits only.
pub proof fn lemma_hex_run_end(s: Seq<char>, from: int)
    requires
        0 <= from <= s.len(),
    ensures
        from <= hex_run_end(s, from) <= s.len(),
        hex_run_end(s, from) < s.len() ==> !is_hex_digit(s[hex_run_end(s, from)]),
        forall|i: int| from <= i < hex_run_end(s, from) ==> is_hex_digit(s[i]),
    decreases s.len() - from,
{
    if from < s.len() && is_hex_digit(s[from]) {
        lemma_hex_run_end(s, from + 1);
    }
}

/// A bare key ends at the same place in two sequences that agree up to and
/// including that place.
proof fn lemma_key_end_prefix(s: Seq<char>, t: Seq<char>, from: int)
    requires
        0 <= from <= s.len(),
        key_end(s, from) < s.len(),
        key_end(s, from) < t.len(),
        forall|i: int| from <= i <= key_end(s, from) ==> s[i] == t[i],
    ensures
        key_end(t, from) == key_end(s, from),
    decreases s.len() - from,
{
    lemma_key_end(s, from);
    if !is_key_stop(s[from]) {
        lemma_key_end_prefix(s, t, from + 1);
    }
}

/// Blanks are skipped alike in two sequences that agree up to the first
/// place that holds no blank, where the second holds no blank either.
proof fn lemma_skip_blanks_prefix(s: Seq<char>, t: Seq<char>, from: int)
    requires
        0 <= from <= s.len(),
        skip_blanks(s, from) < t.len(),
        forall|i: int| from <= i < skip_blanks(s, from) ==> s[i] == t[i],
        !is_blank(t[skip_blanks(s, from)]),
    ensures
        skip_blanks(t, from) == skip_blanks(s, from),
    decreases s.len() - from,
{
    lemma_skip_blanks(s, from);
    if from < s.len() && is_blank(s[from]) {
        lemma_skip_blanks_prefix(s, t, from + 1);
    }
}

/// Quoting a line twice is quoting it once: a quoted value is no bare
/// value.
pub proof fn lemma_quoted_line_is_stable(line: Seq<char>)
    ensures
        bare_hex_value(quoted_line(line)) is None,
        quoted_line(quoted_line(line)) == quoted_line(line),
{
    match bare_hex_value(line) {
        Some((start, end)) => {
            let q = quoted_line(line);
            let eq = key_end(line, 0);
            lemma_key_end(line, 0);
            lemma_skip_blanks(line, eq + 1);
            lemma_hex_run_end(line, start + 2);
            assert(q[start] == '"');
            assert forall|i: int| 0 <= i < start implies line[i] == q[i] by {}
            lemma_key_end_prefix(line, q, 0);
            lemma_skip_blanks_prefix(line, q, eq + 1);
        },
        None => {},
    }
}

/// A line that holds no line break keeps holding none when it is quoted.
proof fn lemma_quoted_line_has_no_break(line: Seq<char>)
    requires
        forall|i: int| 0 <= i < line.len() ==> line[i] != '\n',
    ensures
        forall|i: int| 0 <= i < quoted_line(line).len() ==> quoted_line(line)[i] != '\n',
{
    match bare_hex_value(line) {
        Some((start, end)) => {
            let eq = key_end(line, 0);
            lemma_key_end(line, 0);
            lemma_skip_blanks(line, eq + 1);
            lemma_hex_run_end(line, start + 2);
        },
        None => {},
    }
}

/// The first `c` of `head + seq![c] + tail` is the one in the middle, where
/// `head` holds none.
proof fn lemma_find_in_joined(head: Seq<char>, c: char, tail: Seq<char>, from: int)
    requires
        0 <= from <= head.len(),
        forall|i: int| 0 <= i < head.len() ==> head[i] != c,
    ensures
        find_from(head + seq![c] + tail, c, from) == head.len(),
    decreases head.len() - from,
{
    let s = head + seq![c] + tail;
    if from < head.len() {
        assert(s[from] == head[from]);
        lemma_find_in_joined(head, c, tail, from + 1);
    } else {
        assert(s[from] == c);
    }
}

/// Quoting a line adds no mark of a string of several lines.
pub proof fn lemma_quoted_line_has_no_mark(line: Seq<char>)
    requires
        !has_long_string_mark(line),
    ensures
        !has_long_string_mark(quoted_line(line)),
{
    match bare_hex_value(line) {
        Some((start, end)) => {
            let q = quoted_line(line);
            let eq = key_end(line, 0);
            lemma_key_end(line, 0);
            lemma_skip_blanks(line, eq + 1);
            lemma_hex_run_end(line, start + 2);
            assert(q.len() == line.len() + 2);
            assert forall|i: int| 0 <= i < start implies q[i] == line[i] by {}
            assert forall|i: int| start < i <= end implies q[i] == line[i - 1] by {}
            assert forall|i: int| end + 1 < i < q.len() implies q[i] == line[i - 2] by {}
            assert forall|i: int| start < i <= end implies q[i] != '"' && q[i] != '\'' by {
                let c = line[i - 1];
                if i - 1 >= start + 2 {
                    assert(is_hex_digit(c));
                }
            }
            // What stands before the value is the equals sign or a blank.
            assert(start > eq);
            assert(q[start - 1] == '=' || is_blank(q[start - 1])) by {
                if start - 1 > eq {
                    assert(is_blank(line[start - 1]));
                }
            }
            assert forall|i: int| !long_string_mark(q, i) by {
                if long_string_mark(q, i) {
                    if i + 2 < start {
                        assert(long_string_mark(line, i));
                    } else if i > end + 1 {
                        assert(long_string_mark(line, i - 2));
                    } else {
                        // One of the three places is the value, or next to it.
                        assert(i <= end + 1 && i + 2 >= start);
                        if i == end + 1 {
                            assert(q[i + 1] == line[end]);
                            assert(ends_value(line[end]));
                        }
                    }
                }
            }
        },
        None => {},
    }
}

/// Quoting a text twice is quoting it once.
pub proof fn lemma_quoted_text_is_stable(text: Seq<char>)
    ensures
        quoted_text(quoted_text(text)) == quoted_text(text),
    decreases text.len(),
{
    let n = find_from(text, '\n', 0);
    lemma_find_from(text, '\n', 0);
    if n >= text.len() {
        if !has_long_string_mark(text) {
            lemma_quoted_line_has_no_break(text);
            lemma_quoted_line_is_stable(text);
            lemma_quoted_line_has_no_mark(text);
            let q = quoted_line(text);
            lemma_find_from(q, '\n', 0);
            assert(find_from(q, '\n', 0) == q.len());
        }
    } else {
        let line = text.subrange(0, n);
        if !has_long_string_mark(line) {
            let rest = text.subrange(n + 1, text.len() as int);
            let head = quoted_line(line);
            let tail = quoted_text(rest);
            let q = head + seq!['\n'] + tail;
            assert(quoted_text(text) == q);
            lemma_quoted_line_has_no_break(line);
            lemma_quoted_line_has_no_mark(line);
            lemma_find_in_joined(head, '\n', tail, 0);
            assert(q.subrange(0, head.len() as int) =~= head);
            assert(q.subrange(head.len() as int + 1, q.len() as int) =~= tail);
            lemma_quoted_line_is_stable(line);
            lemma_quoted_text_is_stable(rest);
        }
    }
}

/// A text whose first line holds the mark of a string of several lines is
/// left as it is.
pub proof fn lemma_long_string_stops_quoting(line: Seq<char>, rest: Seq<char>)
    requires
        has_long_string_mark(line),
        forall|i: int| 0 <= i < line.len() ==> line[i] != '\n',
    ensures
        quoted_text(line) == line,
        quoted_text(line + seq!['\n'] + rest) == line + seq!['\n'] + rest,
{
    lemma_find_from(line, '\n', 0);
    lemma_find_in_joined(line, '\n', rest, 0);
    let text = line + seq!['\n'] + rest;
    assert(text.subrange(0, line.len() as int) =~= line);
}

/// A line without an equals sign is left as it is.
pub proof fn lemma_line_without_equals(line: Seq<char>)
    requires
        forall|i: int| 0 <= i < line.len() ==> line[i] != '=',
    ensures
        quoted_line(line) == line,
{
    lemma_key_end(line, 0);
}

/// A comment line is left as it is.
pub proof fn lemma_comment_line(line: Seq<char>)
    requires
        line.len() > 0,
        line[0] == '#',
    ensures
        quoted_line(line) == line,
{
}

/// A line `<key> = 0x<digits>` gets its value quoted.
pub proof fn lemma_quotes_bare_value(key: Seq<char>, digits: Seq<char>)
    requires
        forall|i: int| 0 <= i < key.len() ==> !is_key_stop(key[i]),
        digits.len() > 0,
        forall|i: int| 0 <= i < digits.len() ==> is_hex_digit(digits[i]),
    ensures
        quoted_line(key + seq!['=', ' ', '0', 'x'] + digits) == key + seq!['=', ' ', '"', '0', 'x']
            + digits + seq!['"'],
{
    let line = key + seq!['=', ' ', '0', 'x'] + digits;
    let k = key.len() as int;
    lemma_key_end(line, 0);
    assert(line[k] == '=');
    assert forall|i: int| 0 <= i < k implies !is_key_stop(line[i]) by {
        assert(line[i] == key[i]);
    }
    assert(key_end(line, 0) == k);
    assert(line[k + 1] == ' ');
    assert(line[k + 2] == '0');
    assert(line[k + 3] == 'x');
    reveal_with_fuel(skip_blanks, 3);
    assert(skip_blanks(line, k + 1) == k + 2);
    lemma_hex_run_end(line, k + 4);
    assert forall|i: int| k + 4 <= i < line.len() implies is_hex_digit(line[i]) by {
        assert(line[i] == digits[i - k - 4]);
    }
    assert(hex_run_end(line, k + 4) == line.len());
    assert(bare_hex_value(line) == Some((k + 2, line.len() as int)));
    assert(quoted_line(line) =~= key + seq!['=', ' ', '"', '0', 'x'] + digits + seq!['"']);
}

fn hex_digit(c: char) -> (r: bool)
    ensures
        r == is_hex_digit(c),
{
    ('0' <= c && c <= '9') || ('a' <= c && c <= 'f') || ('A' <= c && c <= 'F')
}

fn find_char(s: &Vec<char>, c: char, from: usize) -> (r: usize)
    requires
        from <= s.len(),
    ensures
        r == find_from(s@, c, from as int),
        from <= r <= s.len(),
{
    let mut i = from;
    while i < s.len() && s[i] != c
        invariant
            from <= i <= s.len(),
            find_from(s@, c, from as int) == find_from(s@, c, i as int),
        decreases s.len() - i,
    {
        i += 1;
    }
    i
}

fn pass_key(s: &Vec<char>, from: usize) -> (r: usize)
    requires
        from <= s.len(),
    ensures
        r == key_end(s@, from as int),
        from <= r <= s.len(),
{
    let mut i = from;
    while i < s.len() && !(s[i] == '=' || s[i] == '#' || s[i] == '"' || s[i] == '\'')
        invariant
            from <= i <= s.len(),
            key_end(s@, from as int) == key_end(s@, i as int),
        decreases s.len() - i,
    {
        i += 1;
    }
    i
}

fn pass_blanks(s: &Vec<char>, from: usize) -> (r: usize)
    requires
        from <= s.len(),
    ensures
        r == skip_blanks(s@, from as int),
        from <= r <= s.len(),
{
    let mut i = from;
    while i < s.len() && (s[i] == ' ' || s[i] == '\t')
        invariant
            from <= i <= s.len(),
            skip_blanks(s@, from as int) == skip_blanks(s@, i as int),
        decreases s.len() - i,
    {
        i += 1;
    }
    i
}

fn pass_hex_digits(s: &Vec<char>, from: usize) -> (r: usize)
    requires
        from <= s.len(),
    ensures
        r == hex_run_end(s@, from as int),
        from <= r <= s.len(),
{
    let mut i = from;
    while i < s.len() && hex_digit(s[i])
        invariant
            from <= i <= s.len(),
            hex_run_end(s@, from as int) == hex_run_end(s@, i as int),
        decreases s.len() - i,
    {
        i += 1;
    }
    i
}

/// Finds the bare hexadecimal value of a line.
pub fn find_bare_hex_value(line: &Vec<char>) -> (r: Option<(usize, usize)>)
    ensures
        match r {
            Some((start, end)) => bare_hex_value(line@) == Some((start as int, end as int))
                && start < end <= line.len(),
            None => bare_hex_value(line@) is None,
        },
{
    let n = line.len();
    let eq = pass_key(line, 0);
    if eq >= n || line[eq] != '=' {
        return None;
    }
    let start = pass_blanks(line, eq + 1);
    if n - start <= 2 {
        return None;
    }
    if line[start] != '0' || line[start + 1] != 'x' {
        return None;
    }
    let end = pass_hex_digits(line, start + 2);
    if end <= start + 2 {
        return None;
    }
    if end < n {
        let c = line[end];
        if !(c == ' ' || c == '\t' || c == '\r' || c == '#') {
            return None;
        }
    }
    Some((start, end))
}

/// Appends the characters of `s` from `from` up to `to`.
fn push_range(out: &mut Vec<char>, s: &Vec<char>, from: usize, to: usize)
    requires
        from <= to <= s.len(),
    ensures
        final(out)@ == old(out)@ + s@.subrange(from as int, to as int),
{
    let ghost before = out@;
    let mut i = from;
    assert(out@ =~= before + s@.subrange(from as int, i as int));
    while i < to
        invariant
            from <= i <= to <= s.len(),
            out@ == before + s@.subrange(from as int, i as int),
        decreases to - i,
    {
        out.push(s[i]);
        assert(out@ =~= before + s@.subrange(from as int, i + 1));
        i += 1;
    }
}

/// Appends the line that `text` holds from `from` up to `to`, with its bare
/// hexadecimal value in double quotes.
fn push_quoted_line(out: &mut Vec<char>, text: &Vec<char>, from: usize, to: usize)
    requires
        from <= to <= text.len(),
    ensures
        final(out)@ == old(out)@ + quoted_line(text@.subrange(from as int, to as int)),
{
    let ghost before = out@;
    let mut line: Vec<char> = Vec::new();
    push_range(&mut line, text, from, to);
    assert(line@ =~= text@.subrange(from as int, to as int));
    match find_bare_hex_value(&line) {
        Some((start, end)) => {
            push_range(out, &line, 0, start);
            out.push('"');
            push_range(out, &line, start, end);
            out.push('"');
            push_range(out, &line, end, line.len());
            assert(out@ =~= before + quoted_line(line@));
        },
        None => {
            push_range(out, &line, 0, line.len());
            assert(line@.subrange(0, line@.len() as int) =~= line@);
        },
    }
}

/// Whether the line that `text` holds from `from` up to `to` holds the mark
/// of a string of several lines.
fn holds_long_string_mark(text: &Vec<char>, from: usize, to: usize) -> (r: bool)
    requires
        from <= to <= text.len(),
    ensures
        r == has_long_string_mark(text@.subrange(from as int, to as int)),
{
    let ghost line = text@.subrange(from as int, to as int);
    if to - from < 3 {
        assert forall|i: int| !long_string_mark(line, i) by {}
        return false;
    }
    let mut i = from;
    while i + 2 < to
        invariant
            from <= i,
            i + 2 <= to <= text.len(),
            line == text@.subrange(from as int, to as int),
            forall|j: int| 0 <= j < i - from ==> !long_string_mark(line, j),
        decreases to - i,
    {
        let c = text[i];
        if (c == '"' || c == '\'') && text[i + 1] == c && text[i + 2] == c {
            assert(long_string_mark(line, i - from));
            return true;
        }
        i += 1;
    }
    assert forall|j: int| !long_string_mark(line, j) by {}
    false
}

/// Puts every bare hexadecimal value of a serialised configuration in
/// double quotes, line by line, up to the first line that holds the mark of
/// a string of several lines.
pub fn quote_hex_values(text: &str) -> (r: String)
    ensures
        r@ == quoted_text(text@),
{
    let chars = chars_of(text);
    let n = chars.len();
    let mut out: Vec<char> = Vec::new();
    let mut pos: usize = 0;
    let mut done = false;
    proof {
        assert(chars@.subrange(0, n as int) =~= chars@);
        assert(out@ + quoted_text(chars@.subrange(0, n as int)) =~= quoted_text(chars@));
    }
    while !done
        invariant
            n == chars.len(),
            pos <= n,
            !done ==> out@ + quoted_text(chars@.subrange(pos as int, n as int)) == quoted_text(
                chars@,
            ),
            done ==> out@ == quoted_text(chars@),
        decreases (if done { 0int } else { 1int }), n - pos,
    {
        let ghost rest = chars@.subrange(pos as int, n as int);
        let ghost sofar = out@;
        let end = find_char(&chars, '\n', pos);
        proof {
            lemma_find_shift(chars@, '\n', pos as int, pos as int);
            assert(find_from(rest, '\n', 0) == end - pos);
            assert(rest.subrange(0, end - pos) =~= chars@.subrange(pos as int, end as int));
        }
        if holds_long_string_mark(&chars, pos, end) {
            push_range(&mut out, &chars, pos, n);
            proof {
                assert(rest.subrange(0, rest.len() as int) =~= rest);
                if end >= n {
                    assert(chars@.subrange(pos as int, end as int) =~= rest);
                }
                assert(quoted_text(rest) == rest);
            }
            done = true;
        } else if end >= n {
            push_quoted_line(&mut out, &chars, pos, end);
            proof {
                assert(rest.subrange(0, rest.len() as int) =~= rest);
                assert(chars@.subrange(pos as int, end as int) =~= rest);
            }
            done = true;
        } else {
            push_quoted_line(&mut out, &chars, pos, end);
            out.push('\n');
            proof {
                assert(rest.subrange(end - pos + 1, rest.len() as int) =~= chars@.subrange(
                    end + 1,
                    n as int,
                ));
                assert(out@ =~= sofar + (quoted_line(rest.subrange(0, end - pos)) + seq!['\n']));
                assert(out@ + quoted_text(chars@.subrange(end + 1, n as int)) =~= sofar
                    + quoted_text(rest));
            }
            pos = end + 1;
        }
    }
    string_of(&out)
}

/// Searching in the part of `s` from `base` on finds the same place,
/// counted from `base`.
proof fn lemma_find_shift(s: Seq<char>, c: char, base: int, from: int)
    requires
        0 <= base <= from <= s.len(),
    ensures
        find_from(s.subrange(base, s.len() as int), c, from - base) == find_from(s, c, from)
            - base,
    decreases s.len() - from,
{
    let t = s.subrange(base, s.len() as int);
    if from < s.len() {
        assert(t[from - base] == s[from]);
        if s[from] != c {
            lemma_find_shift(s, c, base, from + 1);
        }
    }
}

} // verus!
