//! Splitting a chat command into words, with quoting, and removing quotes.

use vstd::prelude::*;

verus! {

/// A quote character: double quote, single quote or backtick.
pub open spec fn is_quote_char(c: char) -> bool {
    c == '"' || c == '\'' || c == '`'
}

/// `s` without its enclosing quotes, where it starts and ends with the same
/// quote character; else `s` itself.
pub open spec fn unquoted(s: Seq<char>) -> Seq<char> {
    if s.len() >= 2 && s[0] == s.last() && is_quote_char(s[0]) {
        s.subrange(1, s.len() - 1)
    } else {
        s
    }
}

/// A character of the Unicode White_Space property.
pub open spec fn is_white_space(c: char) -> bool {
    ||| '\t' <= c && c <= '\r'
    ||| c == ' ' || c == '\u{85}' || c == '\u{a0}' || c == '\u{1680}'
    ||| '\u{2000}' <= c && c <= '\u{200a}'
    ||| c == '\u{2028}' || c == '\u{2029}' || c == '\u{202f}' || c == '\u{205f}' || c == '\u{3000}'
}

/// `s` without the white space at its start.
pub open spec fn trim_start_ws(s: Seq<char>) -> Seq<char>
    decreases s.len(),
{
    if s.len() > 0 && is_white_space(s[0]) { trim_start_ws(s.drop_first()) } else { s }
}

/// `s` without the white space at its end.
pub open spec fn trim_end_ws(s: Seq<char>) -> Seq<char>
    decreases s.len(),
{
    if s.len() > 0 && is_white_space(s.last()) { trim_end_ws(s.drop_last()) } else { s }
}

/// `s` without leading and trailing white space.
pub open spec fn trimmed(s: Seq<char>) -> Seq<char> {
    trim_end_ws(trim_start_ws(s))
}

/// `s` after the run of characters other than white space at its start.
pub open spec fn skip_non_ws(s: Seq<char>) -> Seq<char>
    decreases s.len(),
{
    if s.len() > 0 && !is_white_space(s[0]) { skip_non_ws(s.drop_first()) } else { s }
}

/// Removing white space at the start never makes a text longer.
pub proof fn lemma_trim_start_shorter(s: Seq<char>)
    ensures
        trim_start_ws(s).len() <= s.len(),
        trim_start_ws(s).len() > 0 ==> !is_white_space(trim_start_ws(s)[0]),
    decreases s.len(),
{
    if s.len() > 0 && is_white_space(s[0]) {
        lemma_trim_start_shorter(s.drop_first());
    }
}

/// Skipping a word at the start of a text that starts with one makes it
/// shorter.
pub proof fn lemma_skip_word_shorter(s: Seq<char>)
    ensures
        skip_non_ws(s).len() <= s.len(),
        s.len() > 0 && !is_white_space(s[0]) ==> skip_non_ws(s).len() < s.len(),
    decreases s.len(),
{
    if s.len() > 0 && !is_white_space(s[0]) {
        lemma_skip_word_shorter(s.drop_first());
    }
}

/// The words of `s`: its runs of characters other than white space, in order.
pub open spec fn whitespace_words(s: Seq<char>) -> Seq<Seq<char>>
    decreases s.len(),
    via whitespace_words_decreases
{
    let t = trim_start_ws(s);
    if t.len() == 0 {
        Seq::empty()
    } else {
        let rest = skip_non_ws(t);
        seq![t.subrange(0, t.len() - rest.len())] + whitespace_words(rest)
    }
}

#[via_fn]
proof fn whitespace_words_decreases(s: Seq<char>) {
    lemma_trim_start_shorter(s);
    lemma_skip_word_shorter(trim_start_ws(s));
}

/// `s` after its first `n` words (runs of characters other than white
/// space) and the white space before each of them.
pub open spec fn after_words(s: Seq<char>, n: nat) -> Seq<char>
    decreases n,
{
    if n == 0 { s } else { after_words(skip_non_ws(trim_start_ws(s)), (n - 1) as nat) }
}


/// Relies on `str::trim`: `s` without leading and trailing characters of
/// the Unicode White_Space property.
#[verifier::external_body]
pub(crate) fn trim<'a>(s: &'a str) -> (r: &'a str)
    ensures
        r@ == trimmed(s@),
{
    s.trim()
}

/// Relies on `str::split_whitespace`: the words of `s` in order, that is its
/// runs of characters other than those of the Unicode White_Space property.
#[verifier::external_body]
fn split_whitespace<'a>(s: &'a str) -> (r: Vec<&'a str>)
    ensures
        r@.map_values(|w: &str| w@) == whitespace_words(s@),
{
    s.split_whitespace().collect()
}

/// Whether `c` is a quote character.
pub fn is_quote(c: char) -> (r: bool)
    ensures
        r == is_quote_char(c),
{
    c == '"' || c == '\'' || c == '`'
}

/// Whether `c` is a character of the Unicode White_Space property.
pub fn is_white_space_char(c: char) -> (r: bool)
    ensures
        r == is_white_space(c),
{
    ('\t' <= c && c <= '\r') || c == ' ' || c == '\u{85}' || c == '\u{a0}' || c == '\u{1680}'
        || ('\u{2000}' <= c && c <= '\u{200a}') || c == '\u{2028}' || c == '\u{2029}'
        || c == '\u{202f}' || c == '\u{205f}' || c == '\u{3000}'
}

/// `s` after its first `n` words and the white space before each of them.
pub fn skip_words(s: &str, n: usize) -> (r: &str)
    ensures
        r@ == after_words(s@, n as nat),
{
    let len = s.unicode_len();
    let mut i: usize = 0;
    let mut k: usize = 0;
    proof {
        assert(s@.subrange(0, len as int) =~= s@);
    }
    while k < n
        invariant
            len == s@.len(),
            i <= len,
            k <= n,
            after_words(s@.subrange(i as int, len as int), (n - k) as nat) == after_words(s@, n as nat),
        decreases n - k,
    {
        let ghost first = s@.subrange(i as int, len as int);
        while i < len && is_white_space_char(s.get_char(i))
            invariant
                len == s@.len(),
                i <= len,
                trim_start_ws(s@.subrange(i as int, len as int)) == trim_start_ws(first),
            decreases len - i,
        {
            proof {
                assert(s@.subrange(i as int, len as int).drop_first() =~= s@.subrange(i + 1, len as int));
            }
            i = i + 1;
        }
        let ghost word = s@.subrange(i as int, len as int);
        assert(word == trim_start_ws(first));
        while i < len && !is_white_space_char(s.get_char(i))
            invariant
                len == s@.len(),
                i <= len,
                skip_non_ws(s@.subrange(i as int, len as int)) == skip_non_ws(word),
            decreases len - i,
        {
            proof {
                assert(s@.subrange(i as int, len as int).drop_first() =~= s@.subrange(i + 1, len as int));
            }
            i = i + 1;
        }
        assert(s@.subrange(i as int, len as int) == skip_non_ws(word));
        k = k + 1;
    }
    s.substring_char(i, len)
}

/// The character range inside the enclosing quotes of `text`, if it has them.
fn get_quoted(text: &str) -> (r: Option<(usize, usize)>)
    ensures
        r is Some <==> text@.len() >= 2 && text@[0] == text@.last() && is_quote_char(text@[0]),
        r matches Some(p) ==> p.0 == 1 && p.1 == text@.len() - 1,
{
    let n = text.unicode_len();
    if n < 2 {
        return None;
    }
    let c0 = text.get_char(0);
    let c1 = text.get_char(n - 1);
    if c0 == c1 && is_quote(c0) {
        Some((1, n - 1))
    } else {
        None
    }
}

/// `text` without its enclosing quotes, if it has a pair of the same kind.
pub fn unquote(text: &str) -> (r: &str)
    ensures
        r@ == unquoted(text@),
{
    match get_quoted(text) {
        Some((a, b)) => text.substring_char(a, b),
        None => text,
    }
}

/// `s` without the copies of `c` at its start.
pub open spec fn skip_leading(s: Seq<char>, c: char) -> Seq<char>
    decreases s.len(),
{
    if s.len() > 0 && s[0] == c {
        skip_leading(s.drop_first(), c)
    } else {
        s
    }
}

/// `s` without the copies of `c` at its start.
pub fn trim_start_char(s: &str, c: char) -> (r: &str)
    ensures
        r@ == skip_leading(s@, c),
{
    let n = s.unicode_len();
    let mut i: usize = 0;
    proof {
        assert(s@.subrange(0, n as int) =~= s@);
    }
    while i < n && s.get_char(i) == c
        invariant
            n == s@.len(),
            i <= n,
            skip_leading(s@.subrange(i as int, n as int), c) == skip_leading(s@, c),
        decreases n - i,
    {
        proof {
            assert(s@.subrange(i as int, n as int).drop_first() =~= s@.subrange(i + 1, n as int));
        }
        i = i + 1;
    }
    s.substring_char(i, n)
}

/// The words seen so far, with the one from `start` to `index` added where
/// it is not blank once trimmed.
pub open spec fn with_word(line: Seq<char>, start: int, index: int, words: Seq<Seq<char>>) -> Seq<Seq<char>> {
    let w = trimmed(line.subrange(start, index));
    if w.len() == 0 { words } else { words.push(w) }
}

/// The scan of a command line from position `index`, in quote `quote` (if
/// any), with the current word starting at `start`: where the command ends,
/// and its words.
///
/// A space ends a word outside quotes; a semicolon outside quotes ends the
/// command. A quote character opens a quote at the start of a word and
/// closes it before a space, a semicolon or the end. A quote still open at
/// the end is taken back: the scan resumes after the character that opened
/// the current word, which is left out of it.
pub open spec fn scan(line: Seq<char>, index: int, quote: Option<char>, start: int, words: Seq<Seq<char>>) -> (int, Seq<Seq<char>>)
    decreases line.len() - start, line.len() - index,
{
    if !(0 <= start <= index <= line.len()) {
        (index, words)
    } else if index == line.len() {
        (index, with_word(line, start, index, words))
    } else {
        let c = line[index];
        match quote {
            None => {
                if c == ';' {
                    (index, with_word(line, start, index, words))
                } else if c == ' ' {
                    scan(line, index + 1, None, index, with_word(line, start, index, words))
                } else if is_quote_char(c) && (index == 0 || line[index - 1] == ' ') {
                    scan(line, index + 1, Some(c), start, words)
                } else {
                    scan(line, index + 1, None, start, words)
                }
            },
            Some(q) => {
                if c == q && (index + 1 == line.len() || line[index + 1] == ' ' || line[index + 1] == ';') {
                    scan(line, index + 1, None, start, words)
                } else if index + 1 == line.len() && start < index {
                    scan(line, start + 2, None, start + 1, words)
                } else {
                    scan(line, index + 1, Some(q), start, words)
                }
            },
        }
    }
}

/// The words of a list of texts, as character sequences.
pub open spec fn words_view(words: Seq<&str>) -> Seq<Seq<char>> {
    words.map_values(|w: &str| w@)
}

/// Add the word of `line` from `start` to `index`, trimmed, unless blank.
fn push_word<'a>(line: &'a str, start: usize, index: usize, words: &mut Vec<&'a str>)
    requires
        start <= index <= line@.len(),
    ensures
        words_view(final(words)@) == with_word(line@, start as int, index as int, words_view(old(words)@)),
{
    let part = line.substring_char(start, index);
    let word = trim(part);
    if !word.is_empty() {
        words.push(word);
        proof {
            assert(words_view(final(words)@) =~= words_view(old(words)@).push(word@));
        }
    }
}

/// Split a command line into its words. Words are separated by spaces; a
/// word quoted with `"`, `'` or `` ` `` may hold spaces and semicolons; an
/// unquoted semicolon ends the command. Returns the command (the line up to
/// where it ends) and its words, trimmed, blank ones left out.
pub fn split_cmd(line: &str) -> (r: (&str, Vec<&str>))
    ensures
        ({
            let (end, words) = scan(line@, 0, None, 0, Seq::empty());
            &&& 0 <= end <= line@.len()
            &&& r.0@ == line@.subrange(0, end)
            &&& words_view(r.1@) == words
        }),
{
    let end = line.unicode_len();
    let mut index: usize = 0;
    let mut quote: Option<char> = None;
    let mut words: Vec<&str> = Vec::new();
    let mut start: usize = 0;
    proof {
        assert(words_view(words@) =~= Seq::<Seq<char>>::empty());
    }
    while index < end
        invariant_except_break
            end == line@.len(),
            start <= index <= end,
            quote is Some ==> start < index,
            scan(line@, index as int, quote, start as int, words_view(words@))
                == scan(line@, 0, None, 0, Seq::empty()),
        ensures
            end == line@.len(),
            start <= index <= end,
            scan(line@, 0, None, 0, Seq::empty())
                == (index as int, with_word(line@, start as int, index as int, words_view(words@))),
        decreases end - start, end - index,
    {
        let c = line.get_char(index);
        match quote {
            None => {
                if c == ';' {
                    break;
                } else if c == ' ' {
                    push_word(line, start, index, &mut words);
                    start = index;
                } else if is_quote(c) && (index == 0 || line.get_char(index - 1) == ' ') {
                    quote = Some(c);
                }
            },
            Some(q) => {
                let closes = c == q && (index + 1 == end || {
                    let d = line.get_char(index + 1);
                    d == ' ' || d == ';'
                });
                if closes {
                    quote = None;
                } else if index + 1 == end {
                    quote = None;
                    start = start + 1;
                    index = start;
                }
            },
        }
        index = index + 1;
    }
    push_word(line, start, index, &mut words);
    (line.substring_char(0, index), words)
}

/// `text` without `prefix` at its start, if it starts with it.
pub fn strip_prefix<'a>(text: &'a str, prefix: &str) -> (r: Option<&'a str>)
    ensures
        r is Some <==> prefix@.len() <= text@.len() && text@.subrange(0, prefix@.len() as int) == prefix@,
        r matches Some(rest) ==> rest@ == text@.subrange(prefix@.len() as int, text@.len() as int),
{
    let n = text.unicode_len();
    let m = prefix.unicode_len();
    if m > n {
        return None;
    }
    let mut i: usize = 0;
    while i < m
        invariant
            n == text@.len(),
            m == prefix@.len(),
            m <= n,
            i <= m,
            forall|k: int| 0 <= k < i ==> #[trigger] text@[k] == prefix@[k],
        decreases m - i,
    {
        if text.get_char(i) != prefix.get_char(i) {
            proof {
                assert(text@.subrange(0, m as int)[i as int] != prefix@[i as int]);
            }
            return None;
        }
        i = i + 1;
    }
    proof {
        assert(text@.subrange(0, m as int) =~= prefix@);
    }
    Some(text.substring_char(m, n))
}

/// Find a command in a chat message: the text after `prefix`, with its
/// words, split by [`split_cmd`] where `parse_commands` is set, else at
/// white space. None where the message does not start with the prefix.
pub fn find_command<'s>(text: &'s str, prefix: &str, parse_commands: bool) -> (r: Option<(&'s str, Vec<&'s str>)>)
    ensures
        r is Some <==> prefix@.len() <= text@.len() && text@.subrange(0, prefix@.len() as int) == prefix@,
        r matches Some(found) ==> {
            let line = text@.subrange(prefix@.len() as int, text@.len() as int);
            if parse_commands {
                let (end, words) = scan(line, 0, None, 0, Seq::empty());
                found.0@ == line.subrange(0, end) && words_view(found.1@) == words
            } else {
                found.0@ == line && words_view(found.1@) == whitespace_words(line)
            }
        },
{
    match strip_prefix(text, prefix) {
        Some(line) => {
            if parse_commands {
                Some(split_cmd(line))
            } else {
                let words = split_whitespace(line);
                Some((line, words))
            }
        },
        None => None,
    }
}

} // verus!
