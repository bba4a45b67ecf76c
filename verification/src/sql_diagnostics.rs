//! Redaction of SQL text before it is written to diagnostics: quoted
//! literals and comments are masked, `key=value` / `key:value` words whose
//! key looks like a credential lose their value, and long text is cut to a
//! bounded number of characters.
use vstd::prelude::*;
use crate::text::{
    ascii_lower_seq, char_is_white_space, chars_eq, is_ascii_alphanumeric, is_white_space, chars_of, contains_chars, decimal, push_chars, push_decimal,
    push_str, seq_contains, string_from_chars, to_ascii_lower,
};

verus! {

/// The number of characters that diagnostics keep of a SQL text.
pub const DEFAULT_SQL_DIAGNOSTIC_MAX_CHARS: usize = 512;

// ---------------------------------------------------------------------------
// Sensitive keys
// ---------------------------------------------------------------------------

/// A key names a credential when its ASCII-lower-cased form contains one of
/// the credential words, or is exactly `pwd`.
pub open spec fn sensitive_key(key: Seq<char>) -> bool {
    let k = ascii_lower_seq(key);
    ||| seq_contains(k, "password"@)
    ||| seq_contains(k, "passwd"@)
    ||| k == "pwd"@
    ||| seq_contains(k, "secret"@)
    ||| seq_contains(k, "token"@)
    ||| seq_contains(k, "api_key"@)
    ||| seq_contains(k, "apikey"@)
    ||| seq_contains(k, "access_key"@)
    ||| seq_contains(k, "private_key"@)
    ||| seq_contains(k, "credential"@)
    ||| seq_contains(k, "authorization"@)
    ||| seq_contains(k, "bearer"@)
}

/// Whether `k` (already lower-cased) contains `word`.
fn has_word(k: &[char], word: &str) -> (r: bool)
    ensures
        r == seq_contains(k@, word@),
{
    let w = chars_of(word);
    contains_chars(k, &w)
}

/// `sensitive_key` on a character slice.
fn key_is_sensitive(key: &[char]) -> (r: bool)
    ensures
        r == sensitive_key(key@),
{
    let k = to_ascii_lower(key);
    let pwd = chars_of("pwd");
    has_word(&k, "password") || has_word(&k, "passwd") || chars_eq(&k, &pwd) || has_word(
        &k,
        "secret",
    ) || has_word(&k, "token") || has_word(&k, "api_key") || has_word(&k, "apikey") || has_word(
        &k,
        "access_key",
    ) || has_word(&k, "private_key") || has_word(&k, "credential") || has_word(
        &k,
        "authorization",
    ) || has_word(&k, "bearer")
}

/// Whether `key` names a credential (see `sensitive_key`).
pub fn is_sensitive_key(key: &str) -> (r: bool)
    ensures
        r == sensitive_key(key@),
{
    let k = chars_of(key);
    key_is_sensitive(&k)
}

// ---------------------------------------------------------------------------
// Truncation
// ---------------------------------------------------------------------------

/// Text of at most `max` characters is kept; longer text keeps its first
/// `max` characters followed by a marker that counts the omitted ones.
pub open spec fn truncated(value: Seq<char>, max: nat) -> Seq<char> {
    if value.len() <= max {
        value
    } else {
        value.take(max as int) + "\u{2026}[truncated "@ + decimal((value.len() - max) as nat)
            + " chars]"@
    }
}

/// Character-slice form of `truncate_for_diagnostics`.
fn truncate_chars(value: &[char], max_chars: usize) -> (out: Vec<char>)
    ensures
        out@ == truncated(value@, max_chars as nat),
{
    let n = value.len();
    if n <= max_chars {
        let mut out: Vec<char> = Vec::new();
        push_chars(&mut out, value);
        proof {
            assert(out@ =~= value@);
        }
        return out;
    }
    let mut out: Vec<char> = Vec::new();
    let mut i: usize = 0;
    while i < max_chars
        invariant
            max_chars < n,
            n == value@.len(),
            i <= max_chars,
            out@ == value@.take(i as int),
        decreases max_chars - i,
    {
        out.push(value[i]);
        i = i + 1;
        proof {
            assert(value@.take(i as int) =~= value@.take(i - 1).push(value@[i - 1]));
        }
    }
    push_str(&mut out, "\u{2026}[truncated ");
    push_decimal(&mut out, n - max_chars);
    push_str(&mut out, " chars]");
    out
}

/// Keeps `value` when it has at most `max_chars` characters; otherwise keeps
/// its first `max_chars` characters and appends `…[truncated N chars]`.
pub fn truncate_for_diagnostics(value: String, max_chars: usize) -> (out: String)
    ensures
        out@ == truncated(value@, max_chars as nat),
{
    let cs = chars_of(value.as_str());
    if cs.len() <= max_chars {
        return value;
    }
    let out = truncate_chars(&cs, max_chars);
    string_from_chars(&out)
}


// ---------------------------------------------------------------------------
// Literals and comments
// ---------------------------------------------------------------------------

/// The characters that open (and close) a quoted literal or identifier.
pub open spec fn is_quote(c: char) -> bool {
    c == '\'' || c == '"' || c == '`'
}

/// Scanning the body of a literal closed by `q` from position `j`: the
/// position just after the literal. A doubled `q` stands for itself, a
/// backslash escapes the next character (except in backquoted names), and
/// a literal left open runs to the end of the text.
pub open spec fn literal_end(s: Seq<char>, q: char, j: int) -> int
    decreases s.len() - j,
{
    if j < 0 || j >= s.len() {
        j
    } else if s[j] == q {
        if j + 1 < s.len() && s[j + 1] == q {
            literal_end(s, q, j + 2)
        } else {
            j + 1
        }
    } else if s[j] == '\\' && q != '`' {
        if j + 1 < s.len() {
            literal_end(s, q, j + 2)
        } else {
            s.len() as int
        }
    } else {
        literal_end(s, q, j + 1)
    }
}

/// The position of the first line break (`\n` or `\r`) at or after `j`, or
/// the end of the text.
pub open spec fn line_end(s: Seq<char>, j: int) -> int
    decreases s.len() - j,
{
    if j < 0 || j >= s.len() || s[j] == '\n' || s[j] == '\r' {
        j
    } else {
        line_end(s, j + 1)
    }
}

/// The position just after the first `*/` that starts at or after `j`; when
/// there is none, the position from which no `*/` can start.
pub open spec fn block_end(s: Seq<char>, j: int) -> int
    decreases s.len() - j,
{
    if j < 0 || j + 1 >= s.len() {
        j
    } else if s[j] == '*' && s[j + 1] == '/' {
        j + 2
    } else {
        block_end(s, j + 1)
    }
}

pub proof fn lemma_literal_end_bounds(s: Seq<char>, q: char, j: int)
    requires
        0 <= j <= s.len(),
    ensures
        j <= literal_end(s, q, j) <= s.len(),
    decreases s.len() - j,
{
    if j < s.len() {
        if s[j] == q {
            if j + 1 < s.len() && s[j + 1] == q {
                lemma_literal_end_bounds(s, q, j + 2);
            }
        } else if s[j] == '\\' && q != '`' {
            if j + 1 < s.len() {
                lemma_literal_end_bounds(s, q, j + 2);
            }
        } else {
            lemma_literal_end_bounds(s, q, j + 1);
        }
    }
}

pub proof fn lemma_line_end_bounds(s: Seq<char>, j: int)
    requires
        0 <= j <= s.len(),
    ensures
        j <= line_end(s, j) <= s.len(),
    decreases s.len() - j,
{
    if j < s.len() && s[j] != '\n' && s[j] != '\r' {
        lemma_line_end_bounds(s, j + 1);
    }
}

pub proof fn lemma_block_end_bounds(s: Seq<char>, j: int)
    requires
        0 <= j <= s.len(),
    ensures
        j <= block_end(s, j) <= s.len(),
    decreases s.len() - j,
{
    if j + 1 < s.len() && !(s[j] == '*' && s[j + 1] == '/') {
        lemma_block_end_bounds(s, j + 1);
    }
}

/// The redacted form of `s` from position `i` on: each quoted literal
/// becomes its quote, `[REDACTED]` and its quote; a `--` comment becomes
/// `--[REDACTED_COMMENT]` (the line break after it is kept); a `/*` comment
/// becomes `/*[REDACTED_COMMENT]*/`; every other character is kept.
pub open spec fn redact_from(s: Seq<char>, i: int) -> Seq<char>
    decreases s.len() - i,
{
    if i < 0 || i >= s.len() {
        seq![]
    } else if is_quote(s[i]) {
        proof {
            lemma_literal_end_bounds(s, s[i], i + 1);
        }
        seq![s[i]] + "[REDACTED]"@ + seq![s[i]] + redact_from(s, literal_end(s, s[i], i + 1))
    } else if s[i] == '-' && i + 1 < s.len() && s[i + 1] == '-' {
        proof {
            lemma_line_end_bounds(s, i + 2);
        }
        "--[REDACTED_COMMENT]"@ + redact_from(s, line_end(s, i + 2))
    } else if s[i] == '/' && i + 1 < s.len() && s[i + 1] == '*' {
        proof {
            lemma_block_end_bounds(s, i + 2);
        }
        "/*[REDACTED_COMMENT]*/"@ + redact_from(s, block_end(s, i + 2))
    } else {
        seq![s[i]] + redact_from(s, i + 1)
    }
}

/// The redacted form of the whole text `s` (see `redact_from`).
pub open spec fn redacted_literals(s: Seq<char>) -> Seq<char> {
    redact_from(s, 0)
}

/// Exec form of `literal_end`.
fn skip_literal(chars: &[char], q: char, start: usize) -> (end: usize)
    requires
        start <= chars@.len(),
    ensures
        end as int == literal_end(chars@, q, start as int),
{
    let len = chars.len();
    let mut i = start;
    while i < len
        invariant
            len == chars@.len(),
            i <= len,
            literal_end(chars@, q, i as int) == literal_end(chars@, q, start as int),
        decreases len - i,
    {
        let current = chars[i];
        if current == q {
            if i + 1 < len && chars[i + 1] == q {
                i = i + 2;
            } else {
                return i + 1;
            }
        } else if current == '\\' && q != '`' {
            if i + 1 < len {
                i = i + 2;
            } else {
                return len;
            }
        } else {
            i = i + 1;
        }
    }
    i
}

/// Exec form of `line_end`.
fn skip_line(chars: &[char], start: usize) -> (end: usize)
    requires
        start <= chars@.len(),
    ensures
        end as int == line_end(chars@, start as int),
{
    let len = chars.len();
    let mut i = start;
    while i < len && chars[i] != '\n' && chars[i] != '\r'
        invariant
            len == chars@.len(),
            i <= len,
            line_end(chars@, i as int) == line_end(chars@, start as int),
        decreases len - i,
    {
        i = i + 1;
    }
    i
}

/// Exec form of `block_end`.
fn skip_block(chars: &[char], start: usize) -> (end: usize)
    requires
        start <= chars@.len(),
    ensures
        end as int == block_end(chars@, start as int),
{
    let len = chars.len();
    let mut i = start;
    while i < len && i + 1 < len && !(chars[i] == '*' && chars[i + 1] == '/')
        invariant
            len == chars@.len(),
            i <= len,
            block_end(chars@, i as int) == block_end(chars@, start as int),
        decreases len - i,
    {
        i = i + 1;
    }
    if i < len && i + 1 < len {
        i = i + 2;
    }
    i
}

/// Character-slice form of `redact_literals`.
fn redact_literal_chars(chars: &[char]) -> (out: Vec<char>)
    ensures
        out@ == redacted_literals(chars@),
{
    let len = chars.len();
    let mut out: Vec<char> = Vec::new();
    let mut i: usize = 0;
    while i < len
        invariant
            len == chars@.len(),
            i <= len,
            redacted_literals(chars@) == out@ + redact_from(chars@, i as int),
        decreases len - i,
    {
        let ghost before = out@;
        let ch = chars[i];
        if ch == '\'' || ch == '"' || ch == '`' {
            out.push(ch);
            push_str(&mut out, "[REDACTED]");
            out.push(ch);
            let end = skip_literal(chars, ch, i + 1);
            proof {
                lemma_literal_end_bounds(chars@, ch, i + 1);
                assert(out@ == before + (seq![ch] + "[REDACTED]"@ + seq![ch]));
            }
            i = end;
        } else if ch == '-' && i + 1 < len && chars[i + 1] == '-' {
            push_str(&mut out, "--[REDACTED_COMMENT]");
            let end = skip_line(chars, i + 2);
            proof {
                lemma_line_end_bounds(chars@, i + 2);
            }
            i = end;
        } else if ch == '/' && i + 1 < len && chars[i + 1] == '*' {
            push_str(&mut out, "/*[REDACTED_COMMENT]*/");
            let end = skip_block(chars, i + 2);
            proof {
                lemma_block_end_bounds(chars@, i + 2);
            }
            i = end;
        } else {
            out.push(ch);
            i = i + 1;
        }
    }
    proof {
        assert(out@ + redact_from(chars@, i as int) =~= out@);
    }
    out
}

/// Masks quoted literals and comments in `sql` (see `redact_from`).
pub fn redact_literals(sql: &str) -> (out: String)
    ensures
        out@ == redacted_literals(sql@),
{
    let cs = chars_of(sql);
    let out = redact_literal_chars(&cs);
    string_from_chars(&out)
}


// ---------------------------------------------------------------------------
// Sensitive assignments
// ---------------------------------------------------------------------------

/// The position just after the run of non-whitespace characters that starts
/// at `j`.
pub open spec fn word_end(s: Seq<char>, j: int) -> int
    decreases s.len() - j,
{
    if 0 <= j < s.len() && !is_white_space(s[j]) {
        word_end(s, j + 1)
    } else {
        j
    }
}

pub proof fn lemma_word_end_bounds(s: Seq<char>, j: int)
    requires
        0 <= j <= s.len(),
    ensures
        j <= word_end(s, j) <= s.len(),
        j < s.len() && !is_white_space(s[j]) ==> j < word_end(s, j),
        forall|k: int| j <= k < word_end(s, j) ==> !is_white_space(#[trigger] s[k]),
        word_end(s, j) < s.len() ==> is_white_space(s[word_end(s, j)]),
    decreases s.len() - j,
{
    if j < s.len() && !is_white_space(s[j]) {
        lemma_word_end_bounds(s, j + 1);
    }
}

/// The whitespace-separated words of `s` from position `i` on
/// (`str::split_whitespace`): the maximal runs of non-whitespace characters.
pub open spec fn words_from(s: Seq<char>, i: int) -> Seq<Seq<char>>
    decreases s.len() - i,
{
    if i < 0 || i >= s.len() {
        seq![]
    } else if is_white_space(s[i]) {
        words_from(s, i + 1)
    } else {
        proof {
            lemma_word_end_bounds(s, i);
        }
        seq![s.subrange(i, word_end(s, i))] + words_from(s, word_end(s, i))
    }
}

/// The whitespace-separated words of `s`.
pub open spec fn words(s: Seq<char>) -> Seq<Seq<char>> {
    words_from(s, 0)
}

/// The words joined with single spaces.
pub open spec fn join_words(ws: Seq<Seq<char>>) -> Seq<char>
    decreases ws.len(),
{
    if ws.len() == 0 {
        seq![]
    } else if ws.len() == 1 {
        ws[0]
    } else {
        join_words(ws.drop_last()) + seq![' '] + ws.last()
    }
}

/// The position of the first `c` in `w` at or after `j`, or `w.len()`.
pub open spec fn find_from(w: Seq<char>, c: char, j: int) -> int
    decreases w.len() - j,
{
    if j < 0 || j >= w.len() {
        w.len() as int
    } else if w[j] == c {
        j
    } else {
        find_from(w, c, j + 1)
    }
}

/// The position of the first `c` in `w`, or `w.len()` when there is none.
pub open spec fn first_index(w: Seq<char>, c: char) -> int {
    find_from(w, c, 0)
}

pub proof fn lemma_find_from(w: Seq<char>, c: char, j: int)
    requires
        0 <= j <= w.len(),
    ensures
        j <= find_from(w, c, j) <= w.len(),
        forall|k: int| j <= k < find_from(w, c, j) ==> #[trigger] w[k] != c,
        find_from(w, c, j) < w.len() ==> w[find_from(w, c, j)] == c,
    decreases w.len() - j,
{
    if j < w.len() && w[j] != c {
        lemma_find_from(w, c, j + 1);
    }
}

/// The characters that a key keeps when it is trimmed.
pub open spec fn is_key_char(c: char) -> bool {
    is_ascii_alphanumeric(c) || c == '_' || c == '-'
}

/// Exec form of `is_key_char`.
fn char_is_key_char(c: char) -> (r: bool)
    ensures
        r == is_key_char(c),
{
    ('0' <= c && c <= '9') || ('A' <= c && c <= 'Z') || ('a' <= c && c <= 'z') || c == '_' || c
        == '-'
}

/// The position of the first key character at or after `j`, or `k.len()`.
pub open spec fn key_start(k: Seq<char>, j: int) -> int
    decreases k.len() - j,
{
    if j < 0 || j >= k.len() {
        k.len() as int
    } else if is_key_char(k[j]) {
        j
    } else {
        key_start(k, j + 1)
    }
}

/// The position just after the last key character before `j`, or 0.
pub open spec fn key_end(k: Seq<char>, j: int) -> int
    decreases j,
{
    if j <= 0 || j > k.len() {
        0
    } else if is_key_char(k[j - 1]) {
        j
    } else {
        key_end(k, j - 1)
    }
}

/// `key` with the leading and trailing characters that are not key
/// characters removed (`str::trim_matches`).
pub open spec fn trim_key(key: Seq<char>) -> Seq<char> {
    let a = key_start(key, 0);
    let b = key_end(key, key.len() as int);
    if a < b {
        key.subrange(a, b)
    } else {
        seq![]
    }
}

/// The word redacted for separator `sep`, when the text before the first
/// `sep` names a credential.
pub open spec fn assignment_redacts(w: Seq<char>, sep: char) -> bool {
    first_index(w, sep) < w.len() && sensitive_key(trim_key(w.take(first_index(w, sep))))
}

/// A word `key=value` (tried first) or `key:value` whose key names a
/// credential becomes `key=[REDACTED]` (or `key:[REDACTED]`); any other
/// word is kept.
pub open spec fn redact_word(w: Seq<char>) -> Seq<char> {
    if assignment_redacts(w, '=') {
        w.take(first_index(w, '=')).push('=') + "[REDACTED]"@
    } else if assignment_redacts(w, ':') {
        w.take(first_index(w, ':')).push(':') + "[REDACTED]"@
    } else {
        w
    }
}

/// The words of `s`, each redacted, joined by single spaces.
pub open spec fn redacted_assignments(s: Seq<char>) -> Seq<char> {
    join_words(words(s).map_values(|w: Seq<char>| redact_word(w)))
}

/// Exec form of `first_index`.
fn index_of(w: &[char], c: char) -> (r: usize)
    ensures
        r as int == first_index(w@, c),
{
    let len = w.len();
    let mut j: usize = 0;
    while j < len && w[j] != c
        invariant
            len == w@.len(),
            j <= len,
            find_from(w@, c, j as int) == first_index(w@, c),
        decreases len - j,
    {
        j = j + 1;
    }
    j
}

/// Exec form of `trim_key`.
fn trimmed_key(key: &[char]) -> (r: Vec<char>)
    ensures
        r@ == trim_key(key@),
{
    let len = key.len();
    let mut a: usize = 0;
    while a < len && !char_is_key_char(key[a])
        invariant
            len == key@.len(),
            a <= len,
            key_start(key@, a as int) == key_start(key@, 0),
        decreases len - a,
    {
        a = a + 1;
    }
    let mut b: usize = len;
    while b > 0 && !char_is_key_char(key[b - 1])
        invariant
            len == key@.len(),
            b <= len,
            key_end(key@, b as int) == key_end(key@, len as int),
        decreases b,
    {
        b = b - 1;
    }
    let mut r: Vec<char> = Vec::new();
    if a < b {
        let mut k = a;
        while k < b
            invariant
                a <= k <= b <= len,
                len == key@.len(),
                r@ == key@.subrange(a as int, k as int),
            decreases b - k,
        {
            r.push(key[k]);
            k = k + 1;
            proof {
                assert(key@.subrange(a as int, k as int) =~= key@.subrange(a as int, k - 1).push(
                    key@[k - 1],
                ));
            }
        }
    }
    proof {
        assert(key_start(key@, len as int) == len);
        assert(key_end(key@, 0) == 0);
        if !(a < b) {
            assert(r@ =~= seq![]);
        }
    }
    r
}

/// Whether `w` is redacted for separator `sep` (`assignment_redacts`), and
/// where the separator stands.
fn sensitive_split(w: &[char], sep: char) -> (r: (bool, usize))
    ensures
        r.0 == assignment_redacts(w@, sep),
        r.1 as int == first_index(w@, sep),
{
    let k = index_of(w, sep);
    if k < w.len() {
        let mut key: Vec<char> = Vec::new();
        let mut j: usize = 0;
        while j < k
            invariant
                k < w@.len(),
                j <= k,
                key@ == w@.take(j as int),
            decreases k - j,
        {
            key.push(w[j]);
            j = j + 1;
            proof {
                assert(w@.take(j as int) =~= w@.take(j - 1).push(w@[j - 1]));
            }
        }
        let t = trimmed_key(&key);
        (key_is_sensitive(&t), k)
    } else {
        (false, k)
    }
}

/// Exec form of `redact_word`, appended to `out`.
fn push_redacted_word(out: &mut Vec<char>, w: &[char])
    ensures
        final(out)@ == old(out)@ + redact_word(w@),
{
    let (eq_hit, eq_at) = sensitive_split(w, '=');
    let (colon_hit, colon_at) = sensitive_split(w, ':');
    let ghost start = out@;
    if eq_hit || colon_hit {
        let (sep, at) = if eq_hit { ('=', eq_at) } else { (':', colon_at) };
        proof {
            lemma_find_from(w@, sep, 0);
        }
        let mut j: usize = 0;
        while j < at
            invariant
                at <= w@.len(),
                j <= at,
                out@ == start + w@.take(j as int),
            decreases at - j,
        {
            out.push(w[j]);
            j = j + 1;
            proof {
                assert(w@.take(j as int) =~= w@.take(j - 1).push(w@[j - 1]));
            }
        }
        out.push(sep);
        push_str(out, "[REDACTED]");
        proof {
            assert(out@ =~= start + (w@.take(at as int).push(sep) + "[REDACTED]"@));
        }
    } else {
        push_chars(out, w);
    }
}

/// Character-slice form of `redact_sensitive_assignments`.
fn redact_assignment_chars(s: &[char]) -> (out: Vec<char>)
    ensures
        out@ == redacted_assignments(s@),
{
    let len = s.len();
    let mut out: Vec<char> = Vec::new();
    let ghost mut done: Seq<Seq<char>> = seq![];
    let mut any_word = false;
    let mut i: usize = 0;
    while i < len
        invariant
            len == s@.len(),
            i <= len,
            any_word == (done.len() > 0),
            words(s@) == done + words_from(s@, i as int),
            out@ == join_words(done.map_values(|w: Seq<char>| redact_word(w))),
        decreases len - i,
    {
        if char_is_white_space(s[i]) {
            i = i + 1;
        } else {
            let mut j = i;
            while j < len && !char_is_white_space(s[j])
                invariant
                    len == s@.len(),
                    i <= j <= len,
                    word_end(s@, j as int) == word_end(s@, i as int),
                decreases len - j,
            {
                j = j + 1;
            }
            proof {
                lemma_word_end_bounds(s@, i as int);
            }
            let mut w: Vec<char> = Vec::new();
            let mut k = i;
            while k < j
                invariant
                    i <= k <= j <= len,
                    len == s@.len(),
                    w@ == s@.subrange(i as int, k as int),
                decreases j - k,
            {
                w.push(s[k]);
                k = k + 1;
                proof {
                    assert(s@.subrange(i as int, k as int) =~= s@.subrange(i as int, k - 1).push(
                        s@[k - 1],
                    ));
                }
            }
            let ghost prev = done.map_values(|w: Seq<char>| redact_word(w));
            if any_word {
                out.push(' ');
            }
            any_word = true;
            push_redacted_word(&mut out, &w);
            proof {
                let nd = done.push(w@);
                let mapped = nd.map_values(|w: Seq<char>| redact_word(w));
                assert(mapped.drop_last() =~= prev);
                assert(mapped.last() == redact_word(w@));
                if done.len() == 0 {
                    assert(mapped =~= seq![redact_word(w@)]);
                }
                assert(done + words_from(s@, i as int) =~= nd + words_from(s@, j as int));
                done = nd;
            }
            i = j;
        }
    }
    proof {
        assert(done + words_from(s@, i as int) =~= done);
    }
    out
}

/// Replaces the value of every `key=value` / `key:value` word whose key
/// names a credential with `[REDACTED]`, and joins the words with single
/// spaces.
pub fn redact_sensitive_assignments(sql: &str) -> (out: String)
    ensures
        out@ == redacted_assignments(sql@),
{
    let cs = chars_of(sql);
    let out = redact_assignment_chars(&cs);
    string_from_chars(&out)
}


// ---------------------------------------------------------------------------
// The diagnostics form of a SQL text
// ---------------------------------------------------------------------------

/// Literals and comments masked, credential assignments redacted, and the
/// result cut to `DEFAULT_SQL_DIAGNOSTIC_MAX_CHARS` characters.
pub open spec fn redacted_for_diagnostics(sql: Seq<char>) -> Seq<char> {
    truncated(
        redacted_assignments(redacted_literals(sql)),
        DEFAULT_SQL_DIAGNOSTIC_MAX_CHARS as nat,
    )
}

/// The longest text that `redact_sql_for_diagnostics` returns: the kept
/// characters, the marker's fixed text, and the twenty digits of the
/// largest count it can report.
pub open spec fn max_diagnostic_chars() -> nat {
    DEFAULT_SQL_DIAGNOSTIC_MAX_CHARS as nat + 19 + 20
}

/// Powers of ten.
pub open spec fn pow10(k: nat) -> nat
    decreases k,
{
    if k == 0 {
        1
    } else {
        10 * pow10((k - 1) as nat)
    }
}

/// A number below `10^k` has at most `k` decimal digits.
pub proof fn lemma_decimal_len(n: nat, k: nat)
    requires
        1 <= k,
        n < pow10(k),
    ensures
        decimal(n).len() <= k,
    decreases k,
{
    if n >= 10 {
        assert(k >= 2) by {
            if k == 1 {
                assert(pow10(1) == 10 * pow10(0));
            }
        }
        let p = pow10((k - 1) as nat);
        assert(n / 10 < p) by (nonlinear_arith)
            requires
                n < 10 * p,
        ;
        lemma_decimal_len(n / 10, (k - 1) as nat);
    }
}

/// The twenty-digit bound covers every count a `usize` can hold.
proof fn lemma_usize_below_pow10_20(n: usize)
    ensures
        (n as nat) < pow10(20),
{
    reveal_with_fuel(pow10, 21);
    assert(pow10(20) == 100000000000000000000nat);
}

/// The text that diagnostics show of `sql`: literals and comments masked,
/// credential assignments redacted, at most 512 characters kept. The result
/// never has more than `max_diagnostic_chars()` characters.
pub fn redact_sql_for_diagnostics(sql: &str) -> (out: String)
    ensures
        out@ == redacted_for_diagnostics(sql@),
        out@.len() <= max_diagnostic_chars(),
{
    let cs = chars_of(sql);
    let lit = redact_literal_chars(&cs);
    let asg = redact_assignment_chars(&lit);
    let n = asg.len();
    let out = truncate_chars(&asg, DEFAULT_SQL_DIAGNOSTIC_MAX_CHARS);
    proof {
        if n > DEFAULT_SQL_DIAGNOSTIC_MAX_CHARS {
            lemma_usize_below_pow10_20((n - DEFAULT_SQL_DIAGNOSTIC_MAX_CHARS) as usize);
            lemma_decimal_len((n - DEFAULT_SQL_DIAGNOSTIC_MAX_CHARS) as nat, 20);
            reveal_strlit("\u{2026}[truncated ");
            reveal_strlit(" chars]");
        }
    }
    string_from_chars(&out)
}

/// The diagnostics line for `sql` run in `scope`:
/// `[scope] sql=<redacted sql>`.
pub fn debug_sql(scope: &str, sql: &str) -> (line: String)
    ensures
        line@ == "["@ + scope@ + "] sql="@ + redacted_for_diagnostics(sql@),
{
    let mut out: Vec<char> = Vec::new();
    push_str(&mut out, "[");
    push_str(&mut out, scope);
    push_str(&mut out, "] sql=");
    let red = redact_sql_for_diagnostics(sql);
    push_str(&mut out, red.as_str());
    string_from_chars(&out)
}

} // verus!
