//! Laws of the credential-assignment redaction: a sensitive assignment
//! loses its value, and redacting twice changes nothing.
use vstd::prelude::*;
use crate::sql_diagnostics::{
    assignment_redacts, find_from, first_index, join_words, lemma_find_from, lemma_word_end_bounds,
    redact_word, redacted_assignments, sensitive_key, trim_key, word_end, words, words_from,
};
use crate::text::{ascii_lower_seq, is_white_space, seq_contains};

verus! {

/// A word: non-empty, without whitespace.
pub open spec fn is_word(w: Seq<char>) -> bool {
    w.len() > 0 && forall|i: int| 0 <= i < w.len() ==> !is_white_space(#[trigger] w[i])
}

/// No `c` before position `k`, and `c` at `k` unless `k` is the end.
proof fn lemma_find_from_is(w: Seq<char>, c: char, j: int, k: int)
    requires
        0 <= j <= k <= w.len(),
        forall|i: int| j <= i < k ==> #[trigger] w[i] != c,
        k < w.len() ==> w[k] == c,
    ensures
        find_from(w, c, j) == k,
    decreases k - j,
{
    if j < k {
        lemma_find_from_is(w, c, j + 1, k);
    }
}

/// `first_index(w, c)` is the first position of `c` in `w`.
proof fn lemma_first_index_is(w: Seq<char>, c: char, k: int)
    requires
        0 <= k <= w.len(),
        forall|i: int| 0 <= i < k ==> #[trigger] w[i] != c,
        k < w.len() ==> w[k] == c,
    ensures
        first_index(w, c) == k,
{
    lemma_find_from_is(w, c, 0, k);
}

/// `key=value` with a credential key becomes `key=[REDACTED]`.
pub proof fn law_sensitive_assignment_word(key: Seq<char>, value: Seq<char>)
    requires
        forall|i: int| 0 <= i < key.len() ==> #[trigger] key[i] != '=',
        sensitive_key(trim_key(key)),
    ensures
        redact_word(key + "="@ + value) == key + "=[REDACTED]"@,
{
    reveal_strlit("=");
    reveal_strlit("=[REDACTED]");
    reveal_strlit("[REDACTED]");
    let w = key + "="@ + value;
    assert forall|i: int| 0 <= i < key.len() implies #[trigger] w[i] != '=' by {
        assert(w[i] == key[i]);
    }
    assert(w[key.len() as int] == '=');
    lemma_first_index_is(w, '=', key.len() as int);
    assert(w.take(key.len() as int) =~= key);
    assert(key.push('=') + "[REDACTED]"@ =~= key + "=[REDACTED]"@);
}

/// The word ends where the whitespace-free run ends.
proof fn lemma_word_end_is(s: Seq<char>, j: int, k: int)
    requires
        0 <= j <= k <= s.len(),
        forall|i: int| j <= i < k ==> !is_white_space(#[trigger] s[i]),
        k < s.len() ==> is_white_space(s[k]),
    ensures
        word_end(s, j) == k,
    decreases k - j,
{
    if j < k {
        lemma_word_end_is(s, j + 1, k);
    }
}

/// A single word splits into itself.
proof fn lemma_words_of_word(w: Seq<char>)
    requires
        is_word(w),
    ensures
        words(w) == seq![w],
{
    lemma_word_end_is(w, 0, w.len() as int);
    assert(w.subrange(0, w.len() as int) =~= w);
    assert(words_from(w, w.len() as int) =~= Seq::<Seq<char>>::empty());
    assert(seq![w] + Seq::<Seq<char>>::empty() =~= seq![w]);
}

/// A text made of one sensitive assignment becomes `key=[REDACTED]`.
pub proof fn law_sensitive_assignment_is_redacted(key: Seq<char>, value: Seq<char>)
    requires
        forall|i: int| 0 <= i < key.len() ==> #[trigger] key[i] != '=',
        forall|i: int| 0 <= i < key.len() ==> !is_white_space(#[trigger] key[i]),
        forall|i: int| 0 <= i < value.len() ==> !is_white_space(#[trigger] value[i]),
        sensitive_key(trim_key(key)),
    ensures
        redacted_assignments(key + "="@ + value) == key + "=[REDACTED]"@,
{
    reveal_strlit("=");
    let w = key + "="@ + value;
    assert forall|i: int| 0 <= i < w.len() implies !is_white_space(#[trigger] w[i]) by {
        if i < key.len() {
            assert(w[i] == key[i]);
        } else if i > key.len() {
            assert(w[i] == value[i - key.len() - 1]);
        }
    }
    lemma_words_of_word(w);
    law_sensitive_assignment_word(key, value);
    let mapped = words(w).map_values(|x: Seq<char>| redact_word(x));
    assert(mapped =~= seq![redact_word(w)]);
}


/// Every piece that `words_from` yields is a word.
proof fn lemma_words_are_words(s: Seq<char>, i: int)
    requires
        0 <= i <= s.len(),
    ensures
        forall|k: int|
            0 <= k < words_from(s, i).len() ==> is_word(#[trigger] words_from(s, i)[k]),
    decreases s.len() - i,
{
    if i < s.len() {
        if is_white_space(s[i]) {
            lemma_words_are_words(s, i + 1);
            assert(words_from(s, i) == words_from(s, i + 1));
        } else {
            lemma_word_end_bounds(s, i);
            let e = word_end(s, i);
            lemma_words_are_words(s, e);
            let w = s.subrange(i, e);
            assert forall|j: int| 0 <= j < w.len() implies !is_white_space(#[trigger] w[j]) by {
                assert(w[j] == s[i + j]);
            }
            let rest = words_from(s, e);
            assert(words_from(s, i) == seq![w] + rest);
            assert(is_word(w));
            assert forall|k: int| 0 <= k < words_from(s, i).len() implies is_word(
                #[trigger] words_from(s, i)[k],
            ) by {
                if k > 0 {
                    assert(words_from(s, i)[k] == rest[k - 1]);
                }
            }
        }
    }
}

/// Joining from the front: the first word, a space, and the rest joined.
proof fn lemma_join_front(ws: Seq<Seq<char>>)
    requires
        ws.len() >= 2,
    ensures
        join_words(ws) == ws[0] + seq![' '] + join_words(ws.drop_first()),
    decreases ws.len(),
{
    if ws.len() == 2 {
        assert(ws.drop_last() =~= seq![ws[0]]);
        assert(ws.drop_first() =~= seq![ws[1]]);
        assert(join_words(ws.drop_last()) == ws[0]);
        assert(join_words(ws.drop_first()) == ws[1]);
        assert(join_words(ws) == join_words(ws.drop_last()) + seq![' '] + ws.last());
    } else {
        let init = ws.drop_last();
        let tail = ws.drop_first();
        lemma_join_front(init);
        assert(init.drop_first() =~= tail.drop_last());
        assert(tail.last() == ws.last());
        assert(init[0] == ws[0]);
        assert(join_words(tail) == join_words(tail.drop_last()) + seq![' '] + tail.last());
        assert(join_words(ws) == join_words(init) + seq![' '] + ws.last());
        assert(join_words(ws) =~= ws[0] + seq![' '] + join_words(tail));
    }
}

proof fn lemma_word_end_shift(a: Seq<char>, b: Seq<char>, j: int)
    requires
        0 <= j <= b.len(),
    ensures
        word_end(a + b, a.len() + j) == a.len() + word_end(b, j),
    decreases b.len() - j,
{
    if j < b.len() {
        assert((a + b)[a.len() + j] == b[j]);
        if !is_white_space(b[j]) {
            lemma_word_end_shift(a, b, j + 1);
        }
    }
}

/// Splitting from a position looks only forward.
proof fn lemma_words_shift(a: Seq<char>, b: Seq<char>, i: int)
    requires
        0 <= i <= b.len(),
    ensures
        words_from(a + b, a.len() + i) == words_from(b, i),
    decreases b.len() - i,
{
    let s = a + b;
    let k = a.len() + i;
    if i < b.len() {
        assert(s[k] == b[i]);
        if is_white_space(b[i]) {
            lemma_words_shift(a, b, i + 1);
        } else {
            lemma_word_end_shift(a, b, i);
            lemma_word_end_bounds(b, i);
            lemma_words_shift(a, b, word_end(b, i));
            assert(s.subrange(k, a.len() + word_end(b, i)) =~= b.subrange(i, word_end(b, i)));
        }
    }
}

/// Words joined by spaces split back into the same words.
proof fn lemma_words_of_join(ws: Seq<Seq<char>>)
    requires
        forall|k: int| 0 <= k < ws.len() ==> is_word(#[trigger] ws[k]),
    ensures
        words(join_words(ws)) == ws,
    decreases ws.len(),
{
    if ws.len() == 0 {
        assert(words(Seq::<char>::empty()) =~= Seq::<Seq<char>>::empty());
    } else if ws.len() == 1 {
        assert(is_word(ws[0]));
        lemma_words_of_word(ws[0]);
        assert(ws =~= seq![ws[0]]);
    } else {
        let rest = ws.drop_first();
        assert forall|k: int| 0 <= k < rest.len() implies is_word(#[trigger] rest[k]) by {
            assert(rest[k] == ws[k + 1]);
        }
        lemma_words_of_join(rest);
        lemma_join_front(ws);
        let w0 = ws[0];
        assert(is_word(w0));
        let head = w0 + seq![' '];
        let j = join_words(ws);
        assert(j == head + join_words(rest));
        assert(j[w0.len() as int] == ' ');
        assert forall|i: int| 0 <= i < w0.len() implies !is_white_space(#[trigger] j[i]) by {
            assert(j[i] == w0[i]);
        }
        lemma_word_end_is(j, 0, w0.len() as int);
        assert(j.subrange(0, w0.len() as int) =~= w0);
        lemma_words_shift(head, join_words(rest), 0);
        assert(words_from(j, w0.len() as int) == words_from(j, w0.len() as int + 1));
        assert(seq![w0] + rest =~= ws);
    }
}

/// A redacted word is still a word.
proof fn lemma_redacted_word_is_word(w: Seq<char>)
    requires
        is_word(w),
    ensures
        is_word(redact_word(w)),
{
    reveal_strlit("[REDACTED]");
    let r = redact_word(w);
    lemma_find_from(w, '=', 0);
    lemma_find_from(w, ':', 0);
    assert forall|i: int| 0 <= i < r.len() implies !is_white_space(#[trigger] r[i]) by {
        if assignment_redacts(w, '=') {
            let k = first_index(w, '=');
            if i < k {
                assert(r[i] == w[i]);
            }
        } else if assignment_redacts(w, ':') {
            let k = first_index(w, ':');
            if i < k {
                assert(r[i] == w[i]);
            }
        }
    }
}

/// Redacting a word twice changes nothing.
proof fn lemma_redact_word_idempotent(w: Seq<char>)
    ensures
        redact_word(redact_word(w)) == redact_word(w),
{
    reveal_strlit("[REDACTED]");
    let r = redact_word(w);
    lemma_find_from(w, '=', 0);
    lemma_find_from(w, ':', 0);
    if assignment_redacts(w, '=') {
        let k = first_index(w, '=');
        assert(r[k] == '=');
        assert forall|i: int| 0 <= i < k implies #[trigger] r[i] != '=' by {
            assert(r[i] == w[i]);
        }
        lemma_first_index_is(r, '=', k);
        assert(r.take(k) =~= w.take(k));
        assert(r.take(k).push('=') + "[REDACTED]"@ =~= r);
    } else if assignment_redacts(w, ':') {
        let ke = first_index(w, '=');
        let kc = first_index(w, ':');
        assert(r[kc] == ':');
        assert forall|i: int| 0 <= i < kc implies #[trigger] r[i] != ':' by {
            assert(r[i] == w[i]);
        }
        lemma_first_index_is(r, ':', kc);
        assert(r.take(kc) =~= w.take(kc));
        if ke < kc {
            assert forall|i: int| 0 <= i < ke implies #[trigger] r[i] != '=' by {
                assert(r[i] == w[i]);
            }
            assert(r[ke] == w[ke]);
            lemma_first_index_is(r, '=', ke);
            assert(r.take(ke) =~= w.take(ke));
        } else {
            assert forall|i: int| 0 <= i < r.len() implies #[trigger] r[i] != '=' by {
                if i < kc {
                    assert(r[i] == w[i]);
                }
            }
            lemma_first_index_is(r, '=', r.len() as int);
        }
        assert(r.take(kc).push(':') + "[REDACTED]"@ =~= r);
    }
}

/// Redacting the assignments of an already redacted text changes nothing.
pub proof fn law_assignment_redaction_is_idempotent(s: Seq<char>)
    ensures
        redacted_assignments(redacted_assignments(s)) == redacted_assignments(s),
{
    let ws = words(s);
    lemma_words_are_words(s, 0);
    let mapped = ws.map_values(|w: Seq<char>| redact_word(w));
    assert forall|k: int| 0 <= k < mapped.len() implies is_word(#[trigger] mapped[k]) by {
        assert(is_word(ws[k]));
        lemma_redacted_word_is_word(ws[k]);
    }
    lemma_words_of_join(mapped);
    let twice = mapped.map_values(|w: Seq<char>| redact_word(w));
    assert forall|k: int| 0 <= k < twice.len() implies #[trigger] twice[k] == mapped[k] by {
        lemma_redact_word_idempotent(ws[k]);
    }
    assert(twice =~= mapped);
}

/// Assignment redaction keeps the words: the redacted text has one word
/// for each word of `s`, each redacted on its own, and it is those words
/// joined by single spaces.
pub proof fn law_assignment_redaction_keeps_the_words(s: Seq<char>)
    ensures
        words(redacted_assignments(s)) == words(s).map_values(|w: Seq<char>| redact_word(w)),
        words(redacted_assignments(s)).len() == words(s).len(),
        redacted_assignments(s) == join_words(words(redacted_assignments(s))),
{
    let ws = words(s);
    lemma_words_are_words(s, 0);
    let mapped = ws.map_values(|w: Seq<char>| redact_word(w));
    assert forall|k: int| 0 <= k < mapped.len() implies is_word(#[trigger] mapped[k]) by {
        assert(is_word(ws[k]));
        lemma_redacted_word_is_word(ws[k]);
    }
    lemma_words_of_join(mapped);
}

/// An occurrence of `w` in `x` is one in any text around `x`.
proof fn lemma_contains_within(p: Seq<char>, x: Seq<char>, t: Seq<char>, w: Seq<char>)
    requires
        seq_contains(x, w),
    ensures
        seq_contains(p + x + t, w),
{
    let (i, j) = choose|i: int, j: int|
        0 <= i && j == i + w.len() && j <= x.len() && #[trigger] x.subrange(i, j) == w;
    let y = p + x + t;
    assert(y.subrange(i + p.len(), j + p.len()) =~= x.subrange(i, j));
}

/// The credential test ignores ASCII case: keys that agree once
/// lower-cased are both sensitive or neither, and a key is sensitive
/// exactly when its lower-cased form is.
pub proof fn law_sensitive_key_ignores_ascii_case(k1: Seq<char>, k2: Seq<char>)
    requires
        ascii_lower_seq(k1) == ascii_lower_seq(k2),
    ensures
        sensitive_key(k1) == sensitive_key(k2),
        sensitive_key(ascii_lower_seq(k1)) == sensitive_key(k1),
{
    assert(ascii_lower_seq(ascii_lower_seq(k1)) =~= ascii_lower_seq(k1));
}

/// A sensitive key stays sensitive inside any surrounding text, unless it
/// is `pwd` (in any case), which counts only on its own.
pub proof fn law_sensitive_key_survives_surroundings(a: Seq<char>, k: Seq<char>, b: Seq<char>)
    requires
        sensitive_key(k),
        ascii_lower_seq(k) != "pwd"@,
    ensures
        sensitive_key(a + k + b),
{
    let la = ascii_lower_seq(a);
    let lk = ascii_lower_seq(k);
    let lb = ascii_lower_seq(b);
    assert(ascii_lower_seq(a + k + b) =~= la + lk + lb);
    if seq_contains(lk, "password"@) {
        lemma_contains_within(la, lk, lb, "password"@);
    } else if seq_contains(lk, "passwd"@) {
        lemma_contains_within(la, lk, lb, "passwd"@);
    } else if seq_contains(lk, "secret"@) {
        lemma_contains_within(la, lk, lb, "secret"@);
    } else if seq_contains(lk, "token"@) {
        lemma_contains_within(la, lk, lb, "token"@);
    } else if seq_contains(lk, "api_key"@) {
        lemma_contains_within(la, lk, lb, "api_key"@);
    } else if seq_contains(lk, "apikey"@) {
        lemma_contains_within(la, lk, lb, "apikey"@);
    } else if seq_contains(lk, "access_key"@) {
        lemma_contains_within(la, lk, lb, "access_key"@);
    } else if seq_contains(lk, "private_key"@) {
        lemma_contains_within(la, lk, lb, "private_key"@);
    } else if seq_contains(lk, "credential"@) {
        lemma_contains_within(la, lk, lb, "credential"@);
    } else if seq_contains(lk, "authorization"@) {
        lemma_contains_within(la, lk, lb, "authorization"@);
    } else if seq_contains(lk, "bearer"@) {
        lemma_contains_within(la, lk, lb, "bearer"@);
    }
}

} // verus!
