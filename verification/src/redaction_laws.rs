//! Laws of the literal and comment redaction: text without literals or
//! comments is kept, a literal is masked wherever it stands, and redacting
//! twice changes nothing.
use vstd::prelude::*;
use crate::sql_diagnostics::{
    block_end, is_quote, lemma_block_end_bounds, lemma_line_end_bounds, lemma_literal_end_bounds,
    line_end, literal_end, redact_from, redacted_for_diagnostics, redacted_literals,
};

verus! {

/// Text that holds no quote and starts no comment.
pub open spec fn is_plain(s: Seq<char>) -> bool {
    forall|i: int|
        0 <= i < s.len() ==> {
            &&& !is_quote(#[trigger] s[i])
            &&& !(s[i] == '-' && i + 1 < s.len() && s[i + 1] == '-')
            &&& !(s[i] == '/' && i + 1 < s.len() && s[i + 1] == '*')
        }
}

/// `a` followed by `r` starts no comment across the seam.
pub open spec fn joins_cleanly(a: Seq<char>, r: Seq<char>) -> bool {
    a.len() == 0 || r.len() == 0 || !((a.last() == '-' && r[0] == '-') || (a.last() == '/' && r[0]
        == '*'))
}

proof fn lemma_literal_end_shift(a: Seq<char>, b: Seq<char>, q: char, j: int)
    requires
        0 <= j <= b.len(),
    ensures
        literal_end(a + b, q, a.len() + j) == a.len() + literal_end(b, q, j),
    decreases b.len() - j,
{
    let s = a + b;
    let k = a.len() + j;
    if j < b.len() {
        assert(s[k] == b[j]);
        if j + 1 < b.len() {
            assert(s[k + 1] == b[j + 1]);
        }
        if b[j] == q {
            if j + 1 < b.len() && b[j + 1] == q {
                lemma_literal_end_shift(a, b, q, j + 2);
            }
        } else if b[j] == '\\' && q != '`' {
            if j + 1 < b.len() {
                lemma_literal_end_shift(a, b, q, j + 2);
            }
        } else {
            lemma_literal_end_shift(a, b, q, j + 1);
        }
    }
}

proof fn lemma_line_end_shift(a: Seq<char>, b: Seq<char>, j: int)
    requires
        0 <= j <= b.len(),
    ensures
        line_end(a + b, a.len() + j) == a.len() + line_end(b, j),
    decreases b.len() - j,
{
    if j < b.len() {
        assert((a + b)[a.len() + j] == b[j]);
        if b[j] != '\n' && b[j] != '\r' {
            lemma_line_end_shift(a, b, j + 1);
        }
    }
}

proof fn lemma_block_end_shift(a: Seq<char>, b: Seq<char>, j: int)
    requires
        0 <= j <= b.len(),
    ensures
        block_end(a + b, a.len() + j) == a.len() + block_end(b, j),
    decreases b.len() - j,
{
    if j + 1 < b.len() {
        assert((a + b)[a.len() + j] == b[j]);
        assert((a + b)[a.len() + j + 1] == b[j + 1]);
        if !(b[j] == '*' && b[j + 1] == '/') {
            lemma_block_end_shift(a, b, j + 1);
        }
    }
}

/// Redaction from a position looks only forward.
proof fn lemma_redact_shift(a: Seq<char>, b: Seq<char>, i: int)
    requires
        0 <= i <= b.len(),
    ensures
        redact_from(a + b, a.len() + i) == redact_from(b, i),
    decreases b.len() - i,
{
    let s = a + b;
    let k = a.len() + i;
    if i < b.len() {
        assert(s[k] == b[i]);
        if i + 1 < b.len() {
            assert(s[k + 1] == b[i + 1]);
        }
        if is_quote(b[i]) {
            lemma_literal_end_shift(a, b, b[i], i + 1);
            lemma_literal_end_bounds(b, b[i], i + 1);
            lemma_redact_shift(a, b, literal_end(b, b[i], i + 1));
        } else if b[i] == '-' && i + 1 < b.len() && b[i + 1] == '-' {
            lemma_line_end_shift(a, b, i + 2);
            lemma_line_end_bounds(b, i + 2);
            lemma_redact_shift(a, b, line_end(b, i + 2));
        } else if b[i] == '/' && i + 1 < b.len() && b[i + 1] == '*' {
            lemma_block_end_shift(a, b, i + 2);
            lemma_block_end_bounds(b, i + 2);
            lemma_redact_shift(a, b, block_end(b, i + 2));
        } else {
            lemma_redact_shift(a, b, i + 1);
        }
    }
}

/// The redaction of `x + r` from the seam on is the redaction of `r`.
proof fn lemma_redact_suffix(x: Seq<char>, r: Seq<char>)
    ensures
        redact_from(x + r, x.len() as int) == redacted_literals(r),
{
    lemma_redact_shift(x, r, 0);
}

/// Plain text is kept as it is, up to the seam with what follows.
proof fn lemma_plain_prefix_from(a: Seq<char>, r: Seq<char>, i: int)
    requires
        is_plain(a),
        joins_cleanly(a, r),
        0 <= i <= a.len(),
    ensures
        redact_from(a + r, i) == a.skip(i) + redacted_literals(r),
    decreases a.len() - i,
{
    let s = a + r;
    if i == a.len() {
        lemma_redact_suffix(a, r);
        assert(a.skip(i) =~= Seq::<char>::empty());
        assert(a.skip(i) + redacted_literals(r) =~= redacted_literals(r));
    } else {
        assert(s[i] == a[i]);
        assert(!is_quote(a[i]));
        if i + 1 < a.len() {
            assert(s[i + 1] == a[i + 1]);
        } else if r.len() > 0 {
            assert(s[i + 1] == r[0]);
            assert(a.last() == a[i]);
        }
        lemma_plain_prefix_from(a, r, i + 1);
        assert(a.skip(i) =~= seq![a[i]] + a.skip(i + 1));
    }
}

/// Text without literals or comments is kept as it is.
pub proof fn law_plain_text_is_kept(s: Seq<char>)
    requires
        is_plain(s),
    ensures
        redacted_literals(s) == s,
{
    lemma_plain_prefix_from(s, seq![], 0);
    assert(s + Seq::<char>::empty() =~= s);
    assert(s.skip(0) =~= s);
    assert(redacted_literals(Seq::<char>::empty()) =~= Seq::<char>::empty());
}

/// Plain text before anything is kept, and what follows it is redacted as
/// it would be on its own.
pub proof fn law_plain_prefix_is_kept(a: Seq<char>, r: Seq<char>)
    requires
        is_plain(a),
        joins_cleanly(a, r),
    ensures
        redacted_literals(a + r) == a + redacted_literals(r),
{
    lemma_plain_prefix_from(a, r, 0);
    assert(a.skip(0) =~= a);
}

/// Scanning a literal body skips a run that holds neither the quote nor
/// (outside backquotes) a backslash.
proof fn lemma_literal_run(s: Seq<char>, q: char, j: int, m: int)
    requires
        0 <= j,
        0 <= m,
        j + m <= s.len(),
        forall|k: int| j <= k < j + m ==> s[k] != q && (q == '`' || s[k] != '\\'),
    ensures
        literal_end(s, q, j) == literal_end(s, q, j + m),
    decreases m,
{
    if m > 0 {
        lemma_literal_run(s, q, j + 1, m - 1);
    }
}

/// A quoted literal becomes its quote, `[REDACTED]` and its quote, and what
/// follows it is redacted as it would be on its own.
pub proof fn law_literal_is_masked(q: char, body: Seq<char>, rest: Seq<char>)
    requires
        is_quote(q),
        forall|k: int| 0 <= k < body.len() ==> body[k] != q && (q == '`' || body[k] != '\\'),
        rest.len() == 0 || rest[0] != q,
    ensures
        redacted_literals(seq![q] + body + seq![q] + rest) == seq![q] + "[REDACTED]"@ + seq![q]
            + redacted_literals(rest),
{
    let lit = seq![q] + body + seq![q];
    let s = lit + rest;
    assert(s[0] == q);
    assert forall|k: int| 1 <= k < 1 + body.len() implies s[k] != q && (q == '`' || s[k] != '\\') by {
        assert(s[k] == body[k - 1]);
    }
    lemma_literal_run(s, q, 1, body.len() as int);
    let j = body.len() as int + 1;
    assert(s[j] == q);
    if rest.len() > 0 {
        assert(s[j + 1] == rest[0]);
    }
    assert(literal_end(s, q, j) == j + 1);
    lemma_redact_suffix(lit, rest);
    assert(s == seq![q] + body + seq![q] + rest);
}


/// Scanning for a line break skips a run without one.
proof fn lemma_line_run(s: Seq<char>, j: int, m: int)
    requires
        0 <= j,
        0 <= m,
        j + m <= s.len(),
        forall|k: int| j <= k < j + m ==> s[k] != '\n' && s[k] != '\r',
    ensures
        line_end(s, j) == line_end(s, j + m),
    decreases m,
{
    if m > 0 {
        lemma_line_run(s, j + 1, m - 1);
    }
}

/// Scanning for `*/` skips a run in which none starts.
proof fn lemma_block_run(s: Seq<char>, j: int, m: int)
    requires
        0 <= j,
        0 <= m,
        j + m + 1 <= s.len(),
        forall|k: int| j <= k < j + m ==> !(#[trigger] s[k] == '*' && s[k + 1] == '/'),
    ensures
        block_end(s, j) == block_end(s, j + m),
    decreases m,
{
    if m > 0 {
        lemma_block_run(s, j + 1, m - 1);
    }
}

/// A `--` comment runs to the line break, which is kept.
pub proof fn law_line_comment_is_masked(c: Seq<char>, rest: Seq<char>)
    requires
        forall|k: int| 0 <= k < c.len() ==> c[k] != '\n' && c[k] != '\r',
        rest.len() == 0 || rest[0] == '\n' || rest[0] == '\r',
    ensures
        redacted_literals("--"@ + c + rest) == "--[REDACTED_COMMENT]"@ + redacted_literals(rest),
{
    reveal_strlit("--");
    let head = "--"@ + c;
    let s = head + rest;
    assert(s[0] == '-' && s[1] == '-');
    assert forall|k: int| 2 <= k < 2 + c.len() implies s[k] != '\n' && s[k] != '\r' by {
        assert(s[k] == c[k - 2]);
    }
    lemma_line_run(s, 2, c.len() as int);
    if rest.len() > 0 {
        assert(s[head.len() as int] == rest[0]);
    }
    assert(line_end(s, head.len() as int) == head.len());
    lemma_redact_suffix(head, rest);
}

/// A `/* */` comment becomes `/*[REDACTED_COMMENT]*/`.
pub proof fn law_block_comment_is_masked(c: Seq<char>, rest: Seq<char>)
    requires
        forall|k: int| 0 <= k < c.len() - 1 ==> !(#[trigger] c[k] == '*' && c[k + 1] == '/'),
    ensures
        redacted_literals("/*"@ + c + "*/"@ + rest) == "/*[REDACTED_COMMENT]*/"@ + redacted_literals(
            rest,
        ),
{
    reveal_strlit("/*");
    reveal_strlit("*/");
    let head = "/*"@ + c + "*/"@;
    let s = head + rest;
    let n = c.len() as int;
    assert(s[0] == '/' && s[1] == '*');
    assert(s[2 + n] == '*' && s[3 + n] == '/');
    assert forall|k: int| 2 <= k < 2 + n implies !(#[trigger] s[k] == '*' && s[k + 1] == '/') by {
        assert(s[k] == c[k - 2]);
        if k + 1 < 2 + n {
            assert(s[k + 1] == c[k - 1]);
        } else {
            assert(s[k + 1] == '*');
        }
    }
    lemma_block_run(s, 2, n);
    assert(block_end(s, 2 + n) == 4 + n);
    lemma_redact_suffix(head, rest);
}

/// Where a redacted text starts: with the character it starts from.
proof fn lemma_redaction_starts_with(s: Seq<char>, i: int)
    requires
        0 <= i < s.len(),
    ensures
        redact_from(s, i).len() > 0,
        redact_from(s, i)[0] == s[i],
{
    reveal_strlit("--[REDACTED_COMMENT]");
    reveal_strlit("/*[REDACTED_COMMENT]*/");
}

/// A literal ends before a character that is not its quote.
proof fn lemma_literal_end_not_quote(s: Seq<char>, q: char, j: int)
    requires
        0 <= j <= s.len(),
    ensures
        literal_end(s, q, j) < s.len() ==> s[literal_end(s, q, j)] != q,
    decreases s.len() - j,
{
    if j < s.len() {
        if s[j] == q {
            if j + 1 < s.len() && s[j + 1] == q {
                lemma_literal_end_not_quote(s, q, j + 2);
            }
        } else if s[j] == '\\' && q != '`' {
            if j + 1 < s.len() {
                lemma_literal_end_not_quote(s, q, j + 2);
            }
        } else {
            lemma_literal_end_not_quote(s, q, j + 1);
        }
    }
}

/// A line comment ends at a line break or at the end.
proof fn lemma_line_end_at_break(s: Seq<char>, j: int)
    requires
        0 <= j <= s.len(),
    ensures
        line_end(s, j) < s.len() ==> s[line_end(s, j)] == '\n' || s[line_end(s, j)] == '\r',
    decreases s.len() - j,
{
    if j < s.len() && s[j] != '\n' && s[j] != '\r' {
        lemma_line_end_at_break(s, j + 1);
    }
}

proof fn lemma_redaction_idempotent_from(s: Seq<char>, i: int)
    requires
        0 <= i <= s.len(),
    ensures
        redacted_literals(redact_from(s, i)) == redact_from(s, i),
    decreases s.len() - i,
{
    if i == s.len() {
        assert(redact_from(s, i) =~= Seq::<char>::empty());
        assert(redacted_literals(Seq::<char>::empty()) =~= Seq::<char>::empty());
    } else {
        let c = s[i];
        if is_quote(c) {
            let e = literal_end(s, c, i + 1);
            lemma_literal_end_bounds(s, c, i + 1);
            lemma_literal_end_not_quote(s, c, i + 1);
            lemma_redaction_idempotent_from(s, e);
            let r = redact_from(s, e);
            if e < s.len() {
                lemma_redaction_starts_with(s, e);
            } else {
                assert(r =~= Seq::<char>::empty());
            }
            reveal_strlit("[REDACTED]");
            law_literal_is_masked(c, "[REDACTED]"@, r);
            assert(redact_from(s, i) == seq![c] + "[REDACTED]"@ + seq![c] + r);
        } else if c == '-' && i + 1 < s.len() && s[i + 1] == '-' {
            let e = line_end(s, i + 2);
            lemma_line_end_bounds(s, i + 2);
            lemma_line_end_at_break(s, i + 2);
            lemma_redaction_idempotent_from(s, e);
            let r = redact_from(s, e);
            if e < s.len() {
                lemma_redaction_starts_with(s, e);
            } else {
                assert(r =~= Seq::<char>::empty());
            }
            reveal_strlit("[REDACTED_COMMENT]");
            reveal_strlit("--[REDACTED_COMMENT]");
            reveal_strlit("--");
            law_line_comment_is_masked("[REDACTED_COMMENT]"@, r);
            assert("--"@ + "[REDACTED_COMMENT]"@ =~= "--[REDACTED_COMMENT]"@);
        } else if c == '/' && i + 1 < s.len() && s[i + 1] == '*' {
            let e = block_end(s, i + 2);
            lemma_block_end_bounds(s, i + 2);
            lemma_redaction_idempotent_from(s, e);
            let r = redact_from(s, e);
            reveal_strlit("[REDACTED_COMMENT]");
            reveal_strlit("/*[REDACTED_COMMENT]*/");
            reveal_strlit("/*");
            reveal_strlit("*/");
            law_block_comment_is_masked("[REDACTED_COMMENT]"@, r);
            assert("/*"@ + "[REDACTED_COMMENT]"@ + "*/"@ =~= "/*[REDACTED_COMMENT]*/"@);
        } else {
            lemma_redaction_idempotent_from(s, i + 1);
            let r = redact_from(s, i + 1);
            if i + 1 < s.len() {
                lemma_redaction_starts_with(s, i + 1);
            }
            law_plain_prefix_is_kept(seq![c], r);
            assert(redact_from(s, i) == seq![c] + r);
        }
    }
}

/// Redacting an already redacted text changes nothing.
pub proof fn law_redaction_is_idempotent(s: Seq<char>)
    ensures
        redacted_literals(redacted_literals(s)) == redacted_literals(s),
{
    lemma_redaction_idempotent_from(s, 0);
}

/// The diagnostics text does not depend on what a quoted literal holds:
/// after plain text, a literal whose body holds neither its quote nor
/// (outside backquotes) a backslash gives the same diagnostics text
/// whatever its body.
pub proof fn law_diagnostics_ignore_literal_content(
    a: Seq<char>,
    q: char,
    b1: Seq<char>,
    b2: Seq<char>,
    rest: Seq<char>,
)
    requires
        is_plain(a),
        is_quote(q),
        forall|k: int| 0 <= k < b1.len() ==> b1[k] != q && (q == '`' || b1[k] != '\\'),
        forall|k: int| 0 <= k < b2.len() ==> b2[k] != q && (q == '`' || b2[k] != '\\'),
        rest.len() == 0 || rest[0] != q,
    ensures
        redacted_for_diagnostics(a + seq![q] + b1 + seq![q] + rest) == redacted_for_diagnostics(
            a + seq![q] + b2 + seq![q] + rest,
        ),
{
    let l1 = seq![q] + b1 + seq![q] + rest;
    let l2 = seq![q] + b2 + seq![q] + rest;
    law_literal_is_masked(q, b1, rest);
    law_literal_is_masked(q, b2, rest);
    law_plain_prefix_is_kept(a, l1);
    law_plain_prefix_is_kept(a, l2);
    assert(a + seq![q] + b1 + seq![q] + rest =~= a + l1);
    assert(a + seq![q] + b2 + seq![q] + rest =~= a + l2);
}

} // verus!
