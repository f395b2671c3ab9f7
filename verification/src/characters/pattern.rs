//! `LIKE` patterns for the search filter. The store matches texts
//! against a pattern; the pattern built here matches exactly the texts
//! in which the search text occurs.

use crate::text::{chars_of, contains_text, occurs_at};
use vstd::prelude::*;

verus! {

/// Whether `c` has a special meaning in a `LIKE` pattern.
pub open spec fn like_special(c: char) -> bool {
    c == '%' || c == '_' || c == '\\'
}

/// The pattern that matches the single character `c`: `c` itself, after
/// a backslash if it has a special meaning.
pub open spec fn escape_char(c: char) -> Seq<char> {
    if like_special(c) {
        seq!['\\', c]
    } else {
        seq![c]
    }
}

/// The pattern that matches the text `s` and nothing else.
pub open spec fn escape_like(s: Seq<char>) -> Seq<char>
    decreases s.len(),
{
    if s.len() == 0 {
        Seq::<char>::empty()
    } else {
        escape_char(s[0]) + escape_like(s.drop_first())
    }
}

/// The pattern for the texts in which `s` occurs: anything, then `s`,
/// then anything.
pub open spec fn like_pattern(s: Seq<char>) -> Seq<char> {
    seq!['%'] + escape_like(s) + seq!['%']
}

/// What it means for the text `t` to match the pattern `p` with
/// backslash as the escape character: `%` stands for any run of
/// characters, `_` for any one character, a backslash makes the next
/// character stand for itself, and every other character stands for
/// itself. A pattern that ends in a lone backslash matches nothing.
pub open spec fn like_matches(p: Seq<char>, t: Seq<char>) -> bool
    decreases p.len() + t.len(),
{
    if p.len() == 0 {
        t.len() == 0
    } else if p[0] == '%' {
        like_matches(p.drop_first(), t) || (t.len() > 0 && like_matches(p, t.drop_first()))
    } else if p[0] == '_' {
        t.len() > 0 && like_matches(p.drop_first(), t.drop_first())
    } else if p[0] == '\\' {
        p.len() >= 2 && t.len() > 0 && t[0] == p[1] && like_matches(
            p.drop_first().drop_first(),
            t.drop_first(),
        )
    } else {
        t.len() > 0 && t[0] == p[0] && like_matches(p.drop_first(), t.drop_first())
    }
}

/// The pattern for two texts in a row is the two patterns in a row.
pub proof fn lemma_escape_concat(a: Seq<char>, b: Seq<char>)
    ensures
        escape_like(a + b) == escape_like(a) + escape_like(b),
    decreases a.len(),
{
    if a.len() == 0 {
        assert(a + b =~= b);
        assert(escape_like(a) + escape_like(b) =~= escape_like(b));
    } else {
        lemma_escape_concat(a.drop_first(), b);
        assert((a + b).drop_first() =~= a.drop_first() + b);
        assert((a + b)[0] == a[0]);
        assert(escape_like(a + b) =~= escape_like(a) + escape_like(b));
    }
}

/// The pattern for a text of one character.
proof fn lemma_escape_one(c: char)
    ensures
        escape_like(seq![c]) == escape_char(c),
{
    let s = seq![c];
    assert(s.drop_first() =~= Seq::<char>::empty());
    assert(escape_like(s.drop_first()) =~= Seq::<char>::empty());
    assert(escape_char(c) + Seq::<char>::empty() =~= escape_char(c));
}

/// A pattern that starts with the pattern for `s` matches the texts
/// that start with `s` and whose rest matches the rest of the pattern.
pub proof fn lemma_literal_prefix(s: Seq<char>, q: Seq<char>, t: Seq<char>)
    ensures
        like_matches(escape_like(s) + q, t) <==> (s.len() <= t.len() && t.subrange(
            0,
            s.len() as int,
        ) == s && like_matches(q, t.subrange(s.len() as int, t.len() as int))),
    decreases s.len(),
{
    let p = escape_like(s) + q;
    if s.len() == 0 {
        assert(p =~= q);
        assert(t.subrange(0, 0) =~= s);
        assert(t.subrange(0, t.len() as int) =~= t);
    } else {
        let c = s[0];
        let rest = s.drop_first();
        let tail = escape_like(rest) + q;
        if t.len() == 0 {
            assert(p[0] == escape_char(c)[0]);
            assert(!like_matches(p, t));
        } else {
            let t1 = t.drop_first();
            lemma_literal_prefix(rest, q, t1);
            if like_special(c) {
                assert(p[0] == '\\' && p[1] == c);
                assert(p.drop_first().drop_first() =~= tail);
                assert(like_matches(p, t) == (t[0] == c && like_matches(tail, t1)));
            } else {
                assert(p[0] == c);
                assert(p.drop_first() =~= tail);
                assert(like_matches(p, t) == (t[0] == c && like_matches(tail, t1)));
            }
            if s.len() <= t.len() {
                assert(t1.subrange(0, rest.len() as int) =~= t.subrange(1, s.len() as int));
                assert(t1.subrange(rest.len() as int, t1.len() as int) =~= t.subrange(
                    s.len() as int,
                    t.len() as int,
                ));
                if t.subrange(0, s.len() as int) == s {
                    assert(t[0] == t.subrange(0, s.len() as int)[0]);
                    assert(t.subrange(1, s.len() as int) =~= rest);
                }
                if t[0] == c && t.subrange(1, s.len() as int) == rest {
                    assert forall|i: int| 0 <= i < s.len() implies t.subrange(
                        0,
                        s.len() as int,
                    )[i] == s[i] by {
                        if i > 0 {
                            assert(t.subrange(1, s.len() as int)[i - 1] == rest[i - 1]);
                        }
                    }
                    assert(t.subrange(0, s.len() as int) =~= s);
                }
            }
        }
    }
}

/// A pattern that starts with `%` matches every text of which some
/// tail matches the rest of the pattern.
pub proof fn lemma_percent_intro(q: Seq<char>, t: Seq<char>, k: int)
    requires
        0 <= k <= t.len(),
        like_matches(q, t.subrange(k, t.len() as int)),
    ensures
        like_matches(seq!['%'] + q, t),
    decreases k,
{
    let p = seq!['%'] + q;
    assert(p[0] == '%');
    assert(p.drop_first() =~= q);
    if k == 0 {
        assert(t.subrange(0, t.len() as int) =~= t);
    } else {
        let t1 = t.drop_first();
        assert(t1.subrange(k - 1, t1.len() as int) =~= t.subrange(k, t.len() as int));
        lemma_percent_intro(q, t1, k - 1);
    }
}

/// A text that matches a pattern that starts with `%` has a tail that
/// matches the rest of the pattern; the result says where it starts.
pub proof fn lemma_percent_elim(q: Seq<char>, t: Seq<char>) -> (k: int)
    requires
        like_matches(seq!['%'] + q, t),
    ensures
        0 <= k <= t.len(),
        like_matches(q, t.subrange(k, t.len() as int)),
    decreases t.len(),
{
    let p = seq!['%'] + q;
    assert(p[0] == '%');
    assert(p.drop_first() =~= q);
    if like_matches(q, t) {
        assert(t.subrange(0, t.len() as int) =~= t);
        0
    } else {
        let t1 = t.drop_first();
        let k1 = lemma_percent_elim(q, t1);
        assert(t1.subrange(k1, t1.len() as int) =~= t.subrange(k1 + 1, t.len() as int));
        k1 + 1
    }
}

/// The pattern built for a search text matches exactly the texts in
/// which the search text occurs, whatever characters it holds.
pub proof fn lemma_like_pattern_means_contains(s: Seq<char>, t: Seq<char>)
    ensures
        like_matches(like_pattern(s), t) <==> contains_text(t, s),
{
    let any = seq!['%'];
    let inner = escape_like(s) + any;
    assert(like_pattern(s) =~= any + inner);
    if like_matches(like_pattern(s), t) {
        let k = lemma_percent_elim(inner, t);
        let tail = t.subrange(k, t.len() as int);
        lemma_literal_prefix(s, any, tail);
        assert(tail.subrange(0, s.len() as int) =~= t.subrange(k, k + s.len()));
        assert(occurs_at(t, s, k));
    }
    if contains_text(t, s) {
        let k = choose|k: int| occurs_at(t, s, k);
        let tail = t.subrange(k, t.len() as int);
        let rest = tail.subrange(s.len() as int, tail.len() as int);
        assert(tail.subrange(0, s.len() as int) =~= t.subrange(k, k + s.len()));
        assert(rest.subrange(rest.len() as int, rest.len() as int) =~= Seq::<char>::empty());
        assert(any + Seq::<char>::empty() =~= any);
        lemma_percent_intro(Seq::<char>::empty(), rest, rest.len() as int);
        lemma_literal_prefix(s, any, tail);
        lemma_percent_intro(inner, t, k);
    }
}

/// The `LIKE` pattern, with backslash as the escape character, that
/// matches the texts in which `s` occurs.
pub fn like_pattern_for(s: &str) -> (r: String)
    ensures
        r@ == like_pattern(s@),
{
    proof {
        reveal_strlit("%");
        reveal_strlit("\\");
    }
    let chars = chars_of(s);
    let n = chars.len();
    let mut out = "%".to_string();
    let mut i: usize = 0;
    proof {
        assert(s@.take(0) =~= Seq::<char>::empty());
        assert(out@ =~= seq!['%'] + escape_like(s@.take(0)));
    }
    while i < n
        invariant
            chars@ == s@,
            n == s@.len(),
            i <= n,
            "\\"@ == seq!['\\'],
            out@ == seq!['%'] + escape_like(s@.take(i as int)),
        decreases n - i,
    {
        proof {
            assert(s@.take(i + 1) =~= s@.take(i as int) + seq![s@[i as int]]);
            lemma_escape_concat(s@.take(i as int), seq![s@[i as int]]);
            lemma_escape_one(s@[i as int]);
        }
        let c = chars[i];
        if c == '%' || c == '_' || c == '\\' {
            out.append("\\");
        }
        let one = s.substring_char(i, i + 1);
        proof {
            assert(one@ =~= seq![s@[i as int]]);
        }
        out.append(one);
        proof {
            assert(out@ =~= seq!['%'] + escape_like(s@.take(i + 1)));
        }
        i = i + 1;
    }
    proof {
        assert(s@.take(n as int) =~= s@);
    }
    out.append("%");
    out
}

} // verus!
