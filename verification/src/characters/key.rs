//! Canonical cache keys. A key spells out every field of a filter
//! specification, absent ones too, so that two specifications share a key
//! only when they are equal.

use crate::characters::filter::{FilterSpec, FilterView};
use crate::text::{decimal, is_digit, lemma_decimal_chars, lemma_decimal_injective, push_decimal};
use vstd::prelude::*;

verus! {

/// An optional 32-bit number as a mathematical integer.
pub open spec fn number32(v: Option<i32>) -> Option<int> {
    match v {
        Some(n) => Some(n as int),
        None => None,
    }
}

/// An optional 64-bit number as a mathematical integer.
pub open spec fn number64(v: Option<i64>) -> Option<int> {
    match v {
        Some(n) => Some(n as int),
        None => None,
    }
}

/// An optional number: `None`, or `Some(` the decimal `)`.
pub open spec fn encode_optional(v: Option<int>) -> Seq<char> {
    match v {
        None => "None"@,
        Some(n) => "Some("@ + (decimal(n) + ")"@),
    }
}

/// An optional text: `None`, or `Some(` the text as it is `)`.
pub open spec fn encode_search(v: Option<Seq<char>>) -> Seq<char> {
    match v {
        None => "None"@,
        Some(q) => "Some("@ + (q + ")"@),
    }
}

/// The key under which the page for `f` is cached:
/// `characters:level:L:stroke:S:page:P:limit:N:search:Q`, each of the
/// five fields as it was stated. A field that is absent and a field that
/// states the default are spelled differently.
pub open spec fn list_key(f: FilterView) -> Seq<char> {
    "characters:level:"@ + (encode_optional(number32(f.level)) + (":stroke:"@ + (encode_optional(
        number32(f.stroke_count),
    ) + (":page:"@ + (encode_optional(number64(f.page)) + (":limit:"@ + (encode_optional(
        number64(f.limit),
    ) + (":search:"@ + encode_search(f.search)))))))))
}

/// The key under which the character with identity `id` is cached:
/// `character:ID`.
pub open spec fn entity_key(id: i32) -> Seq<char> {
    "character:"@ + decimal(id as int)
}

/// Whether `c` may occur in the rendering of a number or an optional number.
spec fn field_char(c: char) -> bool {
    is_digit(c) || c == '-' || c == 'N' || c == 'o' || c == 'n' || c == 'e' || c == 'S' || c == 'm'
        || c == '(' || c == ')'
}

proof fn lemma_optional_field_chars(v: Option<int>)
    ensures
        forall|i: int|
            0 <= i < encode_optional(v).len() ==> field_char(#[trigger] encode_optional(v)[i]),
{
    reveal_strlit("None");
    reveal_strlit("Some(");
    reveal_strlit(")");
    match v {
        None => {},
        Some(n) => {
            lemma_decimal_chars(n);
            let d = decimal(n);
            let e = encode_optional(v);
            assert forall|i: int| 0 <= i < e.len() implies field_char(#[trigger] e[i]) by {
                if i < 5 {
                } else if i < 5 + d.len() {
                    assert(e[i] == d[i - 5]);
                } else {
                }
            }
        },
    }
}

/// Two texts that agree after the same prefix agree.
proof fn lemma_strip_prefix(p: Seq<char>, a: Seq<char>, b: Seq<char>)
    requires
        p + a == p + b,
    ensures
        a == b,
{
    assert((p + a).subrange(p.len() as int, (p + a).len() as int) =~= a);
    assert((p + b).subrange(p.len() as int, (p + b).len() as int) =~= b);
}

/// Two texts that agree before the same suffix agree.
proof fn lemma_strip_suffix(a: Seq<char>, b: Seq<char>, s: Seq<char>)
    requires
        a + s == b + s,
    ensures
        a == b,
{
    assert((a + s).len() == a.len() + s.len());
    assert((b + s).len() == b.len() + s.len());
    assert((a + s).subrange(0, a.len() as int) =~= a);
    assert((b + s).subrange(0, b.len() as int) =~= b);
}

/// A field that holds no colon, followed by a separator that starts with
/// one, can be read back in only one way.
proof fn lemma_split_field(a1: Seq<char>, r1: Seq<char>, a2: Seq<char>, r2: Seq<char>, sep: Seq<char>)
    requires
        sep.len() >= 1,
        sep[0] == ':',
        forall|i: int| 0 <= i < a1.len() ==> field_char(#[trigger] a1[i]),
        forall|i: int| 0 <= i < a2.len() ==> field_char(#[trigger] a2[i]),
        a1 + (sep + r1) == a2 + (sep + r2),
    ensures
        a1 == a2,
        r1 == r2,
{
    let x = a1 + (sep + r1);
    let y = a2 + (sep + r2);
    if a1.len() < a2.len() {
        assert(x[a1.len() as int] == sep[0]);
        assert(y[a1.len() as int] == a2[a1.len() as int]);
        assert(field_char(a2[a1.len() as int]));
    }
    if a2.len() < a1.len() {
        assert(y[a2.len() as int] == sep[0]);
        assert(x[a2.len() as int] == a1[a2.len() as int]);
        assert(field_char(a1[a2.len() as int]));
    }
    assert(x.subrange(0, a1.len() as int) =~= a1);
    assert(y.subrange(0, a2.len() as int) =~= a2);
    lemma_strip_prefix(a1, sep + r1, sep + r2);
    lemma_strip_prefix(sep, r1, r2);
}

/// Optional numbers with the same rendering are equal.
pub proof fn lemma_encode_optional_injective(a: Option<int>, b: Option<int>)
    requires
        encode_optional(a) == encode_optional(b),
    ensures
        a == b,
{
    reveal_strlit("None");
    reveal_strlit("Some(");
    reveal_strlit(")");
    match (a, b) {
        (None, None) => {},
        (Some(x), Some(y)) => {
            lemma_strip_prefix("Some("@, decimal(x) + ")"@, decimal(y) + ")"@);
            lemma_strip_suffix(decimal(x), decimal(y), ")"@);
            lemma_decimal_injective(x, y);
        },
        (None, Some(y)) => {
            assert(encode_optional(a)[0] == 'N');
            assert(encode_optional(b)[0] == 'S');
        },
        (Some(x), None) => {
            assert(encode_optional(b)[0] == 'N');
            assert(encode_optional(a)[0] == 'S');
        },
    }
}

/// Optional texts with the same rendering are equal; in particular an
/// absent text and a present one never share a rendering.
pub proof fn lemma_encode_search_injective(a: Option<Seq<char>>, b: Option<Seq<char>>)
    requires
        encode_search(a) == encode_search(b),
    ensures
        a == b,
{
    reveal_strlit("None");
    reveal_strlit("Some(");
    reveal_strlit(")");
    match (a, b) {
        (None, None) => {},
        (Some(x), Some(y)) => {
            lemma_strip_prefix("Some("@, x + ")"@, y + ")"@);
            lemma_strip_suffix(x, y, ")"@);
        },
        (None, Some(y)) => {
            assert(encode_search(a)[0] == 'N');
            assert(encode_search(b)[0] == 'S');
        },
        (Some(x), None) => {
            assert(encode_search(b)[0] == 'N');
            assert(encode_search(a)[0] == 'S');
        },
    }
}

/// Two filter specifications have the same list key exactly when all
/// five of their fields are equal, absent and present told apart: no
/// two different requests share a key, whatever text they search for.
pub proof fn lemma_list_key_injective(f: FilterView, g: FilterView)
    ensures
        list_key(f) == list_key(g) <==> f == g,
{
    if list_key(f) == list_key(g) {
        reveal_strlit(":stroke:");
        reveal_strlit(":page:");
        reveal_strlit(":limit:");
        reveal_strlit(":search:");
        let f_level = encode_optional(number32(f.level));
        let g_level = encode_optional(number32(g.level));
        let f_stroke = encode_optional(number32(f.stroke_count));
        let g_stroke = encode_optional(number32(g.stroke_count));
        let f_page = encode_optional(number64(f.page));
        let g_page = encode_optional(number64(g.page));
        let f_limit = encode_optional(number64(f.limit));
        let g_limit = encode_optional(number64(g.limit));
        let f4 = encode_search(f.search);
        let g4 = encode_search(g.search);
        let f3 = f_limit + (":search:"@ + f4);
        let g3 = g_limit + (":search:"@ + g4);
        let f2 = f_page + (":limit:"@ + f3);
        let g2 = g_page + (":limit:"@ + g3);
        let f1 = f_stroke + (":page:"@ + f2);
        let g1 = g_stroke + (":page:"@ + g2);
        let f0 = f_level + (":stroke:"@ + f1);
        let g0 = g_level + (":stroke:"@ + g1);
        lemma_strip_prefix("characters:level:"@, f0, g0);
        lemma_optional_field_chars(number32(f.level));
        lemma_optional_field_chars(number32(g.level));
        lemma_split_field(f_level, f1, g_level, g1, ":stroke:"@);
        lemma_optional_field_chars(number32(f.stroke_count));
        lemma_optional_field_chars(number32(g.stroke_count));
        lemma_split_field(f_stroke, f2, g_stroke, g2, ":page:"@);
        lemma_optional_field_chars(number64(f.page));
        lemma_optional_field_chars(number64(g.page));
        lemma_split_field(f_page, f3, g_page, g3, ":limit:"@);
        lemma_optional_field_chars(number64(f.limit));
        lemma_optional_field_chars(number64(g.limit));
        lemma_split_field(f_limit, f4, g_limit, g4, ":search:"@);
        lemma_encode_optional_injective(number32(f.level), number32(g.level));
        lemma_encode_optional_injective(number32(f.stroke_count), number32(g.stroke_count));
        lemma_encode_optional_injective(number64(f.page), number64(g.page));
        lemma_encode_optional_injective(number64(f.limit), number64(g.limit));
        lemma_encode_search_injective(f.search, g.search);
    }
}

/// A request that states no page and one that states a page, or no
/// page size and one that states a page size, have different keys,
/// even where the stated number is the default.
pub proof fn lemma_absent_is_not_default(f: FilterView, g: FilterView)
    requires
        f.page is None && g.page is Some || f.limit is None && g.limit is Some,
    ensures
        list_key(f) != list_key(g),
{
    lemma_list_key_injective(f, g);
}

/// Two identities have the same entity key exactly when they are equal.
pub proof fn lemma_entity_key_injective(a: i32, b: i32)
    ensures
        entity_key(a) == entity_key(b) <==> a == b,
{
    if entity_key(a) == entity_key(b) {
        lemma_strip_prefix("character:"@, decimal(a as int), decimal(b as int));
        lemma_decimal_injective(a as int, b as int);
    }
}

/// No list key is an entity key.
pub proof fn lemma_list_key_is_no_entity_key(f: FilterView, id: i32)
    ensures
        list_key(f) != entity_key(id),
{
    reveal_strlit("characters:level:");
    reveal_strlit("character:");
    assert(list_key(f)[9] == 's');
    assert(entity_key(id)[9] == ':');
}

/// An optional 32-bit number in 64 bits.
fn widen(v: Option<i32>) -> (r: Option<i64>)
    ensures
        number64(r) == number32(v),
{
    match v {
        Some(n) => Some(n as i64),
        None => None,
    }
}

/// The rendering of an optional number.
fn render_optional(v: Option<i64>) -> (r: String)
    ensures
        r@ == encode_optional(number64(v)),
{
    match v {
        None => "None".to_string(),
        Some(n) => {
            let mut out = "Some(".to_string();
            push_decimal(&mut out, n);
            out.append(")");
            assert(out@ =~= encode_optional(number64(v)));
            out
        },
    }
}

/// The rendering of an optional text.
fn render_search(v: Option<&String>) -> (r: String)
    ensures
        match v {
            Some(q) => r@ == encode_search(Some(q@)),
            None => r@ == encode_search(None),
        },
{
    match v {
        None => "None".to_string(),
        Some(q) => {
            let mut out = "Some(".to_string();
            out.append(q.as_str());
            out.append(")");
            assert(out@ =~= encode_search(Some(q@)));
            out
        },
    }
}

/// A field, the separator that follows it, and the rest of the key.
fn join_field(field: String, sep: &str, rest: &str) -> (r: String)
    ensures
        r@ == field@ + (sep@ + rest@),
{
    let mut out = field;
    out.append(sep);
    out.append(rest);
    assert(out@ =~= field@ + (sep@ + rest@));
    out
}

/// The cache key of the page that `f` asks for.
pub fn cache_key_for_list(f: &FilterSpec) -> (r: String)
    ensures
        r@ == list_key(f@),
{
    let search = render_search(f.search());
    let limit = join_field(render_optional(f.requested_limit()), ":search:", search.as_str());
    let page = join_field(render_optional(f.requested_page()), ":limit:", limit.as_str());
    let stroke = join_field(render_optional(widen(f.stroke_count())), ":page:", page.as_str());
    let level = join_field(render_optional(widen(f.level())), ":stroke:", stroke.as_str());
    "characters:level:".to_string().concat(level.as_str())
}

/// The cache key of the character with identity `id`.
pub fn cache_key_for_entity(id: i32) -> (r: String)
    ensures
        r@ == entity_key(id),
{
    let mut out = "character:".to_string();
    push_decimal(&mut out, id as i64);
    out
}

} // verus!
