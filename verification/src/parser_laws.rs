//! Properties of reading Go struct definitions.

use vstd::prelude::*;
use crate::go_parser::{
    BaseType, GoFieldView, RustTypeView, body_fields, field_spec, go_type_spec, has_omitempty,
    snake_case, snake_piece, snake_prefix, split_tag, tag_entry,
};
use crate::laws::lemma_find_char_from;
use crate::text::{case_lower, case_upper, find, is_white_space, starts_with, trim, trim_end, trim_start};

verus! {

// ---------------------------------------------------------------------------
// Go types

/// A pointer to a scalar is the `Option` of that same scalar: for each of
/// `string`, `bool`, `int` and `uint`, the type maps to a scalar `b` and the
/// pointer to it maps to `Option<b>`.
pub proof fn lemma_pointer_to_scalar(s: Seq<char>)
    requires
        s == "string"@ || s == "bool"@ || s == "int"@ || s == "uint"@,
    ensures
        go_type_spec(s) matches RustTypeView::Scalar(b) && go_type_spec("*"@ + s)
            == RustTypeView::Optional(b),
{
    reveal_strlit("string");
    reveal_strlit("bool");
    reveal_strlit("int");
    reveal_strlit("uint");
    reveal_strlit("*");
    reveal_strlit("[]");
    reveal_strlit("CustomDuration");
    let p = "*"@ + s;
    assert(trim_start(s) == s);
    assert(trim_end(s) == s);
    assert(trim(s) == s);
    assert(trim_start(p) == p);
    assert(trim_end(p) == p);
    assert(trim(p) == p);
    assert(p.take(1) =~= "*"@);
    assert(p.skip(1) =~= s);
    assert(s.len() >= 3);
    assert(s.take(2) != "[]"@) by {
        assert(s.take(2)[0] == s[0]);
    }
    assert(s.take(1) != "*"@) by {
        assert(s.take(1)[0] == s[0]);
    }
    assert(s != "CustomDuration"@) by {
        assert("CustomDuration"@.len() == 14);
    }
}

// ---------------------------------------------------------------------------
// Identifiers

proof fn lemma_snake_piece_digit(cs: Seq<char>, d: char, i: int)
    requires
        0 <= i < cs.len(),
        48 <= d as u32 <= 57,
    ensures
        snake_piece(cs.push(d), i) == snake_piece(cs, i),
{
    let cs2 = cs.push(d);
    assert(cs2[i] == cs[i]);
    if i > 0 {
        assert(cs2[i - 1] == cs[i - 1]);
    }
    if i + 1 < cs.len() {
        assert(cs2[i + 1] == cs[i + 1]);
    } else {
        assert(cs2[i + 1] == d);
        assert(!case_lower(d));
    }
}

proof fn lemma_snake_prefix_digit(cs: Seq<char>, d: char, k: int)
    requires
        0 <= k <= cs.len(),
        48 <= d as u32 <= 57,
    ensures
        snake_prefix(cs.push(d), k) == snake_prefix(cs, k),
    decreases k,
{
    if k > 0 {
        lemma_snake_prefix_digit(cs, d, k - 1);
        lemma_snake_piece_digit(cs, d, k - 1);
    }
}

/// Appending a decimal digit to a name appends that digit to its snake_case
/// form: a digit is never preceded by an underscore, and it never adds one
/// before the letter it follows.
pub proof fn lemma_snake_case_digit(cs: Seq<char>, d: char)
    requires
        48 <= d as u32 <= 57,
    ensures
        snake_case(cs.push(d)) == snake_case(cs).push(d),
{
    let cs2 = cs.push(d);
    let n = cs.len() as int;
    lemma_snake_prefix_digit(cs, d, n);
    assert(cs2[n] == d);
    assert(!case_upper(d));
    assert(snake_piece(cs2, n) == seq![d]);
    assert(snake_prefix(cs2, n + 1) == snake_prefix(cs2, n) + snake_piece(cs2, n));
    assert(snake_prefix(cs, n) + seq![d] =~= snake_prefix(cs, n).push(d));
}

// ---------------------------------------------------------------------------
// Fields

/// `omitempty` counts from either entry of the tag: when the yaml entry or
/// the json entry of a field's tag lists it, a `String` field is skipped when
/// empty and defaults, an `Option` is skipped when `None`, a `Vec` is skipped
/// when empty and defaults, and a `bool` defaults.
pub proof fn lemma_omitempty_from_either_entry(line: Seq<char>, f: GoFieldView)
    requires
        field_spec(line) == Some(f),
        has_omitempty(tag_entry(split_tag(trim(line)).1, "yaml"@)) || has_omitempty(
            tag_entry(split_tag(trim(line)).1, "json"@),
        ),
    ensures
        f.rust_type == RustTypeView::Scalar(BaseType::Str) ==> f.skip_serializing_if == Some(
            "String::is_empty"@,
        ) && f.serde_default,
        f.rust_type is Optional || f.rust_type is OptionalBoxed ==> f.skip_serializing_if == Some(
            "Option::is_none"@,
        ),
        f.rust_type is List || f.rust_type is ListOf ==> f.skip_serializing_if == Some(
            "Vec::is_empty"@,
        ) && f.serde_default,
        f.rust_type == RustTypeView::Scalar(BaseType::Bool) ==> f.serde_default,
{
}

// ---------------------------------------------------------------------------
// Comments after a field

proof fn lemma_trim_start_append(t: Seq<char>, u: Seq<char>)
    requires
        trim_start(t).len() > 0,
    ensures
        trim_start(t + u) == trim_start(t) + u,
    decreases t.len(),
{
    assert((t + u)[0] == t[0]);
    if is_white_space(t[0]) {
        assert((t + u).drop_first() =~= t.drop_first() + u);
        lemma_trim_start_append(t.drop_first(), u);
    }
}

proof fn lemma_trim_end_append(s: Seq<char>, v: Seq<char>)
    requires
        trim_end(v).len() > 0,
    ensures
        trim_end(s + v) == s + trim_end(v),
    decreases v.len(),
{
    assert((s + v).last() == v.last());
    if is_white_space(v.last()) {
        assert((s + v).drop_last() =~= s + v.drop_last());
        lemma_trim_end_append(s, v.drop_last());
    }
}

proof fn lemma_trim_end_prefix(v: Seq<char>, i: int)
    requires
        0 <= i < v.len(),
        !is_white_space(v[i]),
    ensures
        i < trim_end(v).len() <= v.len(),
        trim_end(v) == v.take(trim_end(v).len() as int),
        !is_white_space(trim_end(v).last()),
    decreases v.len(),
{
    if is_white_space(v.last()) {
        assert(v.drop_last()[i] == v[i]);
        lemma_trim_end_prefix(v.drop_last(), i);
        assert(v.drop_last().take(trim_end(v).len() as int) =~= v.take(trim_end(v).len() as int));
    } else {
        assert(v.take(v.len() as int) =~= v);
    }
}

proof fn lemma_trim_start_suffix(s: Seq<char>)
    requires
        trim_start(s).len() > 0,
    ensures
        trim_start(s).len() <= s.len(),
        !is_white_space(trim_start(s)[0]),
        trim_start(s) == s.skip(s.len() - trim_start(s).len()),
    decreases s.len(),
{
    if s.len() > 0 && is_white_space(s[0]) {
        lemma_trim_start_suffix(s.drop_first());
        assert(s.drop_first().skip(s.len() - 1 - trim_start(s).len()) =~= s.skip(
            s.len() - trim_start(s).len(),
        ));
    } else {
        assert(s.skip(0) =~= s);
    }
}

/// A tagged field line `code` + "`" + tag + "`" followed by a comment
/// ` //…` declares the same field as without the comment, and neither is a
/// comment line.
pub proof fn lemma_field_comment(code: Seq<char>, tag: Seq<char>, comment: Seq<char>)
    requires
        !code.contains('`'),
        !tag.contains('`'),
        trim_start(code).len() > 0,
    ensures
        ({
            let l = code + seq!['`'] + tag + seq!['`'];
            let l2 = l + " //"@ + comment;
            &&& trim(l).len() > 0
            &&& trim(l2).len() > 0
            &&& starts_with(trim(l2), "//"@) == starts_with(trim(l), "//"@)
            &&& field_spec(trim(l2)) == field_spec(trim(l))
        }),
{
    reveal_strlit(" //");
    reveal_strlit("//");
    reveal_strlit("`");
    let w = seq!['`'] + tag + seq!['`'];
    let l = code + seq!['`'] + tag + seq!['`'];
    let x = " //"@ + comment;
    let l2 = l + " //"@ + comment;
    let tc = trim_start(code);
    assert(l =~= code + w);
    assert(l2 =~= code + (w + x));
    lemma_trim_start_append(code, w);
    lemma_trim_start_append(code, w + x);
    lemma_trim_start_suffix(code);
    let t = tc + w;
    assert(trim_start(l) == t);
    assert(trim_start(l2) =~= t + x);
    // The trailing white space of the comment is the only thing trimmed.
    assert(x[1] == '/');
    lemma_trim_end_prefix(x, 1);
    let y = trim_end(x);
    lemma_trim_end_append(t, x);
    assert(t.last() == '`');
    assert(trim_end(t) == t);
    assert(trim(l) == t);
    let tt = t + y;
    assert(trim(l2) == tt);
    // Both trimmed lines are trimmed already.
    assert(t[0] == tc[0]);
    assert(tt[0] == tc[0]);
    assert(trim_start(t) == t);
    assert(trim_start(tt) == tt);
    assert(tt.last() == y.last());
    assert(trim_end(tt) == tt);
    assert(trim(t) == t);
    assert(trim(tt) == tt);
    // They begin alike.
    assert(tt.take(2) =~= t.take(2));
    // The tag is found at the same place in both.
    let n = tc.len() as int;
    assert forall|i: int| 0 <= i < n implies t[i] != '`' && tt[i] != '`' by {
        assert(t[i] == tc[i]);
        assert(tt[i] == tc[i]);
        assert(tc[i] == code[code.len() - tc.len() + i]);
    }
    assert(t[n] == '`');
    assert(tt[n] == '`');
    assert("`"@ =~= seq!['`']);
    lemma_find_char_from(t, '`', 0, n);
    lemma_find_char_from(tt, '`', 0, n);
    let r1 = t.skip(n + 1);
    let r2 = tt.skip(n + 1);
    assert(r1 =~= tag + seq!['`']);
    assert(r2 =~= tag + seq!['`'] + y);
    let m = tag.len() as int;
    assert forall|i: int| 0 <= i < m implies r1[i] != '`' && r2[i] != '`' by {
        assert(r1[i] == tag[i]);
        assert(r2[i] == tag[i]);
    }
    lemma_find_char_from(r1, '`', 0, m);
    lemma_find_char_from(r2, '`', 0, m);
    assert(t.take(n) =~= tt.take(n));
    assert(r1.take(m) =~= r2.take(m));
    assert(split_tag(tt) == split_tag(t));
}

/// Appending a comment ` //…` to a tagged field line of a struct body leaves
/// the fields that the body declares unchanged: only a line that starts with
/// `//` is a comment line.
pub proof fn lemma_trailing_comment(
    ls: Seq<Seq<char>>,
    j: int,
    k: int,
    m: int,
    code: Seq<char>,
    tag: Seq<char>,
    comment: Seq<char>,
)
    requires
        0 <= j <= m < k <= ls.len(),
        ls[m] == code + seq!['`'] + tag + seq!['`'],
        !code.contains('`'),
        !tag.contains('`'),
        trim_start(code).len() > 0,
    ensures
        body_fields(ls.update(m, ls[m] + " //"@ + comment), j, k) == body_fields(ls, j, k),
    decreases k - j,
{
    let ls2 = ls.update(m, ls[m] + " //"@ + comment);
    if m < k - 1 {
        lemma_trailing_comment(ls, j, k - 1, m, code, tag, comment);
        assert(ls2[k - 1] == ls[k - 1]);
    } else {
        lemma_field_comment(code, tag, comment);
        lemma_body_fields_same_prefix(ls, ls2, j, k - 1);
        assert(ls2[k - 1] == ls[m] + " //"@ + comment);
    }
}

proof fn lemma_body_fields_same_prefix(ls: Seq<Seq<char>>, ls2: Seq<Seq<char>>, j: int, k: int)
    requires
        0 <= j,
        k <= ls.len(),
        k <= ls2.len(),
        forall|i: int| 0 <= i < k ==> ls2[i] == ls[i],
    ensures
        body_fields(ls2, j, k) == body_fields(ls, j, k),
    decreases k - j,
{
    if j < k {
        lemma_body_fields_same_prefix(ls, ls2, j, k - 1);
    }
}

} // verus!
