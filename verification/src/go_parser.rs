//! Reading Go struct definitions (the cloudflared configuration source) into
//! a description of the Rust structs that mirror them.

use vstd::prelude::*;
use vstd::string::StringExecFns;
use crate::text::{
    case_lower, case_lower_head, case_upper, chars_of, find, find_in_window, is_lowercase,
    is_uppercase, join, push_char, split, split_window, starts_with, string_from_window,
    to_lowercase_head, trim, trim_window, window_eq, window_starts_with, windows_of, windows_within,
    words, words_window, string_views, lemma_string_views_push, lemma_windows_push, join_windows,
    lines, lines_window,
};

verus! {

/// The Go scalar types that map onto a Rust primitive or `String`.
#[derive(Clone, Copy, Debug, PartialEq, Eq, Structural)]
pub enum BaseType {
    Str,
    Bool,
    Int,
    Uint,
}

/// The Rust type chosen for a Go field type.
#[derive(Clone, Debug, PartialEq, Eq)]
pub enum RustType {
    /// `String`, `bool`, `i64` or `u64`.
    Scalar(BaseType),
    /// A struct named like the Go type.
    Struct(String),
    /// `Option<String>`, `Option<bool>`, `Option<i64>` or `Option<u64>`.
    Optional(BaseType),
    /// `Option<Box<T>>` for a pointer to the struct `T`.
    OptionalBoxed(String),
    /// `Vec<String>`, `Vec<i64>` or `Vec<u64>`.
    List(BaseType),
    /// `Vec<T>` for a slice of `T`.
    ListOf(String),
}

/// The mathematical form of a `RustType`.
pub enum RustTypeView {
    Scalar(BaseType),
    Struct(Seq<char>),
    Optional(BaseType),
    OptionalBoxed(Seq<char>),
    List(BaseType),
    ListOf(Seq<char>),
}

impl RustTypeView {
    /// The type is an `Option`.
    pub open spec fn is_option(self) -> bool {
        self is Optional || self is OptionalBoxed
    }

    /// The type is a `Vec`.
    pub open spec fn is_vec(self) -> bool {
        self is List || self is ListOf
    }

    /// The type is `bool`.
    pub open spec fn is_bool(self) -> bool {
        self == RustTypeView::Scalar(BaseType::Bool)
    }

    /// The type is `String`.
    pub open spec fn is_string(self) -> bool {
        self == RustTypeView::Scalar(BaseType::Str)
    }
}

impl View for RustType {
    type V = RustTypeView;

    open spec fn view(&self) -> RustTypeView {
        match self {
            RustType::Scalar(b) => RustTypeView::Scalar(*b),
            RustType::Struct(n) => RustTypeView::Struct(n@),
            RustType::Optional(b) => RustTypeView::Optional(*b),
            RustType::OptionalBoxed(n) => RustTypeView::OptionalBoxed(n@),
            RustType::List(b) => RustTypeView::List(*b),
            RustType::ListOf(n) => RustTypeView::ListOf(n@),
        }
    }
}

/// A field of a Go struct, described as the Rust field to generate.
#[derive(Clone, Debug)]
pub struct GoField {
    /// The snake_case Rust field name.
    pub name: String,
    pub rust_type: RustType,
    /// The serialized name, where it differs from `name`.
    pub serde_rename: Option<String>,
    /// The path of the predicate that skips serializing the field.
    pub skip_serializing_if: Option<String>,
    /// Whether a missing value deserializes to the default.
    pub serde_default: bool,
}

/// The mathematical form of a `GoField`.
pub struct GoFieldView {
    pub name: Seq<char>,
    pub rust_type: RustTypeView,
    pub serde_rename: Option<Seq<char>>,
    pub skip_serializing_if: Option<Seq<char>>,
    pub serde_default: bool,
}

/// The view of an optional string.
pub open spec fn opt_view(o: Option<String>) -> Option<Seq<char>> {
    match o {
        Some(s) => Some(s@),
        None => None,
    }
}

impl View for GoField {
    type V = GoFieldView;

    open spec fn view(&self) -> GoFieldView {
        GoFieldView {
            name: self.name@,
            rust_type: self.rust_type@,
            serde_rename: opt_view(self.serde_rename),
            skip_serializing_if: opt_view(self.skip_serializing_if),
            serde_default: self.serde_default,
        }
    }
}

/// An exported Go struct with its exported fields.
#[derive(Clone, Debug)]
pub struct GoStruct {
    pub name: String,
    pub fields: Vec<GoField>,
}

/// The mathematical form of a `GoStruct`.
pub struct GoStructView {
    pub name: Seq<char>,
    pub fields: Seq<GoFieldView>,
}

impl View for GoStruct {
    type V = GoStructView;

    open spec fn view(&self) -> GoStructView {
        GoStructView { name: self.name@, fields: self.fields@.map_values(|f: GoField| f@) }
    }
}

// ---------------------------------------------------------------------------
// Identifier case conversion

/// What the `i`-th character of `cs` becomes in snake_case: an uppercase
/// letter is lowered, with an underscore before it when it starts a new word
/// (it follows a non-uppercase character, or it is followed by a lowercase one).
pub open spec fn snake_piece(cs: Seq<char>, i: int) -> Seq<char> {
    let c = cs[i];
    if case_upper(c) {
        if i > 0 && (!case_upper(cs[i - 1]) || (i + 1 < cs.len() && case_lower(
            cs[i + 1],
        ))) {
            seq!['_', case_lower_head(c)]
        } else {
            seq![case_lower_head(c)]
        }
    } else {
        seq![c]
    }
}

/// The snake_case form of the first `n` characters of `cs`.
pub open spec fn snake_prefix(cs: Seq<char>, n: int) -> Seq<char>
    decreases n,
{
    if n <= 0 {
        Seq::empty()
    } else {
        snake_prefix(cs, n - 1) + snake_piece(cs, n - 1)
    }
}

/// The snake_case form of a Go identifier.
pub open spec fn snake_case(cs: Seq<char>) -> Seq<char> {
    snake_prefix(cs, cs.len() as int)
}

fn snake_window(cs: &Vec<char>, lo: usize, hi: usize) -> (r: String)
    requires
        lo <= hi <= cs.len(),
    ensures
        r@ == snake_case(cs@.subrange(lo as int, hi as int)),
{
    let ghost w = cs@.subrange(lo as int, hi as int);
    let mut out = String::new();
    let mut i: usize = lo;
    while i < hi
        invariant
            lo <= i <= hi <= cs.len(),
            w == cs@.subrange(lo as int, hi as int),
            out@ == snake_prefix(w, i - lo),
        decreases hi - i,
    {
        let c = cs[i];
        let ghost k = i - lo;
        assert(w[k] == c);
        if is_uppercase(c) {
            if i > lo {
                assert(w[k - 1] == cs@[i - 1]);
                let prev_upper = is_uppercase(cs[i - 1]);
                let next_lower = if i + 1 < hi {
                    assert(w[k + 1] == cs@[i + 1]);
                    is_lowercase(cs[i + 1])
                } else {
                    false
                };
                if !prev_upper || next_lower {
                    push_char(&mut out, '_');
                }
            }
            push_char(&mut out, to_lowercase_head(c));
        } else {
            push_char(&mut out, c);
        }
        assert(out@ == snake_prefix(w, k) + snake_piece(w, k));
        i = i + 1;
    }
    out
}

/// Converts a Go identifier to snake_case, splitting acronyms from the word
/// that follows them (`HTTPHostHeader` becomes `http_host_header`).
pub fn go_name_to_snake_case(name: &str) -> (r: String)
    ensures
        r@ == snake_case(name@),
{
    let cs = chars_of(name);
    let r = snake_window(&cs, 0, cs.len());
    assert(cs@.subrange(0, cs.len() as int) == cs@);
    r
}

// ---------------------------------------------------------------------------
// Struct headers

/// The name declared by a line `type NAME struct ...`, if the line is one.
pub open spec fn struct_header(line: Seq<char>) -> Option<Seq<char>> {
    let l = trim(line);
    if !starts_with(l, "type "@) {
        None
    } else {
        let parts = words(l.skip("type "@.len() as int));
        if parts.len() >= 2 && parts[1] == "struct"@ {
            Some(parts[0])
        } else {
            None
        }
    }
}

fn struct_header_window(cs: &Vec<char>, lo: usize, hi: usize) -> (r: Option<(usize, usize)>)
    requires
        lo <= hi <= cs.len(),
    ensures
        match r {
            Some(w) => lo <= w.0 <= w.1 <= hi && struct_header(cs@.subrange(lo as int, hi as int))
                == Some(cs@.subrange(w.0 as int, w.1 as int)),
            None => struct_header(cs@.subrange(lo as int, hi as int)) is None,
        },
{
    let (a, b) = trim_window(cs, lo, hi);
    let kw = chars_of("type ");
    if !window_starts_with(cs, a, b, &kw) {
        return None;
    }
    let rest = a + kw.len();
    assert(cs@.subrange(a as int, b as int).skip(kw.len() as int) == cs@.subrange(
        rest as int,
        b as int,
    ));
    let parts = words_window(cs, rest, b);
    if parts.len() >= 2 {
        let st = chars_of("struct");
        let p1 = parts[1];
        let hit = window_eq(cs, p1.0, p1.1, &st);
        assert(windows_of(cs@, parts@)[1] == cs@.subrange(p1.0 as int, p1.1 as int));
        assert(windows_of(cs@, parts@)[0] == cs@.subrange(parts@[0].0 as int, parts@[0].1 as int));
        if hit {
            return Some(parts[0]);
        }
    }
    None
}

/// The struct name declared by `line` when it reads `type NAME struct ...`.
pub fn parse_struct_header(line: &str) -> (r: Option<String>)
    ensures
        opt_view(r) == struct_header(line@),
{
    let cs = chars_of(line);
    assert(cs@.subrange(0, cs.len() as int) == cs@);
    match struct_header_window(&cs, 0, cs.len()) {
        Some(w) => Some(string_from_window(&cs, w.0, w.1)),
        None => None,
    }
}

// ---------------------------------------------------------------------------
// Struct tags

/// The text searched for when reading `key` from a struct tag: `key:"`.
pub open spec fn tag_pattern(key: Seq<char>) -> Seq<char> {
    key + seq![':', '"']
}

/// The value of `key` in a Go struct tag (`key:"name,opt1,opt2"`): the name
/// and the options after it.
pub open spec fn tag_value(tag: Seq<char>, key: Seq<char>) -> Option<(Seq<char>, Seq<Seq<char>>)> {
    match find(tag, tag_pattern(key)) {
        None => None,
        Some(start) => {
            let rest = tag.skip(start + tag_pattern(key).len());
            match find(rest, seq!['"']) {
                None => None,
                Some(end) => {
                    let parts = split(rest.take(end), ',');
                    Some((parts[0], parts.skip(1)))
                },
            }
        },
    }
}

/// The texts of the windows `ws`, as strings.
fn strings_of_windows(cs: &Vec<char>, ws: &Vec<(usize, usize)>, from: usize) -> (r: Vec<String>)
    requires
        from <= ws.len(),
        forall|k: int| 0 <= k < ws.len() ==> (#[trigger] ws@[k]).0 <= ws@[k].1 <= cs.len(),
    ensures
        string_views(r@) == windows_of(cs@, ws@).skip(from as int),
{
    let mut r: Vec<String> = Vec::new();
    let mut k: usize = from;
    while k < ws.len()
        invariant
            from <= k <= ws.len(),
            forall|j: int| 0 <= j < ws.len() ==> (#[trigger] ws@[j]).0 <= ws@[j].1 <= cs.len(),
            string_views(r@) == windows_of(cs@, ws@).subrange(from as int, k as int),
        decreases ws.len() - k,
    {
        let w = ws[k];
        let s = string_from_window(cs, w.0, w.1);
        proof {
            lemma_string_views_push(r@, s);
            assert(windows_of(cs@, ws@)[k as int] == s@);
            assert(windows_of(cs@, ws@).subrange(from as int, k + 1) =~= windows_of(
                cs@,
                ws@,
            ).subrange(from as int, k as int).push(s@));
        }
        r.push(s);
        k = k + 1;
    }
    assert(windows_of(cs@, ws@).subrange(from as int, ws.len() as int) == windows_of(
        cs@,
        ws@,
    ).skip(from as int));
    r
}

fn tag_value_window(cs: &Vec<char>, lo: usize, hi: usize, key: &Vec<char>) -> (r: Option<
    ((usize, usize), Vec<(usize, usize)>),
>)
    requires
        lo <= hi <= cs.len(),
    ensures
        match r {
            Some(v) => {
                &&& lo <= v.0.0 <= v.0.1 <= hi
                &&& windows_within(v.1@, lo as int, hi as int)
                &&& tag_value(cs@.subrange(lo as int, hi as int), key@) == Some(
                    (cs@.subrange(v.0.0 as int, v.0.1 as int), windows_of(cs@, v.1@)),
                )
            },
            None => tag_value(cs@.subrange(lo as int, hi as int), key@) is None,
        },
{
    let ghost tag = cs@.subrange(lo as int, hi as int);
    let mut pattern = key.clone();
    pattern.push(':');
    pattern.push('"');
    assert(pattern@ == tag_pattern(key@));
    let start = match find_in_window(cs, lo, hi, &pattern) {
        Some(k) => k,
        None => return None,
    };
    let rest_lo = start + pattern.len();
    assert(tag.skip(start - lo + pattern.len()) == cs@.subrange(rest_lo as int, hi as int));
    let mut quote: Vec<char> = Vec::new();
    quote.push('"');
    assert(quote@ == seq!['"']);
    let end = match find_in_window(cs, rest_lo, hi, &quote) {
        Some(k) => k,
        None => return None,
    };
    assert(cs@.subrange(rest_lo as int, hi as int).take(end - rest_lo) == cs@.subrange(
        rest_lo as int,
        end as int,
    ));
    let parts = split_window(cs, rest_lo, end, ',');
    let ghost pv = windows_of(cs@, parts@);
    assert(pv.len() == parts@.len());
    assert(parts@.len() > 0) by {
        assert(pv.len() > 0);
    }
    let name = parts[0];
    assert(pv[0] == cs@.subrange(name.0 as int, name.1 as int));
    let mut opts: Vec<(usize, usize)> = Vec::new();
    let mut k: usize = 1;
    while k < parts.len()
        invariant
            1 <= k <= parts.len(),
            pv == windows_of(cs@, parts@),
            windows_within(parts@, rest_lo as int, end as int),
            lo <= rest_lo <= end <= hi,
            windows_within(opts@, lo as int, hi as int),
            windows_of(cs@, opts@) == pv.subrange(1, k as int),
        decreases parts.len() - k,
    {
        let w = parts[k];
        proof {
            lemma_windows_push(cs@, opts@, w);
            assert(pv[k as int] == cs@.subrange(w.0 as int, w.1 as int));
            assert(pv.subrange(1, k + 1) =~= pv.subrange(1, k as int).push(pv[k as int]));
        }
        opts.push(w);
        k = k + 1;
    }
    assert(pv.subrange(1, parts.len() as int) == pv.skip(1));
    Some((name, opts))
}

/// Reads `key` from a Go struct tag such as `yaml:"name,omitempty"`: the name
/// and the options that follow it.
pub fn parse_tag_value(tag: &str, key: &str) -> (r: Option<(String, Vec<String>)>)
    ensures
        match r {
            Some(v) => tag_value(tag@, key@) == Some((v.0@, string_views(v.1@))),
            None => tag_value(tag@, key@) is None,
        },
{
    let cs = chars_of(tag);
    let kc = chars_of(key);
    assert(cs@.subrange(0, cs.len() as int) == cs@);
    match tag_value_window(&cs, 0, cs.len(), &kc) {
        Some(v) => {
            let name = string_from_window(&cs, v.0.0, v.0.1);
            let opts = strings_of_windows(&cs, &v.1, 0);
            assert(windows_of(cs@, v.1@).skip(0) == windows_of(cs@, v.1@));
            Some((name, opts))
        },
        None => None,
    }
}

// ---------------------------------------------------------------------------
// Go types

/// The scalar that a Go type name denotes, if it is one of `string`, `bool`,
/// `int` and `uint`.
pub open spec fn scalar_name(t: Seq<char>) -> Option<BaseType> {
    if t == "string"@ {
        Some(BaseType::Str)
    } else if t == "bool"@ {
        Some(BaseType::Bool)
    } else if t == "int"@ {
        Some(BaseType::Int)
    } else if t == "uint"@ {
        Some(BaseType::Uint)
    } else {
        None
    }
}

/// The Rust type for a Go field type: a pointer becomes an `Option` (a
/// `CustomDuration` one an `Option<String>`, a struct one an `Option<Box<_>>`),
/// a slice becomes a `Vec`, and any other name is taken as a struct.
pub open spec fn go_type_spec(go_type: Seq<char>) -> RustTypeView {
    let t = trim(go_type);
    if starts_with(t, "*"@) {
        let inner = trim(t.skip("*"@.len() as int));
        if inner == "CustomDuration"@ {
            RustTypeView::Optional(BaseType::Str)
        } else {
            match scalar_name(inner) {
                Some(b) => RustTypeView::Optional(b),
                None => RustTypeView::OptionalBoxed(inner),
            }
        }
    } else if starts_with(t, "[]"@) {
        let inner = trim(t.skip("[]"@.len() as int));
        match scalar_name(inner) {
            Some(b) => if b == BaseType::Bool {
                RustTypeView::ListOf(inner)
            } else {
                RustTypeView::List(b)
            },
            None => RustTypeView::ListOf(inner),
        }
    } else {
        match scalar_name(t) {
            Some(b) => RustTypeView::Scalar(b),
            None => RustTypeView::Struct(t),
        }
    }
}

fn scalar_window(cs: &Vec<char>, lo: usize, hi: usize) -> (r: Option<BaseType>)
    requires
        lo <= hi <= cs.len(),
    ensures
        r == scalar_name(cs@.subrange(lo as int, hi as int)),
{
    if window_eq(cs, lo, hi, &chars_of("string")) {
        Some(BaseType::Str)
    } else if window_eq(cs, lo, hi, &chars_of("bool")) {
        Some(BaseType::Bool)
    } else if window_eq(cs, lo, hi, &chars_of("int")) {
        Some(BaseType::Int)
    } else if window_eq(cs, lo, hi, &chars_of("uint")) {
        Some(BaseType::Uint)
    } else {
        None
    }
}

fn go_type_window(cs: &Vec<char>, lo: usize, hi: usize) -> (r: RustType)
    requires
        lo <= hi <= cs.len(),
    ensures
        r@ == go_type_spec(cs@.subrange(lo as int, hi as int)),
{
    let (a, b) = trim_window(cs, lo, hi);
    let star = chars_of("*");
    let brackets = chars_of("[]");
    if window_starts_with(cs, a, b, &star) {
        assert(cs@.subrange(a as int, b as int).skip(star.len() as int) == cs@.subrange(
            a + star.len(),
            b as int,
        ));
        let (ia, ib) = trim_window(cs, a + star.len(), b);
        if window_eq(cs, ia, ib, &chars_of("CustomDuration")) {
            RustType::Optional(BaseType::Str)
        } else {
            match scalar_window(cs, ia, ib) {
                Some(t) => RustType::Optional(t),
                None => RustType::OptionalBoxed(string_from_window(cs, ia, ib)),
            }
        }
    } else if window_starts_with(cs, a, b, &brackets) {
        assert(cs@.subrange(a as int, b as int).skip(brackets.len() as int) == cs@.subrange(
            a + brackets.len(),
            b as int,
        ));
        let (ia, ib) = trim_window(cs, a + brackets.len(), b);
        match scalar_window(cs, ia, ib) {
            Some(t) => if t == BaseType::Bool {
                RustType::ListOf(string_from_window(cs, ia, ib))
            } else {
                RustType::List(t)
            },
            None => RustType::ListOf(string_from_window(cs, ia, ib)),
        }
    } else {
        match scalar_window(cs, a, b) {
            Some(t) => RustType::Scalar(t),
            None => RustType::Struct(string_from_window(cs, a, b)),
        }
    }
}

impl RustType {
    /// The type is an `Option`.
    pub fn is_option(&self) -> (b: bool)
        ensures
            b == self@.is_option(),
    {
        match self {
            RustType::Optional(_) | RustType::OptionalBoxed(_) => true,
            _ => false,
        }
    }

    /// The type is a `Vec`.
    pub fn is_vec(&self) -> (b: bool)
        ensures
            b == self@.is_vec(),
    {
        match self {
            RustType::List(_) | RustType::ListOf(_) => true,
            _ => false,
        }
    }

    /// The type is `bool`.
    pub fn is_bool(&self) -> (b: bool)
        ensures
            b == self@.is_bool(),
    {
        match self {
            RustType::Scalar(BaseType::Bool) => true,
            _ => false,
        }
    }

    /// The type is `String`.
    pub fn is_string(&self) -> (b: bool)
        ensures
            b == self@.is_string(),
    {
        match self {
            RustType::Scalar(BaseType::Str) => true,
            _ => false,
        }
    }
}

/// Maps a Go field type to its Rust type, with whether that type is an
/// `Option`, a `Vec`, `bool` and `String`.
pub fn map_go_type(go_type: &str) -> (r: (RustType, bool, bool, bool, bool))
    ensures
        r.0@ == go_type_spec(go_type@),
        r.1 == r.0@.is_option(),
        r.2 == r.0@.is_vec(),
        r.3 == r.0@.is_bool(),
        r.4 == r.0@.is_string(),
{
    let cs = chars_of(go_type);
    assert(cs@.subrange(0, cs.len() as int) == cs@);
    let t = go_type_window(&cs, 0, cs.len());
    let o = t.is_option();
    let v = t.is_vec();
    let b = t.is_bool();
    let s = t.is_string();
    (t, o, v, b, s)
}

// ---------------------------------------------------------------------------
// Fields

/// A field line split into its code and the struct tag between backquotes.
pub open spec fn split_tag(l: Seq<char>) -> (Seq<char>, Option<Seq<char>>) {
    match find(l, "`"@) {
        None => (l, None),
        Some(ts) => match find(l.skip(ts + 1), "`"@) {
            None => (l, None),
            Some(te) => (l.take(ts), Some(l.skip(ts + 1).take(te))),
        },
    }
}

/// The value of `key` in an optional struct tag.
pub open spec fn tag_entry(tag: Option<Seq<char>>, key: Seq<char>) -> Option<
    (Seq<char>, Seq<Seq<char>>),
> {
    match tag {
        Some(t) => tag_value(t, key),
        None => None,
    }
}

/// The tag entry carries the option `omitempty`.
pub open spec fn has_omitempty(e: Option<(Seq<char>, Seq<Seq<char>>)>) -> bool {
    match e {
        Some(v) => v.1.contains("omitempty"@),
        None => false,
    }
}

/// The name of a tag entry, when it is not empty.
pub open spec fn entry_name(e: Option<(Seq<char>, Seq<Seq<char>>)>) -> Option<Seq<char>> {
    match e {
        Some(v) => if v.0.len() > 0 {
            Some(v.0)
        } else {
            None
        },
        None => None,
    }
}

/// The field that a line of a Go struct body declares: exported fields only,
/// named in snake_case, renamed to the yaml (else json) tag name where that
/// differs, skipped when empty if the tag says `omitempty`, and defaulted when
/// a list, or when an `omitempty` string or bool.
pub open spec fn field_spec(line: Seq<char>) -> Option<GoFieldView> {
    let l = trim(line);
    if l.len() == 0 || starts_with(l, "//"@) {
        None
    } else {
        let (code, tag) = split_tag(l);
        let tokens = words(code);
        if tokens.len() < 2 {
            None
        } else if tokens[0].len() == 0 || case_lower(tokens[0][0]) {
            None
        } else {
            let go_type = join(tokens.skip(1), seq![' ']);
            let yaml = tag_entry(tag, "yaml"@);
            let json = tag_entry(tag, "json"@);
            let omit = has_omitempty(yaml) || has_omitempty(json);
            let rename_value = match entry_name(yaml) {
                Some(n) => Some(n),
                None => entry_name(json),
            };
            let name = snake_case(tokens[0]);
            let rename = match rename_value {
                Some(v) => if v != name {
                    Some(v)
                } else {
                    None
                },
                None => None,
            };
            let ty = go_type_spec(go_type);
            let skip = if !omit {
                None
            } else if ty.is_option() {
                Some("Option::is_none"@)
            } else if ty.is_vec() {
                Some("Vec::is_empty"@)
            } else if ty.is_string() {
                Some("String::is_empty"@)
            } else {
                None
            };
            Some(
                GoFieldView {
                    name,
                    rust_type: ty,
                    serde_rename: rename,
                    skip_serializing_if: skip,
                    serde_default: ty.is_vec() || (ty.is_string() && omit) || (ty.is_bool() && omit),
                },
            )
        }
    }
}

fn any_window_eq(cs: &Vec<char>, ws: &Vec<(usize, usize)>, p: &Vec<char>) -> (b: bool)
    requires
        forall|k: int| 0 <= k < ws.len() ==> (#[trigger] ws@[k]).0 <= ws@[k].1 <= cs.len(),
    ensures
        b == windows_of(cs@, ws@).contains(p@),
{
    let mut k: usize = 0;
    while k < ws.len()
        invariant
            k <= ws.len(),
            forall|j: int| 0 <= j < ws.len() ==> (#[trigger] ws@[j]).0 <= ws@[j].1 <= cs.len(),
            forall|j: int| 0 <= j < k ==> windows_of(cs@, ws@)[j] != p@,
        decreases ws.len() - k,
    {
        let w = ws[k];
        assert(windows_of(cs@, ws@)[k as int] == cs@.subrange(w.0 as int, w.1 as int));
        if window_eq(cs, w.0, w.1, p) {
            return true;
        }
        k = k + 1;
    }
    false
}

fn entry_window(cs: &Vec<char>, tag: Option<(usize, usize)>, key: &str) -> (r: Option<
    ((usize, usize), Vec<(usize, usize)>),
>)
    requires
        tag matches Some(t) ==> t.0 <= t.1 <= cs.len(),
    ensures
        match r {
            Some(v) => {
                &&& v.0.0 <= v.0.1 <= cs.len()
                &&& windows_within(v.1@, 0, cs.len() as int)
                &&& tag_entry(
                    match tag {
                        Some(t) => Some(cs@.subrange(t.0 as int, t.1 as int)),
                        None => None,
                    },
                    key@,
                ) == Some((cs@.subrange(v.0.0 as int, v.0.1 as int), windows_of(cs@, v.1@)))
            },
            None => tag_entry(
                match tag {
                    Some(t) => Some(cs@.subrange(t.0 as int, t.1 as int)),
                    None => None,
                },
                key@,
            ) is None,
        },
{
    match tag {
        Some(t) => tag_value_window(cs, t.0, t.1, &chars_of(key)),
        None => None,
    }
}

fn entry_omitempty(cs: &Vec<char>, e: &Option<((usize, usize), Vec<(usize, usize)>)>) -> (b: bool)
    requires
        e matches Some(v) ==> windows_within(v.1@, 0, cs.len() as int),
    ensures
        b == has_omitempty(
            match e {
                Some(v) => Some((cs@.subrange(v.0.0 as int, v.0.1 as int), windows_of(cs@, v.1@))),
                None => None,
            },
        ),
{
    match e {
        Some(v) => any_window_eq(cs, &v.1, &chars_of("omitempty")),
        None => false,
    }
}

fn field_window(cs: &Vec<char>, lo: usize, hi: usize) -> (r: Option<GoField>)
    requires
        lo <= hi <= cs.len(),
    ensures
        match r {
            Some(f) => field_spec(cs@.subrange(lo as int, hi as int)) == Some(f@),
            None => field_spec(cs@.subrange(lo as int, hi as int)) is None,
        },
{
    let ghost line = cs@.subrange(lo as int, hi as int);
    let (a, b) = trim_window(cs, lo, hi);
    let ghost l = cs@.subrange(a as int, b as int);
    if a == b || window_starts_with(cs, a, b, &chars_of("//")) {
        return None;
    }
    // Separate the struct tag from the code part.
    let tick = chars_of("`");
    proof {
        reveal_strlit("`");
    }
    assert(tick@.len() == 1);
    let mut code_hi = b;
    let mut tag: Option<(usize, usize)> = None;
    match find_in_window(cs, a, b, &tick) {
        Some(ts) => {
            assert(l.skip(ts - a + 1) == cs@.subrange(ts + 1, b as int));
            match find_in_window(cs, ts + 1, b, &tick) {
                Some(te) => {
                    assert(l.take(ts - a) == cs@.subrange(a as int, ts as int));
                    assert(l.skip(ts - a + 1).take(te - (ts + 1)) == cs@.subrange(
                        ts + 1,
                        te as int,
                    ));
                    code_hi = ts;
                    tag = Some((ts + 1, te));
                },
                None => {},
            }
        },
        None => {},
    }
    let ghost tag_text = match tag {
        Some(t) => Some(cs@.subrange(t.0 as int, t.1 as int)),
        None => None,
    };
    assert(split_tag(l) == (cs@.subrange(a as int, code_hi as int), tag_text));
    let tokens = words_window(cs, a, code_hi);
    let ghost tv = windows_of(cs@, tokens@);
    assert(tv.len() == tokens@.len());
    if tokens.len() < 2 {
        return None;
    }
    let t0 = tokens[0];
    assert(tv[0] == cs@.subrange(t0.0 as int, t0.1 as int));
    if t0.0 == t0.1 {
        return None;
    }
    assert(tv[0][0] == cs@[t0.0 as int]);
    if is_lowercase(cs[t0.0]) {
        return None;
    }
    let go_type = join_windows(cs, &tokens, 1, ' ');
    let yaml = entry_window(cs, tag, "yaml");
    let json = entry_window(cs, tag, "json");
    let omit = entry_omitempty(cs, &yaml) || entry_omitempty(cs, &json);
    // The serialized name: the yaml tag name, else the json tag name, when not empty.
    let rename_window: Option<(usize, usize)> = match &yaml {
        Some(v) if v.0.0 < v.0.1 => Some(v.0),
        _ => match &json {
            Some(v) if v.0.0 < v.0.1 => Some(v.0),
            _ => None,
        },
    };
    let name = snake_window(cs, t0.0, t0.1);
    let serde_rename = match rename_window {
        Some(w) => {
            let name_chars = chars_of(name.as_str());
            if window_eq(cs, w.0, w.1, &name_chars) {
                None
            } else {
                Some(string_from_window(cs, w.0, w.1))
            }
        },
        None => None,
    };
    let gt_len = go_type.len();
    assert(go_type@.subrange(0, gt_len as int) == go_type@);
    let rust_type = go_type_window(&go_type, 0, gt_len);
    let is_option = rust_type.is_option();
    let is_vec = rust_type.is_vec();
    let is_bool = rust_type.is_bool();
    let is_string = rust_type.is_string();
    let skip_serializing_if = if !omit {
        None
    } else if is_option {
        Some(String::from_str("Option::is_none"))
    } else if is_vec {
        Some(String::from_str("Vec::is_empty"))
    } else if is_string {
        Some(String::from_str("String::is_empty"))
    } else {
        None
    };
    let serde_default = is_vec || (is_string && omit) || (is_bool && omit);
    Some(GoField { name, rust_type, serde_rename, skip_serializing_if, serde_default })
}

/// The field that one line of a Go struct body declares, if the line declares
/// an exported field.
pub fn parse_field_line(line: &str) -> (r: Option<GoField>)
    ensures
        match r {
            Some(f) => field_spec(line@) == Some(f@),
            None => field_spec(line@) is None,
        },
{
    let cs = chars_of(line);
    assert(cs@.subrange(0, cs.len() as int) == cs@);
    field_window(&cs, 0, cs.len())
}

// ---------------------------------------------------------------------------
// Structs

/// An unexported (or nameless) Go type, which is not carried over.
pub open spec fn struct_skipped(name: Seq<char>) -> bool {
    name.len() == 0 || case_lower(name[0])
}

/// The Rust name of a Go struct: `Configuration` becomes `CloudflaredConfig`.
pub open spec fn rust_struct_name(name: Seq<char>) -> Seq<char> {
    if name == "Configuration"@ {
        "CloudflaredConfig"@
    } else {
        name
    }
}

/// The index of the first line at or after `j` that closes a struct body
/// (`}` alone on the line), or the number of lines.
pub open spec fn body_end(ls: Seq<Seq<char>>, j: int) -> int
    decreases ls.len() - j,
{
    if j < 0 || j >= ls.len() {
        ls.len() as int
    } else if trim(ls[j]) == "}"@ {
        j
    } else {
        body_end(ls, j + 1)
    }
}

/// The fields declared by the body lines `ls[j..k]`; blank and comment lines
/// declare none.
pub open spec fn body_fields(ls: Seq<Seq<char>>, j: int, k: int) -> Seq<GoFieldView>
    decreases k - j,
{
    if k <= j {
        Seq::empty()
    } else {
        let before = body_fields(ls, j, k - 1);
        let fl = trim(ls[k - 1]);
        if fl.len() == 0 || starts_with(fl, "//"@) {
            before
        } else {
            match field_spec(fl) {
                Some(f) => before.push(f),
                None => before,
            }
        }
    }
}

/// A struct body ends at or after the line where it starts, and within the text.
pub proof fn lemma_body_end_bounds(ls: Seq<Seq<char>>, j: int)
    requires
        0 <= j,
    ensures
        j <= body_end(ls, j) <= ls.len() || (j > ls.len() && body_end(ls, j) == ls.len()),
    decreases ls.len() - j,
{
    if j < ls.len() && trim(ls[j]) != "}"@ {
        lemma_body_end_bounds(ls, j + 1);
    }
}

/// The exported structs declared in the lines `ls[i..]`, with their exported fields.
pub open spec fn structs_from(ls: Seq<Seq<char>>, i: int) -> Seq<GoStructView>
    decreases ls.len() + 1 - i,
{
    if i < 0 || i >= ls.len() {
        Seq::empty()
    } else {
        match struct_header(trim(ls[i])) {
            None => structs_from(ls, i + 1),
            Some(name) => if struct_skipped(name) {
                structs_from(ls, i + 1)
            } else {
                let end = body_end(ls, i + 1);
                proof {
                    lemma_body_end_bounds(ls, i + 1);
                }
                seq![
                    GoStructView {
                        name: rust_struct_name(name),
                        fields: body_fields(ls, i + 1, end),
                    },
                ] + structs_from(ls, end + 1)
            },
        }
    }
}

/// The exported structs of a Go source text, in order of declaration.
pub open spec fn go_structs(source: Seq<char>) -> Seq<GoStructView> {
    structs_from(lines(source), 0)
}

/// The views of a list of structs.
pub open spec fn struct_views(v: Seq<GoStruct>) -> Seq<GoStructView> {
    v.map_values(|s: GoStruct| s@)
}

/// The views of a list of fields.
pub open spec fn field_views(v: Seq<GoField>) -> Seq<GoFieldView> {
    v.map_values(|f: GoField| f@)
}

proof fn lemma_body_end_skip(ls: Seq<Seq<char>>, j: int, i: int)
    requires
        0 <= j <= i <= ls.len(),
        forall|m: int| j <= m < i ==> trim(#[trigger] ls[m]) != "}"@,
    ensures
        body_end(ls, j) == body_end(ls, i),
    decreases i - j,
{
    if j < i {
        assert(trim(ls[j]) != "}"@);
        lemma_body_end_skip(ls, j + 1, i);
    }
}

fn closes_body(cs: &Vec<char>, w: (usize, usize)) -> (b: bool)
    requires
        w.0 <= w.1 <= cs.len(),
    ensures
        b == (trim(cs@.subrange(w.0 as int, w.1 as int)) == "}"@),
{
    let (a, b) = trim_window(cs, w.0, w.1);
    window_eq(cs, a, b, &chars_of("}"))
}

/// Reads every exported struct of a Go source text: unexported types and
/// fields are skipped, and `Configuration` is renamed `CloudflaredConfig`.
pub fn extract_structs(source: &str) -> (r: Vec<GoStruct>)
    ensures
        struct_views(r@) == go_structs(source@),
{
    let cs = chars_of(source);
    assert(cs@.subrange(0, cs.len() as int) == cs@);
    let ls = lines_window(&cs, 0, cs.len());
    let ghost lv = windows_of(cs@, ls@);
    assert(lv == lines(source@));
    assert(lv.len() == ls@.len());
    let mut out: Vec<GoStruct> = Vec::new();
    let mut i: usize = 0;
    while i < ls.len()
        invariant
            i <= ls.len(),
            lv == windows_of(cs@, ls@),
            lv.len() == ls@.len(),
            windows_within(ls@, 0, cs.len() as int),
            structs_from(lv, 0) == struct_views(out@) + structs_from(lv, i as int),
        decreases ls.len() + 1 - i,
    {
        let w = ls[i];
        let ghost i0 = i as int;
        let ghost prev = struct_views(out@);
        assert(lv[i as int] == cs@.subrange(w.0 as int, w.1 as int));
        let (a, b) = trim_window(&cs, w.0, w.1);
        match struct_header_window(&cs, a, b) {
            Some(nw) => {
                if nw.0 == nw.1 || is_lowercase(cs[nw.0]) {
                    assert(cs@.subrange(nw.0 as int, nw.1 as int).len() == 0 || cs@.subrange(
                        nw.0 as int,
                        nw.1 as int,
                    )[0] == cs@[nw.0 as int]);
                    assert(structs_from(lv, i0) == structs_from(lv, i0 + 1));
                    i = i + 1;
                } else {
                    assert(cs@.subrange(nw.0 as int, nw.1 as int)[0] == cs@[nw.0 as int]);
                    let start = i + 1;
                    i = start;
                    let mut fields: Vec<GoField> = Vec::new();
                    while i < ls.len() && !closes_body(&cs, ls[i])
                        invariant
                            start <= i <= ls.len(),
                            lv == windows_of(cs@, ls@),
                            lv.len() == ls@.len(),
                            windows_within(ls@, 0, cs.len() as int),
                            forall|m: int| start <= m < i ==> trim(#[trigger] lv[m]) != "}"@,
                            field_views(fields@) == body_fields(lv, start as int, i as int),
                        decreases ls.len() - i,
                    {
                        let fw = ls[i];
                        assert(lv[i as int] == cs@.subrange(fw.0 as int, fw.1 as int));
                        let (fa, fb) = trim_window(&cs, fw.0, fw.1);
                        if fa < fb && !window_starts_with(&cs, fa, fb, &chars_of("//")) {
                            match field_window(&cs, fa, fb) {
                                Some(f) => {
                                    assert(field_views(fields@.push(f)) =~= field_views(
                                        fields@,
                                    ).push(f@));
                                    fields.push(f);
                                },
                                None => {},
                            }
                        }
                        i = i + 1;
                    }
                    proof {
                        lemma_body_end_skip(lv, start as int, i as int);
                        if i < ls.len() {
                            assert(lv[i as int] == cs@.subrange(ls@[i as int].0 as int, ls@[i as int].1 as int));
                        }
                        assert(body_end(lv, i as int) == i);
                    }
                    let name = if window_eq(&cs, nw.0, nw.1, &chars_of("Configuration")) {
                        String::from_str("CloudflaredConfig")
                    } else {
                        string_from_window(&cs, nw.0, nw.1)
                    };
                    let ghost sv = GoStructView {
                        name: name@,
                        fields: field_views(fields@),
                    };
                    let st = GoStruct { name, fields };
                    assert(st@ == sv);
                    assert(struct_views(out@.push(st)) =~= struct_views(out@).push(st@));
                    out.push(st);
                    let ghost end = i as int;
                    assert(structs_from(lv, i0) == seq![sv] + structs_from(lv, end + 1));
                    if i < ls.len() {
                        i = i + 1;
                    }
                    assert(structs_from(lv, i as int) == structs_from(lv, end + 1));
                    assert(struct_views(out@) + structs_from(lv, i as int) =~= prev + (seq![sv]
                        + structs_from(lv, end + 1)));
                }
            },
            None => {
                assert(structs_from(lv, i0) == structs_from(lv, i0 + 1));
                i = i + 1;
            },
        }
    }
    assert(structs_from(lv, i as int) == Seq::<GoStructView>::empty());
    assert(struct_views(out@) + Seq::<GoStructView>::empty() == struct_views(out@));
    out
}

} // verus!
