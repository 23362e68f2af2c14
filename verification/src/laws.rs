//! Properties that relate several parts of the library.

use vstd::prelude::*;
use crate::controller::{ApplyPhase, ApplyState, apply_inv, rank};
use crate::crd::{TunnelMeta, spec_name_any};
use crate::go_parser::{
    body_end, body_fields, go_structs, lemma_body_end_bounds, snake_case, snake_piece,
    snake_prefix, struct_header, struct_skipped, structs_from, tag_pattern, tag_value,
};
use crate::resources::configmap::{ConfigMap, is_config_map};
use crate::resources::deployment::{Deployment, is_cloudflared_deployment};
use crate::resources::gateway::{Gateway, is_tunnel_gateway, listener_name};
use crate::resources::secret::{Secret, is_credentials_secret};
use crate::text::{
    case_lower_head, case_upper, decimal, find, find_from, is_ascii_char, is_white_space, join,
    lemma_decimal_injective, line_scan, lines, occurs_at, split, split_scan, strip_cr, trim,
    trim_end, trim_start,
};

verus! {

// ---------------------------------------------------------------------------
// Owned objects

/// The cloudflared Deployment of a tunnel reads its token from the Secret,
/// and mounts the ConfigMap, that the operator builds for the same tunnel.
pub proof fn lemma_deployment_wires_children(
    d: Deployment,
    secret: Secret,
    config_map: ConfigMap,
    t: crate::crd::CloudflareTunnel,
    credentials: Seq<u8>,
    tunnel_id: Seq<char>,
)
    requires
        is_cloudflared_deployment(d, t),
        is_credentials_secret(secret, t.metadata, credentials),
        is_config_map(config_map, t.metadata, tunnel_id),
    ensures
        d.spec->0.template.spec->0.containers@[0].env->0@[0].value_from->0.secret_key_ref->0.name@
            == secret.metadata.name->0@,
        d.spec->0.template.spec->0.volumes->0@[0].config_map->0.name@
            == config_map.metadata.name->0@,
{
}

/// The listeners of a tunnel's Gateway have pairwise different names.
pub proof fn lemma_gateway_listener_names_distinct(g: Gateway, t: crate::crd::CloudflareTunnel, i: int, j: int)
    requires
        is_tunnel_gateway(g, t),
        0 <= i < g.listeners@.len(),
        0 <= j < g.listeners@.len(),
        i != j,
    ensures
        g.listeners@[i].name@ != g.listeners@[j].name@,
{
    let li = g.listeners@[i];
    let lj = g.listeners@[j];
    assert(li.name@ == listener_name(i as nat));
    assert(lj.name@ == listener_name(j as nat));
    if listener_name(i as nat) == listener_name(j as nat) {
        let p = "listener-"@;
        assert(listener_name(i as nat).skip(p.len() as int) =~= decimal(i as nat));
        assert(listener_name(j as nat).skip(p.len() as int) =~= decimal(j as nat));
        lemma_decimal_injective(i as nat, j as nat);
    }
}

/// Once the DNS step is over, the routes recorded for the status follow the
/// tunnel's Gateway listeners one for one: the same hostnames in the same order.
pub proof fn lemma_routes_follow_gateway(s: ApplyState, g: Gateway)
    requires
        apply_inv(s),
        rank(ApplyPhase::ListRecords) <= rank(s.phase) < rank(ApplyPhase::Finished),
        is_tunnel_gateway(g, s.tunnel),
    ensures
        s.routes@.len() == g.listeners@.len(),
        forall|i: int|
            0 <= i < s.routes@.len() ==> (#[trigger] s.routes@[i])@.hostname
                == g.listeners@[i].hostname@,
{
    assert forall|i: int| 0 <= i < s.routes@.len() implies (#[trigger] s.routes@[i])@.hostname
        == g.listeners@[i].hostname@ by {
        assert(s.routes@[i]@.hostname == crate::controller::hostname_at(s.tunnel, i));
    }
}

/// Every owned object is named after its tunnel.
pub proof fn lemma_owned_names(
    d: Deployment,
    secret: Secret,
    config_map: ConfigMap,
    g: Gateway,
    t: crate::crd::CloudflareTunnel,
    credentials: Seq<u8>,
    tunnel_id: Seq<char>,
)
    requires
        is_cloudflared_deployment(d, t),
        is_credentials_secret(secret, t.metadata, credentials),
        is_config_map(config_map, t.metadata, tunnel_id),
        is_tunnel_gateway(g, t),
    ensures
        secret.metadata.name->0@ == spec_name_any(t.metadata) + "-tunnel-credentials"@,
        config_map.metadata.name->0@ == spec_name_any(t.metadata) + "-config"@,
        d.metadata.name->0@ == spec_name_any(t.metadata) + "-cloudflared"@,
        g.metadata.name->0@ == spec_name_any(t.metadata) + "-gateway"@,
{
}

/// A tunnel with a name is called by that name; `generateName` is used only
/// when there is no name, and an object with neither is called by the empty
/// string.
pub proof fn lemma_name_any_prefers_name(m: TunnelMeta)
    ensures
        m.name matches Some(n) ==> spec_name_any(m) == n@,
        m.name is None ==> spec_name_any(m) == match m.generate_name {
            Some(g) => g@,
            None => Seq::<char>::empty(),
        },
{
}

/// The owned objects of a tunnel that has a name are named after that name,
/// whatever its `generateName`.
pub proof fn lemma_named_tunnel_children(
    d: Deployment,
    secret: Secret,
    config_map: ConfigMap,
    g: Gateway,
    t: crate::crd::CloudflareTunnel,
    credentials: Seq<u8>,
    tunnel_id: Seq<char>,
    name: Seq<char>,
)
    requires
        t.metadata.name matches Some(n) && n@ == name,
        is_cloudflared_deployment(d, t),
        is_credentials_secret(secret, t.metadata, credentials),
        is_config_map(config_map, t.metadata, tunnel_id),
        is_tunnel_gateway(g, t),
    ensures
        d.metadata.name->0@ == name + "-cloudflared"@,
        secret.metadata.name->0@ == name + "-tunnel-credentials"@,
        config_map.metadata.name->0@ == name + "-config"@,
        g.metadata.name->0@ == name + "-gateway"@,
{
}

// ---------------------------------------------------------------------------
// Identifiers

proof fn lemma_snake_prefix_identity(cs: Seq<char>, n: int)
    requires
        0 <= n <= cs.len(),
        forall|i: int| 0 <= i < cs.len() ==> !case_upper(#[trigger] cs[i]),
    ensures
        snake_prefix(cs, n) == cs.take(n),
    decreases n,
{
    if n > 0 {
        lemma_snake_prefix_identity(cs, n - 1);
        assert(snake_piece(cs, n - 1) == seq![cs[n - 1]]);
        assert(cs.take(n) =~= cs.take(n - 1) + seq![cs[n - 1]]);
    } else {
        assert(cs.take(0) =~= Seq::<char>::empty());
    }
}

/// A name without uppercase characters is its own snake_case form.
pub proof fn lemma_snake_case_identity(cs: Seq<char>)
    requires
        forall|i: int| 0 <= i < cs.len() ==> !case_upper(#[trigger] cs[i]),
    ensures
        snake_case(cs) == cs,
{
    lemma_snake_prefix_identity(cs, cs.len() as int);
    assert(cs.take(cs.len() as int) =~= cs);
}

proof fn lemma_snake_prefix_not_upper(cs: Seq<char>, n: int)
    requires
        0 <= n <= cs.len(),
        forall|i: int| 0 <= i < cs.len() ==> is_ascii_char(#[trigger] cs[i]),
    ensures
        forall|k: int|
            0 <= k < snake_prefix(cs, n).len() ==> !case_upper(#[trigger] snake_prefix(cs, n)[k]),
    decreases n,
{
    if n > 0 {
        lemma_snake_prefix_not_upper(cs, n - 1);
        let before = snake_prefix(cs, n - 1);
        let piece = snake_piece(cs, n - 1);
        let c = cs[n - 1];
        assert(is_ascii_char(c));
        assert forall|k: int| 0 <= k < piece.len() implies !case_upper(#[trigger] piece[k]) by {
            if case_upper(c) {
                let d = case_lower_head(c);
                assert(d as u32 == c as u32 + 32);
                if piece.len() == 2 && k == 0 {
                    assert(piece[k] == '_');
                } else {
                    assert(piece[k] == d);
                }
            } else {
                assert(piece[k] == c);
            }
        }
        assert forall|k: int| 0 <= k < snake_prefix(cs, n).len() implies !case_upper(
            #[trigger] snake_prefix(cs, n)[k],
        ) by {
            if k < before.len() {
                assert(snake_prefix(cs, n)[k] == before[k]);
            } else {
                assert(snake_prefix(cs, n)[k] == piece[k - before.len()]);
            }
        }
    }
}

/// Converting an ASCII name to snake_case a second time changes nothing.
pub proof fn lemma_snake_case_idempotent(cs: Seq<char>)
    requires
        forall|i: int| 0 <= i < cs.len() ==> is_ascii_char(#[trigger] cs[i]),
    ensures
        snake_case(snake_case(cs)) == snake_case(cs),
{
    lemma_snake_prefix_not_upper(cs, cs.len() as int);
    lemma_snake_case_identity(snake_case(cs));
}

// ---------------------------------------------------------------------------
// Struct tags

proof fn lemma_split_scan_plain(x: Seq<char>, y: Seq<char>, sep: char)
    requires
        !y.contains(sep),
    ensures
        split_scan(x + y, sep) == (split_scan(x, sep).0, split_scan(x, sep).1 + y),
    decreases y.len(),
{
    if y.len() == 0 {
        assert(x + y =~= x);
        assert(split_scan(x, sep).1 + y =~= split_scan(x, sep).1);
    } else {
        let y0 = y.drop_last();
        assert(!y0.contains(sep)) by {
            if y0.contains(sep) {
                let k = choose|k: int| 0 <= k < y0.len() && y0[k] == sep;
                assert(y[k] == sep);
            }
        }
        lemma_split_scan_plain(x, y0, sep);
        assert((x + y).drop_last() =~= x + y0);
        assert((x + y).last() == y.last());
        assert(y.last() != sep) by {
            assert(y[y.len() - 1] == y.last());
        }
        assert((split_scan(x, sep).1 + y0).push(y.last()) =~= split_scan(x, sep).1 + y);
    }
}

proof fn lemma_split_join(parts: Seq<Seq<char>>, sep: char)
    requires
        parts.len() >= 1,
        forall|k: int| 0 <= k < parts.len() ==> !(#[trigger] parts[k]).contains(sep),
    ensures
        split(join(parts, seq![sep]), sep) == parts,
    decreases parts.len(),
{
    if parts.len() == 1 {
        lemma_split_scan_plain(Seq::empty(), parts[0], sep);
        assert(Seq::<char>::empty() + parts[0] =~= parts[0]);
        assert(split_scan(Seq::<char>::empty(), sep).1 + parts[0] =~= parts[0]);
        assert(seq![parts[0]] =~= parts);
    } else {
        let init = parts.drop_last();
        assert forall|k: int| 0 <= k < init.len() implies !(#[trigger] init[k]).contains(sep) by {
            assert(init[k] == parts[k]);
        }
        lemma_split_join(init, sep);
        let x = join(init, seq![sep]);
        let xs = x.push(sep);
        assert(x + seq![sep] =~= xs);
        assert(xs.drop_last() =~= x);
        assert(!parts.last().contains(sep)) by {
            assert(parts[parts.len() - 1] == parts.last());
        }
        lemma_split_scan_plain(xs, parts.last(), sep);
        assert(join(parts, seq![sep]) == xs + parts.last());
        assert(split_scan(xs, sep).1 =~= Seq::<char>::empty());
        assert(Seq::<char>::empty() + parts.last() =~= parts.last());
        assert(init.push(parts.last()) =~= parts);
    }
}

proof fn lemma_join_excludes(parts: Seq<Seq<char>>, sep: char, c: char)
    requires
        sep != c,
        forall|k: int| 0 <= k < parts.len() ==> !(#[trigger] parts[k]).contains(c),
    ensures
        !join(parts, seq![sep]).contains(c),
    decreases parts.len(),
{
    if parts.len() == 1 {
        assert(parts[0] == join(parts, seq![sep]));
    } else if parts.len() > 1 {
        let init = parts.drop_last();
        assert forall|k: int| 0 <= k < init.len() implies !(#[trigger] init[k]).contains(c) by {
            assert(init[k] == parts[k]);
        }
        lemma_join_excludes(init, sep, c);
        let j = join(parts, seq![sep]);
        let a = join(init, seq![sep]);
        assert(!parts.last().contains(c)) by {
            assert(parts[parts.len() - 1] == parts.last());
        }
        if j.contains(c) {
            let k = choose|k: int| 0 <= k < j.len() && j[k] == c;
            if k < a.len() {
                assert(j[k] == a[k]);
            } else if k == a.len() {
                assert(j[k] == sep);
            } else {
                assert(j[k] == parts.last()[k - a.len() - 1]);
            }
        }
    }
}

/// The first occurrence of the character `c` at or after `i` is where `find_from` stops.
pub proof fn lemma_find_char_from(s: Seq<char>, c: char, i: int, k: int)
    requires
        0 <= i <= k < s.len(),
        s[k] == c,
        forall|j: int| i <= j < k ==> s[j] != c,
    ensures
        find_from(s, seq![c], i) == Some(k),
    decreases k - i,
{
    if i == k {
        assert(s.subrange(k, k + 1) =~= seq![c]);
    } else {
        assert(s.subrange(i, i + 1)[0] == s[i]);
        assert(!occurs_at(s, seq![c], i));
        lemma_find_char_from(s, c, i + 1, k);
    }
}

proof fn lemma_find_from_none(s: Seq<char>, p: Seq<char>, i: int, j: int)
    requires
        0 <= i <= j,
        find_from(s, p, i) is None,
    ensures
        !occurs_at(s, p, j),
    decreases j - i,
{
    if i < j && i + p.len() <= s.len() {
        lemma_find_from_none(s, p, i + 1, j);
    }
}

proof fn lemma_find_from_first(s: Seq<char>, p: Seq<char>, i: int, k: int)
    requires
        0 <= i <= k,
        occurs_at(s, p, k),
        forall|j: int| i <= j < k ==> !occurs_at(s, p, j),
    ensures
        find_from(s, p, i) == Some(k),
    decreases k - i,
{
    if i < k {
        lemma_find_from_first(s, p, i + 1, k);
    }
}

/// Reading `key` from a tag that holds the entry `key:"name,opt1,opt2"`
/// gives back the name and the options, whatever text stands after the entry
/// and whatever text without an earlier `key:"` stands before it, when the key
/// holds no double quote and the name and options hold neither a comma nor a
/// double quote.
pub proof fn lemma_tag_value_roundtrip(
    pre: Seq<char>,
    post: Seq<char>,
    key: Seq<char>,
    name: Seq<char>,
    opts: Seq<Seq<char>>,
)
    requires
        !key.contains('"'),
        find(pre, tag_pattern(key)) is None,
        !name.contains(','),
        !name.contains('"'),
        forall|k: int| 0 <= k < opts.len() ==> !(#[trigger] opts[k]).contains(',') && !opts[k].contains('"'),
    ensures
        tag_value(pre + tag_pattern(key) + join(seq![name] + opts, seq![',']) + seq!['"'] + post, key)
            == Some((name, opts)),
{
    let parts = seq![name] + opts;
    assert forall|k: int| 0 <= k < parts.len() implies !(#[trigger] parts[k]).contains(',')
        && !parts[k].contains('"') by {
        if k > 0 {
            assert(parts[k] == opts[k - 1]);
        }
    }
    let body = join(parts, seq![',']);
    let p = tag_pattern(key);
    let tag = pre + p + body + seq!['"'] + post;
    let n = pre.len() as int;
    // The entry's pattern is the first occurrence.
    assert(tag.subrange(n, n + p.len()) =~= p);
    assert forall|j: int| 0 <= j < n implies !occurs_at(tag, p, j) by {
        if occurs_at(tag, p, j) {
            if j + p.len() <= n {
                assert(pre.subrange(j, j + p.len()) =~= tag.subrange(j, j + p.len()));
                lemma_find_from_none(pre, p, 0, j);
            } else {
                let m = j + p.len() - 1;
                assert(tag.subrange(j, j + p.len())[p.len() - 1] == p[p.len() - 1]);
                assert(p[p.len() - 1] == '"');
                assert(tag[m] == '"');
                assert(tag[m] == p[m - n]);
                if m - n < key.len() {
                    assert(p[m - n] == key[m - n]);
                } else {
                    assert(p[m - n] == ':');
                }
            }
        }
    }
    lemma_find_from_first(tag, p, 0, n);
    assert(find(tag, p) == Some(n));
    let rest = tag.skip(n + p.len());
    assert(rest =~= body + seq!['"'] + post);
    lemma_join_excludes(parts, ',', '"');
    assert forall|j: int| 0 <= j < body.len() implies rest[j] != '"' by {
        assert(rest[j] == body[j]);
    }
    lemma_find_char_from(rest, '"', 0, body.len() as int);
    assert(rest.take(body.len() as int) =~= body);
    lemma_split_join(parts, ',');
    assert(parts[0] == name);
    assert(parts.skip(1) =~= opts);
}

// ---------------------------------------------------------------------------
// Go sources

/// Every exported struct whose header is a line of `ls` is closed by a later
/// line of `ls` that trims to `}`.
pub open spec fn bodies_closed(ls: Seq<Seq<char>>) -> bool {
    forall|i: int|
        0 <= i < ls.len() && (#[trigger] struct_header(trim(ls[i]))) is Some && !struct_skipped(
            struct_header(trim(ls[i]))->0,
        ) ==> body_end(ls, i + 1) < ls.len()
}

proof fn lemma_body_end_prefix(l: Seq<Seq<char>>, m: Seq<Seq<char>>, j: int)
    requires
        0 <= j,
        body_end(l, j) < l.len(),
    ensures
        body_end(l + m, j) == body_end(l, j),
    decreases l.len() - j,
{
    assert((l + m)[j] == l[j]);
    if trim(l[j]) != "}"@ {
        lemma_body_end_prefix(l, m, j + 1);
    }
}

proof fn lemma_body_end_shift(p: Seq<Seq<char>>, m: Seq<Seq<char>>, j: int)
    requires
        0 <= j,
    ensures
        body_end(p + m, p.len() + j) == p.len() + body_end(m, j),
    decreases m.len() - j,
{
    if j < m.len() {
        assert((p + m)[p.len() + j] == m[j]);
        if trim(m[j]) != "}"@ {
            lemma_body_end_shift(p, m, j + 1);
        }
    }
}

proof fn lemma_body_fields_prefix(l: Seq<Seq<char>>, m: Seq<Seq<char>>, j: int, k: int)
    requires
        0 <= j,
        k <= l.len(),
    ensures
        body_fields(l + m, j, k) == body_fields(l, j, k),
    decreases k - j,
{
    if j < k {
        lemma_body_fields_prefix(l, m, j, k - 1);
        assert((l + m)[k - 1] == l[k - 1]);
    }
}

proof fn lemma_body_fields_shift(p: Seq<Seq<char>>, m: Seq<Seq<char>>, j: int, k: int)
    requires
        0 <= j,
        k <= m.len(),
    ensures
        body_fields(p + m, p.len() + j, p.len() + k) == body_fields(m, j, k),
    decreases k - j,
{
    if j < k {
        lemma_body_fields_shift(p, m, j, k - 1);
        assert((p + m)[p.len() + k - 1] == m[k - 1]);
    }
}

proof fn lemma_structs_shift(p: Seq<Seq<char>>, m: Seq<Seq<char>>, j: int)
    requires
        0 <= j,
    ensures
        structs_from(p + m, p.len() + j) == structs_from(m, j),
    decreases m.len() + 1 - j,
{
    if j < m.len() {
        assert((p + m)[p.len() + j] == m[j]);
        match struct_header(trim(m[j])) {
            None => lemma_structs_shift(p, m, j + 1),
            Some(name) => if struct_skipped(name) {
                lemma_structs_shift(p, m, j + 1);
            } else {
                let end = body_end(m, j + 1);
                lemma_body_end_shift(p, m, j + 1);
                lemma_body_end_bounds(m, j + 1);
                lemma_body_fields_shift(p, m, j + 1, end);
                lemma_structs_shift(p, m, end + 1);
            },
        }
    }
}

proof fn lemma_structs_concat(l: Seq<Seq<char>>, m: Seq<Seq<char>>, i: int)
    requires
        0 <= i <= l.len(),
        bodies_closed(l),
    ensures
        structs_from(l + m, i) == structs_from(l, i) + structs_from(m, 0),
    decreases l.len() + 1 - i,
{
    if i == l.len() {
        lemma_structs_shift(l, m, 0);
        assert(structs_from(l, i) + structs_from(m, 0) =~= structs_from(m, 0));
    } else {
        assert((l + m)[i] == l[i]);
        match struct_header(trim(l[i])) {
            None => lemma_structs_concat(l, m, i + 1),
            Some(name) => if struct_skipped(name) {
                lemma_structs_concat(l, m, i + 1);
            } else {
                let end = body_end(l, i + 1);
                assert(end < l.len());
                lemma_body_end_prefix(l, m, i + 1);
                lemma_body_end_bounds(l, i + 1);
                lemma_body_fields_prefix(l, m, i + 1, end);
                lemma_structs_concat(l, m, end + 1);
                let head = seq![
                    crate::go_parser::GoStructView {
                        name: crate::go_parser::rust_struct_name(name),
                        fields: body_fields(l, i + 1, end),
                    },
                ];
                assert(head + (structs_from(l, end + 1) + structs_from(m, 0)) =~= (head
                    + structs_from(l, end + 1)) + structs_from(m, 0));
            },
        }
    }
}

/// The lines of two lists read as Go source give the same trimmed text.
pub open spec fn trim_equivalent(l1: Seq<Seq<char>>, l2: Seq<Seq<char>>) -> bool {
    &&& l1.len() == l2.len()
    &&& forall|k: int| 0 <= k < l1.len() ==> trim(#[trigger] l1[k]) == trim(l2[k])
}

proof fn lemma_body_end_trim_eq(l1: Seq<Seq<char>>, l2: Seq<Seq<char>>, j: int)
    requires
        trim_equivalent(l1, l2),
        0 <= j,
    ensures
        body_end(l1, j) == body_end(l2, j),
    decreases l1.len() - j,
{
    if j < l1.len() {
        assert(trim(l1[j]) == trim(l2[j]));
        lemma_body_end_trim_eq(l1, l2, j + 1);
    }
}

proof fn lemma_body_fields_trim_eq(l1: Seq<Seq<char>>, l2: Seq<Seq<char>>, j: int, k: int)
    requires
        trim_equivalent(l1, l2),
        0 <= j,
        k <= l1.len(),
    ensures
        body_fields(l1, j, k) == body_fields(l2, j, k),
    decreases k - j,
{
    if j < k {
        lemma_body_fields_trim_eq(l1, l2, j, k - 1);
        assert(trim(l1[k - 1]) == trim(l2[k - 1]));
    }
}

proof fn lemma_structs_trim_eq(l1: Seq<Seq<char>>, l2: Seq<Seq<char>>, i: int)
    requires
        trim_equivalent(l1, l2),
        0 <= i,
    ensures
        structs_from(l1, i) == structs_from(l2, i),
    decreases l1.len() + 1 - i,
{
    if i < l1.len() {
        assert(trim(l1[i]) == trim(l2[i]));
        match struct_header(trim(l1[i])) {
            None => lemma_structs_trim_eq(l1, l2, i + 1),
            Some(name) => if struct_skipped(name) {
                lemma_structs_trim_eq(l1, l2, i + 1);
            } else {
                let end = body_end(l1, i + 1);
                lemma_body_end_trim_eq(l1, l2, i + 1);
                lemma_body_end_bounds(l1, i + 1);
                lemma_body_fields_trim_eq(l1, l2, i + 1, end);
                lemma_structs_trim_eq(l1, l2, end + 1);
            },
        }
    }
}

proof fn lemma_trim_start_push(t: Seq<char>, x: char)
    ensures
        trim_start(t.push(x)) == if trim_start(t).len() == 0 {
            trim_start(seq![x])
        } else {
            trim_start(t).push(x)
        },
    decreases t.len(),
{
    if t.len() == 0 {
        assert(t.push(x) =~= seq![x]);
    } else if is_white_space(t[0]) {
        assert(t.push(x).drop_first() =~= t.drop_first().push(x));
        lemma_trim_start_push(t.drop_first(), x);
    }
}

proof fn lemma_trim_strip_cr(c: Seq<char>)
    requires
        c.len() > 0,
    ensures
        trim(strip_cr(c)) == trim(c),
{
    if c.last() == '\r' {
        let t = c.drop_last();
        assert(c =~= t.push('\r'));
        lemma_trim_start_push(t, '\r');
        assert(is_white_space('\r'));
        if trim_start(t).len() == 0 {
            assert(trim_start(seq!['\r']) == trim_start(seq!['\r'].drop_first()));
            assert(seq!['\r'].drop_first() =~= Seq::<char>::empty());
        } else {
            assert(trim_start(t).push('\r').drop_last() =~= trim_start(t));
        }
    }
}

proof fn lemma_line_scan_concat(x: Seq<char>, y: Seq<char>)
    requires
        line_scan(x).1 == Seq::<char>::empty(),
    ensures
        line_scan(x + y).0 == line_scan(x).0 + line_scan(y).0,
        line_scan(x + y).1 == line_scan(y).1,
    decreases y.len(),
{
    if y.len() == 0 {
        assert(x + y =~= x);
        assert(line_scan(x).0 + line_scan(y).0 =~= line_scan(x).0);
    } else {
        lemma_line_scan_concat(x, y.drop_last());
        assert((x + y).drop_last() =~= x + y.drop_last());
        assert((x + y).last() == y.last());
        let d = line_scan(y.drop_last()).0;
        let c = line_scan(y.drop_last()).1;
        assert((line_scan(x).0 + d).push(strip_cr(c)) =~= line_scan(x).0 + d.push(strip_cr(c)));
    }
}

/// The Go structs of two sources joined by a newline are those of the first
/// followed by those of the second, when every exported struct of the first
/// is closed within it.
pub proof fn lemma_go_structs_join(a: Seq<char>, b: Seq<char>)
    requires
        bodies_closed(lines(a)),
    ensures
        go_structs(a + seq!['\n'] + b) == go_structs(a) + go_structs(b),
{
    let x = a + seq!['\n'];
    let d = line_scan(a).0;
    let c = line_scan(a).1;
    assert(x.drop_last() =~= a);
    assert(x.last() == '\n');
    let la2 = d.push(strip_cr(c));
    assert(line_scan(x).0 == la2);
    assert(line_scan(x).1 == Seq::<char>::empty());
    lemma_line_scan_concat(x, b);
    let la = lines(a);
    let lb = lines(b);
    let db = line_scan(b).0;
    let cb = line_scan(b).1;
    assert(lines(x + b) =~= la2 + lb) by {
        if cb.len() > 0 {
            assert((la2 + db).push(cb) =~= la2 + db.push(cb));
        }
    }
    if c.len() > 0 {
        assert(la == d.push(c));
        lemma_trim_strip_cr(c);
        assert forall|k: int| 0 <= k < (la2 + lb).len() implies trim(#[trigger] (la2 + lb)[k])
            == trim((la + lb)[k]) by {
            if k < d.len() {
                assert((la2 + lb)[k] == d[k]);
                assert((la + lb)[k] == d[k]);
            } else if k == d.len() {
                assert((la2 + lb)[k] == strip_cr(c));
                assert((la + lb)[k] == c);
            } else {
                assert((la2 + lb)[k] == lb[k - d.len() - 1]);
                assert((la + lb)[k] == lb[k - d.len() - 1]);
            }
        }
        lemma_structs_trim_eq(la2 + lb, la + lb, 0);
        lemma_structs_concat(la, lb, 0);
    } else {
        assert(la == d);
        let e = seq![Seq::<char>::empty()];
        assert(la2 + lb =~= la + (e + lb));
        lemma_structs_concat(la, e + lb, 0);
        reveal_strlit("type ");
        assert(trim(Seq::<char>::empty()) == Seq::<char>::empty());
        assert((e + lb)[0] == Seq::<char>::empty());
        assert(struct_header(trim((e + lb)[0])) is None);
        lemma_structs_shift(e, lb, 0);
    }
}

} // verus!
