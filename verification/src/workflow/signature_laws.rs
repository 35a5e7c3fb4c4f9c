//! What a signature tells apart.
//!
//! A signature is the digest of some bytes. These laws say that the bytes determine the
//! shape they stand for, so that a changed shape goes unnoticed only where the digests of
//! two different texts are equal.
use crate::workflow::compile::{CompiledNode, CompiledWorkflow, NodeAction};
use vstd::prelude::*;
use vstd::utf8::encode_utf8;

verus! {

/// Whether `byte` is the code of a character of `s` that takes one byte.
spec fn stands_for(byte: u8, s: Seq<char>) -> bool {
    exists|k: int| 0 <= k < s.len() && #[trigger] s[k] as u32 == byte as u32
}

proof fn lemma_scalar_bytes(c: u32)
    by (bit_vector)
    ensures
        c <= 0x7f ==> (c & 0x7f) as u8 == c,
        0x80u8 <= (0xC0u8 | ((c >> 6) & 0x1F) as u8) <= 0xf7u8,
        0x80u8 <= (0xE0u8 | ((c >> 12) & 0x0F) as u8) <= 0xf7u8,
        0x80u8 <= (0xF0u8 | ((c >> 18) & 0x7) as u8) <= 0xf7u8,
        0x80u8 <= (0x80u8 | (c & 0x3F) as u8) <= 0xf7u8,
        0x80u8 <= (0x80u8 | ((c >> 6) & 0x3F) as u8) <= 0xf7u8,
        0x80u8 <= (0x80u8 | ((c >> 12) & 0x3F) as u8) <= 0xf7u8,
{
}

/// No byte of an encoded text is 0xff, and a byte below 0x80 stands for a character of the
/// text.
proof fn lemma_text_bytes(s: Seq<char>)
    ensures
        forall|i: int|
            0 <= i < encode_utf8(s).len() ==> (#[trigger] encode_utf8(s)[i]) != 0xff && (
            encode_utf8(s)[i] < 0x80 ==> stands_for(encode_utf8(s)[i], s)),
    decreases s.len(),
{
    if s.len() > 0 {
        let rest = s.drop_first();
        lemma_text_bytes(rest);
        let c = s[0] as u32;
        lemma_scalar_bytes(c);
        let head = vstd::utf8::encode_scalar(c);
        assert forall|i: int| 0 <= i < encode_utf8(s).len() implies (#[trigger] encode_utf8(s)[i])
            != 0xff && (encode_utf8(s)[i] < 0x80 ==> stands_for(encode_utf8(s)[i], s)) by {
            let byte = encode_utf8(s)[i];
            if i < head.len() {
                assert(byte == head[i]);
                if byte < 0x80 {
                    assert(s[0] as u32 == byte as u32);
                }
            } else {
                assert(byte == encode_utf8(rest)[i - head.len()]);
                if byte < 0x80 {
                    let k = choose|k: int|
                        0 <= k < rest.len() && #[trigger] rest[k] as u32 == byte as u32;
                    assert(s[k + 1] == rest[k]);
                }
            }
        }
    }
}

proof fn lemma_no_byte(s: Seq<char>, c: char)
    requires
        !s.contains(c),
        c as u32 <= 0x7f,
    ensures
        !encode_utf8(s).contains(c as u8),
        !encode_utf8(s).contains(0xff),
{
    lemma_text_bytes(s);
    if encode_utf8(s).contains(c as u8) {
        let i = encode_utf8(s).index_of(c as u8);
        let byte = encode_utf8(s)[i];
        assert(byte == c as u8);
        assert(stands_for(byte, s));
        let k = choose|k: int| 0 <= k < s.len() && #[trigger] s[k] as u32 == byte as u32;
        assert(s[k] as u32 == c as u32);
        vstd::utf8::char_u32_cast(s[k], c as u32);
        vstd::utf8::char_u32_cast(c, c as u32);
        assert(s[k] == c);
    }
    if encode_utf8(s).contains(0xff) {
        let i = encode_utf8(s).index_of(0xff);
        assert(encode_utf8(s)[i] == 0xff);
    }
}

proof fn lemma_text_is_determined(a: Seq<char>, b: Seq<char>)
    requires
        encode_utf8(a) == encode_utf8(b),
    ensures
        a == b,
{
    vstd::utf8::encode_utf8_decode_utf8(a);
    vstd::utf8::encode_utf8_decode_utf8(b);
}

/// What comes before the first separator, and what comes from it on, are determined.
proof fn lemma_split_first(x: Seq<u8>, p: Seq<u8>, y: Seq<u8>, q: Seq<u8>, sep: u8)
    requires
        x + p == y + q,
        !x.contains(sep),
        !y.contains(sep),
        p.len() > 0 ==> p[0] == sep,
        q.len() > 0 ==> q[0] == sep,
    ensures
        x == y,
        p == q,
{
    let all = x + p;
    if x.len() < y.len() {
        assert(all[x.len() as int] == p[0]);
        assert((y + q)[x.len() as int] == y[x.len() as int]);
        assert(y.contains(sep));
    }
    if y.len() < x.len() {
        assert((y + q)[y.len() as int] == q[0]);
        assert(all[y.len() as int] == x[y.len() as int]);
        assert(x.contains(sep));
    }
    assert(x =~= all.take(x.len() as int));
    assert(y =~= (y + q).take(y.len() as int));
    assert(p =~= all.skip(x.len() as int));
    assert(q =~= (y + q).skip(y.len() as int));
}

/// What comes before the last separator, and what comes after it, are determined.
proof fn lemma_split_last(x: Seq<u8>, p: Seq<u8>, y: Seq<u8>, q: Seq<u8>, sep: u8)
    requires
        x + seq![sep] + p == y + seq![sep] + q,
        !p.contains(sep),
        !q.contains(sep),
    ensures
        x == y,
        p == q,
{
    let all = x + seq![sep] + p;
    let same = y + seq![sep] + q;
    let i = x.len() as int;
    let j = y.len() as int;
    assert(all.len() == i + 1 + p.len());
    assert(same.len() == j + 1 + q.len());
    assert(all[i] == sep);
    assert(same[j] == sep);
    if i < j {
        assert(all[j] == p[j - i - 1]);
        assert(p.contains(sep));
    }
    if j < i {
        assert(same[i] == q[i - j - 1]);
        assert(q.contains(sep));
    }
    assert(x =~= all.take(i));
    assert(y =~= same.take(j));
    assert(p =~= all.skip(i + 1));
    assert(q =~= same.skip(j + 1));
}

/// Whether no dependency holds the character that separates dependencies.
spec fn plain_edges(deps: Seq<Seq<char>>) -> bool {
    forall|k: int| 0 <= k < deps.len() ==> !(#[trigger] deps[k]).contains('\u{1}')
}

proof fn lemma_edges_are_determined(a: Seq<Seq<char>>, b: Seq<Seq<char>>)
    requires
        plain_edges(a),
        plain_edges(b),
        crate::workflow::compile::edge_bytes(a) == crate::workflow::compile::edge_bytes(b),
    ensures
        a == b,
    decreases a.len(),
{
    let x = crate::workflow::compile::edge_bytes(a.drop_last());
    let y = crate::workflow::compile::edge_bytes(b.drop_last());
    if a.len() > 0 && b.len() > 0 {
        lemma_no_byte(a.last(), '\u{1}');
        lemma_no_byte(b.last(), '\u{1}');
        lemma_split_last(x, encode_utf8(a.last()), y, encode_utf8(b.last()), 1u8);
        lemma_text_is_determined(a.last(), b.last());
        assert(plain_edges(a.drop_last()));
        assert(plain_edges(b.drop_last()));
        lemma_edges_are_determined(a.drop_last(), b.drop_last());
        assert(a =~= a.drop_last().push(a.last()));
        assert(b =~= b.drop_last().push(b.last()));
    } else if a.len() > 0 {
        assert(crate::workflow::compile::edge_bytes(a).len() > 0);
    } else if b.len() > 0 {
        assert(crate::workflow::compile::edge_bytes(b).len() > 0);
    }
    assert(a =~= b);
}

/// The bytes of a list of dependencies hold no 0xff, and begin with a separator.
proof fn lemma_edge_bytes(deps: Seq<Seq<char>>)
    ensures
        !crate::workflow::compile::edge_bytes(deps).contains(0xff),
        deps.len() > 0 ==> crate::workflow::compile::edge_bytes(deps).len() > 0
            && crate::workflow::compile::edge_bytes(deps)[0] == 1u8,
        deps.len() == 0 ==> crate::workflow::compile::edge_bytes(deps).len() == 0,
    decreases deps.len(),
{
    if deps.len() > 0 {
        lemma_edge_bytes(deps.drop_last());
        lemma_text_bytes(deps.last());
        let x = crate::workflow::compile::edge_bytes(deps.drop_last());
        let all = crate::workflow::compile::edge_bytes(deps);
        assert(all == x + seq![1u8] + encode_utf8(deps.last()));
        assert forall|i: int| 0 <= i < all.len() implies #[trigger] all[i] != 0xff by {
            if i < x.len() {
                assert(all[i] == x[i]);
                assert(x.contains(x[i]));
            } else if i > x.len() {
                assert(all[i] == encode_utf8(deps.last())[i - x.len() - 1]);
            }
        }
        if x.len() > 0 {
            assert(all[0] == x[0]);
        }
    }
}

/// Whether neither the id nor a dependency of a node holds the character that separates
/// dependencies.
pub open spec fn plain_node(node: CompiledNode) -> bool {
    &&& !node.id@.contains('\u{1}')
    &&& forall|k: int|
        0 <= k < node.depends_on@.len() ==> !(#[trigger] node.depends_on@[k])@.contains('\u{1}')
}

proof fn lemma_plain_edges(node: CompiledNode)
    requires
        plain_node(node),
    ensures
        plain_edges(crate::text::sorted(crate::text::texts(node.depends_on@))),
{
    broadcast use vstd::seq_lib::group_to_multiset_ensures;

    let deps = crate::text::texts(node.depends_on@);
    let list = crate::text::sorted(deps);
    crate::text::lemma_sorted(deps);
    assert forall|k: int| 0 <= k < list.len() implies !(#[trigger] list[k]).contains('\u{1}') by {
        assert(list.contains(list[k]));
        assert(list.to_multiset().count(list[k]) > 0);
        assert(deps.contains(list[k]));
        let j = deps.index_of(list[k]);
        assert(deps[j] == node.depends_on@[j]@);
    }
}

/// The bytes of a node after its mark.
spec fn node_body(node: CompiledNode) -> Seq<u8> {
    encode_utf8(node.id@) + crate::workflow::compile::kind_bytes(node.action)
        + crate::workflow::compile::edge_bytes(
        crate::text::sorted(crate::text::texts(node.depends_on@)),
    )
}

/// The bytes of the two kinds: they hold no separator, and differ in the last one.
proof fn lemma_kind_bytes(action: NodeAction)
    ensures
        ({
            let kind = crate::workflow::compile::kind_bytes(action);
            &&& !kind.contains(1u8)
            &&& !kind.contains(0xff)
            &&& kind.len() > 0
            &&& kind.last() == if action is Agent {
                116u8
            } else {
                108u8
            }
        }),
{
    reveal_strlit("agent");
    reveal_strlit("tool");
    assert("agent"@ =~= seq!['a', 'g', 'e', 'n', 't']);
    assert("tool"@ =~= seq!['t', 'o', 'o', 'l']);
    assert(vstd::utf8::is_ascii_chars("agent"@));
    assert(vstd::utf8::is_ascii_chars("tool"@));
    vstd::utf8::is_ascii_chars_encode_utf8("agent"@);
    vstd::utf8::is_ascii_chars_encode_utf8("tool"@);
    lemma_no_byte("agent"@, '\u{1}');
    lemma_no_byte("tool"@, '\u{1}');
}

proof fn lemma_node_is_determined(a: CompiledNode, b: CompiledNode)
    requires
        plain_node(a),
        plain_node(b),
        node_body(a) == node_body(b),
    ensures
        crate::workflow::compile_laws::same_node_shape(a, b),
{
    let da = crate::text::sorted(crate::text::texts(a.depends_on@));
    let db = crate::text::sorted(crate::text::texts(b.depends_on@));
    let ka = crate::workflow::compile::kind_bytes(a.action);
    let kb = crate::workflow::compile::kind_bytes(b.action);
    let x = encode_utf8(a.id@) + ka;
    let y = encode_utf8(b.id@) + kb;
    lemma_no_byte(a.id@, '\u{1}');
    lemma_no_byte(b.id@, '\u{1}');
    lemma_kind_bytes(a.action);
    lemma_kind_bytes(b.action);
    lemma_edge_bytes(da);
    lemma_edge_bytes(db);
    lemma_plain_edges(a);
    lemma_plain_edges(b);
    assert forall|i: int| 0 <= i < x.len() implies #[trigger] x[i] != 1u8 by {
        if i < encode_utf8(a.id@).len() {
            assert(encode_utf8(a.id@).contains(x[i]));
        } else {
            assert(x[i] == ka[i - encode_utf8(a.id@).len()]);
            assert(ka.contains(x[i]));
        }
    }
    assert forall|i: int| 0 <= i < y.len() implies #[trigger] y[i] != 1u8 by {
        if i < encode_utf8(b.id@).len() {
            assert(encode_utf8(b.id@).contains(y[i]));
        } else {
            assert(y[i] == kb[i - encode_utf8(b.id@).len()]);
            assert(kb.contains(y[i]));
        }
    }
    lemma_split_first(
        x,
        crate::workflow::compile::edge_bytes(da),
        y,
        crate::workflow::compile::edge_bytes(db),
        1u8,
    );
    assert(x.last() == ka.last());
    assert(y.last() == kb.last());
    assert(ka == kb);
    assert(encode_utf8(a.id@) =~= x.take(x.len() - ka.len()));
    assert(encode_utf8(b.id@) =~= y.take(y.len() - kb.len()));
    lemma_text_is_determined(a.id@, b.id@);
    lemma_edges_are_determined(da, db);
}

proof fn lemma_node_body(node: CompiledNode)
    requires
        plain_node(node),
    ensures
        crate::workflow::compile::node_bytes(node) == seq![0xffu8] + node_body(node),
        !node_body(node).contains(0xff),
{
    let deps = crate::text::sorted(crate::text::texts(node.depends_on@));
    let id = encode_utf8(node.id@);
    let kind = crate::workflow::compile::kind_bytes(node.action);
    let edges = crate::workflow::compile::edge_bytes(deps);
    let body = node_body(node);
    lemma_no_byte(node.id@, '\u{1}');
    lemma_kind_bytes(node.action);
    lemma_edge_bytes(deps);
    assert(crate::workflow::compile::node_bytes(node) =~= seq![0xffu8] + body);
    assert forall|i: int| 0 <= i < body.len() implies #[trigger] body[i] != 0xff by {
        if i < id.len() {
            assert(body[i] == id[i]);
            assert(id.contains(id[i]));
        } else if i < id.len() + kind.len() {
            assert(body[i] == kind[i - id.len()]);
            assert(kind.contains(body[i]));
        } else {
            assert(body[i] == edges[i - id.len() - kind.len()]);
            assert(edges.contains(body[i]));
        }
    }
}

proof fn lemma_nodes_are_determined(a: Seq<CompiledNode>, n: int, b: Seq<CompiledNode>, m: int)
    requires
        0 <= n <= a.len(),
        0 <= m <= b.len(),
        forall|k: int| 0 <= k < a.len() ==> plain_node(#[trigger] a[k]),
        forall|k: int| 0 <= k < b.len() ==> plain_node(#[trigger] b[k]),
        crate::workflow::compile::nodes_bytes(a, n) == crate::workflow::compile::nodes_bytes(b, m),
    ensures
        n == m,
        forall|k: int|
            0 <= k < n ==> crate::workflow::compile_laws::same_node_shape(#[trigger] a[k], b[k]),
    decreases n,
{
    if n > 0 {
        lemma_node_body(a[n - 1]);
    }
    if m > 0 {
        lemma_node_body(b[m - 1]);
    }
    if n > 0 && m > 0 {
        let x = crate::workflow::compile::nodes_bytes(a, n - 1);
        let y = crate::workflow::compile::nodes_bytes(b, m - 1);
        let p = node_body(a[n - 1]);
        let q = node_body(b[m - 1]);
        assert(crate::workflow::compile::nodes_bytes(a, n) =~= x + seq![0xffu8] + p);
        assert(crate::workflow::compile::nodes_bytes(b, m) =~= y + seq![0xffu8] + q);
        lemma_split_last(x, p, y, q, 0xffu8);
        lemma_node_is_determined(a[n - 1], b[m - 1]);
        lemma_nodes_are_determined(a, n - 1, b, m - 1);
    } else if n > 0 {
        assert(crate::workflow::compile::nodes_bytes(a, n).len() > 0);
    } else if m > 0 {
        assert(crate::workflow::compile::nodes_bytes(b, m).len() > 0);
    }
}

proof fn lemma_version_is_determined(v: u32, w: u32)
    requires
        crate::workflow::compile::le_bytes(v) == crate::workflow::compile::le_bytes(w),
    ensures
        v == w,
{
    let a = crate::workflow::compile::le_bytes(v);
    let b = crate::workflow::compile::le_bytes(w);
    assert(a[0] == b[0] && a[1] == b[1] && a[2] == b[2] && a[3] == b[3]);
    assert(v == v % 256 + 256 * (v / 256 % 256) + 65536 * (v / 65536 % 256) + 16777216 * (v
        / 16777216));
    assert(w == w % 256 + 256 * (w / 256 % 256) + 65536 * (w / 65536 % 256) + 16777216 * (w
        / 16777216));
}

/// Whether no separator occurs in an id that it would have to follow: no NUL in the
/// workflow's id, and no U+0001 in an id or dependency of a node.
pub open spec fn plain(workflow: CompiledWorkflow) -> bool {
    &&& !workflow.id@.contains('\0')
    &&& forall|k: int| 0 <= k < workflow.nodes@.len() ==> plain_node(#[trigger] workflow.nodes@[k])
}

/// Any structural change changes what is hashed: workflows with another id or version, or
/// with a node, an edge or an action's kind that differs, are not hashed from the same
/// bytes.
pub proof fn law_a_changed_shape_changes_what_is_hashed(a: CompiledWorkflow, b: CompiledWorkflow)
    requires
        plain(a),
        plain(b),
        !crate::workflow::compile_laws::same_shape(a, b),
    ensures
        crate::workflow::compile::shape_bytes(a) != crate::workflow::compile::shape_bytes(b),
{
    if crate::workflow::compile::shape_bytes(a) == crate::workflow::compile::shape_bytes(b) {
        let n = a.nodes@.len() as int;
        let m = b.nodes@.len() as int;
        let x = encode_utf8(a.id@);
        let y = encode_utf8(b.id@);
        let va = crate::workflow::compile::le_bytes(a.version);
        let vb = crate::workflow::compile::le_bytes(b.version);
        let na = crate::workflow::compile::nodes_bytes(a.nodes@, n);
        let nb = crate::workflow::compile::nodes_bytes(b.nodes@, m);
        let p = seq![0u8] + va + na;
        let q = seq![0u8] + vb + nb;
        assert(crate::workflow::compile::shape_bytes(a) =~= x + p);
        assert(crate::workflow::compile::shape_bytes(b) =~= y + q);
        lemma_no_byte(a.id@, '\0');
        lemma_no_byte(b.id@, '\0');
        lemma_split_first(x, p, y, q, 0u8);
        lemma_text_is_determined(a.id@, b.id@);
        assert(va =~= p.subrange(1, 5));
        assert(vb =~= q.subrange(1, 5));
        lemma_version_is_determined(a.version, b.version);
        assert(na =~= p.skip(5));
        assert(nb =~= q.skip(5));
        lemma_nodes_are_determined(a.nodes@, n, b.nodes@, m);
    }
}

} // verus!
