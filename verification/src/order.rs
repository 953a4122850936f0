//! The order in which texts are listed: that of `String`, which compares
//! the bytes of the UTF-8 encoding.

use vstd::multiset::*;
use vstd::prelude::*;
use vstd::seq_lib::*;
use vstd::utf8::*;

verus! {

/// Order of two byte strings: position by position, the first difference
/// decides, and a proper prefix comes first.
pub open spec fn bytes_le(a: Seq<u8>, b: Seq<u8>) -> bool
    decreases a.len(),
{
    if a.len() == 0 {
        true
    } else if b.len() == 0 {
        false
    } else if a[0] != b[0] {
        a[0] < b[0]
    } else {
        bytes_le(a.drop_first(), b.drop_first())
    }
}

/// Order of two texts: that of their UTF-8 encodings.
pub open spec fn text_le(a: Seq<char>, b: Seq<char>) -> bool {
    bytes_le(encode_utf8(a), encode_utf8(b))
}

/// Whether every text of a list is at most the ones behind it.
pub open spec fn ascending(list: Seq<Seq<char>>) -> bool {
    forall|i: int, j: int|
        0 <= i < j < list.len() ==> text_le(#[trigger] list[i], #[trigger] list[j])
}

proof fn lemma_bytes_le_reflexive(a: Seq<u8>)
    ensures
        bytes_le(a, a),
    decreases a.len(),
{
    if a.len() > 0 {
        lemma_bytes_le_reflexive(a.drop_first());
    }
}

proof fn lemma_bytes_le_antisymmetric(a: Seq<u8>, b: Seq<u8>)
    requires
        bytes_le(a, b),
        bytes_le(b, a),
    ensures
        a == b,
    decreases a.len(),
{
    if a.len() == 0 {
        assert(a =~= b);
    } else {
        lemma_bytes_le_antisymmetric(a.drop_first(), b.drop_first());
        assert(a =~= seq![a[0]] + a.drop_first());
        assert(b =~= seq![b[0]] + b.drop_first());
    }
}

proof fn lemma_bytes_le_transitive(a: Seq<u8>, b: Seq<u8>, c: Seq<u8>)
    requires
        bytes_le(a, b),
        bytes_le(b, c),
    ensures
        bytes_le(a, c),
    decreases a.len(),
{
    if a.len() > 0 && a[0] == b[0] && b[0] == c[0] {
        lemma_bytes_le_transitive(a.drop_first(), b.drop_first(), c.drop_first());
    }
}

proof fn lemma_bytes_le_total(a: Seq<u8>, b: Seq<u8>)
    ensures
        bytes_le(a, b) || bytes_le(b, a),
    decreases a.len(),
{
    if a.len() > 0 && b.len() > 0 && a[0] == b[0] {
        lemma_bytes_le_total(a.drop_first(), b.drop_first());
    }
}

/// Every text is at most itself.
pub proof fn lemma_text_le_reflexive(a: Seq<char>)
    ensures
        text_le(a, a),
{
    lemma_bytes_le_reflexive(encode_utf8(a));
}

/// Two texts that are each at most the other are the same text.
pub proof fn lemma_text_le_antisymmetric(a: Seq<char>, b: Seq<char>)
    requires
        text_le(a, b),
        text_le(b, a),
    ensures
        a == b,
{
    lemma_bytes_le_antisymmetric(encode_utf8(a), encode_utf8(b));
    encode_utf8_decode_utf8(a);
    encode_utf8_decode_utf8(b);
}

/// The order passes along a chain of texts.
pub proof fn lemma_text_le_transitive(a: Seq<char>, b: Seq<char>, c: Seq<char>)
    requires
        text_le(a, b),
        text_le(b, c),
    ensures
        text_le(a, c),
{
    lemma_bytes_le_transitive(encode_utf8(a), encode_utf8(b), encode_utf8(c));
}

/// Any two texts are ordered one way or the other.
pub proof fn lemma_text_le_total(a: Seq<char>, b: Seq<char>)
    ensures
        text_le(a, b) || text_le(b, a),
{
    lemma_bytes_le_total(encode_utf8(a), encode_utf8(b));
}

/// The first text of an ascending list is at most every text of the list.
proof fn lemma_first_is_least(list: Seq<Seq<char>>, text: Seq<char>)
    requires
        ascending(list),
        list.contains(text),
    ensures
        text_le(list[0], text),
{
    let k = choose|k: int| 0 <= k < list.len() && list[k] == text;
    if k == 0 {
        lemma_text_le_reflexive(text);
    }
}

/// An ascending list is determined by what it holds: two ascending lists
/// that hold the same texts, each as often as the other, are the same list.
pub proof fn lemma_ascending_is_determined(a: Seq<Seq<char>>, b: Seq<Seq<char>>)
    requires
        ascending(a),
        ascending(b),
        a.to_multiset() == b.to_multiset(),
    ensures
        a == b,
    decreases a.len(),
{
    broadcast use group_to_multiset_ensures;

    assert(a.len() == a.to_multiset().len() && b.len() == b.to_multiset().len());
    if a.len() == 0 {
        assert(a =~= b);
    } else {
        assert(a.contains(a[0]));
        assert(b.contains(b[0]));
        assert(a.to_multiset().count(b[0]) > 0);
        assert(b.to_multiset().count(a[0]) > 0);
        assert(a.contains(b[0]));
        assert(b.contains(a[0]));
        lemma_first_is_least(a, b[0]);
        lemma_first_is_least(b, a[0]);
        lemma_text_le_antisymmetric(a[0], b[0]);
        let a_rest = a.drop_first();
        let b_rest = b.drop_first();
        assert(a.remove(0) =~= a_rest);
        assert(b.remove(0) =~= b_rest);
        assert(a_rest.to_multiset() == b_rest.to_multiset());
        assert(ascending(a_rest)) by {
            assert forall|i: int, j: int| 0 <= i < j < a_rest.len() implies text_le(
                #[trigger] a_rest[i],
                #[trigger] a_rest[j],
            ) by {
                assert(text_le(a[i + 1], a[j + 1]));
            }
        }
        assert(ascending(b_rest)) by {
            assert forall|i: int, j: int| 0 <= i < j < b_rest.len() implies text_le(
                #[trigger] b_rest[i],
                #[trigger] b_rest[j],
            ) by {
                assert(text_le(b[i + 1], b[j + 1]));
            }
        }
        lemma_ascending_is_determined(a_rest, b_rest);
        assert(a =~= seq![a[0]] + a_rest);
        assert(b =~= seq![b[0]] + b_rest);
    }
}

/// Filtering a list keeps of each text as many as the list holds, where the
/// text passes, and none where it does not.
pub proof fn lemma_filter_to_multiset<A>(list: Seq<A>, keep: spec_fn(A) -> bool)
    ensures
        list.filter(keep).to_multiset() == list.to_multiset().filter(keep),
    decreases list.len(),
{
    broadcast use group_to_multiset_ensures;
    broadcast use group_multiset_axioms;

    if list.len() == 0 {
        reveal(Seq::filter);
        assert forall|v: A|
            list.filter(keep).to_multiset().count(v) == list.to_multiset().filter(keep).count(
                v,
            ) by {
            assert(!list.contains(v));
        }
    } else {
        let front = list.drop_last();
        let last = list.last();
        assert(list =~= front.push(last));
        front.lemma_filter_push(last, keep);
        lemma_filter_to_multiset(front, keep);
        assert(list.to_multiset() =~= front.to_multiset().insert(last));
        assert forall|v: A|
            list.filter(keep).to_multiset().count(v) == list.to_multiset().filter(keep).count(
                v,
            ) by {
            assert(front.filter(keep).to_multiset().count(v) == front.to_multiset().filter(
                keep,
            ).count(v));
        }
    }
    assert(list.filter(keep).to_multiset() =~= list.to_multiset().filter(keep));
}

} // verus!
