//! The laws the grammar engine obeys, stated and proved over the
//! mathematical models: the primitive tokens always resolve, every relation
//! expression with plain inner text resolves to its kind on both the type
//! and the value side, rendering a type and re-resolving it round-trips, and
//! unmatched text falls back to a string value.

use vstd::prelude::*;
use crate::convert::{kind_prefix_spec, type_resolve_spec, value_resolve_spec};
use crate::error::ErrorSpec;
use crate::fields::{type_render_spec, FieldTypeSpec, FieldValueSpec};
use crate::parser::parse_relation_spec;
use crate::text::{
    find_char, float_trunc_of, is_ws_char, lemma_find_from_at, lemma_trim_noop, trim_spec,
};

verus! {

/// Taking apart `pre + x + ")"`, where `pre` ends in the only `(` of `pre`
/// and `x` holds no `)`, yields the name before that `(` and exactly `x`.
proof fn lemma_relation_parse(pre: Seq<char>, x: Seq<char>)
    requires
        pre.len() >= 1,
        pre[pre.len() - 1] == '(',
        forall|k: int| 0 <= k < pre.len() - 1 ==> pre[k] != '(',
        !is_ws_char(pre[0]),
        forall|i: int| 0 <= i < x.len() ==> x[i] != ')',
    ensures
        parse_relation_spec(pre + x + ")"@) == Ok::<_, ErrorSpec>(
            (pre.subrange(0, pre.len() - 1), x),
        ),
        trim_spec(pre + x + ")"@) == pre + x + ")"@,
        find_char(pre + x + ")"@, '(') == pre.len() - 1,
{
    reveal_strlit(")");
    let s = pre + x + ")"@;
    assert(s.len() == pre.len() + x.len() + 1);
    assert(s[s.len() - 1] == ')');
    assert(!is_ws_char(')'));
    lemma_trim_noop(s);
    assert(trim_spec(s) == s);
    assert forall|k: int| 0 <= k < pre.len() - 1 implies s[k] != '(' by {
        assert(s[k] == pre[k]);
    }
    lemma_find_from_at(s, '(', 0, pre.len() - 1);
    assert(find_char(s, '(') == pre.len() - 1);
    let rest = s.subrange(pre.len() as int, s.len() as int);
    assert(rest =~= x + ")"@);
    assert forall|k: int| 0 <= k < x.len() implies rest[k] != ')' by {
        assert(rest[k] == x[k]);
    }
    assert(rest[x.len() as int] == ')');
    lemma_find_from_at(rest, ')', 0, x.len() as int);
    assert(find_char(rest, ')') == x.len());
    assert(rest.subrange(0, x.len() as int) =~= x);
    assert(s.subrange(0, pre.len() - 1) =~= pre.subrange(0, pre.len() - 1));
}

/// Each of the four primitive tokens resolves to its primitive field type.
pub proof fn lemma_primitive_tokens()
    ensures
        type_resolve_spec("str"@) == Ok::<_, ErrorSpec>(FieldTypeSpec::Str),
        type_resolve_spec("int"@) == Ok::<_, ErrorSpec>(FieldTypeSpec::Int),
        type_resolve_spec("float"@) == Ok::<_, ErrorSpec>(FieldTypeSpec::Float),
        type_resolve_spec("bool"@) == Ok::<_, ErrorSpec>(FieldTypeSpec::Bool),
{
    reveal_strlit("str");
    reveal_strlit("int");
    reveal_strlit("float");
    reveal_strlit("bool");
    assert("int"@[0] == 'i' && "str"@[0] == 's');
    assert("float"@.len() == 5 && "str"@.len() == 3 && "int"@.len() == 3 && "bool"@.len() == 4);
}

/// Rendering any well-formed field type to its canonical textual form and
/// resolving that text yields the same type again. Well-formed means that a
/// relation target holds no closing parenthesis: a target such as `a)b`
/// breaks the round trip, because the grammar cuts at the first `)`.
pub open spec fn type_wf(t: FieldTypeSpec) -> bool {
    match t {
        FieldTypeSpec::Relation(d) => forall|i: int| 0 <= i < d.len() ==> d[i] != ')',
        FieldTypeSpec::RelationList(d) => forall|i: int| 0 <= i < d.len() ==> d[i] != ')',
        FieldTypeSpec::PinnedRelation(d) => forall|i: int| 0 <= i < d.len() ==> d[i] != ')',
        FieldTypeSpec::PinnedRelationList(d) => forall|i: int| 0 <= i < d.len() ==> d[i] != ')',
        _ => true,
    }
}

/// Round trip: resolving the canonical rendering of a well-formed field type
/// yields that type back.
pub proof fn lemma_type_round_trip(t: FieldTypeSpec)
    requires
        type_wf(t),
    ensures
        type_resolve_spec(type_render_spec(t)) == Ok::<_, ErrorSpec>(t),
{
    reveal_strlit("str");
    reveal_strlit("int");
    reveal_strlit("float");
    reveal_strlit("bool");
    reveal_strlit("relation(");
    reveal_strlit("relation_list(");
    reveal_strlit("pinned_relation(");
    reveal_strlit("pinned_relation_list(");
    reveal_strlit(")");
    reveal_strlit("relation");
    reveal_strlit("relation_list");
    reveal_strlit("pinned_relation");
    reveal_strlit("pinned_relation_list");
    match t {
        FieldTypeSpec::Int => {}
        FieldTypeSpec::Float => {}
        FieldTypeSpec::Bool => {}
        FieldTypeSpec::Str => {}
        FieldTypeSpec::Relation(d) => {
            lemma_relation_parse("relation("@, d);
            let s = "relation("@ + d + ")"@;
            assert(kind_prefix_spec(s) =~= "relation"@);
        }
        FieldTypeSpec::RelationList(d) => {
            lemma_relation_parse("relation_list("@, d);
            let s = "relation_list("@ + d + ")"@;
            assert(kind_prefix_spec(s) =~= "relation_list"@);
        }
        FieldTypeSpec::PinnedRelation(d) => {
            lemma_relation_parse("pinned_relation("@, d);
            let s = "pinned_relation("@ + d + ")"@;
            assert(kind_prefix_spec(s) =~= "pinned_relation"@);
        }
        FieldTypeSpec::PinnedRelationList(d) => {
            lemma_relation_parse("pinned_relation_list("@, d);
            let s = "pinned_relation_list("@ + d + ")"@;
            assert(kind_prefix_spec(s) =~= "pinned_relation_list"@);
        }
    }
}

/// On the type side, every relation kind around plain inner text resolves to
/// the matching kind carrying that text: `k(x)` resolves to `K(x)` for each
/// of the four kinds, whenever `x` holds no parenthesis.
pub proof fn lemma_relation_kinds_type(x: Seq<char>)
    requires
        forall|i: int| 0 <= i < x.len() ==> x[i] != '(' && x[i] != ')',
    ensures
        type_resolve_spec("relation("@ + x + ")"@) == Ok::<_, ErrorSpec>(
            FieldTypeSpec::Relation(x),
        ),
        type_resolve_spec("relation_list("@ + x + ")"@) == Ok::<_, ErrorSpec>(
            FieldTypeSpec::RelationList(x),
        ),
        type_resolve_spec("pinned_relation("@ + x + ")"@) == Ok::<_, ErrorSpec>(
            FieldTypeSpec::PinnedRelation(x),
        ),
        type_resolve_spec("pinned_relation_list("@ + x + ")"@) == Ok::<_, ErrorSpec>(
            FieldTypeSpec::PinnedRelationList(x),
        ),
{
    lemma_type_round_trip(FieldTypeSpec::Relation(x));
    lemma_type_round_trip(FieldTypeSpec::RelationList(x));
    lemma_type_round_trip(FieldTypeSpec::PinnedRelation(x));
    lemma_type_round_trip(FieldTypeSpec::PinnedRelationList(x));
}

/// On the value side, every relation kind around plain inner text resolves
/// to the matching kind carrying that text: `k(x)` resolves to `K(x)` for
/// each of the four kinds, whenever `x` holds no parenthesis.
#[verifier::rlimit(50)]
pub proof fn lemma_relation_kinds_value(x: Seq<char>)
    requires
        forall|i: int| 0 <= i < x.len() ==> x[i] != '(' && x[i] != ')',
    ensures
        value_resolve_spec("relation("@ + x + ")"@) == Ok::<_, ErrorSpec>(
            FieldValueSpec::Relation(x),
        ),
        value_resolve_spec("relation_list("@ + x + ")"@) == Ok::<_, ErrorSpec>(
            FieldValueSpec::RelationList(x),
        ),
        value_resolve_spec("pinned_relation("@ + x + ")"@) == Ok::<_, ErrorSpec>(
            FieldValueSpec::PinnedRelation(x),
        ),
        value_resolve_spec("pinned_relation_list("@ + x + ")"@) == Ok::<_, ErrorSpec>(
            FieldValueSpec::PinnedRelationList(x),
        ),
{
    reveal_strlit("true");
    reveal_strlit("false");
    reveal_strlit("relation");
    reveal_strlit("pinned_relation");
    reveal_strlit("relation(");
    reveal_strlit("relation_list(");
    reveal_strlit("pinned_relation(");
    reveal_strlit("pinned_relation_list(");
    reveal_strlit("relation_list");
    reveal_strlit("pinned_relation_list");
    reveal_strlit(")");
    lemma_relation_parse("relation("@, x);
    lemma_relation_parse("relation_list("@, x);
    lemma_relation_parse("pinned_relation("@, x);
    lemma_relation_parse("pinned_relation_list("@, x);
    let s1 = "relation("@ + x + ")"@;
    let s2 = "relation_list("@ + x + ")"@;
    let s3 = "pinned_relation("@ + x + ")"@;
    let s4 = "pinned_relation_list("@ + x + ")"@;
    assert("relation"@.is_prefix_of(s1)) by {
        assert(s1.subrange(0, 8) =~= "relation"@);
    }
    assert("relation"@.is_prefix_of(s2)) by {
        assert(s2.subrange(0, 8) =~= "relation"@);
    }
    assert("pinned_relation"@.is_prefix_of(s3)) by {
        assert(s3.subrange(0, 15) =~= "pinned_relation"@);
    }
    assert("pinned_relation"@.is_prefix_of(s4)) by {
        assert(s4.subrange(0, 15) =~= "pinned_relation"@);
    }
    assert("relation("@.subrange(0, 8) =~= "relation"@);
    assert("relation_list("@.subrange(0, 13) =~= "relation_list"@);
    assert("pinned_relation("@.subrange(0, 15) =~= "pinned_relation"@);
    assert("pinned_relation_list("@.subrange(0, 20) =~= "pinned_relation_list"@);
}

/// Fallback: any payload that is not a boolean literal, not numeric, and not
/// relation-prefixed resolves to the opaque string value carrying the
/// payload itself.
pub proof fn lemma_string_fallback(s: Seq<char>)
    requires
        s != "true"@,
        s != "false"@,
        float_trunc_of(s) is None,
        !"relation"@.is_prefix_of(s),
        !"pinned_relation"@.is_prefix_of(s),
    ensures
        value_resolve_spec(s) == Ok::<_, ErrorSpec>(FieldValueSpec::Str(s)),
{
}

} // verus!
