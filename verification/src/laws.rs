//! Properties of the deserializer that hold across its operations.

use vstd::prelude::*;
use crate::dson::{DsonView, ElemView, LiteralView, is_wrapper, peel};
use crate::de::{
    VisitView, entries_of, entry_of, string_literal, visit_any, visit_bool, visit_enum,
    visit_map, visit_option, visit_struct, visit_tuple, visit_tuple_struct,
};

verus! {

/// Taking the wrappers off a value leaves no wrapper on it.
pub proof fn lemma_peel_is_bare(d: DsonView)
    ensures
        !is_wrapper(peel(d)),
    decreases d,
{
    match d {
        DsonView::Attributed { expr, .. } => lemma_peel_is_bare(*expr),
        DsonView::Labeled { expr, .. } => lemma_peel_is_bare(*expr),
        DsonView::Typed { expr, .. } => lemma_peel_is_bare(*expr),
        DsonView::Comment { expr, .. } => lemma_peel_is_bare(*expr),
        _ => {},
    }
}

/// Taking the wrappers off twice is taking them off once.
pub proof fn lemma_peel_idempotent(d: DsonView)
    ensures
        peel(peel(d)) == peel(d),
{
    lemma_peel_is_bare(d);
}

/// `deserialize_any` answers every value: it succeeds, or the value, with its
/// wrappers taken off, is a hole or a non-empty product.
pub proof fn law_any_answers(d: DsonView)
    ensures
        visit_any(d) is Err ==> {
            ||| peel(d) == DsonView::Literal(LiteralView::Hole) && visit_any(d) == Err::<
                VisitView,
                Seq<char>,
            >("Hole is not allowed"@)
            ||| peel(d) matches DsonView::Product(values) && values.len() > 0 && visit_any(d)
                == Err::<VisitView, Seq<char>>("Unexpected product"@)
        },
{
    lemma_peel_is_bare(d);
}

/// Wrappers around a value change nothing that `deserialize_any`,
/// `deserialize_tuple_struct` or `deserialize_struct` answer.
pub proof fn law_wrappers_are_transparent(d: DsonView)
    ensures
        visit_any(d) == visit_any(peel(d)),
        visit_tuple_struct(d) == visit_tuple_struct(peel(d)),
        visit_struct(d) == visit_struct(peel(d)),
{
    lemma_peel_idempotent(d);
}

/// On a product, reading a struct is reading a map, and reading a tuple struct
/// is reading a tuple.
pub proof fn law_struct_is_map_on_products(d: DsonView)
    requires
        d is Product,
    ensures
        visit_struct(d) == visit_map(d),
        visit_tuple_struct(d) == visit_tuple(d),
{
}

/// The entries that a product's members stand for are, when there are any,
/// exactly its members, in order: each a value labeled with a string literal,
/// read as the entry from that label to that value.
pub proof fn law_entries_are_members(values: Seq<DsonView>, entries: Seq<ElemView>)
    requires
        entries_of(values) == Ok::<Seq<ElemView>, Seq<char>>(entries),
    ensures
        entries.len() == values.len(),
        forall|i: int|
            0 <= i < values.len() ==> {
                &&& (#[trigger] entries[i]).key matches DsonView::Literal(LiteralView::String(_))
                &&& values[i] == DsonView::Labeled {
                    label: Box::new(entries[i].key),
                    expr: Box::new(entries[i].value),
                }
            },
    decreases values.len(),
{
    if values.len() > 0 {
        let prefix = entries_of(values.drop_last())->Ok_0;
        law_entries_are_members(values.drop_last(), prefix);
        assert forall|i: int| 0 <= i < values.len() implies {
            &&& (#[trigger] entries[i]).key matches DsonView::Literal(LiteralView::String(_))
            &&& values[i] == DsonView::Labeled {
                label: Box::new(entries[i].key),
                expr: Box::new(entries[i].value),
            }
        } by {
            if i < values.len() - 1 {
                assert(entries[i] == prefix[i]);
                assert(values[i] == values.drop_last()[i]);
            } else {
                assert(entry_of(values.last()) is Ok);
            }
        }
    }
}

/// A product whose members are all values labeled with string literals stands
/// for the entries from those labels to those values.
pub proof fn law_members_are_entries(values: Seq<DsonView>)
    requires
        forall|i: int|
            0 <= i < values.len() ==> (#[trigger] values[i] matches DsonView::Labeled { label, .. }
                && *label matches DsonView::Literal(LiteralView::String(_))),
    ensures
        entries_of(values) is Ok,
    decreases values.len(),
{
    if values.len() > 0 {
        assert forall|i: int| 0 <= i < values.drop_last().len() implies #[trigger] values.drop_last()[i] matches DsonView::Labeled { label, .. }
            && *label matches DsonView::Literal(LiteralView::String(_)) by {
            assert(values.drop_last()[i] == values[i]);
        }
        law_members_are_entries(values.drop_last());
        assert(values.last() == values[values.len() - 1]);
    }
}

/// What an enum variant is read from: a value labeled with the variant's name,
/// the label a string literal, whose content is the labeled value.
pub proof fn law_enum_parts(d: DsonView, variant: Seq<char>, content: DsonView)
    requires
        visit_enum(d) == Ok::<VisitView, Seq<char>>(VisitView::Enum(variant, content)),
    ensures
        d == (DsonView::Labeled { label: Box::new(string_literal(variant)), expr: Box::new(content) }),
{
}

/// `deserialize_any` reads each kind of value, its wrappers taken off, as
/// that kind: an integer as that integer, a float as its bits, a rational as
/// its two integers, a string as that string, the empty product as unit, a
/// vector of any length (the empty one too) as the sequence of its elements,
/// a map as the sequence of its entries.
pub proof fn law_any_reads_each_kind(d: DsonView)
    ensures
        peel(d) matches DsonView::Literal(LiteralView::Integer(i)) ==> visit_any(d) == Ok::<
            VisitView,
            Seq<char>,
        >(VisitView::I64(i)),
        peel(d) matches DsonView::Literal(LiteralView::Float(bits)) ==> visit_any(d) == Ok::<
            VisitView,
            Seq<char>,
        >(VisitView::F64(bits)),
        peel(d) matches DsonView::Literal(LiteralView::Rational(a, b)) ==> visit_any(d) == Ok::<
            VisitView,
            Seq<char>,
        >(VisitView::Rational(a, b)),
        peel(d) matches DsonView::Literal(LiteralView::String(s)) ==> visit_any(d) == Ok::<
            VisitView,
            Seq<char>,
        >(VisitView::String(s)),
        peel(d) == DsonView::Product(Seq::empty()) ==> visit_any(d) == Ok::<VisitView, Seq<char>>(
            VisitView::Unit,
        ),
        peel(d) matches DsonView::Vector(values) ==> visit_any(d) == Ok::<VisitView, Seq<char>>(
            VisitView::Sequence(values),
        ),
        peel(d) matches DsonView::Mapping(entries) ==> visit_any(d) == Ok::<VisitView, Seq<char>>(
            VisitView::Mapping(entries),
        ),
{
}

/// An empty vector, bare or wrapped, is read by `deserialize_any` as the empty
/// sequence, never as unit.
pub proof fn law_any_reads_empty_vector_as_sequence(d: DsonView)
    requires
        peel(d) == DsonView::Vector(Seq::empty()),
    ensures
        visit_any(d) == Ok::<VisitView, Seq<char>>(VisitView::Sequence(Seq::empty())),
        visit_any(d) != Ok::<VisitView, Seq<char>>(VisitView::Unit),
{
}

/// A boolean is read from its label alone: whatever the labeled content, the
/// label `true` reads as `true` and the label `false` as `false`.
pub proof fn law_bool_is_its_label(content: DsonView)
    ensures
        visit_bool(
            DsonView::Labeled {
                label: Box::new(string_literal("true"@)),
                expr: Box::new(content),
            },
        ) == Ok::<VisitView, Seq<char>>(VisitView::Bool(true)),
        visit_bool(
            DsonView::Labeled {
                label: Box::new(string_literal("false"@)),
                expr: Box::new(content),
            },
        ) == Ok::<VisitView, Seq<char>>(VisitView::Bool(false)),
{
    reveal_strlit("true");
    reveal_strlit("false");
    assert(string_literal("true"@) != string_literal("false"@)) by {
        assert("true"@[0] != "false"@[0]);
    }
}

/// An option is `None` exactly when the value is the empty product, and `Some`
/// of the value for every other value.
pub proof fn law_option_is_none_only_for_unit(d: DsonView)
    ensures
        (visit_option(d) == VisitView::Absent) <==> (d == DsonView::Product(Seq::empty())),
        (d != DsonView::Product(Seq::empty())) ==> visit_option(d) == VisitView::Present,
{
    if let DsonView::Product(values) = d {
        if values.len() == 0 {
            assert(values =~= Seq::<DsonView>::empty());
        }
    }
}

/// Every value labeled with a string literal is read as the variant of that
/// name, whatever its content.
pub proof fn law_labeled_value_is_a_variant(variant: Seq<char>, content: DsonView)
    ensures
        visit_enum(
            DsonView::Labeled {
                label: Box::new(string_literal(variant)),
                expr: Box::new(content),
            },
        ) == Ok::<VisitView, Seq<char>>(VisitView::Enum(variant, content)),
{
}

/// A product whose members are all values labeled with string literals is
/// read as a map (and, bare or wrapped, as a struct) whose entries are, in
/// order, from each member's label to that member's content, unchanged.
pub proof fn law_product_of_labeled_members_is_a_map(d: DsonView, values: Seq<DsonView>)
    requires
        peel(d) == DsonView::Product(values),
        forall|i: int|
            0 <= i < values.len() ==> (#[trigger] values[i] matches DsonView::Labeled { label, .. }
                && *label matches DsonView::Literal(LiteralView::String(_))),
    ensures
        visit_struct(d) matches Ok(VisitView::Mapping(entries)) && entries.len() == values.len()
            && (forall|i: int|
            0 <= i < values.len() ==> values[i] == (DsonView::Labeled {
                label: Box::new((#[trigger] entries[i]).key),
                expr: Box::new(entries[i].value),
            })),
        visit_map(DsonView::Product(values)) == visit_struct(d),
{
    law_members_are_entries(values);
    let entries = entries_of(values)->Ok_0;
    law_entries_are_members(values, entries);
}

} // verus!
