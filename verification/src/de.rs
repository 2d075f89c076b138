//! The decisions of the DSON deserializer.
//!
//! Each `deserialize_*` method looks at the DSON value that the deserializer
//! holds and answers with the `Visit` that a serde visitor is to receive, or
//! with the error that the request meets. The sequence, map and enum accessors
//! hand out the deserializers of the nested values in order.

use vstd::prelude::*;
use crate::dson::{dson_view, Dson, DsonView, ElemView, Literal, LiteralView, MapElem, dsons_view, elems_view, peel};
use crate::error::Error;

verus! {

broadcast use {crate::dson::lemma_dsons_view, crate::dson::lemma_elems_view};

/// What a serde visitor is to be called with.
#[derive(Debug)]
pub enum Visit {
    /// `visit_bool`
    Bool(bool),
    /// `visit_i64`
    I64(i64),
    /// `visit_f64`, with the IEEE-754 bits of the number
    F64(u64),
    /// `visit_f64`, with the quotient of the two integers
    Rational(i64, i64),
    /// `visit_string`
    String(String),
    /// `visit_unit`
    Unit,
    /// `visit_none`
    Absent,
    /// `visit_some`, with the same deserializer
    Present,
    /// `visit_seq`
    Sequence(ValuesDeserializer),
    /// `visit_map`
    Mapping(MapDeserializer),
    /// `visit_enum`
    Enum(EnumDeserializer),
}

/// The mathematical value of a `Visit`.
pub enum VisitView {
    Bool(bool),
    I64(i64),
    F64(u64),
    Rational(i64, i64),
    String(Seq<char>),
    Unit,
    Absent,
    Present,
    Sequence(Seq<DsonView>),
    Mapping(Seq<ElemView>),
    Enum(Seq<char>, DsonView),
}

impl View for Visit {
    type V = VisitView;

    open spec fn view(&self) -> VisitView {
        match self {
            Visit::Bool(b) => VisitView::Bool(*b),
            Visit::I64(i) => VisitView::I64(*i),
            Visit::F64(bits) => VisitView::F64(*bits),
            Visit::Rational(a, b) => VisitView::Rational(*a, *b),
            Visit::String(s) => VisitView::String(s@),
            Visit::Unit => VisitView::Unit,
            Visit::Absent => VisitView::Absent,
            Visit::Present => VisitView::Present,
            Visit::Sequence(values) => VisitView::Sequence(values@),
            Visit::Mapping(entries) => VisitView::Mapping(entries@),
            Visit::Enum(e) => VisitView::Enum(e@.0, e@.1),
        }
    }
}

/// The mathematical value of the answer to a request.
pub open spec fn outcome(r: Result<Visit, Error>) -> Result<VisitView, Seq<char>> {
    match r {
        Ok(v) => Ok(v@),
        Err(e) => Err(e@),
    }
}

/// The answer to `deserialize_any`, and to every request that serde forwards
/// to it: the value is read with its wrappers taken off.
pub open spec fn visit_any(d: DsonView) -> Result<VisitView, Seq<char>> {
    match peel(d) {
        DsonView::Literal(LiteralView::Integer(i)) => Ok(VisitView::I64(i)),
        DsonView::Literal(LiteralView::Float(bits)) => Ok(VisitView::F64(bits)),
        DsonView::Literal(LiteralView::Rational(a, b)) => Ok(VisitView::Rational(a, b)),
        DsonView::Literal(LiteralView::String(s)) => Ok(VisitView::String(s)),
        DsonView::Literal(LiteralView::Hole) => Err("Hole is not allowed"@),
        DsonView::Product(values) => if values.len() == 0 {
            Ok(VisitView::Unit)
        } else {
            Err("Unexpected product"@)
        },
        DsonView::Vector(values) => Ok(VisitView::Sequence(values)),
        DsonView::Mapping(entries) => Ok(VisitView::Mapping(entries)),
        // `peel` never yields a wrapper (see `laws::lemma_peel_is_bare`).
        _ => Err(Seq::empty()),
    }
}

/// The string literal `text`.
pub open spec fn string_literal(text: Seq<char>) -> DsonView {
    DsonView::Literal(LiteralView::String(text))
}

/// The answer to `deserialize_bool`: a boolean is a value labeled with the
/// string `true` or `false`.
pub open spec fn visit_bool(d: DsonView) -> Result<VisitView, Seq<char>> {
    match d {
        DsonView::Labeled { label, .. } => if *label == string_literal("true"@) {
            Ok(VisitView::Bool(true))
        } else if *label == string_literal("false"@) {
            Ok(VisitView::Bool(false))
        } else {
            Err("Expected bool"@)
        },
        _ => Err("Expected bool"@),
    }
}

/// Whether `d` is the empty product, the unit value.
pub open spec fn is_unit(d: DsonView) -> bool {
    d matches DsonView::Product(values) && values.len() == 0
}

/// The answer to `deserialize_option`: the unit value is `None`, anything
/// else is `Some` of itself.
pub open spec fn visit_option(d: DsonView) -> VisitView {
    if is_unit(d) {
        VisitView::Absent
    } else {
        VisitView::Present
    }
}

/// The answer to `deserialize_unit_struct`.
pub open spec fn visit_unit_struct(d: DsonView) -> Result<VisitView, Seq<char>> {
    if is_unit(d) {
        Ok(VisitView::Unit)
    } else {
        Err("Expected unit"@)
    }
}

/// The map entry that a member of a product stands for: a member labeled with
/// a string literal is the entry from that label to the labeled value.
pub open spec fn entry_of(d: DsonView) -> Result<ElemView, Seq<char>> {
    match d {
        DsonView::Labeled { label, expr } => if *label matches DsonView::Literal(LiteralView::String(_)) {
            Ok(ElemView { key: *label, value: *expr })
        } else {
            Err("Expected string"@)
        },
        _ => Err("Expected labeled"@),
    }
}

/// The entries that the members of a product stand for, in order; or the
/// error of the first member that stands for none.
pub open spec fn entries_of(values: Seq<DsonView>) -> Result<Seq<ElemView>, Seq<char>>
    decreases values.len(),
{
    if values.len() == 0 {
        Ok(Seq::empty())
    } else {
        match entries_of(values.drop_last()) {
            Ok(entries) => match entry_of(values.last()) {
                Ok(entry) => Ok(entries.push(entry)),
                Err(e) => Err(e),
            },
            Err(e) => Err(e),
        }
    }
}

/// A product read as a map, or `missing` when `d` is not a product.
pub open spec fn product_as_map(d: DsonView, missing: Seq<char>) -> Result<VisitView, Seq<char>> {
    match d {
        DsonView::Product(values) => match entries_of(values) {
            Ok(entries) => Ok(VisitView::Mapping(entries)),
            Err(e) => Err(e),
        },
        _ => Err(missing),
    }
}

/// A product read as a sequence, or `missing` when `d` is not a product.
pub open spec fn product_as_seq(d: DsonView, missing: Seq<char>) -> Result<VisitView, Seq<char>> {
    match d {
        DsonView::Product(values) => Ok(VisitView::Sequence(values)),
        _ => Err(missing),
    }
}

/// The answer to `deserialize_map`.
pub open spec fn visit_map(d: DsonView) -> Result<VisitView, Seq<char>> {
    product_as_map(d, "Expected product"@)
}

/// The answer to `deserialize_struct`: the value, with its wrappers taken
/// off, read as a map.
pub open spec fn visit_struct(d: DsonView) -> Result<VisitView, Seq<char>> {
    product_as_map(peel(d), "Expected set"@)
}

/// The answer to `deserialize_tuple`.
pub open spec fn visit_tuple(d: DsonView) -> Result<VisitView, Seq<char>> {
    product_as_seq(d, "Expected product"@)
}

/// The answer to `deserialize_tuple_struct`: the value, with its wrappers
/// taken off, read as a sequence.
pub open spec fn visit_tuple_struct(d: DsonView) -> Result<VisitView, Seq<char>> {
    product_as_seq(peel(d), "Expected set"@)
}

/// The answer to `deserialize_enum`: a variant is a value labeled with the
/// variant's name.
pub open spec fn visit_enum(d: DsonView) -> Result<VisitView, Seq<char>> {
    match d {
        DsonView::Labeled { label, expr } => match *label {
            DsonView::Literal(LiteralView::String(variant)) => Ok(VisitView::Enum(variant, *expr)),
            _ => Err("Expected string"@),
        },
        _ => Err("Expected label"@),
    }
}

/// A deserializer of one DSON value.
#[derive(Debug)]
pub struct Deserializer(Dson);

impl View for Deserializer {
    type V = DsonView;

    closed spec fn view(&self) -> DsonView {
        self.0@
    }
}

/// Takes the wrappers off `d`, owned.
fn peel_owned(d: Dson) -> (r: Dson)
    ensures
        r@ == peel(d@),
    decreases d,
{
    match d {
        Dson::Attributed { expr, .. } => peel_owned(*expr),
        Dson::Labeled { expr, .. } => peel_owned(*expr),
        Dson::Typed { expr, .. } => peel_owned(*expr),
        Dson::Comment { expr, .. } => peel_owned(*expr),
        other => other,
    }
}

/// Takes the wrappers (attributes, labels, comments, type ascriptions) off
/// the value that `dson` holds.
pub fn unwrap(dson: &mut Dson)
    ensures
        final(dson)@ == peel(old(dson)@),
{
    let mut taken = Dson::Product(Vec::new());
    std::mem::swap(&mut taken, dson);
    *dson = peel_owned(taken);
}

/// The member of a product that stands for a map entry.
fn entry(d: &Dson) -> (r: Result<MapElem, Error>)
    ensures
        match r {
            Ok(elem) => entry_of(d@) == Ok::<ElemView, Seq<char>>(elem@),
            Err(e) => entry_of(d@) == Err::<ElemView, Seq<char>>(e@),
        },
{
    proof { reveal_with_fuel(dson_view, 2); }
    match d {
        Dson::Labeled { label, expr } => match &**label {
            Dson::Literal(Literal::String(key)) => Ok(
                MapElem { key: Dson::Literal(Literal::String(key.clone())), value: (**expr).duplicate() },
            ),
            _ => Err(Error::message("Expected string")),
        },
        _ => Err(Error::message("Expected labeled")),
    }
}

/// When the members of a product up to `k` stand for no entries, neither do
/// all of them, with the same error.
proof fn lemma_entries_error_extends(values: Seq<DsonView>, k: int)
    requires
        0 <= k <= values.len(),
        entries_of(values.take(k)) is Err,
    ensures
        entries_of(values) == entries_of(values.take(k)),
    decreases values.len(),
{
    if values.len() == k {
        assert(values.take(k) =~= values);
    } else {
        assert(values.drop_last().take(k) =~= values.take(k));
        lemma_entries_error_extends(values.drop_last(), k);
    }
}

/// The entries that the members of `values` stand for.
fn entries(values: &Vec<Dson>) -> (r: Result<Vec<MapElem>, Error>)
    ensures
        match r {
            Ok(elems) => entries_of(dsons_view(*values)) == Ok::<Seq<ElemView>, Seq<char>>(
                elems_view(elems),
            ),
            Err(e) => entries_of(dsons_view(*values)) == Err::<Seq<ElemView>, Seq<char>>(e@),
        },
{
    let ghost all = dsons_view(*values);
    let mut out: Vec<MapElem> = Vec::new();
    let mut i: usize = 0;
    assert(all.take(0) =~= Seq::<DsonView>::empty());
    assert(elems_view(out) =~= Seq::<ElemView>::empty());
    while i < values.len()
        invariant
            all == dsons_view(*values),
            i <= values@.len(),
            entries_of(all.take(i as int)) == Ok::<Seq<ElemView>, Seq<char>>(elems_view(out)),
        decreases values@.len() - i,
    {
        let ghost before = out;
        assert(all.take(i + 1).drop_last() =~= all.take(i as int));
        assert(all.take(i + 1).last() == values@[i as int]@);
        match entry(&values[i]) {
            Ok(elem) => {
                out.push(elem);
                assert(elems_view(out) =~= elems_view(before).push(elem@));
            },
            Err(e) => {
                proof {
                    lemma_entries_error_extends(all, i + 1);
                    assert(all.take(values@.len() as int) =~= all);
                }
                return Err(e);
            },
        }
        i += 1;
    }
    assert(all.take(values@.len() as int) =~= all);
    Ok(out)
}

/// A product read as a map.
fn product_entries(d: &Dson, missing: &str) -> (r: Result<Visit, Error>)
    ensures
        outcome(r) == product_as_map(d@, missing@),
{
    match d {
        Dson::Product(values) => match entries(values) {
            Ok(elems) => Ok(Visit::Mapping(MapDeserializer::new(elems))),
            Err(e) => Err(e),
        },
        _ => Err(Error::message(missing)),
    }
}

/// A product read as a sequence.
fn product_values(d: &Dson, missing: &str) -> (r: Result<Visit, Error>)
    ensures
        outcome(r) == product_as_seq(d@, missing@),
{
    match d {
        Dson::Product(values) => Ok(Visit::Sequence(ValuesDeserializer::new(Dson::duplicate_all(values)))),
        _ => Err(Error::message(missing)),
    }
}

impl Deserializer {
    /// A deserializer of `dson`.
    pub fn from_dson(dson: Dson) -> (r: Deserializer)
        ensures
            r@ == dson@,
    {
        Deserializer(dson)
    }

    /// Reads the value, with its wrappers taken off, as whatever it is; the
    /// wrappers stay off.
    pub fn deserialize_any(&mut self) -> (r: Result<Visit, Error>)
        ensures
            final(self)@ == peel(old(self)@),
            outcome(r) == visit_any(old(self)@),
    {
        unwrap(&mut self.0);
        proof {
            crate::laws::lemma_peel_idempotent(old(self)@);
            reveal_with_fuel(dson_view, 2);
        }
        match &self.0 {
            Dson::Literal(Literal::Integer(value)) => Ok(Visit::I64(*value)),
            Dson::Literal(Literal::Float(bits)) => Ok(Visit::F64(*bits)),
            Dson::Literal(Literal::Rational(a, b)) => Ok(Visit::Rational(*a, *b)),
            Dson::Literal(Literal::String(string)) => Ok(Visit::String(string.clone())),
            Dson::Literal(Literal::Hole) => Err(Error::message("Hole is not allowed")),
            Dson::Product(values) => {
                if values.len() == 0 {
                    Ok(Visit::Unit)
                } else {
                    Err(Error::message("Unexpected product"))
                }
            },
            Dson::Vector(values) => Ok(Visit::Sequence(ValuesDeserializer::new(Dson::duplicate_all(values)))),
            Dson::Mapping(entries) => Ok(Visit::Mapping(MapDeserializer::new(MapElem::duplicate_all(entries)))),
            _ => {
                proof { crate::laws::lemma_peel_is_bare(old(self)@); }
                Err(Error::message(""))
            },
        }
    }

    /// Reads the value as a boolean.
    pub fn deserialize_bool(&self) -> (r: Result<Visit, Error>)
        ensures
            outcome(r) == visit_bool(self@),
    {
        proof { reveal_with_fuel(dson_view, 2); }
        match &self.0 {
            Dson::Labeled { label, .. } => match &**label {
                Dson::Literal(Literal::String(s)) => {
                    if s.eq(&String::from_str("true")) {
                        Ok(Visit::Bool(true))
                    } else if s.eq(&String::from_str("false")) {
                        Ok(Visit::Bool(false))
                    } else {
                        Err(Error::message("Expected bool"))
                    }
                },
                _ => Err(Error::message("Expected bool")),
            },
            _ => Err(Error::message("Expected bool")),
        }
    }

    /// Reads the value as an option.
    pub fn deserialize_option(&self) -> (r: Visit)
        ensures
            r@ == visit_option(self@),
    {
        proof { reveal_with_fuel(dson_view, 2); }
        match &self.0 {
            Dson::Product(values) => {
                if values.len() == 0 {
                    Visit::Absent
                } else {
                    Visit::Present
                }
            },
            _ => Visit::Present,
        }
    }

    /// Reads the value as a unit struct.
    pub fn deserialize_unit_struct(&self) -> (r: Result<Visit, Error>)
        ensures
            outcome(r) == visit_unit_struct(self@),
    {
        proof { reveal_with_fuel(dson_view, 2); }
        match &self.0 {
            Dson::Product(values) => {
                if values.len() == 0 {
                    Ok(Visit::Unit)
                } else {
                    Err(Error::message("Expected unit"))
                }
            },
            _ => Err(Error::message("Expected unit")),
        }
    }

    /// Reads the value, a product of labeled members, as a map.
    pub fn deserialize_map(&self) -> (r: Result<Visit, Error>)
        ensures
            outcome(r) == visit_map(self@),
    {
        product_entries(&self.0, "Expected product")
    }

    /// Reads the value, a labeled value, as an enum variant.
    pub fn deserialize_enum(&self) -> (r: Result<Visit, Error>)
        ensures
            outcome(r) == visit_enum(self@),
    {
        proof { reveal_with_fuel(dson_view, 2); }
        match &self.0 {
            Dson::Labeled { label, expr } => match &**label {
                Dson::Literal(Literal::String(variant)) => Ok(
                    Visit::Enum(EnumDeserializer(variant.clone(), (**expr).duplicate())),
                ),
                _ => Err(Error::message("Expected string")),
            },
            _ => Err(Error::message("Expected label")),
        }
    }

    /// Reads the value as a newtype struct: as whatever the value, with its
    /// wrappers taken off, is.
    pub fn deserialize_newtype_struct(&mut self) -> (r: Result<Visit, Error>)
        ensures
            final(self)@ == peel(old(self)@),
            outcome(r) == visit_any(old(self)@),
    {
        unwrap(&mut self.0);
        proof { crate::laws::lemma_peel_idempotent(old(self)@); }
        self.deserialize_any()
    }

    /// Reads the value, a product, as a tuple.
    pub fn deserialize_tuple(&self) -> (r: Result<Visit, Error>)
        ensures
            outcome(r) == visit_tuple(self@),
    {
        product_values(&self.0, "Expected product")
    }

    /// Reads the value, with its wrappers taken off, as a tuple struct; the
    /// wrappers stay off.
    pub fn deserialize_tuple_struct(&mut self) -> (r: Result<Visit, Error>)
        ensures
            final(self)@ == peel(old(self)@),
            outcome(r) == visit_tuple_struct(old(self)@),
    {
        unwrap(&mut self.0);
        product_values(&self.0, "Expected set")
    }

    /// Reads the value, with its wrappers taken off, as a struct; the
    /// wrappers stay off.
    pub fn deserialize_struct(&mut self) -> (r: Result<Visit, Error>)
        ensures
            final(self)@ == peel(old(self)@),
            outcome(r) == visit_struct(old(self)@),
    {
        unwrap(&mut self.0);
        product_entries(&self.0, "Expected set")
    }

    /// The content of a unit variant, which is not read.
    pub fn unit_variant(self) -> (r: Result<(), Error>)
        ensures
            r is Ok,
    {
        Ok(())
    }

    /// The deserializer of a newtype variant's content: this one.
    pub fn newtype_variant(self) -> (r: Deserializer)
        ensures
            r@ == self@,
    {
        Deserializer(self.0)
    }

    /// Reads a tuple variant's content as a tuple.
    pub fn tuple_variant(self) -> (r: Result<Visit, Error>)
        ensures
            outcome(r) == visit_tuple(self@),
    {
        Deserializer(self.0).deserialize_tuple()
    }

    /// Reads a struct variant's content as a struct.
    pub fn struct_variant(self) -> (r: Result<Visit, Error>)
        ensures
            outcome(r) == visit_struct(self@),
    {
        let mut content = Deserializer(self.0);
        content.deserialize_struct()
    }
}

/// The elements of a sequence, handed out first to last.
#[derive(Debug)]
pub struct ValuesDeserializer(Vec<Dson>);

impl View for ValuesDeserializer {
    type V = Seq<DsonView>;

    /// The elements not handed out yet, in the order they will be.
    closed spec fn view(&self) -> Seq<DsonView> {
        Seq::new(self.0@.len(), |i: int| self.0@[self.0@.len() - 1 - i]@)
    }
}

impl ValuesDeserializer {
    /// The elements `values`, to be handed out first to last.
    pub fn new(values: Vec<Dson>) -> (r: ValuesDeserializer)
        ensures
            r@ == dsons_view(values),
    {
        let ghost all = values@;
        let mut rest = values;
        let mut stack: Vec<Dson> = Vec::new();
        while rest.len() > 0
            invariant
                rest@ == all.take(all.len() - stack@.len()),
                stack@.len() <= all.len(),
                forall|j: int| 0 <= j < stack@.len() ==> #[trigger] stack@[j] == all[all.len() - 1 - j],
            decreases rest@.len(),
        {
            let last = rest.pop().unwrap();
            stack.push(last);
            assert(rest@ =~= all.take(all.len() - stack@.len()));
        }
        let r = ValuesDeserializer(stack);
        assert(r@ =~= dsons_view(values));
        r
    }

    /// Hands out the next element, if any is left.
    pub fn next_element(&mut self) -> (r: Option<Deserializer>)
        ensures
            old(self)@.len() == 0 ==> r is None && final(self)@ == old(self)@,
            old(self)@.len() > 0 ==> r is Some && r->Some_0@ == old(self)@[0] && final(self)@
                == old(self)@.drop_first(),
    {
        let popped = self.0.pop();
        proof {
            if old(self)@.len() > 0 {
                assert(self@ =~= old(self)@.drop_first());
            }
        }
        match popped {
            Some(dson) => Some(Deserializer::from_dson(dson)),
            None => None,
        }
    }
}

/// The entries of a map, handed out first to last, each key before its value.
#[derive(Debug)]
pub struct MapDeserializer(Vec<MapElem>);

impl View for MapDeserializer {
    type V = Seq<ElemView>;

    /// The entries whose values are not handed out yet, in order.
    closed spec fn view(&self) -> Seq<ElemView> {
        Seq::new(self.0@.len(), |i: int| self.0@[self.0@.len() - 1 - i]@)
    }
}

impl MapDeserializer {
    /// The entries `values`, to be handed out first to last.
    pub fn new(values: Vec<MapElem>) -> (r: MapDeserializer)
        ensures
            r@ == elems_view(values),
    {
        let ghost all = values@;
        let mut rest = values;
        let mut stack: Vec<MapElem> = Vec::new();
        while rest.len() > 0
            invariant
                rest@ == all.take(all.len() - stack@.len()),
                stack@.len() <= all.len(),
                forall|j: int| 0 <= j < stack@.len() ==> #[trigger] stack@[j] == all[all.len() - 1 - j],
            decreases rest@.len(),
        {
            let last = rest.pop().unwrap();
            stack.push(last);
            assert(rest@ =~= all.take(all.len() - stack@.len()));
        }
        let r = MapDeserializer(stack);
        assert(r@ =~= elems_view(values));
        r
    }

    /// Whether every entry has been handed out.
    pub fn is_empty(&self) -> (r: bool)
        ensures
            r == (self@.len() == 0),
    {
        self.0.len() == 0
    }

    /// Hands out the key of the next entry, if any is left; the entry stays.
    pub fn next_key(&self) -> (r: Option<Deserializer>)
        ensures
            self@.len() == 0 ==> r is None,
            self@.len() > 0 ==> r is Some && r->Some_0@ == self@[0].key,
    {
        let n = self.0.len();
        if n == 0 {
            None
        } else {
            Some(Deserializer::from_dson(self.0[n - 1].key.duplicate()))
        }
    }

    /// Hands out the value of the next entry, which then is done with.
    pub fn next_value(&mut self) -> (r: Deserializer)
        requires
            old(self)@.len() > 0,
        ensures
            r@ == old(self)@[0].value,
            final(self)@ == old(self)@.drop_first(),
    {
        let elem = self.0.pop().unwrap();
        assert(self@ =~= old(self)@.drop_first());
        Deserializer::from_dson(elem.value)
    }
}

/// A variant of an enum: its name and its content.
#[derive(Debug)]
pub struct EnumDeserializer(String, Dson);

impl View for EnumDeserializer {
    type V = (Seq<char>, DsonView);

    closed spec fn view(&self) -> (Seq<char>, DsonView) {
        (self.0@, self.1@)
    }
}

impl EnumDeserializer {
    /// The deserializers of the variant's name, a string literal, and of its
    /// content.
    pub fn variant_seed(self) -> (r: (Deserializer, Deserializer))
        ensures
            r.0@ == string_literal(self@.0),
            r.1@ == self@.1,
    {
        (
            Deserializer::from_dson(Dson::Literal(Literal::String(self.0))),
            Deserializer::from_dson(self.1),
        )
    }
}

} // verus!
