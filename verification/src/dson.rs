//! The DSON data model: literals, products, vectors, maps, and the wrappers
//! (attributes, labels, comments, type ascriptions) that can surround a value.

use vstd::prelude::*;

verus! {

/// A DSON literal. A floating-point literal is held by its IEEE-754 bit
/// pattern (`f64::to_bits`), so that every literal compares exactly.
#[derive(Clone, Debug, PartialEq, Eq)]
pub enum Literal {
    Hole,
    Integer(i64),
    Rational(i64, i64),
    Float(u64),
    String(String),
}

/// The type that a `Dson::Typed` value is ascribed.
#[derive(Debug, PartialEq, Eq)]
pub enum Type {
    Number,
    String,
    Product(Vec<Type>),
    Sum(Vec<Type>),
    Vector(Box<Type>),
    Mapping { key: Box<Type>, value: Box<Type> },
    Labeled { label: String, item: Box<Type> },
    Brand { brand: String, item: Box<Type> },
}

/// One entry of a DSON map.
#[derive(Debug, PartialEq, Eq)]
pub struct MapElem {
    pub key: Dson,
    pub value: Dson,
}

/// A DSON value.
#[derive(Debug, PartialEq, Eq)]
pub enum Dson {
    Literal(Literal),
    Product(Vec<Dson>),
    Vector(Vec<Dson>),
    Mapping(Vec<MapElem>),
    Attributed { attr: Box<Dson>, expr: Box<Dson> },
    Labeled { label: Box<Dson>, expr: Box<Dson> },
    Typed { ty: Type, expr: Box<Dson> },
    Comment { text: String, expr: Box<Dson> },
}

/// The mathematical value of a `Type`.
pub enum TypeView {
    Number,
    String,
    Product(Seq<TypeView>),
    Sum(Seq<TypeView>),
    Vector(Box<TypeView>),
    Mapping { key: Box<TypeView>, value: Box<TypeView> },
    Labeled { label: Seq<char>, item: Box<TypeView> },
    Brand { brand: Seq<char>, item: Box<TypeView> },
}

/// The mathematical value of a `Literal`.
pub enum LiteralView {
    Hole,
    Integer(i64),
    Rational(i64, i64),
    Float(u64),
    String(Seq<char>),
}

/// The mathematical value of a `Dson`: a tree whose sequences are `Seq`s and
/// whose strings are sequences of characters.
pub enum DsonView {
    Literal(LiteralView),
    Product(Seq<DsonView>),
    Vector(Seq<DsonView>),
    Mapping(Seq<ElemView>),
    Attributed { attr: Box<DsonView>, expr: Box<DsonView> },
    Labeled { label: Box<DsonView>, expr: Box<DsonView> },
    Typed { ty: TypeView, expr: Box<DsonView> },
    Comment { text: Seq<char>, expr: Box<DsonView> },
}

/// The mathematical value of a `MapElem`.
pub struct ElemView {
    pub key: DsonView,
    pub value: DsonView,
}

pub open spec fn types_view(items: Vec<Type>) -> Seq<TypeView>
    decreases items,
{
    Seq::new(
        items@.len(),
        |i: int|
            if 0 <= i < items@.len() {
                type_view(items@[i])
            } else {
                TypeView::Number
            },
    )
}

pub open spec fn type_view(t: Type) -> TypeView
    decreases t,
{
    match t {
        Type::Number => TypeView::Number,
        Type::String => TypeView::String,
        Type::Product(items) => TypeView::Product(types_view(items)),
        Type::Sum(items) => TypeView::Sum(types_view(items)),
        Type::Vector(item) => TypeView::Vector(Box::new(type_view(*item))),
        Type::Mapping { key, value } => TypeView::Mapping {
            key: Box::new(type_view(*key)),
            value: Box::new(type_view(*value)),
        },
        Type::Labeled { label, item } => TypeView::Labeled {
            label: label@,
            item: Box::new(type_view(*item)),
        },
        Type::Brand { brand, item } => TypeView::Brand {
            brand: brand@,
            item: Box::new(type_view(*item)),
        },
    }
}

impl View for Type {
    type V = TypeView;

    open spec fn view(&self) -> TypeView {
        type_view(*self)
    }
}

pub open spec fn literal_view(l: Literal) -> LiteralView {
    match l {
        Literal::Hole => LiteralView::Hole,
        Literal::Integer(i) => LiteralView::Integer(i),
        Literal::Rational(a, b) => LiteralView::Rational(a, b),
        Literal::Float(bits) => LiteralView::Float(bits),
        Literal::String(s) => LiteralView::String(s@),
    }
}

impl View for Literal {
    type V = LiteralView;

    open spec fn view(&self) -> LiteralView {
        literal_view(*self)
    }
}

pub open spec fn dsons_view(items: Vec<Dson>) -> Seq<DsonView>
    decreases items,
{
    Seq::new(
        items@.len(),
        |i: int|
            if 0 <= i < items@.len() {
                dson_view(items@[i])
            } else {
                DsonView::Product(Seq::empty())
            },
    )
}

pub open spec fn elems_view(items: Vec<MapElem>) -> Seq<ElemView>
    decreases items,
{
    Seq::new(
        items@.len(),
        |i: int|
            if 0 <= i < items@.len() {
                elem_view(items@[i])
            } else {
                ElemView { key: DsonView::Product(Seq::empty()), value: DsonView::Product(Seq::empty()) }
            },
    )
}

pub open spec fn elem_view(e: MapElem) -> ElemView
    decreases e,
{
    ElemView { key: dson_view(e.key), value: dson_view(e.value) }
}

pub open spec fn dson_view(d: Dson) -> DsonView
    decreases d,
{
    match d {
        Dson::Literal(l) => DsonView::Literal(l@),
        Dson::Product(items) => DsonView::Product(dsons_view(items)),
        Dson::Vector(items) => DsonView::Vector(dsons_view(items)),
        Dson::Mapping(items) => DsonView::Mapping(elems_view(items)),
        Dson::Attributed { attr, expr } => DsonView::Attributed {
            attr: Box::new(dson_view(*attr)),
            expr: Box::new(dson_view(*expr)),
        },
        Dson::Labeled { label, expr } => DsonView::Labeled {
            label: Box::new(dson_view(*label)),
            expr: Box::new(dson_view(*expr)),
        },
        Dson::Typed { ty, expr } => DsonView::Typed { ty: ty@, expr: Box::new(dson_view(*expr)) },
        Dson::Comment { text, expr } => DsonView::Comment {
            text: text@,
            expr: Box::new(dson_view(*expr)),
        },
    }
}

impl View for Dson {
    type V = DsonView;

    open spec fn view(&self) -> DsonView {
        dson_view(*self)
    }
}

impl View for MapElem {
    type V = ElemView;

    open spec fn view(&self) -> ElemView {
        elem_view(*self)
    }
}

/// The view of a vector of values is the sequence of their views.
pub broadcast proof fn lemma_dsons_view(items: Vec<Dson>)
    ensures
        #[trigger] dsons_view(items).len() == items@.len(),
        forall|i: int| 0 <= i < items@.len() ==> dsons_view(items)[i] == #[trigger] items@[i]@,
{
}

/// The view of a vector of entries is the sequence of their views.
pub broadcast proof fn lemma_elems_view(items: Vec<MapElem>)
    ensures
        #[trigger] elems_view(items).len() == items@.len(),
        forall|i: int| 0 <= i < items@.len() ==> elems_view(items)[i] == #[trigger] items@[i]@,
{
}

/// Whether `d` only surrounds another value: an attribute, a label, a type
/// ascription or a comment.
pub open spec fn is_wrapper(d: DsonView) -> bool {
    ||| d is Attributed
    ||| d is Labeled
    ||| d is Typed
    ||| d is Comment
}

/// The value that `d` surrounds, with every wrapper taken off.
pub open spec fn peel(d: DsonView) -> DsonView
    decreases d,
{
    match d {
        DsonView::Attributed { expr, .. } => peel(*expr),
        DsonView::Labeled { expr, .. } => peel(*expr),
        DsonView::Typed { expr, .. } => peel(*expr),
        DsonView::Comment { expr, .. } => peel(*expr),
        _ => d,
    }
}

impl Literal {
    /// A copy of this literal.
    pub fn duplicate(&self) -> (r: Literal)
        ensures
            r == *self,
    {
        match self {
            Literal::Hole => Literal::Hole,
            Literal::Integer(i) => Literal::Integer(*i),
            Literal::Rational(a, b) => Literal::Rational(*a, *b),
            Literal::Float(bits) => Literal::Float(*bits),
            Literal::String(s) => Literal::String(s.clone()),
        }
    }
}

impl Type {
    /// A copy of this type.
    pub fn duplicate(&self) -> (r: Type)
        ensures
            r@ == self@,
        decreases self,
    {
        match self {
            Type::Number => Type::Number,
            Type::String => Type::String,
            Type::Product(items) => {
                let copy = Type::duplicate_all(items);
                proof { Type::lemma_same_views(copy, *items); }
                Type::Product(copy)
            },
            Type::Sum(items) => {
                let copy = Type::duplicate_all(items);
                proof { Type::lemma_same_views(copy, *items); }
                Type::Sum(copy)
            },
            Type::Vector(item) => Type::Vector(Box::new((**item).duplicate())),
            Type::Mapping { key, value } => Type::Mapping {
                key: Box::new((**key).duplicate()),
                value: Box::new((**value).duplicate()),
            },
            Type::Labeled { label, item } => Type::Labeled {
                label: label.clone(),
                item: Box::new((**item).duplicate()),
            },
            Type::Brand { brand, item } => Type::Brand {
                brand: brand.clone(),
                item: Box::new((**item).duplicate()),
            },
        }
    }

    proof fn lemma_same_views(a: Vec<Type>, b: Vec<Type>)
        requires
            a@.len() == b@.len(),
            forall|i: int| 0 <= i < a@.len() ==> #[trigger] a@[i]@ == b@[i]@,
        ensures
            types_view(a) == types_view(b),
    {
        assert forall|i: int| 0 <= i < a@.len() implies types_view(a)[i] == types_view(b)[i] by {
            assert(a@[i]@ == b@[i]@);
        }
        assert(types_view(a) =~= types_view(b));
    }

    fn duplicate_all(items: &Vec<Type>) -> (r: Vec<Type>)
        ensures
            r@.len() == items@.len(),
            forall|i: int| 0 <= i < items@.len() ==> #[trigger] r@[i]@ == items@[i]@,
        decreases items,
    {
        let mut out: Vec<Type> = Vec::new();
        let mut i: usize = 0;
        while i < items.len()
            invariant
                i <= items@.len(),
                out@.len() == i,
                forall|j: int| 0 <= j < i ==> #[trigger] out@[j]@ == items@[j]@,
            decreases items@.len() - i,
        {
            proof {
                assert(decreases_to!(items => items@[i as int]));
            }
            out.push(items[i].duplicate());
            i += 1;
        }
        out
    }
}

impl Dson {
    /// A copy of this value.
    pub fn duplicate(&self) -> (r: Dson)
        ensures
            r@ == self@,
        decreases self,
    {
        match self {
            Dson::Literal(l) => Dson::Literal(l.duplicate()),
            Dson::Product(items) => {
                let copy = Dson::duplicate_all(items);
                proof { Dson::lemma_same_views(copy, *items); }
                Dson::Product(copy)
            },
            Dson::Vector(items) => {
                let copy = Dson::duplicate_all(items);
                proof { Dson::lemma_same_views(copy, *items); }
                Dson::Vector(copy)
            },
            Dson::Mapping(items) => {
                let copy = MapElem::duplicate_all(items);
                proof { MapElem::lemma_same_views(copy, *items); }
                Dson::Mapping(copy)
            },
            Dson::Attributed { attr, expr } => Dson::Attributed {
                attr: Box::new((**attr).duplicate()),
                expr: Box::new((**expr).duplicate()),
            },
            Dson::Labeled { label, expr } => Dson::Labeled {
                label: Box::new((**label).duplicate()),
                expr: Box::new((**expr).duplicate()),
            },
            Dson::Typed { ty, expr } => Dson::Typed {
                ty: ty.duplicate(),
                expr: Box::new((**expr).duplicate()),
            },
            Dson::Comment { text, expr } => Dson::Comment {
                text: text.clone(),
                expr: Box::new((**expr).duplicate()),
            },
        }
    }

    proof fn lemma_same_views(a: Vec<Dson>, b: Vec<Dson>)
        requires
            a@.len() == b@.len(),
            forall|i: int| 0 <= i < a@.len() ==> #[trigger] a@[i]@ == b@[i]@,
        ensures
            dsons_view(a) == dsons_view(b),
    {
        assert forall|i: int| 0 <= i < a@.len() implies dsons_view(a)[i] == dsons_view(b)[i] by {
            assert(a@[i]@ == b@[i]@);
        }
        assert(dsons_view(a) =~= dsons_view(b));
    }

    /// Copies of all of `items`, in order.
    pub fn duplicate_all(items: &Vec<Dson>) -> (r: Vec<Dson>)
        ensures
            dsons_view(r) == dsons_view(*items),
            r@.len() == items@.len(),
            forall|i: int| 0 <= i < items@.len() ==> #[trigger] r@[i]@ == items@[i]@,
        decreases items,
    {
        let mut out: Vec<Dson> = Vec::new();
        let mut i: usize = 0;
        while i < items.len()
            invariant
                i <= items@.len(),
                out@.len() == i,
                forall|j: int| 0 <= j < i ==> #[trigger] out@[j]@ == items@[j]@,
            decreases items@.len() - i,
        {
            proof {
                assert(decreases_to!(items => items@[i as int]));
            }
            out.push(items[i].duplicate());
            i += 1;
        }
        proof { Dson::lemma_same_views(out, *items); }
        out
    }
}

impl MapElem {
    /// A copy of this entry.
    pub fn duplicate(&self) -> (r: MapElem)
        ensures
            r@ == self@,
        decreases self,
    {
        MapElem { key: self.key.duplicate(), value: self.value.duplicate() }
    }

    proof fn lemma_same_views(a: Vec<MapElem>, b: Vec<MapElem>)
        requires
            a@.len() == b@.len(),
            forall|i: int| 0 <= i < a@.len() ==> #[trigger] a@[i]@ == b@[i]@,
        ensures
            elems_view(a) == elems_view(b),
    {
        assert forall|i: int| 0 <= i < a@.len() implies elems_view(a)[i] == elems_view(b)[i] by {
            assert(a@[i]@ == b@[i]@);
        }
        assert(elems_view(a) =~= elems_view(b));
    }

    /// Copies of all of `items`, in order.
    pub fn duplicate_all(items: &Vec<MapElem>) -> (r: Vec<MapElem>)
        ensures
            elems_view(r) == elems_view(*items),
            r@.len() == items@.len(),
            forall|i: int| 0 <= i < items@.len() ==> #[trigger] r@[i]@ == items@[i]@,
        decreases items,
    {
        let mut out: Vec<MapElem> = Vec::new();
        let mut i: usize = 0;
        while i < items.len()
            invariant
                i <= items@.len(),
                out@.len() == i,
                forall|j: int| 0 <= j < i ==> #[trigger] out@[j]@ == items@[j]@,
            decreases items@.len() - i,
        {
            proof {
                assert(decreases_to!(items => items@[i as int]));
            }
            out.push(items[i].duplicate());
            i += 1;
        }
        proof { MapElem::lemma_same_views(out, *items); }
        out
    }
}

} // verus!
