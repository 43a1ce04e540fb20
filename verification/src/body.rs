use vstd::prelude::*;

use crate::registry::TypePath;
use crate::span::Span;

verus! {

/// Identifier of the definition that owns a compiled body. The host assigns
/// it; the analysis only carries it along, for example when asking the host
/// for the owner's type-check results.
#[derive(Clone, Copy, Debug, PartialEq, Eq, Structural)]
pub struct DefId {
    pub index: u32,
}

/// The flavours of asynchronous execution a body can have. The analysis
/// treats all three uniformly: each one suspends and resumes cooperatively.
#[derive(Clone, Copy, Debug, PartialEq, Eq, Structural)]
pub enum AsyncBodyKind {
    Function,
    Closure,
    Block,
}

/// How a body that does not run to completion on one stack frame executes:
/// as a plain generator, or asynchronously in one of the three flavours.
/// A body that is no generator at all carries no `GeneratorKind` (see
/// [`Body::generator_kind`]).
#[derive(Clone, Copy, Debug, PartialEq, Eq, Structural)]
pub enum GeneratorKind {
    Plain,
    Async(AsyncBodyKind),
}

/// The nominal type of a value, as the host's type resolver reports it:
/// either an algebraic (struct-like) type with its fully qualified path, or
/// something that has no such path (a reference, a primitive, a closure
/// type). Only nominal types can ever match the registry.
#[derive(Clone, Debug, PartialEq, Eq)]
pub enum TypeDescriptor {
    Nominal(TypePath),
    NonNominal,
}

impl View for TypeDescriptor {
    type V = Option<Seq<Seq<char>>>;

    open spec fn view(&self) -> Option<Seq<Seq<char>>> {
        match self {
            TypeDescriptor::Nominal(path) => Some(path@),
            TypeDescriptor::NonNominal => None,
        }
    }
}

impl DeepView for TypeDescriptor {
    type V = Option<Seq<Seq<char>>>;

    open spec fn deep_view(&self) -> Option<Seq<Seq<char>>> {
        self.view()
    }
}

/// The mathematical content of one interior value: its nominal path (if it
/// has one), its declaration span, and the optional span of the scope it is
/// held through.
pub ghost struct InteriorValueView {
    pub ty: Option<Seq<Seq<char>>>,
    pub span: Span,
    pub scope_span: Option<Span>,
}

/// A value whose type is part of an asynchronous body's persisted state
/// because its lifetime spans a suspension point. The host's type checker
/// records these; the analysis reads them and never invents or drops one.
///
/// `span` is where the value is declared; `scope_span`, when the type checker
/// recorded one, covers every suspension point the value is held across.
#[derive(Clone, Debug, PartialEq, Eq)]
pub struct InteriorValue {
    pub ty: TypeDescriptor,
    pub span: Span,
    pub scope_span: Option<Span>,
}

impl View for InteriorValue {
    type V = InteriorValueView;

    open spec fn view(&self) -> InteriorValueView {
        InteriorValueView { ty: self.ty@, span: self.span, scope_span: self.scope_span }
    }
}

impl DeepView for InteriorValue {
    type V = InteriorValueView;

    open spec fn deep_view(&self) -> InteriorValueView {
        self.view()
    }
}

/// The part of the host's type-check results the analysis reads: the values
/// recorded as interior to a generator, in the order the type checker listed
/// them. That order is preserved all the way into the diagnostics.
#[derive(Clone, Debug, PartialEq, Eq)]
pub struct TypeckResults {
    pub generator_interior_types: Vec<InteriorValue>,
}

/// A compiled body, as the host hands it to the analysis: the definition that
/// owns it, the span of its expression, and its generator classification
/// (`None` for an ordinary synchronous body).
#[derive(Clone, Copy, Debug, PartialEq, Eq, Structural)]
pub struct Body {
    pub owner: DefId,
    pub span: Span,
    pub generator_kind: Option<GeneratorKind>,
}

/// A body is in scope for the analysis exactly when it executes
/// asynchronously, whatever the flavour.
pub open spec fn is_async_body(kind: Option<GeneratorKind>) -> bool {
    match kind {
        Some(GeneratorKind::Async(_)) => true,
        _ => false,
    }
}

} // verus!
