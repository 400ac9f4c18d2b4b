//! The contextualized error container and the closed classification of
//! failure origins.
//!
//! A raw failure is converted once, at its origin, into an [`Error`]: the
//! classification is fixed and the context stack is seeded with a textual
//! dump of the raw failure. Every layer that catches and re-propagates the
//! error appends one description of its own stage via [`Error::add_context`]
//! or, as a combinator on fallible results, via [`AddContext::add_context`].

use vstd::prelude::*;

use crate::csv_support::csv_error_dump;
use crate::render::{lemma_render_single, render_context, rendered};

verus! {

/// One free-text description of a processing stage.
pub type Context = String;

/// A failure reported by the customer-record builder, reduced to the
/// description it carries. The builder itself lives outside this layer;
/// only its failure text travels through the error path.
#[derive(Debug)]
pub struct AbcCustomerBuilderError {
    pub message: String,
}

/// The closed classification of why a failure occurred, independent of how
/// much context has been attached. Never extended dynamically.
#[derive(Debug)]
pub enum ErrorKind {
    /// Record construction failed; carries the underlying builder error and
    /// a static identifier for the stage or record that triggered it.
    BuilderFailure { inner: AbcCustomerBuilderError, record: &'static str },
    /// A domain value (payment terms) could not be parsed from its textual
    /// representation; carries a description of the bad input.
    ParseTermsFailure(Context),
    /// The underlying record-stream reader reported a failure.
    SourceFailure(csv::Error),
}

/// One [`ErrorKind`] plus an ordered stack of context entries, in append
/// order: the entry pushed last is the most recent stage, and is rendered
/// first.
#[derive(Debug)]
pub struct Error {
    pub kind: ErrorKind,
    pub context: Vec<Context>,
}

impl Error {
    /// Consumes the error and appends `ctx` to the end of the context
    /// stack. The wrapped kind and all prior context are unchanged.
    pub fn add_context(self, ctx: &str) -> (r: Error)
        ensures
            r.kind == self.kind,
            r.context.deep_view() == self.context.deep_view().push(ctx@),
    {
        let mut context = self.context;
        context.push(ctx.to_owned());
        proof {
            assert(context.deep_view() =~= self.context.deep_view().push(ctx@));
        }
        Error { kind: self.kind, context }
    }

    /// Renders the error for display: the context entries in reverse order
    /// of appending, joined with `" -> "`, or `"no context"` if the stack
    /// is empty.
    pub fn render(&self) -> (r: String)
        ensures
            r@ == rendered(self.context.deep_view()),
    {
        render_context(&self.context)
    }

    /// Converts a raw failure of the CSV reading library. Total: every such
    /// failure maps to [`ErrorKind::SourceFailure`], and the context stack
    /// is seeded with one entry, the non-empty textual dump of the raw
    /// failure.
    pub fn from_csv(raw: csv::Error) -> (r: Error)
        ensures
            r.kind matches ErrorKind::SourceFailure(inner) && inner == raw,
            r.context.deep_view().len() == 1,
            r.context.deep_view()[0].len() > 0,
    {
        let dump = csv_error_dump(&raw);
        let context = vec![dump];
        let r = Error { kind: ErrorKind::SourceFailure(raw), context };
        proof {
            assert(r.context.deep_view() =~= seq![r.context@[0]@]);
        }
        r
    }

    /// Converts a failure of the record builder together with the static
    /// identifier of the stage that triggered it. Total: the kind is
    /// [`ErrorKind::BuilderFailure`] over exactly the given pair, and the
    /// context stack is seeded with the builder failure's description
    /// followed by the stage identifier.
    pub fn from_builder(inner: AbcCustomerBuilderError, record: &'static str) -> (r: Error)
        ensures
            r.kind matches ErrorKind::BuilderFailure { inner: i, record: rec } && i == inner
                && rec == record,
            r.context.deep_view() == seq![inner.message@, record@],
    {
        let message = inner.message.clone();
        let mut context = Vec::new();
        context.push(message);
        context.push(record.to_owned());
        proof {
            assert(context.deep_view() =~= seq![inner.message@, record@]);
        }
        Error { kind: ErrorKind::BuilderFailure { inner, record }, context }
    }

    /// Wraps a domain-value parse failure. The description of the bad input
    /// is assembled by the caller from domain knowledge; it becomes both
    /// the payload of [`ErrorKind::ParseTermsFailure`] and the single
    /// seeded context entry.
    pub fn from_parse_terms(description: String) -> (r: Error)
        ensures
            r.kind matches ErrorKind::ParseTermsFailure(d) && d == description,
            r.context.deep_view() == seq![description@],
    {
        let seed = description.clone();
        let context = vec![seed];
        let r = Error { kind: ErrorKind::ParseTermsFailure(description), context };
        proof {
            assert(r.context.deep_view() =~= seq![description@]);
        }
        r
    }
}

/// A raw source-library failure, freshly converted and given no further
/// context, renders as exactly its seeded dump, which is non-empty. The
/// hypotheses are what [`Error::from_csv`] ensures of every result.
pub proof fn lemma_fresh_conversion_renders_the_dump(e: Error)
    requires
        e.context.deep_view().len() == 1,
        e.context.deep_view()[0].len() > 0,
    ensures
        rendered(e.context.deep_view()) == e.context.deep_view()[0],
        rendered(e.context.deep_view()).len() > 0,
{
    lemma_render_single(e.context.deep_view());
}

/// The chaining combinator over fallible results: a success passes through
/// unchanged, a failure gains one more context entry.
pub trait AddContext<T>: Sized {
    /// What [`AddContext::add_context`] guarantees of its result.
    spec fn add_context_post(self, ctx: Seq<char>, r: Result<T, Error>) -> bool;

    /// If `self` is a success, returns the value unchanged. If `self` is a
    /// failure, appends `ctx` to the failure's context stack and returns
    /// the failure, its kind and prior context untouched.
    fn add_context(self, ctx: &str) -> (r: Result<T, Error>)
        ensures
            self.add_context_post(ctx@, r),
    ;
}

impl<T> AddContext<T> for Result<T, Error> {
    open spec fn add_context_post(self, ctx: Seq<char>, r: Result<T, Error>) -> bool {
        match self {
            Ok(v) => r matches Ok(rv) && rv == v,
            Err(e) => r matches Err(re) && re.kind == e.kind && re.context.deep_view()
                == e.context.deep_view().push(ctx),
        }
    }

    fn add_context(self, ctx: &str) -> (r: Result<T, Error>) {
        match self {
            Ok(d) => Ok(d),
            Err(e) => Err(e.add_context(ctx)),
        }
    }
}

} // verus!
