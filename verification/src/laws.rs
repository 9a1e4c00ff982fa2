//! Laws of evaluation: what holds of every expression, every entry and
//! every context.

use vstd::prelude::*;
use crate::ast::{ExprView, TestView};
use crate::entry::{ContextView, EntryView, ReferenceView, answer};
use crate::grammar::compile;
use crate::parser::ParseErrorView;
use crate::semantics::{holds, needs};
use crate::text::{is_space, words};

verus! {

/// Negating twice changes nothing: `Not(Not(e))` holds of an entry exactly
/// where `e` does, and consults the same reference files.
pub proof fn lemma_double_negation(e: ExprView, entry: EntryView, ctx: ContextView)
    ensures
        holds(ExprView::Not(Box::new(ExprView::Not(Box::new(e)))), entry, ctx) == holds(
            e,
            entry,
            ctx,
        ),
        needs(ExprView::Not(Box::new(ExprView::Not(Box::new(e)))), entry, ctx) == needs(
            e,
            entry,
            ctx,
        ),
{
    let once = ExprView::Not(Box::new(e));
    assert(holds(once, entry, ctx) == !holds(e, entry, ctx));
    assert(needs(once, entry, ctx) == needs(e, entry, ctx));
}

/// `And` is decided by a left operand that fails: the conjunction fails
/// whatever the right operand is, and its evaluation consults no reference
/// file but those that the left operand consults.
pub proof fn lemma_and_short_circuits(
    left: ExprView,
    right: ExprView,
    entry: EntryView,
    ctx: ContextView,
)
    requires
        !holds(left, entry, ctx),
    ensures
        !holds(ExprView::And(Box::new(left), Box::new(right)), entry, ctx),
        needs(ExprView::And(Box::new(left), Box::new(right)), entry, ctx) == needs(
            left,
            entry,
            ctx,
        ),
{
}

/// `Or` is decided by a left operand that holds: the disjunction holds
/// whatever the right operand is, and its evaluation consults no reference
/// file but those that the left operand consults.
pub proof fn lemma_or_short_circuits(
    left: ExprView,
    right: ExprView,
    entry: EntryView,
    ctx: ContextView,
)
    requires
        holds(left, entry, ctx),
    ensures
        holds(ExprView::Or(Box::new(left), Box::new(right)), entry, ctx),
        needs(ExprView::Or(Box::new(left), Box::new(right)), entry, ctx) == needs(
            left,
            entry,
            ctx,
        ),
{
}

/// An answer that is recorded stays the answer when more are recorded after
/// it.
pub proof fn lemma_answer_stays(
    references: Seq<ReferenceView>,
    more: Seq<ReferenceView>,
    path: Seq<char>,
)
    requires
        answer(references, path) is Some,
    ensures
        answer(references + more, path) == answer(references, path),
    decreases references.len(),
{
    let longer = references + more;
    assert(longer[0] == references[0]);
    if references[0].path != path {
        assert(longer.skip(1) =~= references.skip(1) + more);
        lemma_answer_stays(references.skip(1), more, path);
    }
}

/// The context `ctx` with the answers `more` recorded after its own.
pub open spec fn extended(ctx: ContextView, more: Seq<ReferenceView>) -> ContextView {
    ContextView { now: ctx.now, references: ctx.references + more }
}

/// Once the evaluation of an expression consults no reference file that the
/// context does not answer for, further answers change nothing: the
/// expression holds of the entry exactly where it did, and still nothing is
/// missing.
pub proof fn lemma_decided_stays_decided(
    e: ExprView,
    entry: EntryView,
    ctx: ContextView,
    more: Seq<ReferenceView>,
)
    requires
        needs(e, entry, ctx) is None,
    ensures
        holds(e, entry, extended(ctx, more)) == holds(e, entry, ctx),
        needs(e, entry, extended(ctx, more)) is None,
    decreases e,
{
    match e {
        ExprView::Not(inner) => {
            lemma_decided_stays_decided(*inner, entry, ctx, more);
        },
        ExprView::And(left, right) => {
            lemma_decided_stays_decided(*left, entry, ctx, more);
            if holds(*left, entry, ctx) {
                lemma_decided_stays_decided(*right, entry, ctx, more);
            }
        },
        ExprView::Or(left, right) => {
            lemma_decided_stays_decided(*left, entry, ctx, more);
            if !holds(*left, entry, ctx) {
                lemma_decided_stays_decided(*right, entry, ctx, more);
            }
        },
        ExprView::Test(test) => {
            match test {
                TestView::Anewer(path) | TestView::Cnewer(path) | TestView::Mnewer(path)
                | TestView::Newer(path) => {
                    if answer(ctx.references, path) is Some {
                        lemma_answer_stays(ctx.references, more, path);
                    }
                },
                _ => {},
            }
        },
    }
}

/// Text without words is only spaces; it has no words.
pub proof fn lemma_spaces_have_no_words(text: Seq<char>)
    requires
        forall|i: int| 0 <= i < text.len() ==> is_space(#[trigger] text[i]),
    ensures
        words(text).len() == 0,
    decreases text.len(),
{
    if text.len() > 0 {
        assert(is_space(text[0]));
        assert forall|i: int| 0 <= i < text.skip(1).len() implies is_space(
            #[trigger] text.skip(1)[i],
        ) by {
            assert(text.skip(1)[i] == text[i + 1]);
        }
        lemma_spaces_have_no_words(text.skip(1));
    }
}

/// An expression without words compiles to the test that holds of every
/// entry: the empty text, or text of spaces only, selects everything.
pub proof fn lemma_empty_selects_all(text: Seq<char>, entry: EntryView, ctx: ContextView)
    requires
        forall|i: int| 0 <= i < text.len() ==> is_space(#[trigger] text[i]),
    ensures
        compile(text) == Ok::<ExprView, ParseErrorView>(ExprView::Test(TestView::True)),
        holds(ExprView::Test(TestView::True), entry, ctx),
        needs(ExprView::Test(TestView::True), entry, ctx) is None,
{
    lemma_spaces_have_no_words(text);
}

} // verus!
