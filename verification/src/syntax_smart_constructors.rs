//! The contract between a parser and the state that a backend threads through it.

use vstd::prelude::*;
use crate::parser_env::ParserEnv;
use crate::smart_constructors::NoState;
use crate::source_text::SourceText;

verus! {

/// What the references in `refs` point to: as many values, in the same order.
pub open spec fn referents<R>(refs: Seq<&R>) -> Seq<R> {
    Seq::new(refs.len(), |i: int| *refs[i])
}

/// A state that a backend threads through a parse.
///
/// `R` is what the backend builds for a recognized production. The parser
/// makes one state with `initial` when the parse begins. After each
/// production it hands the state it holds to `next`, together with the
/// results built for that production's children, and holds the state that
/// comes back from then on.
///
/// Both operations are functions of their arguments and of nothing else:
/// `spec_initial` and `spec_next` say which state comes back, and an
/// implementation has to return exactly that state. Neither can fail. What a
/// backend finds wrong while folding, it records in the state.
///
/// An implementation in verified code overrides `spec_initial` and
/// `spec_next` with what it computes, and Verus holds it to them. An
/// implementation in ordinary Rust gives `initial` and `next` alone; for it
/// the two contracts are a promise that its author makes: that both are pure.
pub trait StateType<'src, R>: Sized {
    /// The state that a parse of the text `source_text` under `env` begins with.
    ///
    /// As it stands here, some function of `env` and `source_text` of which
    /// nothing more is known.
    open spec fn spec_initial(env: ParserEnv, source_text: Seq<u8>) -> Self {
        let f = arbitrary::<spec_fn(ParserEnv, Seq<u8>) -> Self>();
        f(env, source_text)
    }

    /// The state that follows `t` once a production with the children
    /// `inputs`, in the production's order, was recognized.
    ///
    /// As it stands here, some function of `t` and `inputs` of which nothing
    /// more is known.
    open spec fn spec_next(t: Self, inputs: Seq<R>) -> Self {
        let f = arbitrary::<spec_fn(Self, Seq<R>) -> Self>();
        f(t, inputs)
    }

    /// Makes the state that the parse begins with.
    ///
    /// Both arguments are only read, and the parser goes on using them.
    fn initial(env: &ParserEnv, source_text: &SourceText<'src>) -> (s: Self)
        ensures
            s == Self::spec_initial(*env, source_text@),
    ;

    /// Folds the children of one production into the state `t`, which is used up.
    ///
    /// `inputs` holds the results built for the children, first child first;
    /// it is empty for a production without children. The results are only
    /// read, and no reference to them is kept.
    fn next(t: Self, inputs: &[&R]) -> (s: Self)
        ensures
            s == Self::spec_next(t, referents(inputs@)),
    ;
}

impl<'src, R> StateType<'src, R> for NoState {
    /// The one value, whatever the settings and the text.
    open spec fn spec_initial(env: ParserEnv, source_text: Seq<u8>) -> Self {
        NoState
    }

    /// The state as it was, whatever the children.
    open spec fn spec_next(t: Self, inputs: Seq<R>) -> Self {
        t
    }

    fn initial(_env: &ParserEnv, _source_text: &SourceText<'src>) -> (s: Self) {
        NoState {}
    }

    fn next(t: Self, _inputs: &[&R]) -> (s: Self)
        ensures
            s == t,
    {
        t
    }
}

/// The children that the contract of `next` speaks of are the values behind
/// `refs`, each once and at its own place: none is dropped, repeated or moved.
pub proof fn lemma_referents_in_order<R>(refs: Seq<&R>)
    ensures
        referents(refs).len() == refs.len(),
        forall|i: int| 0 <= i < refs.len() ==> referents(refs)[i] == *#[trigger] refs[i],
{
}

/// Two calls of `initial` under the same settings, on sources that hold the
/// same text, give equal states.
pub proof fn lemma_initial_deterministic<'src, R, S: StateType<'src, R>>(
    env: &ParserEnv,
    source_text1: &SourceText<'src>,
    source_text2: &SourceText<'src>,
    s1: S,
    s2: S,
)
    requires
        source_text1@ == source_text2@,
        call_ensures(<S as StateType<'src, R>>::initial, (env, source_text1), s1),
        call_ensures(<S as StateType<'src, R>>::initial, (env, source_text2), s2),
    ensures
        s1 == s2,
{
}

/// Two calls of `next` on the same state, with children that are equal one
/// by one, give equal states.
pub proof fn lemma_next_deterministic<'src, R, S: StateType<'src, R>>(
    t: S,
    inputs1: &[&R],
    inputs2: &[&R],
    s1: S,
    s2: S,
)
    requires
        referents(inputs1@) == referents(inputs2@),
        call_ensures(<S as StateType<'src, R>>::next, (t, inputs1), s1),
        call_ensures(<S as StateType<'src, R>>::next, (t, inputs2), s2),
    ensures
        s1 == s2,
{
}

/// There is one state without data: any two are equal.
pub proof fn lemma_no_state_unique(s1: NoState, s2: NoState)
    ensures
        s1 == s2,
{
}

/// For the state without data, whatever `initial` returns is the one value.
pub proof fn lemma_no_state_initial<'src, R>(
    env: &ParserEnv,
    source_text: &SourceText<'src>,
    s: NoState,
)
    requires
        call_ensures(<NoState as StateType<'src, R>>::initial, (env, source_text), s),
    ensures
        s == NoState,
{
}

/// For the state without data, whatever `next` returns is the state it was
/// given, for any children: none, one or many.
pub proof fn lemma_no_state_next<'src, R>(t: NoState, inputs: &[&R], s: NoState)
    requires
        call_ensures(<NoState as StateType<'src, R>>::next, (t, inputs), s),
    ensures
        s == t,
{
}

} // verus!
