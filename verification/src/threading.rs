//! A state as it is carried through a whole run of productions.

use vstd::prelude::*;
use crate::smart_constructors::NoState;
use crate::syntax_smart_constructors::StateType;

verus! {

/// The state that a parser holds once it has started from `s` and folded the
/// productions in `productions`, first to last, each given by its children.
pub open spec fn state_after<'src, R, S: StateType<'src, R>>(
    s: S,
    productions: Seq<Seq<R>>,
) -> S
    decreases productions.len(),
{
    if productions.len() == 0 {
        s
    } else {
        S::spec_next(state_after::<R, S>(s, productions.drop_last()), productions.last())
    }
}

/// A parser that folds `first`, holds the state reached, and later folds
/// `rest` from that state ends where it would have ended in one go: the
/// states that follow depend on the state taken up and on what is folded
/// into it, and on nothing else.
pub proof fn lemma_state_after_resume<'src, R, S: StateType<'src, R>>(
    s: S,
    first: Seq<Seq<R>>,
    rest: Seq<Seq<R>>,
)
    ensures
        state_after::<R, S>(s, first + rest) == state_after::<R, S>(
            state_after::<R, S>(s, first),
            rest,
        ),
    decreases rest.len(),
{
    if rest.len() == 0 {
        assert(first + rest =~= first);
    } else {
        lemma_state_after_resume::<R, S>(s, first, rest.drop_last());
        assert((first + rest).drop_last() =~= first + rest.drop_last());
    }
}

/// The state without data stays what it was through any run of productions,
/// and so after every one of them.
pub proof fn lemma_no_state_is_fixed<'src, R>(s: NoState, productions: Seq<Seq<R>>)
    ensures
        state_after::<R, NoState>(s, productions) == s,
        forall|k: int|
            0 <= k <= productions.len() ==> #[trigger] state_after::<R, NoState>(
                s,
                productions.take(k),
            ) == s,
{
}

} // verus!
