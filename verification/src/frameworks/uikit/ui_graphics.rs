//! `UIGraphics.h`: the stack of current graphics contexts. Contexts pushed
//! on the stack are retained, and released when popped; the reference
//! counting itself happens around this library.
use vstd::prelude::*;

verus! {

/// A `CGContextRef`; 0 is nil.
pub type CGContextRef = u32;

/// The context stack, innermost last.
pub struct State {
    context_stack: Vec<CGContextRef>,
}

impl State {
    pub closed spec fn stack(&self) -> Seq<CGContextRef> {
        self.context_stack@
    }

    /// An empty stack.
    pub fn new() -> (s: State)
        ensures
            s.stack() == Seq::<CGContextRef>::empty(),
    {
        State { context_stack: Vec::new() }
    }
}

/// Makes `context` the current context; the caller retains it.
pub fn UIGraphicsPushContext(state: &mut State, context: CGContextRef)
    ensures
        final(state).stack() == old(state).stack().push(context),
{
    state.context_stack.push(context);
}

/// Restores the previous context. Returns the context that was current,
/// which the caller releases; nothing happens on an empty stack.
pub fn UIGraphicsPopContext(state: &mut State) -> (popped: Option<CGContextRef>)
    ensures
        old(state).stack().len() == 0 ==> popped is None && final(state).stack() == old(state).stack(),
        old(state).stack().len() > 0 ==> popped == Some(old(state).stack().last())
            && final(state).stack() == old(state).stack().drop_last(),
{
    state.context_stack.pop()
}

/// The current context, or nil if there is none.
pub fn UIGraphicsGetCurrentContext(state: &State) -> (c: CGContextRef)
    ensures
        c == if state.stack().len() == 0 {
            0
        } else {
            state.stack().last()
        },
{
    let n = state.context_stack.len();
    if n == 0 {
        0
    } else {
        state.context_stack[n - 1]
    }
}

/// Begins an image context. Drawing into images is not supported, so a nil
/// context is made current (the graphics functions accept nil).
pub fn UIGraphicsBeginImageContext(state: &mut State)
    ensures
        final(state).stack() == old(state).stack().push(0),
{
    UIGraphicsPushContext(state, 0);
}

/// Ends an image context: pops it like [UIGraphicsPopContext].
pub fn UIGraphicsEndImageContext(state: &mut State) -> (popped: Option<CGContextRef>)
    ensures
        old(state).stack().len() == 0 ==> popped is None && final(state).stack() == old(state).stack(),
        old(state).stack().len() > 0 ==> popped == Some(old(state).stack().last())
            && final(state).stack() == old(state).stack().drop_last(),
{
    UIGraphicsPopContext(state)
}

/// After a push, the pushed context is current; popping it hands it back
/// and restores the stack as it was.
pub proof fn law_push_pop(before: Seq<CGContextRef>, context: CGContextRef)
    ensures
        before.push(context).last() == context,
        before.push(context).drop_last() == before,
{
    assert(before.push(context).drop_last() =~= before);
}

} // verus!
