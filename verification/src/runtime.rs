//! The desktop runtime loop's bookkeeping: the state the reducer works on
//! and the queue of side effects it emits, which the host drains and
//! performs in order.

use vstd::prelude::*;
use crate::model::{default_desktop_view, DesktopState, InteractionState};
use crate::reducer::{reduce_desktop, reduce_fits, reduce_spec, DesktopAction, ReducerError, RuntimeEffect};

verus! {

/// Desktop state, pointer interaction, and the effects not yet performed.
pub struct DesktopRuntime {
    pub state: DesktopState,
    pub interaction: InteractionState,
    pub effects: Vec<RuntimeEffect>,
}

impl DesktopRuntime {
    /// The runtime at boot: the default desktop, no interaction, no
    /// pending effects.
    pub fn new() -> (r: Self)
        ensures
            r.state@ == default_desktop_view(),
            r.interaction == (InteractionState { dragging: None, resizing: None, desktop_selection_origin: None }),
            r.effects@.len() == 0,
    {
        DesktopRuntime { state: DesktopState::default(), interaction: InteractionState::default(), effects: Vec::new() }
    }

    /// Dispatches an action: on success the state moves on and the
    /// action's effects join the end of the queue; a refused action
    /// changes nothing and reports the reducer's error.
    pub fn dispatch(&mut self, action: DesktopAction) -> (r: Result<(), ReducerError>)
        requires
            reduce_fits(old(self).state@, old(self).interaction, action),
        ensures
            match reduce_spec(old(self).state@, old(self).interaction, action) {
                Ok((s1, i1, e1)) => r is Ok && final(self).state@ == s1 && final(self).interaction == i1
                    && final(self).effects@ == old(self).effects@ + e1,
                Err(e) => r == Err::<(), ReducerError>(e) && final(self).state@ == old(self).state@
                    && final(self).interaction == old(self).interaction && final(self).effects@
                    == old(self).effects@,
            },
    {
        match reduce_desktop(&mut self.state, &mut self.interaction, action) {
            Ok(mut new_effects) => {
                let ghost before = self.effects@;
                let ghost added = new_effects@;
                self.effects.append(&mut new_effects);
                assert(self.effects@ =~= before + added);
                Ok(())
            },
            Err(e) => Err(e),
        }
    }

    /// Hands the pending effects to the host in the order they were
    /// queued, leaving the queue empty.
    pub fn take_effects(&mut self) -> (r: Vec<RuntimeEffect>)
        ensures
            r@ == old(self).effects@,
            final(self).effects@.len() == 0,
            final(self).state@ == old(self).state@,
            final(self).interaction == old(self).interaction,
    {
        let mut taken: Vec<RuntimeEffect> = Vec::new();
        std::mem::swap(&mut taken, &mut self.effects);
        taken
    }
}

} // verus!
