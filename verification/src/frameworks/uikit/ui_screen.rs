//! `UIScreen`: the main screen object, created on first use and kept for good.
use vstd::prelude::*;

verus! {

pub struct State {
    main_screen: Option<u32>,
}

impl State {
    pub closed spec fn spec_main_screen(&self) -> Option<u32> {
        self.main_screen
    }

    /// Nothing created yet.
    pub fn new() -> (s: State)
        ensures
            s.spec_main_screen() is None,
    {
        State { main_screen: None }
    }

    /// The object, if it has been created.
    pub fn main_screen(&self) -> (obj: Option<u32>)
        ensures
            obj == self.spec_main_screen(),
    {
        self.main_screen
    }

    /// Returns the object, which is `created` if there is none yet (the
    /// caller allocates it only in that case); it is kept from then on.
    pub fn get_or_insert(&mut self, created: u32) -> (obj: u32)
        ensures
            obj == match old(self).spec_main_screen() {
                Some(o) => o,
                None => created,
            },
            final(self).spec_main_screen() == Some(obj),
    {
        match self.main_screen {
            Some(o) => o,
            None => {
                self.main_screen = Some(created);
                created
            },
        }
    }
}

} // verus!
