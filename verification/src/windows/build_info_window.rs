//! The build information window: the name, version and build of the
//! application, and any other field set on it, listed by name.

use vstd::prelude::*;
use crate::utils::state_table::{placed_at, text_lt, StateTable};

verus! {

/// The messages of the build information window.
#[derive(Debug)]
pub enum BuildInfoMessage {
    /// Close the window.
    RequestExit,
    /// Set the value shown for a field.
    SetState(String, String),
}

/// What the window asks of the runtime after a message.
#[derive(Debug, PartialEq, Eq, Structural)]
pub enum BuildInfoAction {
    /// Close the window.
    Close,
    /// Draw the table again.
    Redraw,
}

/// The fields the build information window lists.
#[derive(Debug)]
pub struct BuildInfoState {
    pub state: StateTable,
}

impl BuildInfoState {
    /// The fields of a new window: `Build ID`, `Name` and `Version`, in the
    /// order of their names.
    pub fn new(name: &str, version: &str, build: &str) -> (r: Self)
        ensures
            r.state.inv(),
            r.state.spec_rows() == seq![
                ("Build ID"@, build@),
                ("Name"@, name@),
                ("Version"@, version@),
            ],
    {
        let mut state = StateTable::new();
        proof {
            reveal_strlit("Name");
            reveal_strlit("Version");
            reveal_strlit("Build ID");
            assert(!text_lt("Version"@, "Name"@));
            assert(text_lt("Name"@, "Version"@));
            assert(text_lt("Build ID"@, "Name"@));
            assert(text_lt("Build ID"@, "Version"@));
        }
        state.insert(String::from_str("Name"), String::from_str(name));
        let ghost one = state.spec_rows();
        assert(one =~= seq![("Name"@, name@)]);
        state.insert(String::from_str("Version"), String::from_str(version));
        let ghost two = state.spec_rows();
        assert(two =~= seq![("Name"@, name@), ("Version"@, version@)]) by {
            let p = choose|p: int| #[trigger] placed_at(one, two, "Version"@, version@, p);
            if p == 0 {
                assert(one[0].0 != "Version"@);
            }
        }
        state.insert(String::from_str("Build ID"), String::from_str(build));
        let ghost three = state.spec_rows();
        assert(three =~= seq![("Build ID"@, build@), ("Name"@, name@), ("Version"@, version@)]) by {
            let p = choose|p: int| #[trigger] placed_at(two, three, "Build ID"@, build@, p);
            if p >= 1 {
                assert(text_lt(two[0].0, "Build ID"@));
                assert(!text_lt("Name"@, "Build ID"@));
            }
            assert(two[0].0 != "Build ID"@);
        }
        BuildInfoState { state }
    }

    /// Handles a message: a request to exit closes the window; setting a
    /// field sets it in the table and redraws it.
    pub fn update(&mut self, message: BuildInfoMessage) -> (r: BuildInfoAction)
        requires
            old(self).state.inv(),
        ensures
            final(self).state.inv(),
            match message {
                BuildInfoMessage::RequestExit => r == BuildInfoAction::Close && final(self).state.spec_rows()
                    == old(self).state.spec_rows(),
                BuildInfoMessage::SetState(k, v) => r == BuildInfoAction::Redraw && exists|p: int|
                    #[trigger] placed_at(old(self).state.spec_rows(), final(self).state.spec_rows(), k@, v@, p),
            },
    {
        match message {
            BuildInfoMessage::RequestExit => BuildInfoAction::Close,
            BuildInfoMessage::SetState(k, v) => {
                self.state.insert(k, v);
                BuildInfoAction::Redraw
            },
        }
    }
}

} // verus!
