//! Packets that announce a drawing session.
use vstd::prelude::*;

use crate::plugin_interface::Plugin;

verus! {

/// The start or the end of a drawing session, with the size of the surface.
#[derive(Clone, Debug)]
pub struct DigitizerSession {
    pub action: Option<String>,
    pub width: Option<i32>,
    pub height: Option<i32>,
}

impl Default for DigitizerSession {
    fn default() -> (session: DigitizerSession)
        ensures
            session == (DigitizerSession { action: None, width: None, height: None }),
    {
        DigitizerSession { action: None, width: None, height: None }
    }
}

impl Plugin for DigitizerSession {
    open spec fn name(&self) -> Seq<char> {
        "digitizer-session"@
    }

    fn id(&self) -> &'static str {
        "digitizer-session"
    }
}

impl DigitizerSession {
    /// Takes note of a session. Sessions call for no reaction.
    pub fn received_packet(&self) {
    }
}

} // verus!
