//! General properties of the state machine, proved once for every state.

use vstd::prelude::*;
use crate::machine::{App, Message, Team, ThemeType};
use crate::machine::spec_score;

verus! {

/// Incrementing a team's score and then decrementing it restores the
/// original value, for any positive score with headroom left.
pub proof fn increment_then_decrement_restores_score(s: App, team: Team)
    requires
        s.wf(),
        0 < spec_score(s, team) < u32::MAX,
    ensures
        spec_score(
            s.spec_step(Message::IncrementPressed(team)).spec_step(
                Message::DecrementPressed(team),
            ),
            team,
        ) == spec_score(s, team),
{
}

/// Decrementing a zero score leaves it at zero.
pub proof fn decrement_at_zero_is_noop(s: App, team: Team)
    requires
        s.wf(),
        spec_score(s, team) == 0,
    ensures
        spec_score(s.spec_step(Message::DecrementPressed(team)), team) == 0,
{
}

/// Moving forward from the last page wraps around to the first.
pub proof fn page_forward_wraps(s: App)
    requires
        s.wf(),
        s.page == 2,
    ensures
        s.spec_step(Message::PageForward).page == 1,
{
}

/// Moving back from the first page wraps around to the last.
pub proof fn page_back_wraps(s: App)
    requires
        s.wf(),
        s.page == 1,
    ensures
        s.spec_step(Message::PageBack).page == 2,
{
}

/// Selecting a theme is idempotent: choosing the same theme twice yields
/// the same state as choosing it once.
pub proof fn theme_selection_idempotent(s: App, t: ThemeType)
    requires
        s.wf(),
    ensures
        s.spec_step(Message::ThemeChanged(t)).spec_step(Message::ThemeChanged(t)) == s.spec_step(
            Message::ThemeChanged(t),
        ),
{
}

} // verus!
