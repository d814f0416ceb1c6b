//! Many sessions side by side.
//!
//! A relay serves its connections at the same time, so what is reported to
//! them arrives in some interleaved order. A schedule is one such order:
//! each entry names a session by its place among the sessions and gives the
//! event reported to it. Nothing here runs; this is the argument that the
//! order does not matter to any single session.

use vstd::prelude::*;
use crate::session::{run_spec, step_spec, ActionView, EventView, Phase, Transport};

verus! {

/// The events of a schedule that are reported to session `who`, in order.
pub open spec fn own_events(schedule: Seq<(int, EventView)>, who: int) -> Seq<EventView>
    decreases schedule.len(),
{
    if schedule.len() == 0 {
        Seq::empty()
    } else {
        let before = own_events(schedule.drop_last(), who);
        if schedule.last().0 == who {
            before.push(schedule.last().1)
        } else {
            before
        }
    }
}

/// The phase of every session after a schedule, each session stepping on
/// the events reported to it as they come. An entry for a session that does
/// not exist changes nothing.
pub open spec fn phases_after(
    phases: Seq<Phase>,
    transports: Seq<Transport>,
    schedule: Seq<(int, EventView)>,
) -> Seq<Phase>
    decreases schedule.len(),
{
    if schedule.len() == 0 {
        phases
    } else {
        let before = phases_after(phases, transports, schedule.drop_last());
        let who = schedule.last().0;
        if 0 <= who < before.len() {
            before.update(who, step_spec(before[who], transports[who], schedule.last().1).0)
        } else {
            before
        }
    }
}

/// What session `who` asked for in the course of a schedule, in order.
pub open spec fn own_actions(
    phases: Seq<Phase>,
    transports: Seq<Transport>,
    schedule: Seq<(int, EventView)>,
    who: int,
) -> Seq<ActionView>
    decreases schedule.len(),
{
    if schedule.len() == 0 {
        Seq::empty()
    } else {
        let earlier = schedule.drop_last();
        let before = own_actions(phases, transports, earlier, who);
        if schedule.last().0 == who {
            before.push(
                step_spec(
                    phases_after(phases, transports, earlier)[who],
                    transports[who],
                    schedule.last().1,
                ).1,
            )
        } else {
            before
        }
    }
}

/// However the events of many sessions interleave, each session ends where
/// it would have ended alone, and was asked exactly what it would have been
/// asked alone: what a session sends its client is made of its own input
/// and the answers to its own prompts, never of another session's.
pub proof fn law_sessions_do_not_interfere(
    phases: Seq<Phase>,
    transports: Seq<Transport>,
    schedule: Seq<(int, EventView)>,
    who: int,
)
    requires
        phases.len() == transports.len(),
        0 <= who < phases.len(),
    ensures
        phases_after(phases, transports, schedule).len() == phases.len(),
        phases_after(phases, transports, schedule)[who] == run_spec(
            phases[who],
            transports[who],
            own_events(schedule, who),
        ).0,
        own_actions(phases, transports, schedule, who) == run_spec(
            phases[who],
            transports[who],
            own_events(schedule, who),
        ).1,
    decreases schedule.len(),
{
    if schedule.len() > 0 {
        let earlier = schedule.drop_last();
        law_sessions_do_not_interfere(phases, transports, earlier, who);
        if schedule.last().0 == who {
            let events = own_events(schedule, who);
            assert(events.drop_last() =~= own_events(earlier, who));
            assert(events.last() == schedule.last().1);
        }
    }
}

} // verus!
