//! What holds of every session, whatever its surroundings answer: which
//! actions a session can ask for, in which order, and what must have
//! happened before it reports success.
use vstd::prelude::*;
use crate::action::{
    apply_plan, colors_file_of, config_dir_of, reload_action, reset_plan, ActionView,
    ReportView, HOME_VARIABLE,
};
use crate::catalog::{payload_of, reserved_keys_select_no_theme, QUIT_KEY, RESET_KEY};
use crate::session::{
    command_of, failure, first_action, next, CommandView, EventView, RequestView, StateView,
    PROMPT, STATUS_NOT_IN_TERMUX, STATUS_OK, THEME_RESET, THEME_UPDATED,
};
use crate::text::{all_blank, trimmed, trimming_ignores_padding, trimming_is_idempotent};

verus! {

/// The state a session is in and the actions it has asked for, in order,
/// after `events` have answered them one by one; nothing where an event
/// answers no action of the state it meets.
pub open spec fn run(events: Seq<EventView>) -> Option<(StateView, Seq<ActionView>)>
    decreases events.len(),
{
    if events.len() == 0 {
        Some((StateView::Gate, seq![first_action()]))
    } else {
        match run(events.drop_last()) {
            Some((state, actions)) => match next(state, events.last()) {
                Some((state_after, action)) => Some((state_after, actions.push(action))),
                None => None,
            },
            None => None,
        }
    }
}

/// The menu was asked for after the marker variable was found.
spec fn asked(events: Seq<EventView>, actions: Seq<ActionView>) -> bool {
    &&& events.len() >= 1
    &&& actions.len() >= 2
    &&& events[0] is Text
    &&& actions[1] == (ActionView::Ask { prompt: PROMPT@ })
}

/// The line that was read made `request`, and the home directory was asked
/// for.
spec fn requested(
    events: Seq<EventView>,
    actions: Seq<ActionView>,
    request: RequestView,
) -> bool {
    &&& events.len() >= 2
    &&& actions.len() >= 3
    &&& events[1] is Text
    &&& command_of(events[1].text()) == request.command()
    &&& actions[2] == (ActionView::ReadVariable { name: HOME_VARIABLE@ })
}

/// The first `asked_for` steps of `plan` were asked for in order, and each
/// but the last of them has been answered as done.
spec fn carried_out(
    events: Seq<EventView>,
    actions: Seq<ActionView>,
    plan: Seq<ActionView>,
    asked_for: int,
) -> bool {
    &&& 1 <= asked_for <= plan.len()
    &&& events.len() == 2 + asked_for
    &&& actions.len() == 3 + asked_for
    &&& forall|i: int| 0 <= i < asked_for ==> actions[3 + i] == plan[i]
    &&& forall|i: int| 3 <= i < 2 + asked_for ==> events[i] is Done
}

/// What the state of a session tells of the events and actions that led to
/// it.
spec fn history(events: Seq<EventView>, state: StateView, actions: Seq<ActionView>) -> bool {
    &&& actions.len() == events.len() + 1
    &&& actions[0] == first_action()
    &&& match state {
        StateView::Gate => events.len() == 0,
        StateView::AwaitingInput => events.len() == 1 && asked(events, actions),
        StateView::AwaitingHome { request } => {
            &&& events.len() == 2
            &&& asked(events, actions)
            &&& requested(events, actions, request)
        },
        StateView::Running { request, pending } => {
            &&& asked(events, actions)
            &&& requested(events, actions, request)
            &&& events.len() >= 3
            &&& events[2] is Text
            &&& carried_out(events, actions, request.plan(events[2].text()), events.len() - 2)
            &&& pending == request.plan(events[2].text()).skip(events.len() - 2)
        },
        StateView::Finished => events.len() >= 1,
    }
}

/// Every plan has a first step, and every step of a plan touches a file or
/// runs a program.
proof fn lemma_plans(request: RequestView, home: Seq<char>)
    ensures
        request is Apply ==> request.plan(home).len() == 3,
        request is Reset ==> request.plan(home).len() == 2,
        forall|i: int|
            0 <= i < request.plan(home).len() ==> (#[trigger] request.plan(
                home,
            )[i]).has_side_effect(),
{
}

/// The state of a session tells its history.
proof fn lemma_history(events: Seq<EventView>)
    ensures
        run(events) matches Some((state, actions)) ==> history(events, state, actions),
    decreases events.len(),
{
    if events.len() > 0 {
        let before = events.drop_last();
        lemma_history(before);
        if run(events) is Some {
            match run(before).unwrap().0 {
                StateView::AwaitingHome { request } => {
                    lemma_plans(request, events.last().text());
                },
                StateView::Running { request, pending } => {
                    if events.last() is Done && pending.len() > 0 {
                        let plan = request.plan(events[2].text());
                        assert(pending.drop_first() =~= plan.skip(before.len() - 1));
                    }
                },
                _ => {},
            }
        }
    }
}

/// A session that has ended takes no further event.
pub proof fn finished_is_final(event: EventView)
    ensures
        next(StateView::Finished, event) is None,
{
}

/// A failure ends the session at once: whatever was being done, the next
/// action is the end of the process, with a line on standard error.
pub proof fn failure_ends_the_session(state: StateView, cause: Seq<char>)
    requires
        next(state, EventView::Failed(cause)) is Some,
    ensures
        next(state, EventView::Failed(cause)).unwrap().0 == StateView::Finished,
        next(state, EventView::Failed(cause)).unwrap().1 is Finish,
        next(state, EventView::Failed(cause)).unwrap().1->report is Error,
        !(state is Gate) ==> next(state, EventView::Failed(cause)).unwrap().1 == failure(cause),
{
}

/// A session takes at most six events.
pub proof fn every_session_ends(events: Seq<EventView>)
    requires
        run(events) is Some,
    ensures
        events.len() <= 6,
    decreases events.len(),
{
    lemma_history(events);
    if events.len() > 0 {
        let before = events.drop_last();
        lemma_history(before);
        every_session_ends(before);
        if let StateView::Running { request, pending } = run(before).unwrap().0 {
            lemma_plans(request, before[2].text());
        }
    }
}

/// A session ends with a status other than success only where the marker
/// variable was not found; every other end, a failure too, has the status of
/// success.
pub proof fn status_tells_the_gate(events: Seq<EventView>)
    requires
        run(events) is Some,
        run(events).unwrap().1.last() is Finish,
    ensures
        events.len() >= 1,
        run(events).unwrap().0 == StateView::Finished,
        events[0] is Failed ==> events.len() == 1 && run(events).unwrap().1.last()->status
            == STATUS_NOT_IN_TERMUX,
        !(events[0] is Failed) ==> events.len() >= 2 && run(events).unwrap().1.last()->status
            == STATUS_OK,
{
    lemma_history(events);
    if events.len() > 0 {
        let before = events.drop_last();
        lemma_history(before);
        match run(before).unwrap().0 {
            StateView::AwaitingHome { request } => {
                lemma_plans(request, events.last().text());
            },
            StateView::Running { request, pending } => {
                lemma_plans(request, before[2].text());
            },
            _ => {},
        }
    }
}

/// Whitespace before and after a line changes nothing in what the line asks
/// for.
pub proof fn padding_does_not_change_the_command(
    left: Seq<char>,
    line: Seq<char>,
    right: Seq<char>,
)
    requires
        all_blank(left),
        all_blank(right),
    ensures
        command_of(left + line + right) == command_of(line),
{
    trimming_ignores_padding(left, line, right);
}

/// A line asks for what the line without the whitespace around it asks for.
pub proof fn trimmed_line_asks_the_same(line: Seq<char>)
    ensures
        command_of(trimmed(line)) == command_of(line),
{
    trimming_is_idempotent(line);
}

/// A line asks to apply a theme exactly when, the whitespace around it
/// dropped, it is the key of that theme; the reserved keys are never taken
/// for a theme.
pub proof fn command_follows_the_catalog(line: Seq<char>)
    ensures
        command_of(line) is Quit <==> trimmed(line) == QUIT_KEY@,
        command_of(line) is Reset <==> trimmed(line) == RESET_KEY@,
        command_of(line) matches CommandView::Apply(payload) ==> payload_of(trimmed(line))
            == Some(payload),
        command_of(line) is Apply <==> payload_of(trimmed(line)) is Some,
        command_of(line) is Invalid <==> trimmed(line) != QUIT_KEY@ && trimmed(line)
            != RESET_KEY@ && payload_of(trimmed(line)) is None,
{
    reserved_keys_select_no_theme();
}

/// A session touches a file or runs a program only after a line has asked to
/// apply a theme or to reset: not outside the terminal, not on the quit key,
/// not on a line that selects nothing.
pub proof fn side_effects_need_a_request(events: Seq<EventView>, i: int)
    requires
        run(events) is Some,
        0 <= i < run(events).unwrap().1.len(),
        run(events).unwrap().1[i].has_side_effect(),
    ensures
        3 <= i,
        events.len() >= 3,
        events[0] is Text,
        events[1] is Text,
        events[2] is Text,
        command_of(events[1].text()) is Apply || command_of(events[1].text()) is Reset,
    decreases events.len(),
{
    lemma_history(events);
    if events.len() > 0 {
        let before = events.drop_last();
        lemma_history(before);
        if i < run(before).unwrap().1.len() {
            side_effects_need_a_request(before, i);
        }
    }
}

/// The quit key ends a session at once: the session has asked for the
/// marker variable and for the line, and it asks for nothing but its end,
/// with no report and the status of success.
pub proof fn quit_has_no_side_effects(events: Seq<EventView>)
    requires
        run(events) is Some,
        events.len() >= 2,
        events[1] is Text,
        trimmed(events[1].text()) == QUIT_KEY@,
    ensures
        events.len() == 2,
        run(events).unwrap().0 == StateView::Finished,
        run(events).unwrap().1 == seq![
            first_action(),
            ActionView::Ask { prompt: PROMPT@ },
            ActionView::Finish { report: ReportView::Nothing, status: STATUS_OK },
        ],
    decreases events.len(),
{
    let before = events.drop_last();
    lemma_history(before);
    lemma_history(events);
    if events.len() > 2 {
        quit_has_no_side_effects(before);
    } else {
        assert(run(events).unwrap().1 =~= seq![
            first_action(),
            ActionView::Ask { prompt: PROMPT@ },
            ActionView::Finish { report: ReportView::Nothing, status: STATUS_OK },
        ]);
    }
}

/// A session reports on standard output only when every step of what was
/// asked for has been carried out: the line made a request, the home
/// directory was read, each step of the request's plan below it was asked
/// for in order, and each was answered as done.
pub proof fn success_follows_the_whole_plan(events: Seq<EventView>)
    requires
        run(events) is Some,
        run(events).unwrap().1.last() is Finish,
        run(events).unwrap().1.last()->report is Output,
    ensures
        events.len() >= 3,
        events[1] is Text,
        events[2] is Text,
        ({
            let actions = run(events).unwrap().1;
            let home = events[2].text();
            ||| {
                &&& command_of(events[1].text()) matches CommandView::Apply(payload)
                &&& events.len() == 6
                &&& actions.subrange(3, 6) == apply_plan(home, payload)
                &&& actions[6] == (ActionView::Finish {
                    report: ReportView::Output(THEME_UPDATED@),
                    status: STATUS_OK,
                })
            }
            ||| {
                &&& command_of(events[1].text()) is Reset
                &&& events.len() == 5
                &&& actions.subrange(3, 5) == reset_plan(home)
                &&& actions[5] == (ActionView::Finish {
                    report: ReportView::Output(THEME_RESET@),
                    status: STATUS_OK,
                })
            }
        }),
        forall|i: int| 3 <= i < events.len() ==> events[i] is Done,
{
    lemma_history(events);
    let before = events.drop_last();
    lemma_history(before);
    let actions = run(events).unwrap().1;
    match run(before).unwrap().0 {
        StateView::Running { request, pending } => {
            let plan = request.plan(before[2].text());
            lemma_plans(request, before[2].text());
            assert forall|i: int| 3 <= i < events.len() implies events[i] is Done by {
                if i < before.len() {
                    assert(events[i] == before[i]);
                }
            }
            assert(actions.subrange(3, 3 + plan.len() as int) =~= plan);
        },
        StateView::AwaitingHome { request } => {
            lemma_plans(request, events.last().text());
        },
        _ => {},
    }
}

/// "Theme updated" is reported only after the colours file below the home
/// directory was written, as a whole, with exactly the colour definitions
/// that the line selected, and the write was answered as done.
pub proof fn update_is_reported_after_the_write(events: Seq<EventView>)
    requires
        run(events) is Some,
        run(events).unwrap().1.last() == (ActionView::Finish {
            report: ReportView::Output(THEME_UPDATED@),
            status: STATUS_OK,
        }),
    ensures
        events.len() == 6,
        events[1] is Text,
        events[2] is Text,
        payload_of(trimmed(events[1].text())) is Some,
        run(events).unwrap().1[3] == (ActionView::CreateDirectories {
            path: config_dir_of(events[2].text()),
        }),
        events[3] is Done,
        run(events).unwrap().1[4] == (ActionView::WriteFile {
            path: colors_file_of(events[2].text()),
            contents: payload_of(trimmed(events[1].text())).unwrap(),
        }),
        events[4] is Done,
        run(events).unwrap().1[5] == reload_action(),
        events[5] is Done,
{
    success_follows_the_whole_plan(events);
    lemma_history(events);
    reveal_strlit("Theme updated");
    reveal_strlit("Theme reset");
    assert(THEME_UPDATED@.len() != THEME_RESET@.len());
    let actions = run(events).unwrap().1;
    assert(actions[3] == actions.subrange(3, 6)[0]);
    assert(actions[4] == actions.subrange(3, 6)[1]);
    assert(actions[5] == actions.subrange(3, 6)[2]);
}

/// "Theme reset" is reported only after the removal of the colours file
/// below the home directory was asked for and answered as done.
pub proof fn reset_is_reported_after_the_removal(events: Seq<EventView>)
    requires
        run(events) is Some,
        run(events).unwrap().1.last() == (ActionView::Finish {
            report: ReportView::Output(THEME_RESET@),
            status: STATUS_OK,
        }),
    ensures
        events.len() == 5,
        events[1] is Text,
        events[2] is Text,
        trimmed(events[1].text()) == RESET_KEY@,
        run(events).unwrap().1[3] == (ActionView::RemoveFile {
            path: colors_file_of(events[2].text()),
        }),
        events[3] is Done,
        run(events).unwrap().1[4] == reload_action(),
        events[4] is Done,
{
    success_follows_the_whole_plan(events);
    lemma_history(events);
    reveal_strlit("Theme updated");
    reveal_strlit("Theme reset");
    assert(THEME_UPDATED@.len() != THEME_RESET@.len());
    let actions = run(events).unwrap().1;
    assert(actions[3] == actions.subrange(3, 5)[0]);
    assert(actions[4] == actions.subrange(3, 5)[1]);
}

} // verus!
