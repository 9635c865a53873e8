//! What holds of every graph and every runner.
//!
//! Each proof function here states one law over the views that the contracts
//! of the graph and of the runner use.

use crate::dialogue::node::{distinct_names, DeltaView, NodeView};
use crate::dialogue::runner::{
    apply_deltas, delta_events, event_seq, RunnerError, RunnerView, StateView,
};
use crate::dialogue::tree::{
    edges_resolve, has_node, lemma_validation_accepts_well_formed, validation_error, well_formed,
    TreeView,
};
use crate::dialogue::variables::{apply_delta, delta_event, value_of, EventView};
use vstd::prelude::*;

verus! {

/// A graph in which some edge dangles is refused by validation, whatever else
/// holds of it: the validating build returns an error for it.
pub proof fn law_dangling_graph_is_refused(t: TreeView, k: int)
    requires
        0 <= k < t.nodes.len(),
        !edges_resolve(t.nodes, t.nodes[k]),
    ensures
        !well_formed(t),
        validation_error(t) is Some,
{
    lemma_validation_accepts_well_formed(t);
}

/// A runner whose cursor points at an id that no node has is ended.
pub proof fn law_unknown_id_is_ended(r: RunnerView, id: Seq<char>)
    requires
        r.current == Some(id),
        !has_node(r.tree.nodes, id),
    ensures
        r.is_ended(),
{
}

/// Leaving a text whose successor is no node's id ends the conversation; so
/// does leaving a text without a successor.
pub proof fn law_advance_over_dangling_edge_ends(r: RunnerView)
    requires
        match r.current_node() {
            Some(NodeView::Text { next_node: Some(target), .. }) => !has_node(r.tree.nodes, target),
            Some(NodeView::Text { next_node: None, .. }) => true,
            _ => false,
        },
    ensures
        r.advance().1 is Ok,
        r.advance().0.is_ended(),
{
}

/// Taking an option whose target is no node's id ends the conversation.
pub proof fn law_select_over_dangling_edge_ends(r: RunnerView, index: int)
    requires
        r.current_node() matches Some(NodeView::Choice { choices, .. }) && 0 <= index
            < choices.len() && !has_node(r.tree.nodes, choices[index].next_node),
    ensures
        r.select_choice(index).1 is Ok,
        r.select_choice(index).0.is_ended(),
{
}

/// A call that a caller can make on a runner.
pub enum Command {
    Advance,
    SelectChoice(int),
}

/// What a caller sees after one command: what the call returned, what the
/// runner presents then, and the events that draining the queue yields.
pub struct Observation {
    pub result: Result<(), RunnerError>,
    pub state: StateView,
    pub drained: Seq<EventView>,
}

/// The runner after `command`.
pub open spec fn step(r: RunnerView, command: Command) -> (RunnerView, Result<(), RunnerError>) {
    match command {
        Command::Advance => r.advance(),
        Command::SelectChoice(index) => r.select_choice(index),
    }
}

/// The runner after every pending event was polled.
pub open spec fn drained(r: RunnerView) -> RunnerView {
    RunnerView { events: Seq::empty(), ..r }
}

/// What a caller sees who makes the calls of `commands` in order, looks at
/// the state after each and drains the queue after each.
pub open spec fn observe(r: RunnerView, commands: Seq<Command>) -> Seq<Observation>
    decreases commands.len(),
{
    if commands.len() == 0 {
        Seq::empty()
    } else {
        let (next, result) = step(r, commands[0]);
        seq![Observation { result, state: next.state(), drained: next.events }] + observe(
            drained(next),
            commands.drop_first(),
        )
    }
}

/// Polling until the queue is empty yields the pending events, oldest first,
/// and changes nothing else.
pub proof fn law_polling_drains_in_order(r: RunnerView)
    ensures
        r.events.len() > 0 ==> r.poll_event().1 == Some(r.events[0]) && r.poll_event().0.events
            == r.events.drop_first(),
        r.events.len() == 0 ==> r.poll_event() == (r, None::<EventView>),
        r.poll_event().0.tree == r.tree,
        r.poll_event().0.current == r.current,
        r.poll_event().0.variables == r.variables,
{
}

/// Determinism: what a runner does depends on its value alone. Two runners
/// of equal value that are given the same commands present the same states,
/// return the same results and emit the same events.
pub proof fn law_runner_is_deterministic(a: RunnerView, b: RunnerView, commands: Seq<Command>)
    requires
        a.tree == b.tree,
        a.current == b.current,
        a.variables =~= b.variables,
        a.events =~= b.events,
    ensures
        observe(a, commands) == observe(b, commands),
        a.state() == b.state(),
{
    assert(a == b);
}

/// A command changes neither the graph nor, where it is refused, anything
/// else.
pub proof fn law_refused_command_changes_nothing(r: RunnerView, command: Command)
    ensures
        step(r, command).0.tree == r.tree,
        step(r, command).1 is Err ==> step(r, command).0 == r,
{
}

/// Asking for the current state does not move the runner: between two
/// commands every call of `current` returns the same value.
pub proof fn law_current_is_idempotent(r: RunnerView, first: StateView, second: StateView)
    requires
        first == r.state(),
        second == r.state(),
    ensures
        first == second,
{
}

/// Terminality: on an ended runner `advance` and `select_choice` are refused,
/// and the runner stays as it is: still ended, with the same variables and
/// with no event added.
pub proof fn law_ended_is_terminal(r: RunnerView, command: Command)
    requires
        r.is_ended(),
    ensures
        step(r, command).1 == Err::<(), RunnerError>(RunnerError::InvalidOperation),
        step(r, command).0 == r,
        step(r, command).0.is_ended(),
{
}

/// However many commands an ended runner is given, a caller sees it ended
/// after each, and no event.
pub proof fn law_ended_stays_ended(r: RunnerView, commands: Seq<Command>, i: int)
    requires
        r.is_ended(),
        r.events.len() == 0,
        0 <= i < commands.len(),
    ensures
        observe(r, commands).len() == commands.len(),
        observe(r, commands)[i].state is End,
        observe(r, commands)[i].result is Err,
        observe(r, commands)[i].drained.len() == 0,
    decreases commands.len(),
{
    let (next, result) = step(r, commands[0]);
    assert(next == r);
    assert(r.events =~= Seq::empty());
    assert(drained(next) == r);
    lemma_observe_len(r, commands);
    if i > 0 {
        law_ended_stays_ended(r, commands.drop_first(), i - 1);
    }
}

/// There is one observation for each command.
pub proof fn lemma_observe_len(r: RunnerView, commands: Seq<Command>)
    ensures
        observe(r, commands).len() == commands.len(),
    decreases commands.len(),
{
    if commands.len() > 0 {
        let (next, result) = step(r, commands[0]);
        lemma_observe_len(drained(next), commands.drop_first());
    }
}

/// The events of `events` that record a change of `name`, in order.
pub open spec fn events_named(events: Seq<EventView>, name: Seq<char>) -> Seq<EventView>
    decreases events.len(),
{
    if events.len() == 0 {
        Seq::empty()
    } else {
        let before = events_named(events.drop_last(), name);
        if events.last().name() == name {
            before.push(events.last())
        } else {
            before
        }
    }
}

/// The events named `name` among `events` followed by at most one more.
proof fn lemma_events_named_append(events: Seq<EventView>, more: Option<EventView>, name: Seq<char>)
    ensures
        events_named(events + event_seq(more), name) == match more {
            Some(e) => if e.name() == name {
                events_named(events, name).push(e)
            } else {
                events_named(events, name)
            },
            None => events_named(events, name),
        },
{
    match more {
        Some(e) => {
            let all = events + event_seq(more);
            assert(all.drop_last() =~= events);
            assert(all.last() == e);
        },
        None => {
            assert(events + event_seq(more) =~= events);
        },
    }
}

/// What adding the first `n` deltas does to the variable named by the delta at
/// `k`, where no two deltas name one variable.
proof fn lemma_prefix_effect(vars: Map<Seq<char>, int>, deltas: Seq<DeltaView>, k: int, n: int)
    requires
        distinct_names(deltas),
        0 <= k < deltas.len(),
        0 <= n <= deltas.len(),
    ensures
        value_of(apply_deltas(vars, deltas.take(n)), deltas[k].name) == if n <= k {
            value_of(vars, deltas[k].name)
        } else {
            value_of(apply_delta(vars, deltas[k].name, deltas[k].delta), deltas[k].name)
        },
        events_named(delta_events(vars, deltas.take(n)), deltas[k].name) == if n <= k {
            Seq::<EventView>::empty()
        } else {
            event_seq(delta_event(vars, deltas[k].name, deltas[k].delta))
        },
    decreases n,
{
    let name = deltas[k].name;
    if n > 0 {
        let prefix = deltas.take(n);
        let before = deltas.take(n - 1);
        assert(prefix.drop_last() =~= before);
        assert(prefix.last() == deltas[n - 1]);
        lemma_prefix_effect(vars, deltas, k, n - 1);
        let d = deltas[n - 1];
        let mid = apply_deltas(vars, before);
        lemma_events_named_append(delta_events(vars, before), delta_event(mid, d.name, d.delta), name);
        if n - 1 == k {
            assert(value_of(mid, name) == value_of(vars, name));
            assert(delta_event(mid, name, d.delta) == delta_event(vars, name, d.delta));
            match delta_event(vars, name, d.delta) {
                Some(e) => {
                    assert(Seq::<EventView>::empty().push(e) =~= seq![e]);
                },
                None => {},
            }
        } else {
            assert(d.name != name) by {
                if n - 1 < k {
                    assert(deltas[n - 1].name != deltas[k].name);
                } else {
                    assert(deltas[k].name != deltas[n - 1].name);
                }
            }
        }
    }
}

/// Event and variable consistency. Let a runner be at a choice, and let the
/// option at `index` name no variable twice. For each delta `d` of that
/// option, on a variable `v` that stood at `x`: after `select_choice(index)`
/// the variable reads as `x + d` brought into the range of `i32`, and among
/// the events that the call queued exactly one records a change of `v`, from
/// `x` to that value, unless the value did not change, in which case none
/// does.
pub proof fn law_selection_is_consistent(r: RunnerView, index: int, k: int)
    requires
        r.current_node() matches Some(NodeView::Choice { choices, .. }) && 0 <= index
            < choices.len() && distinct_names(choices[index].deltas) && 0 <= k
            < choices[index].deltas.len(),
    ensures
        ({
            let option = r.current_node()->Some_0->Choice_choices[index];
            let d = option.deltas[k];
            let after = r.select_choice(index).0;
            let queued = delta_events(r.variables, option.deltas);
            &&& after.events == r.events + queued
            &&& value_of(after.variables, d.name) == value_of(
                apply_delta(r.variables, d.name, d.delta),
                d.name,
            )
            &&& events_named(queued, d.name) == event_seq(delta_event(r.variables, d.name, d.delta))
        }),
{
    let option = r.current_node()->Some_0->Choice_choices[index];
    lemma_prefix_effect(r.variables, option.deltas, k, option.deltas.len() as int);
    assert(option.deltas.take(option.deltas.len() as int) =~= option.deltas);
}

/// The same, where the sum stays in the range of `i32`, in plain numbers: the
/// variable reads as `x + d`, and the events of the call that name it are the
/// one event `VariableChanged { v, x, x + d }` if `d` is not zero, and none
/// if it is.
pub proof fn law_selection_adds_delta(r: RunnerView, index: int, k: int)
    requires
        r.current_node() matches Some(NodeView::Choice { choices, .. }) && 0 <= index
            < choices.len() && distinct_names(choices[index].deltas) && 0 <= k
            < choices[index].deltas.len() && i32::MIN <= value_of(
            r.variables,
            choices[index].deltas[k].name,
        ) + choices[index].deltas[k].delta <= i32::MAX,
    ensures
        ({
            let option = r.current_node()->Some_0->Choice_choices[index];
            let d = option.deltas[k];
            let x = value_of(r.variables, d.name);
            let after = r.select_choice(index).0;
            let queued = delta_events(r.variables, option.deltas);
            &&& value_of(after.variables, d.name) == x + d.delta
            &&& events_named(queued, d.name) == if d.delta != 0 {
                seq![
                    EventView::VariableChanged {
                        name: d.name,
                        old_value: x,
                        new_value: x + d.delta,
                    },
                ]
            } else {
                Seq::<EventView>::empty()
            }
        }),
{
    law_selection_is_consistent(r, index, k);
}

/// Taking an option without deltas queues no event and leaves the variables
/// as they are.
pub proof fn law_no_deltas_emit_nothing(r: RunnerView, index: int)
    requires
        r.current_node() matches Some(NodeView::Choice { choices, .. }) && 0 <= index
            < choices.len() && choices[index].deltas.len() == 0,
    ensures
        r.select_choice(index).0.events == r.events,
        r.select_choice(index).0.variables == r.variables,
{
    let option = r.current_node()->Some_0->Choice_choices[index];
    assert(r.events + delta_events(r.variables, option.deltas) =~= r.events);
}

/// Whether every variable of a store has a value in the range of `i32`, as
/// every variable of a runner has.
pub open spec fn in_range(vars: Map<Seq<char>, int>) -> bool {
    forall|name: Seq<char>| vars.dom().contains(name) ==> i32::MIN <= #[trigger] vars[name] <= i32::MAX
}

/// Deltas that are all zero queue no event and leave every variable at its
/// value.
pub proof fn law_zero_deltas_emit_nothing(vars: Map<Seq<char>, int>, deltas: Seq<DeltaView>)
    requires
        forall|i: int| 0 <= i < deltas.len() ==> (#[trigger] deltas[i]).delta == 0,
        in_range(vars),
    ensures
        in_range(apply_deltas(vars, deltas)),
        delta_events(vars, deltas) == Seq::<EventView>::empty(),
        forall|name: Seq<char>|
            value_of(vars, name) == #[trigger] value_of(apply_deltas(vars, deltas), name),
    decreases deltas.len(),
{
    if deltas.len() > 0 {
        let before = deltas.drop_last();
        let d = deltas.last();
        law_zero_deltas_emit_nothing(vars, before);
        let mid = apply_deltas(vars, before);
        assert(value_of(mid, d.name) == value_of(vars, d.name));
        assert(delta_event(mid, d.name, d.delta) is None);
        assert(delta_events(vars, deltas) =~= Seq::<EventView>::empty());
        assert forall|name: Seq<char>| value_of(vars, name) == #[trigger] value_of(
            apply_deltas(vars, deltas),
            name,
        ) by {
            assert(value_of(vars, name) == value_of(mid, name));
        }
    }
}

} // verus!
