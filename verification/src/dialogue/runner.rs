//! The runner: a cursor that walks one conversation graph, step by step.
//!
//! A runner is in one of three states, which depend on the node that its
//! cursor points at: at a text, at a choice, or ended. A cursor that points at
//! no node of the graph counts as ended. Nothing moves a runner but a call of
//! `advance` or `select_choice`; what a call does is given by the spec function
//! of the same name on [`RunnerView`].

use crate::dialogue::node::{
    choices_view, copy_choices, copy_opt_string, deltas_view, opt_str_view, Choice, ChoiceView,
    DeltaView, DialogueNode, NodeView, Speaker, SpeakerView,
};
use crate::dialogue::tree::{DialogueTree, TreeView};
use crate::dialogue::variables::{
    apply_delta, delta_event, events_view, opt_event_view, value_of, DialogueEvent, EventView,
    VariableStore,
};
use vstd::prelude::*;

verus! {

/// Why a call on a runner was refused. Both errors are mistakes of the
/// caller; neither changes the runner.
#[derive(Clone, Copy, Debug, PartialEq, Eq, Structural)]
pub enum RunnerError {
    /// `advance` where the runner is not at a text, or `select_choice` where
    /// it is not at a choice.
    InvalidOperation,
    /// `select_choice` with an index that is not below the number of options.
    IndexOutOfRange,
}

/// What a runner presents in its current state.
#[derive(Clone, Debug)]
pub enum DialogueState {
    /// A line of text, with the speaker if the node names one that the graph
    /// knows.
    Text { speaker: Option<Speaker>, text: String },
    /// A prompt and the options to choose from, in selection order.
    Choices { prompt: Option<String>, choices: Vec<Choice> },
    /// The conversation is over.
    End,
}

/// The mathematical value of a [`DialogueState`].
pub enum StateView {
    Text { speaker: Option<SpeakerView>, text: Seq<char> },
    Choices { prompt: Option<Seq<char>>, choices: Seq<ChoiceView> },
    End,
}

/// The mathematical value of an optional speaker.
pub open spec fn opt_speaker_view(s: Option<Speaker>) -> Option<SpeakerView> {
    match s {
        Some(sp) => Some(sp@),
        None => None,
    }
}

impl View for DialogueState {
    type V = StateView;

    open spec fn view(&self) -> StateView {
        match *self {
            DialogueState::Text { speaker, text } => StateView::Text {
                speaker: opt_speaker_view(speaker),
                text: text@,
            },
            DialogueState::Choices { prompt, choices } => StateView::Choices {
                prompt: opt_str_view(prompt),
                choices: choices_view(choices@),
            },
            DialogueState::End => StateView::End,
        }
    }
}

/// The store after the deltas were added, one after the other.
pub open spec fn apply_deltas(vars: Map<Seq<char>, int>, deltas: Seq<DeltaView>) -> Map<
    Seq<char>,
    int,
>
    decreases deltas.len(),
{
    if deltas.len() == 0 {
        vars
    } else {
        let d = deltas.last();
        apply_delta(apply_deltas(vars, deltas.drop_last()), d.name, d.delta)
    }
}

/// The zero or one events of one delta, as a sequence.
pub open spec fn event_seq(e: Option<EventView>) -> Seq<EventView> {
    match e {
        Some(ev) => seq![ev],
        None => Seq::empty(),
    }
}

/// The events that adding the deltas, one after the other, gives rise to: for
/// each delta, in order, the record of its change if it changed the value.
pub open spec fn delta_events(vars: Map<Seq<char>, int>, deltas: Seq<DeltaView>) -> Seq<EventView>
    decreases deltas.len(),
{
    if deltas.len() == 0 {
        Seq::empty()
    } else {
        let d = deltas.last();
        let before = deltas.drop_last();
        delta_events(vars, before) + event_seq(
            delta_event(apply_deltas(vars, before), d.name, d.delta),
        )
    }
}

/// The mathematical value of a runner.
pub struct RunnerView {
    /// The graph, which no call changes.
    pub tree: TreeView,
    /// The id that the cursor points at, or nothing once a text without a
    /// successor was left.
    pub current: Option<Seq<char>>,
    /// The variables.
    pub variables: Map<Seq<char>, int>,
    /// The events that were not polled yet, oldest first.
    pub events: Seq<EventView>,
}

impl RunnerView {
    /// A runner at the start node of `tree`, with no variable written and no
    /// event pending.
    pub open spec fn start(tree: TreeView) -> RunnerView {
        RunnerView {
            tree,
            current: Some(tree.start_node),
            variables: Map::empty(),
            events: Seq::empty(),
        }
    }

    /// The node that the cursor points at, if it points at one.
    pub open spec fn current_node(self) -> Option<NodeView> {
        match self.current {
            Some(id) => self.tree.node(id),
            None => None,
        }
    }

    /// What the runner presents.
    pub open spec fn state(self) -> StateView {
        match self.current_node() {
            Some(NodeView::Text { speaker, text, .. }) => StateView::Text {
                speaker: match speaker {
                    Some(id) => self.tree.speaker(id),
                    None => None,
                },
                text,
            },
            Some(NodeView::Choice { prompt, choices, .. }) => StateView::Choices { prompt, choices },
            Some(NodeView::End { .. }) => StateView::End,
            None => StateView::End,
        }
    }

    /// Whether the conversation is over.
    pub open spec fn is_ended(self) -> bool {
        self.state() is End
    }

    /// The runner after `advance`, and what the call returns. At a text the
    /// cursor moves to the node's successor; anywhere else the call is
    /// refused and nothing changes.
    pub open spec fn advance(self) -> (RunnerView, Result<(), RunnerError>) {
        match self.current_node() {
            Some(NodeView::Text { next_node, .. }) => (
                RunnerView { current: next_node, ..self },
                Ok(()),
            ),
            _ => (self, Err(RunnerError::InvalidOperation)),
        }
    }

    /// The runner after `select_choice(index)`, and what the call returns. At
    /// a choice with an option at `index`, the option's deltas are added in
    /// order, their events are queued, and the cursor moves to the option's
    /// target; otherwise the call is refused and nothing changes.
    pub open spec fn select_choice(self, index: int) -> (RunnerView, Result<(), RunnerError>) {
        match self.current_node() {
            Some(NodeView::Choice { choices, .. }) => {
                if 0 <= index < choices.len() {
                    let option = choices[index];
                    (
                        RunnerView {
                            tree: self.tree,
                            current: Some(option.next_node),
                            variables: apply_deltas(self.variables, option.deltas),
                            events: self.events + delta_events(self.variables, option.deltas),
                        },
                        Ok(()),
                    )
                } else {
                    (self, Err(RunnerError::IndexOutOfRange))
                }
            },
            _ => (self, Err(RunnerError::InvalidOperation)),
        }
    }

    /// The runner after `poll_event`, and what the call returns: the oldest
    /// pending event, which leaves the queue, or nothing.
    pub open spec fn poll_event(self) -> (RunnerView, Option<EventView>) {
        if self.events.len() > 0 {
            (RunnerView { events: self.events.drop_first(), ..self }, Some(self.events[0]))
        } else {
            (self, None)
        }
    }
}

/// Walks one conversation graph under the caller's control.
#[derive(Clone, Debug)]
pub struct DialogueRunner {
    tree: DialogueTree,
    current: Option<String>,
    variables: VariableStore,
    events: Vec<DialogueEvent>,
}

impl View for DialogueRunner {
    type V = RunnerView;

    closed spec fn view(&self) -> RunnerView {
        RunnerView {
            tree: self.tree@,
            current: opt_str_view(self.current),
            variables: self.variables@,
            events: events_view(self.events@),
        }
    }
}

impl DialogueRunner {
    /// A runner at the start node of `tree`.
    pub fn new(tree: DialogueTree) -> (r: DialogueRunner)
        ensures
            r@ == RunnerView::start(tree@),
    {
        let start = tree.start_node().to_owned();
        let r = DialogueRunner {
            tree,
            current: Some(start),
            variables: VariableStore::new(),
            events: Vec::new(),
        };
        assert(r@.events =~= Seq::empty());
        r
    }

    /// The graph that this runner walks.
    pub fn tree(&self) -> (t: &DialogueTree)
        ensures
            t@ == self@.tree,
    {
        &self.tree
    }

    /// The node that the cursor points at, if it points at one.
    fn current_node(&self) -> (r: Option<&DialogueNode>)
        ensures
            match r {
                Some(n) => self@.current_node() == Some(n@),
                None => self@.current_node() is None,
            },
    {
        match &self.current {
            Some(id) => self.tree.node(id.as_str()),
            None => None,
        }
    }

    /// What the runner presents in its current state. The runner does not
    /// change.
    pub fn current(&self) -> (s: DialogueState)
        ensures
            s@ == self@.state(),
    {
        match self.current_node() {
            Some(DialogueNode::Text { speaker, text, .. }) => {
                let who = match speaker {
                    Some(id) => match self.tree.speaker(id.as_str()) {
                        Some(s) => Some(s.copy()),
                        None => None,
                    },
                    None => None,
                };
                DialogueState::Text { speaker: who, text: text.clone() }
            },
            Some(DialogueNode::Choice { prompt, choices, .. }) => DialogueState::Choices {
                prompt: copy_opt_string(prompt),
                choices: copy_choices(choices),
            },
            Some(DialogueNode::End { .. }) => DialogueState::End,
            None => DialogueState::End,
        }
    }

    /// Whether the conversation is over.
    pub fn is_ended(&self) -> (r: bool)
        ensures
            r == self@.is_ended(),
    {
        match self.current_node() {
            Some(DialogueNode::Text { .. }) => false,
            Some(DialogueNode::Choice { .. }) => false,
            Some(DialogueNode::End { .. }) => true,
            None => true,
        }
    }

    /// The value of the variable `name`: zero if no choice wrote it.
    pub fn variable(&self, name: &str) -> (r: i32)
        ensures
            r == value_of(self@.variables, name@),
    {
        self.variables.get(name)
    }

    /// The number of events that were not polled yet.
    pub fn pending_events(&self) -> (r: usize)
        ensures
            r == self@.events.len(),
    {
        self.events.len()
    }

    /// Leaves the text at which the runner is.
    pub fn advance(&mut self) -> (r: Result<(), RunnerError>)
        ensures
            (final(self)@, r) == old(self)@.advance(),
    {
        let next = match self.current_node() {
            Some(DialogueNode::Text { next_node, .. }) => copy_opt_string(next_node),
            _ => {
                return Err(RunnerError::InvalidOperation);
            },
        };
        self.current = next;
        Ok(())
    }

    /// Takes the option at `index` of the choice at which the runner is.
    pub fn select_choice(&mut self, index: usize) -> (r: Result<(), RunnerError>)
        ensures
            (final(self)@, r) == old(self)@.select_choice(index as int),
    {
        let option = match self.current_node() {
            Some(DialogueNode::Choice { choices, .. }) => {
                if index < choices.len() {
                    assert(choices_view(choices@)[index as int] == choices@[index as int]@);
                    choices[index].copy()
                } else {
                    return Err(RunnerError::IndexOutOfRange);
                }
            },
            _ => {
                return Err(RunnerError::InvalidOperation);
            },
        };
        let ghost deltas = option@.deltas;
        let ghost vars0 = self@.variables;
        let ghost events0 = self@.events;
        let mut i: usize = 0;
        assert(deltas.take(0) =~= Seq::empty());
        assert(events_view(self.events@) =~= events0 + delta_events(vars0, deltas.take(0)));
        while i < option.deltas.len()
            invariant
                i <= option.deltas.len(),
                deltas == deltas_view(option.deltas@),
                self.tree == old(self).tree,
                self.current == old(self).current,
                self.variables@ == apply_deltas(vars0, deltas.take(i as int)),
                events_view(self.events@) == events0 + delta_events(vars0, deltas.take(i as int)),
            decreases option.deltas.len() - i,
        {
            let ghost done = deltas.take(i as int);
            let ghost next = deltas.take(i + 1);
            let ghost queued = events_view(self.events@);
            assert(next.drop_last() =~= done);
            assert(next.last() == option.deltas@[i as int]@);
            let change = self.variables.apply(option.deltas[i].name.as_str(), option.deltas[i].delta);
            match change {
                Some(e) => {
                    self.events.push(e);
                    assert(events_view(self.events@) =~= queued + seq![e@]);
                },
                None => {
                    assert(queued + Seq::<EventView>::empty() =~= queued);
                },
            }
            assert(events_view(self.events@) =~= events0 + delta_events(vars0, next));
            i += 1;
        }
        assert(deltas.take(i as int) =~= deltas);
        self.current = Some(option.next_node);
        Ok(())
    }

    /// Takes the oldest pending event out of the queue.
    pub fn poll_event(&mut self) -> (r: Option<DialogueEvent>)
        ensures
            (final(self)@, opt_event_view(r)) == old(self)@.poll_event(),
    {
        if self.events.len() > 0 {
            let e = self.events.remove(0);
            assert(events_view(self.events@) =~= events_view(old(self).events@).drop_first());
            Some(e)
        } else {
            None
        }
    }
}

} // verus!
