use fish_dating::dialogue::node::{Choice, DialogueNode, Speaker};
use fish_dating::dialogue::runner::{DialogueRunner, DialogueState, RunnerError};
use fish_dating::dialogue::tree::{DialogueBuilder, DialogueTree, GraphError};
use fish_dating::dialogue::variables::{DialogueEvent, VariableStore};

fn text(id: &str, speaker: Option<&str>, line: &str, next: Option<&str>) -> DialogueNode {
    DialogueNode::Text {
        id: id.to_string(),
        speaker: speaker.map(|s| s.to_string()),
        text: line.to_string(),
        next_node: next.map(|s| s.to_string()),
    }
}

fn hi_tree() -> DialogueTree {
    DialogueBuilder::new("start")
        .node(text("start", None, "Hi", Some("end")))
        .node(DialogueNode::end("end"))
        .build()
        .expect("a graph without dangling edges")
}

fn pick_tree() -> DialogueTree {
    DialogueBuilder::new("start")
        .node(DialogueNode::choice(
            "start",
            "Pick",
            vec![
                Choice::new("A", "end").sets("affection", 3),
                Choice::new("B", "end").sets("affection", 1),
            ],
        ))
        .node(DialogueNode::end("end"))
        .build()
        .expect("a graph without dangling edges")
}

fn changed(name: &str, old_value: i32, new_value: i32) -> DialogueEvent {
    DialogueEvent::VariableChanged { name: name.to_string(), old_value, new_value }
}

#[test]
fn text_then_end() {
    let mut runner = DialogueRunner::new(hi_tree());
    match runner.current() {
        DialogueState::Text { speaker, text } => {
            assert!(speaker.is_none());
            assert_eq!(text, "Hi");
        }
        other => panic!("expected a text, got {:?}", other),
    }
    assert_eq!(runner.advance(), Ok(()));
    assert!(matches!(runner.current(), DialogueState::End));
    assert!(runner.is_ended());
    assert_eq!(runner.poll_event(), None);
}

#[test]
fn choice_applies_delta_and_emits_event() {
    let mut runner = DialogueRunner::new(pick_tree());
    match runner.current() {
        DialogueState::Choices { prompt, choices } => {
            assert_eq!(prompt.as_deref(), Some("Pick"));
            assert_eq!(choices.len(), 2);
            assert_eq!(choices[0].text, "A");
            assert_eq!(choices[1].text, "B");
        }
        other => panic!("expected a choice, got {:?}", other),
    }
    assert_eq!(runner.select_choice(0), Ok(()));
    assert_eq!(runner.poll_event(), Some(changed("affection", 0, 3)));
    assert_eq!(runner.poll_event(), None);
    assert_eq!(runner.variable("affection"), 3);
    assert!(matches!(runner.current(), DialogueState::End));
}

#[test]
fn second_option_adds_its_own_delta() {
    let mut runner = DialogueRunner::new(pick_tree());
    assert_eq!(runner.select_choice(1), Ok(()));
    assert_eq!(runner.poll_event(), Some(changed("affection", 0, 1)));
    assert_eq!(runner.variable("affection"), 1);
}

#[test]
fn select_out_of_range_is_refused() {
    let mut runner = DialogueRunner::new(pick_tree());
    assert_eq!(runner.select_choice(5), Err(RunnerError::IndexOutOfRange));
    assert_eq!(runner.select_choice(2), Err(RunnerError::IndexOutOfRange));
    assert!(matches!(runner.current(), DialogueState::Choices { .. }));
    assert_eq!(runner.pending_events(), 0);
    assert_eq!(runner.variable("affection"), 0);
}

#[test]
fn advance_at_choice_is_refused() {
    let mut runner = DialogueRunner::new(pick_tree());
    assert_eq!(runner.advance(), Err(RunnerError::InvalidOperation));
    assert!(matches!(runner.current(), DialogueState::Choices { .. }));
}

#[test]
fn select_at_text_is_refused() {
    let mut runner = DialogueRunner::new(hi_tree());
    assert_eq!(runner.select_choice(0), Err(RunnerError::InvalidOperation));
    assert!(matches!(runner.current(), DialogueState::Text { .. }));
}

#[test]
fn ended_runner_stays_ended() {
    let mut runner = DialogueRunner::new(pick_tree());
    runner.select_choice(0).unwrap();
    while runner.poll_event().is_some() {}
    for _ in 0..3 {
        assert_eq!(runner.advance(), Err(RunnerError::InvalidOperation));
        assert_eq!(runner.select_choice(0), Err(RunnerError::InvalidOperation));
        assert!(runner.is_ended());
        assert_eq!(runner.poll_event(), None);
        assert_eq!(runner.variable("affection"), 3);
    }
}

#[test]
fn current_is_idempotent() {
    let runner = DialogueRunner::new(pick_tree());
    let first = format!("{:?}", runner.current());
    let second = format!("{:?}", runner.current());
    let third = format!("{:?}", runner.current());
    assert_eq!(first, second);
    assert_eq!(second, third);
}

#[test]
fn runs_are_deterministic() {
    let mut traces = Vec::new();
    for _ in 0..2 {
        let mut runner = DialogueRunner::new(pick_tree());
        let mut trace = Vec::new();
        trace.push(format!("{:?}", runner.current()));
        trace.push(format!("{:?}", runner.advance()));
        trace.push(format!("{:?}", runner.select_choice(1)));
        while let Some(e) = runner.poll_event() {
            trace.push(format!("{:?}", e));
        }
        trace.push(format!("{:?}", runner.current()));
        traces.push(trace);
    }
    assert_eq!(traces[0], traces[1]);
}

#[test]
fn speaker_is_resolved_for_presentation() {
    let tree = DialogueBuilder::new("start")
        .title("Hello")
        .speaker(Speaker::new("bubbles", "Bubbles"))
        .node(DialogueNode::text("start", "bubbles", "Hey!", "more"))
        .node(DialogueNode::text("more", "nobody", "...", "end"))
        .node(DialogueNode::end("end"))
        .build()
        .unwrap();
    assert_eq!(tree.title(), "Hello");
    assert_eq!(tree.start_node(), "start");
    assert_eq!(tree.node_count(), 3);
    let mut runner = DialogueRunner::new(tree);
    match runner.current() {
        DialogueState::Text { speaker, text } => {
            assert_eq!(speaker.unwrap().display_name(), "Bubbles");
            assert_eq!(text, "Hey!");
        }
        other => panic!("expected a text, got {:?}", other),
    }
    runner.advance().unwrap();
    match runner.current() {
        DialogueState::Text { speaker, .. } => assert!(speaker.is_none()),
        other => panic!("expected a text, got {:?}", other),
    }
}

#[test]
fn validation_refuses_dangling_next_node() {
    let result = DialogueBuilder::new("start")
        .node(text("start", None, "Hi", Some("nowhere")))
        .node(DialogueNode::end("end"))
        .build();
    match result {
        Err(GraphError::UnknownNextNode { node, target }) => {
            assert_eq!(node, "start");
            assert_eq!(target, "nowhere");
        }
        other => panic!("expected an unknown next node, got {:?}", other),
    }
}

#[test]
fn validation_refuses_dangling_choice_target() {
    let result = DialogueBuilder::new("start")
        .node(DialogueNode::choice(
            "start",
            "Pick",
            vec![Choice::new("A", "end"), Choice::new("B", "gone"), Choice::new("C", "lost")],
        ))
        .node(DialogueNode::end("end"))
        .build();
    match result {
        Err(GraphError::UnknownChoiceTarget { node, target }) => {
            assert_eq!(node, "start");
            assert_eq!(target, "gone");
        }
        other => panic!("expected an unknown choice target, got {:?}", other),
    }
}

#[test]
fn validation_refuses_empty_graph() {
    assert!(matches!(DialogueBuilder::new("start").build(), Err(GraphError::EmptyGraph)));
}

#[test]
fn validation_refuses_duplicate_id() {
    let result = DialogueBuilder::new("a")
        .node(DialogueNode::end("a"))
        .node(DialogueNode::end("b"))
        .node(DialogueNode::end("a"))
        .build();
    match result {
        Err(GraphError::DuplicateNodeId(id)) => assert_eq!(id, "a"),
        other => panic!("expected a duplicate id, got {:?}", other),
    }
}

#[test]
fn validation_refuses_missing_start() {
    let result = DialogueBuilder::new("begin").node(DialogueNode::end("end")).build();
    match result {
        Err(GraphError::StartNodeNotFound(id)) => assert_eq!(id, "begin"),
        other => panic!("expected a missing start, got {:?}", other),
    }
}

#[test]
fn validation_reports_duplicate_before_missing_start() {
    let result = DialogueBuilder::new("begin")
        .node(DialogueNode::end("x"))
        .node(DialogueNode::end("x"))
        .build();
    assert!(matches!(result, Err(GraphError::DuplicateNodeId(_))));
}

#[test]
fn unchecked_graph_ends_at_dangling_next_node() {
    let tree = DialogueBuilder::new("start")
        .node(text("start", None, "Hi", Some("nowhere")))
        .build_unchecked();
    assert!(tree.validate().is_err());
    let mut runner = DialogueRunner::new(tree);
    assert!(matches!(runner.current(), DialogueState::Text { .. }));
    assert_eq!(runner.advance(), Ok(()));
    assert!(matches!(runner.current(), DialogueState::End));
    assert_eq!(runner.advance(), Err(RunnerError::InvalidOperation));
}

#[test]
fn unchecked_graph_ends_at_dangling_choice_target() {
    let tree = DialogueBuilder::new("start")
        .node(DialogueNode::choice("start", "Pick", vec![Choice::new("A", "gone").sets("x", 2)]))
        .build_unchecked();
    let mut runner = DialogueRunner::new(tree);
    assert_eq!(runner.select_choice(0), Ok(()));
    assert!(runner.is_ended());
    assert_eq!(runner.poll_event(), Some(changed("x", 0, 2)));
}

#[test]
fn unchecked_graph_with_missing_start_is_ended() {
    let tree = DialogueBuilder::new("start").build_unchecked();
    let runner = DialogueRunner::new(tree);
    assert!(matches!(runner.current(), DialogueState::End));
}

#[test]
fn text_without_successor_ends() {
    let tree = DialogueBuilder::new("start").node(text("start", None, "Bye", None)).build().unwrap();
    let mut runner = DialogueRunner::new(tree);
    assert_eq!(runner.advance(), Ok(()));
    assert!(runner.is_ended());
}

#[test]
fn later_node_with_same_id_is_found() {
    let tree = DialogueBuilder::new("a")
        .node(text("a", None, "first", None))
        .node(text("a", None, "second", None))
        .build_unchecked();
    match tree.node("a") {
        Some(DialogueNode::Text { text, .. }) => assert_eq!(text, "second"),
        other => panic!("expected a text, got {:?}", other),
    }
    assert!(tree.node("b").is_none());
}

#[test]
fn deltas_accumulate_over_choices() {
    let tree = DialogueBuilder::new("q1")
        .node(DialogueNode::choice(
            "q1",
            "One",
            vec![Choice::new("A", "q2").sets("affection", 3).sets("trust", -2)],
        ))
        .node(DialogueNode::choice(
            "q2",
            "Two",
            vec![Choice::new("B", "end").sets("affection", 4).sets("calm", 0)],
        ))
        .node(DialogueNode::end("end"))
        .build()
        .unwrap();
    let mut runner = DialogueRunner::new(tree);
    runner.select_choice(0).unwrap();
    assert_eq!(runner.poll_event(), Some(changed("affection", 0, 3)));
    assert_eq!(runner.poll_event(), Some(changed("trust", 0, -2)));
    assert_eq!(runner.poll_event(), None);
    runner.select_choice(0).unwrap();
    assert_eq!(runner.poll_event(), Some(changed("affection", 3, 7)));
    assert_eq!(runner.poll_event(), None);
    assert_eq!(runner.variable("affection"), 7);
    assert_eq!(runner.variable("trust"), -2);
    assert_eq!(runner.variable("calm"), 0);
    assert_eq!(runner.variable("unknown"), 0);
}

#[test]
fn events_wait_in_order_until_polled() {
    let tree = DialogueBuilder::new("q1")
        .node(DialogueNode::choice("q1", "One", vec![Choice::new("A", "q2").sets("a", 1)]))
        .node(DialogueNode::choice("q2", "Two", vec![Choice::new("B", "end").sets("b", 2)]))
        .node(DialogueNode::end("end"))
        .build()
        .unwrap();
    let mut runner = DialogueRunner::new(tree);
    runner.select_choice(0).unwrap();
    runner.select_choice(0).unwrap();
    assert_eq!(runner.pending_events(), 2);
    assert_eq!(runner.poll_event(), Some(changed("a", 0, 1)));
    assert_eq!(runner.poll_event(), Some(changed("b", 0, 2)));
    assert_eq!(runner.poll_event(), None);
}

#[test]
fn sets_overwrites_a_delta_of_the_same_name() {
    let choice = Choice::new("A", "end").sets("affection", 3).sets("mood", 1).sets("affection", 5);
    assert_eq!(choice.deltas.len(), 2);
    assert_eq!(choice.deltas[0].name, "affection");
    assert_eq!(choice.deltas[0].delta, 5);
    assert_eq!(choice.deltas[1].name, "mood");
    assert_eq!(choice.deltas[1].delta, 1);
}

#[test]
fn variable_store_saturates() {
    let mut store = VariableStore::new();
    assert_eq!(store.get("x"), 0);
    assert_eq!(store.apply("x", i32::MAX), Some(changed("x", 0, i32::MAX)));
    assert_eq!(store.apply("x", 1), None);
    assert_eq!(store.get("x"), i32::MAX);
    assert_eq!(store.apply("y", i32::MIN), Some(changed("y", 0, i32::MIN)));
    assert_eq!(store.apply("y", -5), None);
    assert_eq!(store.get("y"), i32::MIN);
    assert_eq!(store.apply("y", 7), Some(changed("y", i32::MIN, i32::MIN + 7)));
}

#[test]
fn variable_store_emits_nothing_for_zero() {
    let mut store = VariableStore::new();
    assert_eq!(store.apply("x", 0), None);
    assert_eq!(store.get("x"), 0);
    assert_eq!(store.apply("x", 4), Some(changed("x", 0, 4)));
    assert_eq!(store.apply("x", 0), None);
    assert_eq!(store.apply("x", -4), Some(changed("x", 4, 0)));
}

#[test]
fn copies_are_independent() {
    let tree = pick_tree();
    let mut first = DialogueRunner::new(tree.copy());
    let second = DialogueRunner::new(tree);
    first.select_choice(0).unwrap();
    assert!(first.is_ended());
    assert!(!second.is_ended());
    assert_eq!(second.variable("affection"), 0);
}
