use node_graph::gesture::DragState;
use node_graph::gesture::GestureOutcome;
use node_graph::gesture::RenderedConnector;
use node_graph::link::ConnectorRef;
use node_graph::link::Link;
use node_graph::node::Node;
use node_graph::node::NodeBody;
use node_graph::node_graph::NodeFrame;
use node_graph::node_graph::NodeGraph;
use node_graph::node_input::NodeInput;
use node_graph::node_output::NodeOutput;
use node_graph::node_store::NodeHandle;
use node_graph::node_store::MAX_NODES;
use node_graph::nodes::adder_node::AdderNode;
use node_graph::nodes::one_to_n_node::OneToNNode;
use node_graph::nodes::sink_node::SinkNode;
use node_graph::nodes::source_node::SourceNode;
use node_graph::value::TypeToken;
use node_graph::value::Value;
use node_graph::value::ValueKind;

type Point = (f32, f32);

const BYTE: TypeToken = TypeToken::Of(ValueKind::Byte);
const FLAG: TypeToken = TypeToken::Of(ValueKind::Flag);

/// A node with one input that takes flags and one output that gives the
/// latest of them.
#[derive(Clone, Debug, PartialEq)]
struct FlagNode {
    value: bool,
}

impl Node for FlagNode {
    fn title(&self) -> &str {
        "Flag"
    }

    fn body(&mut self) -> NodeBody {
        NodeBody {
            inputs: vec![NodeInput::input(ValueKind::Flag)],
            outputs: vec![NodeOutput::output(ValueKind::Flag)],
        }
    }

    fn input_type(&self, index: usize) -> Option<TypeToken> {
        if index == 0 {
            Some(FLAG)
        } else {
            None
        }
    }

    fn output_type(&self, index: usize) -> Option<TypeToken> {
        if index == 0 {
            Some(FLAG)
        } else {
            None
        }
    }

    fn produce(&mut self, _index: usize) -> Value {
        Value::Flag(self.value)
    }

    fn consume(&mut self, _index: usize, value: Value) {
        if let Value::Flag(flag) = value {
            self.value = flag;
        }
    }
}

#[derive(Clone, Debug, PartialEq)]
enum Kind {
    Source(SourceNode),
    Sink(SinkNode),
    Adder(AdderNode),
    Fan(OneToNNode),
    Flag(FlagNode),
}

impl Node for Kind {
    fn title(&self) -> &str {
        match self {
            Kind::Source(n) => n.title(),
            Kind::Sink(n) => n.title(),
            Kind::Adder(n) => n.title(),
            Kind::Fan(n) => n.title(),
            Kind::Flag(n) => n.title(),
        }
    }

    fn body(&mut self) -> NodeBody {
        match self {
            Kind::Source(n) => n.body(),
            Kind::Sink(n) => n.body(),
            Kind::Adder(n) => n.body(),
            Kind::Fan(n) => n.body(),
            Kind::Flag(n) => n.body(),
        }
    }

    fn input_type(&self, index: usize) -> Option<TypeToken> {
        match self {
            Kind::Source(n) => n.input_type(index),
            Kind::Sink(n) => n.input_type(index),
            Kind::Adder(n) => n.input_type(index),
            Kind::Fan(n) => n.input_type(index),
            Kind::Flag(n) => n.input_type(index),
        }
    }

    fn output_type(&self, index: usize) -> Option<TypeToken> {
        match self {
            Kind::Source(n) => n.output_type(index),
            Kind::Sink(n) => n.output_type(index),
            Kind::Adder(n) => n.output_type(index),
            Kind::Fan(n) => n.output_type(index),
            Kind::Flag(n) => n.output_type(index),
        }
    }

    fn produce(&mut self, index: usize) -> Value {
        match self {
            Kind::Source(n) => n.produce(index),
            Kind::Sink(n) => n.produce(index),
            Kind::Adder(n) => n.produce(index),
            Kind::Fan(n) => n.produce(index),
            Kind::Flag(n) => n.produce(index),
        }
    }

    fn consume(&mut self, index: usize, value: Value) {
        match self {
            Kind::Source(n) => n.consume(index, value),
            Kind::Sink(n) => n.consume(index, value),
            Kind::Adder(n) => n.consume(index, value),
            Kind::Fan(n) => n.consume(index, value),
            Kind::Flag(n) => n.consume(index, value),
        }
    }
}

fn source(value: u8) -> Kind {
    Kind::Source(SourceNode { value })
}

fn sink() -> Kind {
    Kind::Sink(SinkNode::default())
}

fn adder() -> Kind {
    Kind::Adder(AdderNode::default())
}

fn sink_value(graph: &NodeGraph<Kind, Point>, handle: NodeHandle) -> u8 {
    match graph.node(handle) {
        Some(Kind::Sink(sink)) => sink.value,
        other => panic!("no sink under the handle: {:?}", other),
    }
}

/// The connectors of a tick as a renderer would list them, none of them
/// touched by the pointer.
fn render(frames: &[NodeFrame]) -> Vec<RenderedConnector<Point>> {
    let mut rendered = Vec::new();
    for (row, frame) in frames.iter().enumerate() {
        for (index, input) in frame.body.inputs.iter().enumerate() {
            rendered.push(RenderedConnector {
                node: frame.handle,
                is_input: true,
                index,
                type_token: input.input_type,
                position: (0.0, row as f32),
                drag_started: false,
                drag_stopped: false,
                in_capture_range: false,
            });
        }
        for (index, output) in frame.body.outputs.iter().enumerate() {
            rendered.push(RenderedConnector {
                node: frame.handle,
                is_input: false,
                index,
                type_token: output.output_type,
                position: (1.0, row as f32),
                drag_started: false,
                drag_stopped: false,
                in_capture_range: false,
            });
        }
    }
    rendered
}

fn find(
    rendered: &mut [RenderedConnector<Point>],
    node: NodeHandle,
    is_input: bool,
    index: usize,
) -> &mut RenderedConnector<Point> {
    rendered
        .iter_mut()
        .find(|c| c.node == node && c.is_input == is_input && c.index == index)
        .unwrap()
}

/// Drags from an output to an input over two ticks: press on the output in
/// the first, let go over the input in the second. Returns what the second
/// tick made of it and what the links carried in it.
fn drag_link(
    graph: &mut NodeGraph<Kind, Point>,
    from: (NodeHandle, usize),
    to: (NodeHandle, usize),
) -> (GestureOutcome, Vec<Option<Value>>) {
    let frames = graph.begin_tick();
    let mut rendered = render(&frames);
    find(&mut rendered, from.0, false, from.1).drag_started = true;
    let (outcome, _) = graph.end_tick(&rendered);
    assert_eq!(outcome, GestureOutcome::Dragging);

    let frames = graph.begin_tick();
    let mut rendered = render(&frames);
    find(&mut rendered, from.0, false, from.1).drag_stopped = true;
    find(&mut rendered, to.0, true, to.1).in_capture_range = true;
    graph.end_tick(&rendered)
}

fn quiet_tick(graph: &mut NodeGraph<Kind, Point>) -> (GestureOutcome, Vec<Option<Value>>) {
    let frames = graph.begin_tick();
    let rendered = render(&frames);
    graph.end_tick(&rendered)
}

fn link(source: (NodeHandle, usize), dest: (NodeHandle, usize)) -> Link {
    Link {
        source: ConnectorRef { node: source.0, index: source.1 },
        dest: ConnectorRef { node: dest.0, index: dest.1 },
    }
}

#[test]
fn a_new_graph_is_empty() {
    let graph: NodeGraph<Kind, Point> = NodeGraph::new();
    assert_eq!(graph.node_count(), 0);
    assert!(graph.links().is_empty());
    assert!(graph.registered_nodes().is_empty());
    assert_eq!(*graph.link_drag_info(), None);
    assert!(!graph.next_frame_link_dropped());
    assert!(!graph.selector_panel_enabled);
    assert_eq!(graph.handle_at(0), None);
}

#[test]
fn added_nodes_keep_their_order_handles_and_positions() {
    let mut graph: NodeGraph<Kind, Point> = NodeGraph::new();
    let a = graph.add_node(source(1), (1.0, 10.0));
    let b = graph.add_node(sink(), (2.0, 20.0));
    let c = graph.add_node(source(3), (3.0, 30.0));
    assert_eq!(graph.node_count(), 3);
    assert_ne!(a, b);
    assert_ne!(a, c);
    assert_ne!(b, c);
    assert_eq!(graph.handle_at(0), Some(a));
    assert_eq!(graph.handle_at(1), Some(b));
    assert_eq!(graph.handle_at(2), Some(c));
    assert_eq!(graph.handle_at(3), None);
    assert_eq!(graph.place_of(a), Some(0));
    assert_eq!(graph.place_of(b), Some(1));
    assert_eq!(graph.place_of(c), Some(2));
    assert_eq!(graph.node(a), Some(&source(1)));
    assert_eq!(graph.node(b), Some(&sink()));
    assert_eq!(graph.node(c), Some(&source(3)));
    assert_eq!(graph.position(a), Some(&(1.0, 10.0)));
    assert_eq!(graph.position(b), Some(&(2.0, 20.0)));
    assert_eq!(graph.position(c), Some(&(3.0, 30.0)));
}

#[test]
fn a_handle_that_was_never_issued_names_no_node() {
    let mut graph: NodeGraph<Kind, Point> = NodeGraph::new();
    let a = graph.add_node(source(1), (0.0, 0.0));
    for raw in [0, 1, 2, u64::MAX, a.raw + 1, a.raw ^ 0x1_0000_0000, a.raw + 0x2_0000_0000] {
        let stranger = NodeHandle { raw };
        assert_eq!(graph.place_of(stranger), None);
        assert_eq!(graph.node(stranger), None);
        assert_eq!(graph.position(stranger), None);
        assert!(graph.node_mut(stranger).is_none());
    }
    assert_eq!(graph.node(a), Some(&source(1)));
}

#[test]
fn node_mut_changes_that_node_only() {
    let mut graph: NodeGraph<Kind, Point> = NodeGraph::new();
    let a = graph.add_node(source(1), (0.0, 0.0));
    let b = graph.add_node(source(2), (0.0, 0.0));
    *graph.node_mut(a).unwrap() = source(50);
    assert_eq!(graph.node(a), Some(&source(50)));
    assert_eq!(graph.node(b), Some(&source(2)));
}

#[test]
fn registering_twice_offers_twice() {
    let mut graph: NodeGraph<Kind, Point> = NodeGraph::new();
    graph.register_node(source(5));
    graph.register_node(sink());
    graph.register_node(source(5));
    assert_eq!(graph.registered_nodes(), &vec![source(5), sink(), source(5)]);
    assert_eq!(graph.node_count(), 0);
}

#[test]
fn a_spawned_node_is_independent_of_its_prototype() {
    let mut graph: NodeGraph<Kind, Point> = NodeGraph::new();
    graph.register_node(source(5));
    graph.register_node(sink());
    let first = graph.spawn(0, (4.0, 2.0)).unwrap();
    assert_eq!(graph.node(first), Some(&source(5)));
    assert_eq!(graph.position(first), Some(&(4.0, 2.0)));

    *graph.node_mut(first).unwrap() = source(99);
    assert_eq!(graph.registered_nodes(), &vec![source(5), sink()]);

    let second = graph.spawn(0, (0.0, 0.0)).unwrap();
    assert_ne!(first, second);
    assert_eq!(graph.node(second), Some(&source(5)));
    assert_eq!(graph.node(first), Some(&source(99)));

    let taker = graph.spawn(1, (0.0, 0.0)).unwrap();
    let (outcome, _) = drag_link(&mut graph, (first, 0), (taker, 0));
    assert!(matches!(outcome, GestureOutcome::Linked(_)));
    assert_eq!(sink_value(&graph, taker), 99);
    assert_eq!(graph.registered_nodes(), &vec![source(5), sink()]);
    assert_eq!(graph.node_count(), 3);
}

#[test]
fn spawning_from_an_empty_place_of_the_palette_does_nothing() {
    let mut graph: NodeGraph<Kind, Point> = NodeGraph::new();
    assert_eq!(graph.spawn(0, (0.0, 0.0)), None);
    graph.register_node(sink());
    assert_eq!(graph.spawn(1, (0.0, 0.0)), None);
    assert_eq!(graph.spawn(usize::MAX, (0.0, 0.0)), None);
    assert_eq!(graph.node_count(), 0);
    assert!(graph.spawn(0, (0.0, 0.0)).is_some());
    assert_eq!(graph.node_count(), 1);
}

#[test]
fn the_store_holds_fewer_than_two_to_the_thirty_second_nodes() {
    assert_eq!(MAX_NODES, 4_294_967_294);
}

#[test]
fn beginning_a_tick_lists_what_each_node_shows() {
    let mut graph: NodeGraph<Kind, Point> = NodeGraph::new();
    let a = graph.add_node(source(1), (0.0, 0.0));
    let b = graph.add_node(adder(), (0.0, 0.0));
    let frames = graph.begin_tick();
    assert_eq!(
        frames,
        vec![
            NodeFrame {
                handle: a,
                body: NodeBody { inputs: vec![], outputs: vec![NodeOutput::new(ValueKind::Byte)] },
            },
            NodeFrame {
                handle: b,
                body: NodeBody {
                    inputs: vec![NodeInput::new(ValueKind::Byte), NodeInput::new(ValueKind::Byte)],
                    outputs: vec![NodeOutput::new(ValueKind::Byte)],
                },
            },
        ]
    );
}

#[test]
fn beginning_a_tick_asks_each_node_for_its_body() {
    let mut graph: NodeGraph<Kind, Point> = NodeGraph::new();
    let fan = graph.add_node(
        Kind::Fan(OneToNNode { value_1: 6, output_count: 3, shown_outputs: 0 }),
        (0.0, 0.0),
    );
    let frames = graph.begin_tick();
    assert_eq!(frames[0].body.outputs.len(), 3);
    assert_eq!(
        graph.node(fan),
        Some(&Kind::Fan(OneToNNode { value_1: 6, output_count: 1, shown_outputs: 3 }))
    );
}

#[test]
fn source_feeds_sink() {
    let mut graph: NodeGraph<Kind, Point> = NodeGraph::new();
    let giver = graph.add_node(source(42), (0.0, 0.0));
    let taker = graph.add_node(sink(), (100.0, 0.0));
    let (outcome, sent) = drag_link(&mut graph, (giver, 0), (taker, 0));
    assert_eq!(outcome, GestureOutcome::Linked(link((giver, 0), (taker, 0))));
    assert_eq!(graph.links(), &vec![link((giver, 0), (taker, 0))]);
    assert_eq!(sent, vec![Some(Value::Byte(42))]);
    assert_eq!(sink_value(&graph, taker), 42);
    assert_eq!(*graph.link_drag_info(), None);

    *graph.node_mut(giver).unwrap() = source(7);
    let (outcome, sent) = quiet_tick(&mut graph);
    assert_eq!(outcome, GestureOutcome::Idle);
    assert_eq!(sent, vec![Some(Value::Byte(7))]);
    assert_eq!(sink_value(&graph, taker), 7);
}

#[test]
fn adder_of_250_and_10_gives_4() {
    let mut graph: NodeGraph<Kind, Point> = NodeGraph::new();
    let left = graph.add_node(source(250), (0.0, 0.0));
    let right = graph.add_node(source(10), (0.0, 50.0));
    let sum = graph.add_node(adder(), (100.0, 0.0));
    let taker = graph.add_node(sink(), (200.0, 0.0));
    drag_link(&mut graph, (left, 0), (sum, 0));
    drag_link(&mut graph, (right, 0), (sum, 1));
    let (_, sent) = drag_link(&mut graph, (sum, 0), (taker, 0));
    assert_eq!(sent, vec![Some(Value::Byte(250)), Some(Value::Byte(10)), Some(Value::Byte(4))]);
    assert_eq!(graph.node(sum), Some(&Kind::Adder(AdderNode { value_1: 250, value_2: 10 })));
    assert_eq!(sink_value(&graph, taker), 4);
}

#[test]
fn a_drop_on_another_type_appends_no_link() {
    let mut graph: NodeGraph<Kind, Point> = NodeGraph::new();
    let giver = graph.add_node(source(1), (0.0, 0.0));
    let flag = graph.add_node(Kind::Flag(FlagNode { value: false }), (100.0, 0.0));
    let (outcome, sent) = drag_link(&mut graph, (giver, 0), (flag, 0));
    assert_eq!(outcome, GestureOutcome::Deferred);
    assert!(sent.is_empty());
    assert!(graph.links().is_empty());
    assert!(graph.next_frame_link_dropped());
    assert_eq!(
        *graph.link_drag_info(),
        Some(DragState {
            origin_handle: giver,
            type_token: BYTE,
            origin_position: (1.0, 0.0),
            began_at_input: false,
            connector_index: 0,
        })
    );

    let frames = graph.begin_tick();
    let mut rendered = render(&frames);
    find(&mut rendered, flag, true, 0).in_capture_range = true;
    let (outcome, sent) = graph.end_tick(&rendered);
    assert_eq!(outcome, GestureOutcome::Abandoned);
    assert!(sent.is_empty());
    assert!(graph.links().is_empty());
    assert_eq!(*graph.link_drag_info(), None);
    assert!(!graph.next_frame_link_dropped());
    assert_eq!(graph.node(flag), Some(&Kind::Flag(FlagNode { value: false })));

    assert_eq!(quiet_tick(&mut graph).0, GestureOutcome::Idle);
    assert!(graph.links().is_empty());
}

#[test]
fn links_form_between_equal_types_only() {
    let kinds: [(Kind, TypeToken); 2] = [(source(1), BYTE), (Kind::Flag(FlagNode { value: true }), FLAG)];
    let takers: [(Kind, TypeToken); 2] = [(sink(), BYTE), (Kind::Flag(FlagNode { value: false }), FLAG)];
    for (giver_kind, out_token) in kinds.iter() {
        for (taker_kind, in_token) in takers.iter() {
            let mut graph: NodeGraph<Kind, Point> = NodeGraph::new();
            let giver = graph.add_node(giver_kind.clone(), (0.0, 0.0));
            let taker = graph.add_node(taker_kind.clone(), (0.0, 0.0));
            let (outcome, _) = drag_link(&mut graph, (giver, 0), (taker, 0));
            if out_token == in_token {
                assert_eq!(outcome, GestureOutcome::Linked(link((giver, 0), (taker, 0))));
                assert_eq!(graph.links().len(), 1);
            } else {
                assert_eq!(outcome, GestureOutcome::Deferred);
                assert_eq!(quiet_tick(&mut graph).0, GestureOutcome::Abandoned);
                assert!(graph.links().is_empty());
            }
        }
    }
}

#[test]
fn resolve_gesture_alone_adds_the_link_and_carries_nothing() {
    let mut graph: NodeGraph<Kind, Point> = NodeGraph::new();
    let giver = graph.add_node(source(42), (0.0, 0.0));
    let taker = graph.add_node(sink(), (0.0, 0.0));
    let frames = graph.begin_tick();
    let mut rendered = render(&frames);
    find(&mut rendered, taker, true, 0).drag_started = true;
    assert_eq!(graph.resolve_gesture(&rendered), GestureOutcome::Dragging);
    assert!(graph.link_drag_info().unwrap().began_at_input);
    let mut rendered = render(&frames);
    find(&mut rendered, taker, true, 0).drag_stopped = true;
    find(&mut rendered, giver, false, 0).in_capture_range = true;
    assert_eq!(
        graph.resolve_gesture(&rendered),
        GestureOutcome::Linked(link((giver, 0), (taker, 0)))
    );
    assert_eq!(graph.links(), &vec![link((giver, 0), (taker, 0))]);
    assert_eq!(sink_value(&graph, taker), 0);
    assert_eq!(graph.evaluate_links(), vec![Some(Value::Byte(42))]);
    assert_eq!(sink_value(&graph, taker), 42);
}

#[test]
fn evaluating_twice_carries_the_same_values() {
    let mut graph: NodeGraph<Kind, Point> = NodeGraph::new();
    let left = graph.add_node(source(250), (0.0, 0.0));
    let right = graph.add_node(source(10), (0.0, 0.0));
    let sum = graph.add_node(adder(), (0.0, 0.0));
    let taker = graph.add_node(sink(), (0.0, 0.0));
    drag_link(&mut graph, (left, 0), (sum, 0));
    drag_link(&mut graph, (right, 0), (sum, 1));
    drag_link(&mut graph, (sum, 0), (taker, 0));
    let before: Vec<Kind> = (0..4).map(|i| graph.node(graph.handle_at(i).unwrap()).unwrap().clone()).collect();
    let first = graph.evaluate_links();
    let between: Vec<Kind> = (0..4).map(|i| graph.node(graph.handle_at(i).unwrap()).unwrap().clone()).collect();
    let second = graph.evaluate_links();
    assert_eq!(before, between);
    assert_eq!(first, second);
    assert_eq!(first, vec![Some(Value::Byte(250)), Some(Value::Byte(10)), Some(Value::Byte(4))]);
}

#[test]
fn links_are_evaluated_in_their_order() {
    let mut graph: NodeGraph<Kind, Point> = NodeGraph::new();
    let giver = graph.add_node(source(9), (0.0, 0.0));
    let sum = graph.add_node(adder(), (0.0, 0.0));
    let taker = graph.add_node(sink(), (0.0, 0.0));
    drag_link(&mut graph, (sum, 0), (taker, 0));
    let (_, sent) = drag_link(&mut graph, (giver, 0), (sum, 0));
    assert_eq!(graph.links(), &vec![link((sum, 0), (taker, 0)), link((giver, 0), (sum, 0))]);
    assert_eq!(sent, vec![Some(Value::Byte(0)), Some(Value::Byte(9))]);
    assert_eq!(sink_value(&graph, taker), 0);
    let (_, sent) = quiet_tick(&mut graph);
    assert_eq!(sent, vec![Some(Value::Byte(9)), Some(Value::Byte(9))]);
    assert_eq!(sink_value(&graph, taker), 9);
}

#[test]
fn an_exchange_serves_one_link_in_a_tick() {
    let mut graph: NodeGraph<Kind, Point> = NodeGraph::new();
    let giver = graph.add_node(source(5), (0.0, 0.0));
    let other = graph.add_node(source(6), (0.0, 0.0));
    let first = graph.add_node(sink(), (0.0, 0.0));
    let second = graph.add_node(sink(), (0.0, 0.0));
    drag_link(&mut graph, (giver, 0), (first, 0));
    let (outcome, sent) = drag_link(&mut graph, (giver, 0), (second, 0));
    assert!(matches!(outcome, GestureOutcome::Linked(_)));
    assert_eq!(sent, vec![Some(Value::Byte(5)), None]);
    assert_eq!(sink_value(&graph, first), 5);
    assert_eq!(sink_value(&graph, second), 0);

    let (_, sent) = drag_link(&mut graph, (other, 0), (first, 0));
    assert_eq!(sent, vec![Some(Value::Byte(5)), None, None]);
    assert_eq!(sink_value(&graph, first), 5);

    let (_, sent) = drag_link(&mut graph, (other, 0), (second, 0));
    assert_eq!(sent, vec![Some(Value::Byte(5)), None, None, Some(Value::Byte(6))]);
    assert_eq!(sink_value(&graph, second), 6);
}

#[test]
fn one_to_n_grows_an_output_for_every_link() {
    let mut graph: NodeGraph<Kind, Point> = NodeGraph::new();
    let giver = graph.add_node(source(33), (0.0, 0.0));
    let fan = graph.add_node(Kind::Fan(OneToNNode::default()), (0.0, 0.0));
    let first = graph.add_node(sink(), (0.0, 0.0));
    let second = graph.add_node(sink(), (0.0, 0.0));
    assert_eq!(graph.begin_tick()[1].body.outputs.len(), 0);
    assert_eq!(graph.begin_tick()[1].body.outputs.len(), 1);
    drag_link(&mut graph, (giver, 0), (fan, 0));
    let (_, sent) = drag_link(&mut graph, (fan, 0), (first, 0));
    assert_eq!(sent, vec![Some(Value::Byte(33)), Some(Value::Byte(33))]);
    let frames = graph.begin_tick();
    assert_eq!(frames[1].body.outputs.len(), 2);
    graph.end_tick(&render(&frames));
    let (_, sent) = drag_link(&mut graph, (fan, 1), (second, 0));
    assert_eq!(sent, vec![Some(Value::Byte(33)), Some(Value::Byte(33)), Some(Value::Byte(33))]);
    assert_eq!(sink_value(&graph, first), 33);
    assert_eq!(sink_value(&graph, second), 33);
    assert_eq!(graph.begin_tick()[1].body.outputs.len(), 3);
}

#[test]
fn a_link_to_a_connector_that_is_gone_carries_nothing() {
    let mut graph: NodeGraph<Kind, Point> = NodeGraph::new();
    let fan = graph.add_node(
        Kind::Fan(OneToNNode { value_1: 8, output_count: 2, shown_outputs: 0 }),
        (0.0, 0.0),
    );
    let taker = graph.add_node(sink(), (0.0, 0.0));
    let frames = graph.begin_tick();
    assert_eq!(frames[0].body.outputs.len(), 2);
    let mut rendered = render(&frames);
    let origin = find(&mut rendered, fan, false, 1);
    origin.drag_started = true;
    origin.drag_stopped = true;
    find(&mut rendered, taker, true, 0).in_capture_range = true;
    let (outcome, sent) = graph.end_tick(&rendered);
    assert_eq!(outcome, GestureOutcome::Linked(link((fan, 1), (taker, 0))));
    assert_eq!(sent, vec![Some(Value::Byte(8))]);
    assert_eq!(sink_value(&graph, taker), 8);

    *graph.node_mut(fan).unwrap() = Kind::Fan(OneToNNode { value_1: 9, output_count: 1, shown_outputs: 0 });
    let (_, sent) = quiet_tick(&mut graph);
    assert_eq!(sent, vec![None]);
    assert_eq!(sink_value(&graph, taker), 8);
}

#[test]
fn a_link_whose_types_came_apart_carries_nothing() {
    let mut graph: NodeGraph<Kind, Point> = NodeGraph::new();
    let giver = graph.add_node(source(3), (0.0, 0.0));
    let taker = graph.add_node(sink(), (0.0, 0.0));
    drag_link(&mut graph, (giver, 0), (taker, 0));
    *graph.node_mut(taker).unwrap() = Kind::Flag(FlagNode { value: true });
    let (_, sent) = quiet_tick(&mut graph);
    assert_eq!(sent, vec![None]);
    assert_eq!(graph.node(taker), Some(&Kind::Flag(FlagNode { value: true })));
    assert_eq!(graph.node(giver), Some(&source(3)));
}

#[test]
fn a_node_can_feed_itself() {
    let mut graph: NodeGraph<Kind, Point> = NodeGraph::new();
    let sum = graph.add_node(Kind::Adder(AdderNode { value_1: 1, value_2: 2 }), (0.0, 0.0));
    let (outcome, sent) = drag_link(&mut graph, (sum, 0), (sum, 1));
    assert_eq!(outcome, GestureOutcome::Linked(link((sum, 0), (sum, 1))));
    assert_eq!(sent, vec![Some(Value::Byte(3))]);
    assert_eq!(graph.node(sum), Some(&Kind::Adder(AdderNode { value_1: 1, value_2: 3 })));
    let (_, sent) = quiet_tick(&mut graph);
    assert_eq!(sent, vec![Some(Value::Byte(4))]);
}

#[test]
fn evaluating_without_links_changes_nothing() {
    let mut graph: NodeGraph<Kind, Point> = NodeGraph::new();
    let giver = graph.add_node(source(3), (0.0, 0.0));
    assert_eq!(graph.evaluate_links(), vec![]);
    assert_eq!(graph.node(giver), Some(&source(3)));
}
