use vstd::prelude::*;
use crate::link::ConnectorRef;
use crate::link::Link;
use crate::node_store::NodeHandle;
use crate::value::TypeToken;

verus! {

/// The capture threshold, in screen points squared: a connector can take a
/// drop while the squared distance between it and the pointer is below this.
pub const CAPTURE_DISTANCE_SQUARED: u32 = 100;

/// A connector as it was drawn in one tick, with what the pointer did to it.
///
/// The connectors of a tick are listed in the order in which they were
/// drawn: node after node, and for each node its inputs, then its outputs.
#[derive(Clone, Copy, Debug, PartialEq)]
pub struct RenderedConnector<P> {
    pub node: NodeHandle,
    pub is_input: bool,
    /// The connector's place among the node's inputs or among its outputs.
    pub index: usize,
    pub type_token: TypeToken,
    /// Where the connector was drawn, in screen space.
    pub position: P,
    /// The pointer was pressed on the connector and began to move in this tick.
    pub drag_started: bool,
    /// A drag that began on the connector was let go in this tick.
    pub drag_stopped: bool,
    /// The pointer is within the capture distance of the connector.
    pub in_capture_range: bool,
}

/// A drag from a connector that is under way.
#[derive(Clone, Copy, Debug, PartialEq)]
pub struct DragState<P> {
    pub origin_handle: NodeHandle,
    pub type_token: TypeToken,
    /// Where the origin was drawn when the drag began, in screen space.
    pub origin_position: P,
    pub began_at_input: bool,
    pub connector_index: usize,
}

/// How a tick left the gesture.
#[derive(Clone, Copy, Debug, PartialEq, Eq, Structural)]
pub enum GestureOutcome {
    /// No drag is under way.
    Idle,
    /// A drag is under way and the pointer is still held.
    Dragging,
    /// The pointer was let go and no connector took the drop; the next tick
    /// tries once more.
    Deferred,
    /// A connector took the drop, and this link is to be added.
    Linked(Link),
    /// No connector took the drop in the second try either; the drag is over.
    Abandoned,
}

/// The gesture after a tick.
#[derive(Clone, Copy, Debug, PartialEq)]
pub struct GestureStep<P> {
    pub drag: Option<DragState<P>>,
    pub retry_pending: bool,
    pub outcome: GestureOutcome,
}

/// The drag that begins on a connector.
pub open spec fn origin_of<P>(c: RenderedConnector<P>) -> DragState<P> {
    DragState {
        origin_handle: c.node,
        type_token: c.type_token,
        origin_position: c.position,
        began_at_input: c.is_input,
        connector_index: c.index,
    }
}

/// Whether a connector can take the drop of a drag: it is of the other
/// direction, it has the type token of the drag's origin, and the pointer is
/// within the capture distance of it.
pub open spec fn takes_drop<P>(c: RenderedConnector<P>, drag: DragState<P>) -> bool {
    &&& c.is_input != drag.began_at_input
    &&& c.type_token == drag.type_token
    &&& c.in_capture_range
}

/// The link between the origin of a drag and the connector that took the
/// drop. Whichever end the drag began at, the output is the source.
pub open spec fn link_between<P>(drag: DragState<P>, c: RenderedConnector<P>) -> Link {
    let origin = ConnectorRef { node: drag.origin_handle, index: drag.connector_index };
    let target = ConnectorRef { node: c.node, index: c.index };
    if drag.began_at_input {
        Link { source: target, dest: origin }
    } else {
        Link { source: origin, dest: target }
    }
}

/// `i` is the place of the last connector on which a drag began.
pub open spec fn is_last_start<P>(rendered: Seq<RenderedConnector<P>>, i: int) -> bool {
    &&& 0 <= i < rendered.len()
    &&& rendered[i].drag_started
    &&& forall|j: int| i < j < rendered.len() ==> !(#[trigger] rendered[j]).drag_started
}

/// The place of the last connector on which a drag began in this tick.
pub open spec fn drag_start<P>(rendered: Seq<RenderedConnector<P>>) -> Option<int> {
    if exists|i: int| is_last_start(rendered, i) {
        Some(choose|i: int| is_last_start(rendered, i))
    } else {
        None
    }
}

/// Whether a drag was let go in this tick.
pub open spec fn released<P>(rendered: Seq<RenderedConnector<P>>) -> bool {
    exists|i: int| 0 <= i < rendered.len() && (#[trigger] rendered[i]).drag_stopped
}

/// `i` is the place of the first connector that can take the drop.
pub open spec fn is_first_target<P>(
    rendered: Seq<RenderedConnector<P>>,
    drag: DragState<P>,
    i: int,
) -> bool {
    &&& 0 <= i < rendered.len()
    &&& takes_drop(rendered[i], drag)
    &&& forall|j: int| 0 <= j < i ==> !takes_drop(#[trigger] rendered[j], drag)
}

/// The place of the connector that takes the drop: the first one, in the
/// order in which they were drawn, that can.
pub open spec fn drop_target<P>(rendered: Seq<RenderedConnector<P>>, drag: DragState<P>) -> Option<
    int,
> {
    if exists|i: int| is_first_target(rendered, drag, i) {
        Some(choose|i: int| is_first_target(rendered, drag, i))
    } else {
        None
    }
}

/// The gesture after a tick in which the given connectors were drawn.
///
/// A drag that begins in the tick takes the place of whatever was under
/// way. A drag that was let go in this tick, or in the tick before without
/// finding a target, looks for the connector that takes the drop. If there
/// is one, the link is made and the drag is over. If there is none, the drag
/// waits for one more tick, and is over after that.
pub open spec fn gesture_step<P>(
    drag: Option<DragState<P>>,
    retry_pending: bool,
    rendered: Seq<RenderedConnector<P>>,
) -> GestureStep<P> {
    let current = match drag_start(rendered) {
        Some(i) => Some(origin_of(rendered[i])),
        None => drag,
    };
    let retrying = drag_start(rendered).is_none() && retry_pending;
    match current {
        None => GestureStep { drag: None, retry_pending: false, outcome: GestureOutcome::Idle },
        Some(d) => if released(rendered) || retrying {
            match drop_target(rendered, d) {
                Some(t) => GestureStep {
                    drag: None,
                    retry_pending: false,
                    outcome: GestureOutcome::Linked(link_between(d, rendered[t])),
                },
                None => if retrying {
                    GestureStep {
                        drag: None,
                        retry_pending: false,
                        outcome: GestureOutcome::Abandoned,
                    }
                } else {
                    GestureStep {
                        drag: Some(d),
                        retry_pending: true,
                        outcome: GestureOutcome::Deferred,
                    }
                },
            }
        } else {
            GestureStep { drag: Some(d), retry_pending: false, outcome: GestureOutcome::Dragging }
        },
    }
}

/// At most one place is that of the last connector on which a drag began.
pub proof fn lemma_last_start_unique<P>(rendered: Seq<RenderedConnector<P>>, i: int)
    requires
        is_last_start(rendered, i),
    ensures
        drag_start(rendered) == Some(i),
{
    let k = choose|k: int| is_last_start(rendered, k);
    if k < i {
        assert(!rendered[i].drag_started);
    }
    if i < k {
        assert(!rendered[k].drag_started);
    }
}

/// At most one place is that of the first connector that can take the drop.
pub proof fn lemma_first_target_unique<P>(
    rendered: Seq<RenderedConnector<P>>,
    drag: DragState<P>,
    i: int,
)
    requires
        is_first_target(rendered, drag, i),
    ensures
        drop_target(rendered, drag) == Some(i),
{
    let k = choose|k: int| is_first_target(rendered, drag, k);
    if k < i {
        assert(!takes_drop(rendered[k], drag));
    }
    if i < k {
        assert(!takes_drop(rendered[i], drag));
    }
}

/// The place of the last connector on which a drag began in this tick.
pub fn find_drag_start<P>(rendered: &Vec<RenderedConnector<P>>) -> (r: Option<usize>)
    ensures
        match r {
            Some(i) => drag_start(rendered@) == Some(i as int),
            None => drag_start(rendered@).is_none(),
        },
{
    let mut i: usize = rendered.len();
    while i > 0
        invariant
            i <= rendered.len(),
            forall|j: int| i <= j < rendered.len() ==> !(#[trigger] rendered@[j]).drag_started,
        decreases i,
    {
        i = i - 1;
        if rendered[i].drag_started {
            proof {
                lemma_last_start_unique(rendered@, i as int);
            }
            return Some(i);
        }
    }
    proof {
        if exists|k: int| is_last_start(rendered@, k) {
            let k = choose|k: int| is_last_start(rendered@, k);
            assert(!rendered@[k].drag_started);
        }
    }
    None
}

/// Whether a drag was let go in this tick.
pub fn pointer_released<P>(rendered: &Vec<RenderedConnector<P>>) -> (r: bool)
    ensures
        r == released(rendered@),
{
    let mut i: usize = 0;
    while i < rendered.len()
        invariant
            i <= rendered.len(),
            forall|j: int| 0 <= j < i ==> !(#[trigger] rendered@[j]).drag_stopped,
        decreases rendered.len() - i,
    {
        if rendered[i].drag_stopped {
            return true;
        }
        i = i + 1;
    }
    false
}

/// Whether a connector can take the drop of a drag.
pub fn can_take_drop<P>(c: &RenderedConnector<P>, drag: &DragState<P>) -> (r: bool)
    ensures
        r == takes_drop(*c, *drag),
{
    c.is_input != drag.began_at_input && c.type_token == drag.type_token && c.in_capture_range
}

/// The place of the connector that takes the drop of a drag.
pub fn find_drop_target<P>(rendered: &Vec<RenderedConnector<P>>, drag: &DragState<P>) -> (r:
    Option<usize>)
    ensures
        match r {
            Some(i) => drop_target(rendered@, *drag) == Some(i as int),
            None => drop_target(rendered@, *drag).is_none(),
        },
{
    let mut i: usize = 0;
    while i < rendered.len()
        invariant
            i <= rendered.len(),
            forall|j: int| 0 <= j < i ==> !takes_drop(#[trigger] rendered@[j], *drag),
        decreases rendered.len() - i,
    {
        if can_take_drop(&rendered[i], drag) {
            proof {
                lemma_first_target_unique(rendered@, *drag, i as int);
            }
            return Some(i);
        }
        i = i + 1;
    }
    proof {
        if exists|k: int| is_first_target(rendered@, *drag, k) {
            let k = choose|k: int| is_first_target(rendered@, *drag, k);
            assert(!takes_drop(rendered@[k], *drag));
        }
    }
    None
}

/// The drag that begins on a connector.
pub fn begin_drag<P: Copy>(c: &RenderedConnector<P>) -> (r: DragState<P>)
    ensures
        r == origin_of(*c),
{
    DragState {
        origin_handle: c.node,
        type_token: c.type_token,
        origin_position: c.position,
        began_at_input: c.is_input,
        connector_index: c.index,
    }
}

/// The link between the origin of a drag and the connector that took the
/// drop.
pub fn make_link<P>(drag: &DragState<P>, c: &RenderedConnector<P>) -> (r: Link)
    ensures
        r == link_between(*drag, *c),
{
    let origin = ConnectorRef { node: drag.origin_handle, index: drag.connector_index };
    let target = ConnectorRef { node: c.node, index: c.index };
    if drag.began_at_input {
        Link { source: target, dest: origin }
    } else {
        Link { source: origin, dest: target }
    }
}

/// Advances the gesture by one tick.
pub fn advance_gesture<P: Copy>(
    drag: Option<DragState<P>>,
    retry_pending: bool,
    rendered: &Vec<RenderedConnector<P>>,
) -> (r: GestureStep<P>)
    ensures
        r == gesture_step(drag, retry_pending, rendered@),
{
    let started = find_drag_start(rendered);
    let (current, retrying) = match started {
        Some(i) => (Some(begin_drag(&rendered[i])), false),
        None => (drag, retry_pending),
    };
    match current {
        None => GestureStep { drag: None, retry_pending: false, outcome: GestureOutcome::Idle },
        Some(d) => {
            if pointer_released(rendered) || retrying {
                match find_drop_target(rendered, &d) {
                    Some(t) => GestureStep {
                        drag: None,
                        retry_pending: false,
                        outcome: GestureOutcome::Linked(make_link(&d, &rendered[t])),
                    },
                    None => {
                        if retrying {
                            GestureStep {
                                drag: None,
                                retry_pending: false,
                                outcome: GestureOutcome::Abandoned,
                            }
                        } else {
                            GestureStep {
                                drag: Some(d),
                                retry_pending: true,
                                outcome: GestureOutcome::Deferred,
                            }
                        }
                    },
                }
            } else {
                GestureStep {
                    drag: Some(d),
                    retry_pending: false,
                    outcome: GestureOutcome::Dragging,
                }
            }
        },
    }
}

/// A drag let go over one connector of the other direction, within the
/// capture distance, makes a link exactly if the connector has the type
/// token of the drag's origin; and the link made is the one between the two.
pub proof fn law_link_iff_tokens_equal<P>(drag: DragState<P>, c: RenderedConnector<P>)
    requires
        c.is_input != drag.began_at_input,
        c.in_capture_range,
        !c.drag_started,
        c.drag_stopped,
    ensures
        gesture_step(Some(drag), false, seq![c]).outcome is Linked <==> c.type_token
            == drag.type_token,
        c.type_token == drag.type_token ==> gesture_step(Some(drag), false, seq![c]).outcome
            == GestureOutcome::Linked(link_between(drag, c)),
        c.type_token != drag.type_token ==> gesture_step(Some(drag), false, seq![c]).outcome
            == GestureOutcome::Deferred,
{
    let rendered = seq![c];
    assert(rendered[0] == c);
    assert(drag_start(rendered).is_none()) by {
        if exists|i: int| is_last_start(rendered, i) {
            let i = choose|i: int| is_last_start(rendered, i);
            assert(rendered[i].drag_started);
        }
    }
    assert(released(rendered));
    if c.type_token == drag.type_token {
        assert(is_first_target(rendered, drag, 0));
        lemma_first_target_unique(rendered, drag, 0);
    } else {
        if exists|i: int| is_first_target(rendered, drag, i) {
            let i = choose|i: int| is_first_target(rendered, drag, i);
            assert(takes_drop(rendered[i], drag));
        }
    }
}

/// Whatever was drawn, a tick makes a link only between the origin of the
/// drag and a connector of the other direction that has the origin's type
/// token and is within the capture distance; the link's source is the
/// output of the two, its destination the input.
pub proof fn law_linked_connectors_match<P>(
    drag: Option<DragState<P>>,
    retry_pending: bool,
    rendered: Seq<RenderedConnector<P>>,
)
    ensures
        gesture_step(drag, retry_pending, rendered).outcome matches GestureOutcome::Linked(link)
            ==> exists|origin: DragState<P>, t: int|
            {
                &&& 0 <= t < rendered.len()
                &&& #[trigger] takes_drop(rendered[t], origin)
                &&& rendered[t].type_token == origin.type_token
                &&& link == link_between(origin, rendered[t])
                &&& link.source == (if origin.began_at_input {
                    ConnectorRef { node: rendered[t].node, index: rendered[t].index }
                } else {
                    ConnectorRef { node: origin.origin_handle, index: origin.connector_index }
                })
                &&& gesture_step(drag, retry_pending, rendered).drag.is_none()
                &&& !gesture_step(drag, retry_pending, rendered).retry_pending
            },
{
    let step = gesture_step(drag, retry_pending, rendered);
    if step.outcome is Linked {
        let current = match drag_start(rendered) {
            Some(i) => Some(origin_of(rendered[i])),
            None => drag,
        };
        let origin = current.unwrap();
        let t = drop_target(rendered, origin).unwrap();
        assert(is_first_target(rendered, origin, t));
        assert(takes_drop(rendered[t], origin));
    }
}

/// A drag that is let go where no connector takes the drop, and finds none
/// in the tick after either, makes no link: the first tick defers, the
/// second abandons the drag, and the gesture is idle again.
pub proof fn law_unmatched_drop_is_abandoned<P>(
    drag: DragState<P>,
    first: Seq<RenderedConnector<P>>,
    second: Seq<RenderedConnector<P>>,
)
    requires
        released(first),
        forall|i: int| 0 <= i < first.len() ==> !(#[trigger] first[i]).drag_started,
        forall|i: int| 0 <= i < second.len() ==> !(#[trigger] second[i]).drag_started,
        forall|i: int| 0 <= i < first.len() ==> !takes_drop(#[trigger] first[i], drag),
        forall|i: int| 0 <= i < second.len() ==> !takes_drop(#[trigger] second[i], drag),
    ensures
        gesture_step(Some(drag), false, first).outcome == GestureOutcome::Deferred,
        gesture_step(Some(drag), false, first).drag == Some(drag),
        gesture_step(Some(drag), false, first).retry_pending,
        gesture_step(Some(drag), true, second).outcome == GestureOutcome::Abandoned,
        gesture_step(Some(drag), true, second).drag.is_none(),
        !gesture_step(Some(drag), true, second).retry_pending,
{
    lemma_no_start(first);
    lemma_no_start(second);
    lemma_no_target(first, drag);
    lemma_no_target(second, drag);
}

/// Where no drag began on any connector, no drag begins.
pub proof fn lemma_no_start<P>(rendered: Seq<RenderedConnector<P>>)
    requires
        forall|i: int| 0 <= i < rendered.len() ==> !(#[trigger] rendered[i]).drag_started,
    ensures
        drag_start(rendered).is_none(),
{
    if exists|i: int| is_last_start(rendered, i) {
        let i = choose|i: int| is_last_start(rendered, i);
        assert(rendered[i].drag_started);
    }
}

/// Where no connector can take the drop, none does.
pub proof fn lemma_no_target<P>(rendered: Seq<RenderedConnector<P>>, drag: DragState<P>)
    requires
        forall|i: int| 0 <= i < rendered.len() ==> !takes_drop(#[trigger] rendered[i], drag),
    ensures
        drop_target(rendered, drag).is_none(),
{
    if exists|i: int| is_first_target(rendered, drag, i) {
        let i = choose|i: int| is_first_target(rendered, drag, i);
        assert(takes_drop(rendered[i], drag));
    }
}

} // verus!
