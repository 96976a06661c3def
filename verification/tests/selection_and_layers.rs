use canva_test::command::CanvasCommand;
use canva_test::geometry::StrokePoint;
use canva_test::input::{AdapterSample, StrokeInputPoint, StrokeInputSource};
use canva_test::layers::{
    edit_command, other_layers, position_of, BlendMode, LayerCursor, LayerGroupMode, LayerId,
    LayerSnapshot, LayerSpec,
};
use canva_test::scalar::{Double, Single};
use canva_test::selection::{
    selection_point_from_canvas, selection_rect_from_points, SelectionCombineMode, SelectionDrag,
    SelectionPoint, SelectionRect, SelectionState, ToolMode,
};

fn single(value: f32) -> Single {
    Single { bits: value.to_bits() }
}

fn number(value: Single) -> f32 {
    f32::from_bits(value.bits)
}

fn corner(x: f32, y: f32) -> SelectionPoint {
    SelectionPoint { x: single(x), y: single(y) }
}

fn rect(x: u32, y: u32, width: u32, height: u32) -> SelectionRect {
    SelectionRect { x, y, width, height }
}

fn distance(a: SelectionPoint, b: SelectionPoint) -> Single {
    let dx = number(a.x) - number(b.x);
    let dy = number(a.y) - number(b.y);
    single((dx * dx + dy * dy).sqrt())
}

fn sample(x: f32, y: f32) -> StrokeInputPoint {
    StrokeInputPoint {
        point: AdapterSample {
            x: single(x),
            y: single(y),
            pressure: single(1.0),
            tilt_x: single(0.0),
            tilt_y: single(0.0),
            twist: single(0.0),
            time_seconds: Double { bits: 0 },
        },
        source: StrokeInputSource::PointerFallback,
        pressure_from_device: false,
    }
}

fn spec(id: u64) -> LayerSpec {
    LayerSpec {
        id: LayerId(id),
        visible: true,
        opacity: single(1.0),
        alpha_locked: false,
        clip_to_below: false,
        blend_mode: BlendMode::Normal,
        mask_layer: None,
    }
}

fn layer(id: u64) -> LayerSnapshot {
    LayerSnapshot {
        spec: spec(id),
        parent: None,
        group_mode: LayerGroupMode::PassThrough,
        tile_count: 0,
    }
}

#[test]
fn rectangles_round_outwards() {
    let between = |ax: f32, ay: f32, bx: f32, by: f32| {
        selection_rect_from_points(corner(ax, ay), corner(bx, by))
    };
    assert_eq!(between(1.2, 2.7, 5.1, 9.0), Some(rect(1, 2, 5, 7)));
    assert_eq!(between(5.1, 9.0, 1.2, 2.7), Some(rect(1, 2, 5, 7)));
    assert_eq!(between(5.1, 2.7, 1.2, 9.0), Some(rect(1, 2, 5, 7)));
    assert_eq!(between(3.0, 3.0, 3.0, 8.0), None);
    assert_eq!(between(3.5, 3.5, 3.5, 3.5), Some(rect(3, 3, 1, 1)));
    assert_eq!(between(-8.0, -8.0, -1.0, 4.0), None);
    assert_eq!(between(-8.0, -8.0, 2.5, 4.0), Some(rect(0, 0, 3, 4)));
    assert_eq!(between(f32::NAN, 0.0, 4.0, 4.0), None);
    assert_eq!(between(0.0, 0.0, 1.0e30, 2.0), Some(rect(0, 0, u32::MAX, 2)));
    assert_eq!(between(-0.0, 0.0, 0.25, 0.25), Some(rect(0, 0, 1, 1)));
}

#[test]
fn corners_come_from_the_canvas() {
    let point = StrokePoint { x: single(1.5), y: single(2.5), pressure: single(0.5) };
    assert_eq!(selection_point_from_canvas(point), corner(1.5, 2.5));
}

#[test]
fn dragged_rectangles_are_selected() {
    let mut selection = SelectionState::new();
    assert!(selection.end_command(ToolMode::RectSelection).is_none());
    selection.drag_rect(corner(9.0, 9.0));
    assert_eq!(selection.selection_drag, None);
    selection.begin_rect(corner(1.0, 1.0));
    assert!(selection.end_command(ToolMode::RectSelection).is_none());
    selection.drag_rect(corner(4.0, 3.0));
    assert_eq!(
        selection.selection_drag,
        Some(SelectionDrag::Rect { start: corner(1.0, 1.0), current: corner(4.0, 3.0) })
    );
    assert!(matches!(
        selection.end_command(ToolMode::RectSelection),
        Some(CanvasCommand::SetRectSelection(found)) if found == rect(1, 1, 3, 2)
    ));
    selection.selection_mode = SelectionCombineMode::Subtract;
    assert!(matches!(
        selection.end_command(ToolMode::RectSelection),
        Some(CanvasCommand::CombineRectSelection { rect: found, mode: SelectionCombineMode::Subtract })
            if found == rect(1, 1, 3, 2)
    ));
    assert!(selection.end_command(ToolMode::Brush).is_none());
}

#[test]
fn lassos_need_three_corners_apart() {
    let mut selection = SelectionState::new();
    selection.begin_lasso(corner(0.0, 0.0));
    assert_eq!(selection.selection_drag, Some(SelectionDrag::Lasso));
    selection.extend_lasso(corner(1.0, 0.0), distance);
    assert_eq!(selection.lasso_points.len(), 1);
    selection.extend_lasso(corner(1.5, 0.0), distance);
    assert_eq!(selection.lasso_points.len(), 2);
    assert!(selection.apply_lasso_selection().is_none());
    selection.extend_lasso_by(&[sample(1.5, 1.0), sample(1.5, 2.0), sample(1.5, 2.5)], distance);
    assert_eq!(
        selection.lasso_points,
        vec![corner(0.0, 0.0), corner(1.5, 0.0), corner(1.5, 2.0)]
    );
    assert!(matches!(
        selection.end_command(ToolMode::LassoSelection),
        Some(CanvasCommand::SetPolygonSelection(polygon)) if polygon.points == selection.lasso_points
    ));
    selection.selection_mode = SelectionCombineMode::Add;
    assert!(matches!(
        selection.apply_lasso_selection(),
        Some(CanvasCommand::CombinePolygonSelection { polygon, mode: SelectionCombineMode::Add })
            if polygon.points == selection.lasso_points
    ));
    selection.begin_lasso(corner(7.0, 7.0));
    assert_eq!(selection.lasso_points, vec![corner(7.0, 7.0)]);
    selection.lasso_points.clear();
    selection.extend_lasso(corner(8.0, 8.0), distance);
    assert_eq!(selection.lasso_points, vec![corner(8.0, 8.0)]);
}

#[test]
fn cursor_follows_the_layers() {
    let mut cursor = LayerCursor::new(LayerId(1));
    assert_eq!(cursor.next_layer_id, 2);
    let layers = [layer(3), layer(5)];
    cursor.sync_active_layer(&layers);
    assert_eq!(cursor.layer_id, LayerId(5));
    cursor.select(LayerId(3));
    cursor.sync_active_layer(&layers);
    assert_eq!(cursor.layer_id, LayerId(3));
    cursor.sync_active_layer(&[]);
    assert_eq!(cursor.layer_id, LayerId(3));
    assert_eq!(position_of(&layers, LayerId(5)), Some(1));
    assert_eq!(position_of(&layers, LayerId(4)), None);
}

#[test]
fn new_layers_get_fresh_numbers() {
    let mut cursor = LayerCursor::new(LayerId(1));
    assert!(matches!(cursor.take_new_layer(), CanvasCommand::AddPlainLayer(LayerId(2))));
    assert_eq!(cursor, LayerCursor { layer_id: LayerId(2), next_layer_id: 3 });
    cursor.adopt_layers(&[layer(9), layer(4)]);
    assert_eq!(cursor, LayerCursor { layer_id: LayerId(4), next_layer_id: 10 });
    cursor.adopt_layers(&[]);
    assert_eq!(cursor, LayerCursor { layer_id: LayerId(1), next_layer_id: 1 });
    cursor.adopt_layers(&[layer(u64::MAX)]);
    assert_eq!(cursor.next_layer_id, u64::MAX);
    cursor.take_new_layer();
    assert_eq!(cursor.next_layer_id, u64::MAX);
    cursor.reset_to_first_layer();
    assert_eq!(cursor, LayerCursor { layer_id: LayerId(1), next_layer_id: 2 });
}

#[test]
fn layers_move_within_the_stack() {
    let mut cursor = LayerCursor::new(LayerId(1));
    let layers = [layer(1), layer(2), layer(3)];
    assert!(cursor.move_down_command(&layers).is_none());
    assert!(matches!(
        cursor.move_up_command(&layers),
        Some(CanvasCommand::MoveLayer { id: LayerId(1), to_index: 1 })
    ));
    cursor.select(LayerId(3));
    assert!(cursor.move_up_command(&layers).is_none());
    assert!(matches!(
        cursor.move_down_command(&layers),
        Some(CanvasCommand::MoveLayer { id: LayerId(3), to_index: 1 })
    ));
    cursor.select(LayerId(7));
    assert!(cursor.move_up_command(&layers).is_none());
    assert!(cursor.move_down_command(&layers).is_none());
    assert!(matches!(cursor.remove_command(&layers), Some(CanvasCommand::RemoveLayer(LayerId(7)))));
    assert!(cursor.remove_command(&layers[..1]).is_none());
    assert!(matches!(cursor.clear_command(), CanvasCommand::ClearLayer(LayerId(7))));
}

#[test]
fn layer_edits_are_sent_when_they_change_something() {
    let cursor = LayerCursor::new(LayerId(2));
    let before = spec(2);
    assert!(edit_command(&before, before).is_none());
    let mut edited = before;
    edited.opacity = single(0.5);
    assert!(matches!(edit_command(&before, edited), Some(CanvasCommand::SetLayer(sent)) if sent == edited));
    let mut masked = before;
    masked.mask_layer = Some(LayerId(1));
    assert!(edit_command(&before, masked).is_some());
    let mut zero = before;
    zero.opacity = single(0.0);
    let mut minus_zero = zero;
    minus_zero.opacity = single(-0.0);
    assert!(edit_command(&zero, minus_zero).is_none());

    assert!(cursor.reparent_command(None, None).is_none());
    assert!(matches!(
        cursor.reparent_command(None, Some(LayerId(1))),
        Some(CanvasCommand::SetLayerParent { id: LayerId(2), parent: Some(LayerId(1)) })
    ));
    assert!(cursor.regroup_command(LayerGroupMode::Isolated, LayerGroupMode::Isolated).is_none());
    assert!(matches!(
        cursor.regroup_command(LayerGroupMode::PassThrough, LayerGroupMode::Isolated),
        Some(CanvasCommand::SetLayerGroupMode { id: LayerId(2), mode: LayerGroupMode::Isolated })
    ));
}

#[test]
fn layers_are_not_offered_to_themselves() {
    let layers = [layer(1), layer(2), layer(3)];
    assert_eq!(other_layers(&layers, LayerId(2)), vec![LayerId(1), LayerId(3)]);
    assert_eq!(other_layers(&layers[..1], LayerId(1)), vec![]);
}
