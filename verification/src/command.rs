//! Commands to the painting engine, and what it answers.

use crate::brush::{BrushMode, Color};
use crate::config::CanvasConfig;
use crate::geometry::StrokePoint;
use crate::layers::{LayerGroupMode, LayerId, LayerSpec};
use crate::scalar::Single;
use crate::selection::{SelectionCombineMode, SelectionPoint, SelectionRect};
use vstd::prelude::*;

verus! {

#[derive(Clone, Copy, Debug, PartialEq, Eq, Structural)]
pub struct StrokeId(pub u64);

/// Paints a whole stroke at once.
#[derive(Debug)]
pub struct BrushCommand {
    pub layer: LayerId,
    pub mode: BrushMode,
    pub points: Vec<StrokePoint>,
    pub radius: Single,
    pub color: Color,
}

/// Begins a stroke that is streamed.
#[derive(Clone, Copy, Debug, PartialEq, Eq, Structural)]
pub struct BeginStrokeCommand {
    pub layer: LayerId,
    pub mode: BrushMode,
    pub radius: Single,
    pub color: Color,
    pub first_point: StrokePoint,
}

/// Extends a stroke that is streamed.
#[derive(Debug)]
pub struct AppendStrokeCommand {
    pub stroke: StrokeId,
    pub points: Vec<StrokePoint>,
}

/// A selection with straight edges between its corners.
#[derive(Debug)]
pub struct SelectionPolygon {
    pub points: Vec<SelectionPoint>,
}

#[allow(inconsistent_fields)]
#[derive(Debug)]
pub enum CanvasCommand {
    NewCanvas(CanvasConfig),
    AddLayer(LayerSpec),
    /// Adds a layer with the engine's own attributes.
    AddPlainLayer(LayerId),
    RemoveLayer(LayerId),
    ClearLayer(LayerId),
    MoveLayer { id: LayerId, to_index: usize },
    SetLayer(LayerSpec),
    SetLayerParent { id: LayerId, parent: Option<LayerId> },
    SetLayerGroupMode { id: LayerId, mode: LayerGroupMode },
    Brush(BrushCommand),
    BeginStroke(BeginStrokeCommand),
    AppendStroke(AppendStrokeCommand),
    EndStroke(StrokeId),
    SetRectSelection(SelectionRect),
    CombineRectSelection { rect: SelectionRect, mode: SelectionCombineMode },
    SetPolygonSelection(SelectionPolygon),
    CombinePolygonSelection { polygon: SelectionPolygon, mode: SelectionCombineMode },
    ClearSelection,
    InvertSelection,
    ClearSelectedPixels(LayerId),
    Undo,
    Redo,
    /// A recorded command that the shell does not look into, by its number in the record.
    Recorded(u64),
}

/// What a successful command gives back.
#[derive(Clone, Copy, Debug, PartialEq, Eq, Structural)]
pub enum CommandOutput {
    StrokeStarted { id: StrokeId },
    StrokeEnded { committed: bool },
    Other,
}

/// Why a command failed.
#[derive(Debug)]
pub enum CanvasError {
    MissingLayer(LayerId),
    MissingStroke(StrokeId),
    MissingTraceResource(String),
    InvalidTraceResource(String),
    InvalidCanvasSize,
    Other,
}

fn copy_points(points: &Vec<StrokePoint>) -> (r: Vec<StrokePoint>)
    ensures
        r@ == points@,
{
    let copied = points.clone();
    assert(copied@ =~= points@);
    copied
}

fn copy_corners(points: &Vec<SelectionPoint>) -> (r: Vec<SelectionPoint>)
    ensures
        r@ == points@,
{
    let copied = points.clone();
    assert(copied@ =~= points@);
    copied
}

impl CanvasCommand {
    /// Both commands tell the engine the same.
    pub open spec fn same(self, other: CanvasCommand) -> bool {
        match (self, other) {
            (CanvasCommand::Brush(a), CanvasCommand::Brush(b)) => {
                &&& a.layer == b.layer
                &&& a.mode == b.mode
                &&& a.points@ == b.points@
                &&& a.radius == b.radius
                &&& a.color == b.color
            },
            (CanvasCommand::AppendStroke(a), CanvasCommand::AppendStroke(b)) => {
                a.stroke == b.stroke && a.points@ == b.points@
            },
            (CanvasCommand::SetPolygonSelection(a), CanvasCommand::SetPolygonSelection(b)) => {
                a.points@ == b.points@
            },
            (
                CanvasCommand::CombinePolygonSelection { polygon: a, mode: m },
                CanvasCommand::CombinePolygonSelection { polygon: b, mode: n },
            ) => a.points@ == b.points@ && m == n,
            _ => self == other,
        }
    }

    /// A second command that tells the engine the same.
    pub fn duplicate(&self) -> (r: CanvasCommand)
        ensures
            self.same(r),
    {
        match self {
            CanvasCommand::NewCanvas(config) => CanvasCommand::NewCanvas(*config),
            CanvasCommand::AddLayer(spec) => CanvasCommand::AddLayer(*spec),
            CanvasCommand::AddPlainLayer(id) => CanvasCommand::AddPlainLayer(*id),
            CanvasCommand::RemoveLayer(id) => CanvasCommand::RemoveLayer(*id),
            CanvasCommand::ClearLayer(id) => CanvasCommand::ClearLayer(*id),
            CanvasCommand::MoveLayer { id, to_index } => CanvasCommand::MoveLayer {
                id: *id,
                to_index: *to_index,
            },
            CanvasCommand::SetLayer(spec) => CanvasCommand::SetLayer(*spec),
            CanvasCommand::SetLayerParent { id, parent } => CanvasCommand::SetLayerParent {
                id: *id,
                parent: *parent,
            },
            CanvasCommand::SetLayerGroupMode { id, mode } => CanvasCommand::SetLayerGroupMode {
                id: *id,
                mode: *mode,
            },
            CanvasCommand::Brush(brush) => CanvasCommand::Brush(
                BrushCommand {
                    layer: brush.layer,
                    mode: brush.mode,
                    points: copy_points(&brush.points),
                    radius: brush.radius,
                    color: brush.color,
                },
            ),
            CanvasCommand::BeginStroke(begin) => CanvasCommand::BeginStroke(*begin),
            CanvasCommand::AppendStroke(append) => CanvasCommand::AppendStroke(
                AppendStrokeCommand {
                    stroke: append.stroke,
                    points: copy_points(&append.points),
                },
            ),
            CanvasCommand::EndStroke(stroke) => CanvasCommand::EndStroke(*stroke),
            CanvasCommand::SetRectSelection(rect) => CanvasCommand::SetRectSelection(*rect),
            CanvasCommand::CombineRectSelection { rect, mode } =>
                CanvasCommand::CombineRectSelection { rect: *rect, mode: *mode },
            CanvasCommand::SetPolygonSelection(polygon) => CanvasCommand::SetPolygonSelection(
                SelectionPolygon { points: copy_corners(&polygon.points) },
            ),
            CanvasCommand::CombinePolygonSelection { polygon, mode } =>
                CanvasCommand::CombinePolygonSelection {
                    polygon: SelectionPolygon { points: copy_corners(&polygon.points) },
                    mode: *mode,
                },
            CanvasCommand::ClearSelection => CanvasCommand::ClearSelection,
            CanvasCommand::InvertSelection => CanvasCommand::InvertSelection,
            CanvasCommand::ClearSelectedPixels(id) => CanvasCommand::ClearSelectedPixels(*id),
            CanvasCommand::Undo => CanvasCommand::Undo,
            CanvasCommand::Redo => CanvasCommand::Redo,
            CanvasCommand::Recorded(number) => CanvasCommand::Recorded(*number),
        }
    }
}

} // verus!
