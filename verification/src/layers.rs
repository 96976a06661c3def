//! Layers: identity, attributes, and the choices the layer panel offers.

use crate::command::CanvasCommand;
use crate::scalar::Single;
use crate::text::numbered;
use vstd::prelude::*;

verus! {

#[derive(Clone, Copy, Debug, PartialEq, Eq, Structural)]
pub struct LayerId(pub u64);

#[derive(Clone, Copy, Debug, PartialEq, Eq, Structural)]
pub enum BlendMode {
    Normal,
    Multiply,
    Screen,
    Overlay,
    SoftLight,
    ColorDodge,
    ColorBurn,
    LinearBurn,
    Add,
    Subtract,
    Difference,
    Darken,
    Lighten,
    HardLight,
    Exclusion,
}

/// The blend modes in the order in which the panel lists them.
pub const BLEND_MODES: [BlendMode; 15] = [
    BlendMode::Normal,
    BlendMode::Multiply,
    BlendMode::Screen,
    BlendMode::Overlay,
    BlendMode::SoftLight,
    BlendMode::ColorDodge,
    BlendMode::ColorBurn,
    BlendMode::LinearBurn,
    BlendMode::Add,
    BlendMode::Subtract,
    BlendMode::Difference,
    BlendMode::Darken,
    BlendMode::Lighten,
    BlendMode::HardLight,
    BlendMode::Exclusion,
];

pub open spec fn blend_mode_text(mode: BlendMode) -> Seq<char> {
    match mode {
        BlendMode::Normal => "正常"@,
        BlendMode::Multiply => "正片叠底"@,
        BlendMode::Screen => "滤色"@,
        BlendMode::Overlay => "叠加"@,
        BlendMode::SoftLight => "柔光"@,
        BlendMode::ColorDodge => "颜色减淡"@,
        BlendMode::LinearBurn => "线性加深"@,
        BlendMode::ColorBurn => "颜色加深"@,
        BlendMode::Add => "添加"@,
        BlendMode::Difference => "差值"@,
        BlendMode::Subtract => "减去"@,
        BlendMode::Darken => "变暗"@,
        BlendMode::Lighten => "变亮"@,
        BlendMode::HardLight => "强光"@,
        BlendMode::Exclusion => "排除"@,
    }
}

pub fn blend_mode_label(mode: BlendMode) -> (r: &'static str)
    ensures
        r@ == blend_mode_text(mode),
{
    match mode {
        BlendMode::Normal => "正常",
        BlendMode::Multiply => "正片叠底",
        BlendMode::Screen => "滤色",
        BlendMode::Overlay => "叠加",
        BlendMode::SoftLight => "柔光",
        BlendMode::ColorDodge => "颜色减淡",
        BlendMode::LinearBurn => "线性加深",
        BlendMode::ColorBurn => "颜色加深",
        BlendMode::Add => "添加",
        BlendMode::Difference => "差值",
        BlendMode::Subtract => "减去",
        BlendMode::Darken => "变暗",
        BlendMode::Lighten => "变亮",
        BlendMode::HardLight => "强光",
        BlendMode::Exclusion => "排除",
    }
}

/// No two blend modes carry the same label.
pub proof fn blend_mode_labels_differ(a: BlendMode, b: BlendMode)
    requires
        a != b,
    ensures
        blend_mode_text(a) != blend_mode_text(b),
{
    reveal_strlit("正常");
    reveal_strlit("正片叠底");
    reveal_strlit("滤色");
    reveal_strlit("叠加");
    reveal_strlit("柔光");
    reveal_strlit("颜色减淡");
    reveal_strlit("线性加深");
    reveal_strlit("颜色加深");
    reveal_strlit("添加");
    reveal_strlit("差值");
    reveal_strlit("减去");
    reveal_strlit("变暗");
    reveal_strlit("变亮");
    reveal_strlit("强光");
    reveal_strlit("排除");
    let (s, t) = (blend_mode_text(a), blend_mode_text(b));
    assert(s.len() != t.len() || s[0] != t[0] || s[1] != t[1] || s[2] != t[2]);
}

/// Every blend mode is on the panel's list, once.
pub proof fn blend_modes_are_listed_once(mode: BlendMode)
    ensures
        exists|i: int| 0 <= i < 15 && BLEND_MODES[i] == mode,
        forall|i: int, j: int| 0 <= i < j < 15 ==> BLEND_MODES[i] != BLEND_MODES[j],
{
}

#[derive(Clone, Copy, Debug, PartialEq, Eq, Structural)]
pub enum LayerGroupMode {
    PassThrough,
    Isolated,
}

pub open spec fn group_mode_text(mode: LayerGroupMode) -> Seq<char> {
    match mode {
        LayerGroupMode::PassThrough => "穿透"@,
        LayerGroupMode::Isolated => "隔离"@,
    }
}

pub fn group_mode_label(mode: LayerGroupMode) -> (r: &'static str)
    ensures
        r@ == group_mode_text(mode),
{
    match mode {
        LayerGroupMode::PassThrough => "穿透",
        LayerGroupMode::Isolated => "隔离",
    }
}

/// How a layer is called.
pub open spec fn layer_text(id: LayerId) -> Seq<char> {
    "图层 "@ + crate::text::decimal(id.0 as nat)
}

pub fn layer_label(id: LayerId) -> (r: String)
    ensures
        r@ == layer_text(id),
{
    numbered("图层 ", id.0)
}

/// No two layers are called the same.
pub proof fn layer_labels_differ(a: LayerId, b: LayerId)
    requires
        a != b,
    ensures
        layer_text(a) != layer_text(b),
{
    let head = "图层 "@;
    let (s, t) = (crate::text::decimal(a.0 as nat), crate::text::decimal(b.0 as nat));
    if head + s == head + t {
        assert((head + s).skip(head.len() as int) =~= s);
        assert((head + t).skip(head.len() as int) =~= t);
        crate::text::decimal_reads_back(a.0 as nat);
        crate::text::decimal_reads_back(b.0 as nat);
    }
}

/// What can be set about a layer.
#[derive(Clone, Copy, Debug, PartialEq, Eq, Structural)]
pub struct LayerSpec {
    pub id: LayerId,
    pub visible: bool,
    pub opacity: Single,
    pub alpha_locked: bool,
    pub clip_to_below: bool,
    pub blend_mode: BlendMode,
    pub mask_layer: Option<LayerId>,
}

impl LayerSpec {
    /// Nothing differs between the two layers; their opacities are compared as numbers.
    pub open spec fn alike(self, other: LayerSpec) -> bool {
        &&& self.opacity.same_number(other.opacity)
        &&& self == (LayerSpec { opacity: self.opacity, ..other })
    }

    pub fn is_alike(&self, other: &LayerSpec) -> (r: bool)
        ensures
            r == self.alike(*other),
    {
        self.opacity.equals(other.opacity) && self.id == other.id && self.visible == other.visible
            && self.alpha_locked == other.alpha_locked && self.clip_to_below == other.clip_to_below
            && self.blend_mode == other.blend_mode && self.mask_layer == other.mask_layer
    }
}

/// A layer as the engine has it, from the lowest to the highest in a stack.
#[derive(Clone, Copy, Debug, PartialEq, Eq, Structural)]
pub struct LayerSnapshot {
    pub spec: LayerSpec,
    pub parent: Option<LayerId>,
    pub group_mode: LayerGroupMode,
    pub tile_count: usize,
}

/// Whether `layers` holds the layer `id`.
pub open spec fn has_layer(layers: Seq<LayerSnapshot>, id: LayerId) -> bool {
    exists|i: int| 0 <= i < layers.len() && (#[trigger] layers[i]).spec.id == id
}

/// The highest number among the layers, or zero without layers.
pub open spec fn highest_id(layers: Seq<LayerSnapshot>) -> u64
    decreases layers.len(),
{
    if layers.len() == 0 {
        0
    } else {
        let before = highest_id(layers.drop_last());
        if layers.last().spec.id.0 > before {
            layers.last().spec.id.0
        } else {
            before
        }
    }
}

/// The number after `n`, unless `n` is the last one.
pub open spec fn following(n: u64) -> u64 {
    if n == u64::MAX {
        u64::MAX
    } else {
        (n + 1) as u64
    }
}

/// The position of the layer `id`, if it is there.
pub fn position_of(layers: &[LayerSnapshot], id: LayerId) -> (r: Option<usize>)
    ensures
        match r {
            Some(index) => index < layers@.len() && layers@[index as int].spec.id == id && (forall|
                i: int,
            |
                0 <= i < index ==> (#[trigger] layers@[i]).spec.id != id),
            None => !has_layer(layers@, id),
        },
{
    let mut i: usize = 0;
    while i < layers.len()
        invariant
            i <= layers@.len(),
            forall|j: int| 0 <= j < i ==> (#[trigger] layers@[j]).spec.id != id,
        decreases layers@.len() - i,
    {
        if layers[i].spec.id == id {
            return Some(i);
        }
        i += 1;
    }
    None
}

/// Tells every layer but `id`.
pub open spec fn apart_from(id: LayerId) -> spec_fn(LayerId) -> bool {
    |other: LayerId| other != id
}

/// The layers that a layer may be masked by or put under: every layer but `id` itself.
pub open spec fn others(layers: Seq<LayerSnapshot>, id: LayerId) -> Seq<LayerId> {
    layers.map_values(|layer: LayerSnapshot| layer.spec.id).filter(apart_from(id))
}

pub fn other_layers(layers: &[LayerSnapshot], id: LayerId) -> (r: Vec<LayerId>)
    ensures
        r@ == others(layers@, id),
{
    let mut found: Vec<LayerId> = Vec::new();
    let mut i: usize = 0;
    let ghost name = |layer: LayerSnapshot| layer.spec.id;
    let ghost wanted = apart_from(id);
    proof {
        reveal(Seq::filter);
    }
    while i < layers.len()
        invariant
            i <= layers@.len(),
            name == (|layer: LayerSnapshot| layer.spec.id),
            wanted == apart_from(id),
            found@ == layers@.take(i as int).map_values(name).filter(wanted),
        decreases layers@.len() - i,
    {
        proof {
            reveal(Seq::filter);
            assert(layers@.take(i + 1).map_values(name).drop_last() =~= layers@.take(
                i as int,
            ).map_values(name));
        }
        if layers[i].spec.id != id {
            found.push(layers[i].spec.id);
        }
        i += 1;
    }
    assert(layers@.take(i as int) =~= layers@);
    found
}

/// A layer is never offered as its own mask or parent.
pub proof fn no_layer_is_offered_to_itself(layers: Seq<LayerSnapshot>, id: LayerId)
    ensures
        !others(layers, id).contains(id),
{
    let names = layers.map_values(|layer: LayerSnapshot| layer.spec.id);
    let wanted = apart_from(id);
    if others(layers, id).contains(id) {
        names.lemma_filter_contains_rev(wanted, id);
        let i = choose|i: int| 0 <= i < others(layers, id).len() && others(layers, id)[i] == id;
        names.lemma_filter_pred(wanted, i);
    }
}

/// Which layer is painted on, and which number the next new layer gets.
#[derive(Clone, Copy, Debug, PartialEq, Eq, Structural)]
pub struct LayerCursor {
    pub layer_id: LayerId,
    pub next_layer_id: u64,
}

impl LayerCursor {
    pub fn new(layer_id: LayerId) -> (r: LayerCursor)
        requires
            layer_id.0 < u64::MAX,
        ensures
            r == (LayerCursor { layer_id, next_layer_id: (layer_id.0 + 1) as u64 }),
    {
        LayerCursor { layer_id, next_layer_id: layer_id.0 + 1 }
    }

    /// The cursor moved onto a layer that exists: it stays where it is, or else goes to the
    /// top layer.
    pub open spec fn synced(self, layers: Seq<LayerSnapshot>) -> LayerCursor {
        if has_layer(layers, self.layer_id) || layers.len() == 0 {
            self
        } else {
            LayerCursor { layer_id: layers.last().spec.id, ..self }
        }
    }

    pub fn sync_active_layer(&mut self, layers: &[LayerSnapshot])
        ensures
            *final(self) == old(self).synced(layers@),
    {
        if position_of(layers, self.layer_id).is_some() {
            return;
        }
        if layers.len() > 0 {
            self.layer_id = layers[layers.len() - 1].spec.id;
        }
    }

    /// Moves the cursor to a new layer and reserves its number.
    pub fn take_new_layer(&mut self) -> (r: CanvasCommand)
        ensures
            r == CanvasCommand::AddPlainLayer(LayerId(old(self).next_layer_id)),
            *final(self) == (LayerCursor {
                layer_id: LayerId(old(self).next_layer_id),
                next_layer_id: following(old(self).next_layer_id),
            }),
    {
        let id = LayerId(self.next_layer_id);
        self.next_layer_id = self.next_layer_id.saturating_add(1);
        self.layer_id = id;
        CanvasCommand::AddPlainLayer(id)
    }

    /// The command that removes the current layer, unless it is the only one.
    pub fn remove_command(&self, layers: &[LayerSnapshot]) -> (r: Option<CanvasCommand>)
        ensures
            r == if layers@.len() > 1 {
                Some(CanvasCommand::RemoveLayer(self.layer_id))
            } else {
                None
            },
    {
        if layers.len() > 1 {
            Some(CanvasCommand::RemoveLayer(self.layer_id))
        } else {
            None
        }
    }

    pub fn clear_command(&self) -> (r: CanvasCommand)
        ensures
            r == CanvasCommand::ClearLayer(self.layer_id),
    {
        CanvasCommand::ClearLayer(self.layer_id)
    }

    /// The command that moves the current layer one up, unless it is the top layer or gone.
    pub fn move_up_command(&self, layers: &[LayerSnapshot]) -> (r: Option<CanvasCommand>)
        ensures
            !has_layer(layers@, self.layer_id) ==> r is None,
            forall|index: int|
                first_position(layers@, self.layer_id, index) ==> r == if index + 1 < layers@.len() {
                    Some(
                        CanvasCommand::MoveLayer {
                            id: self.layer_id,
                            to_index: (index + 1) as usize,
                        },
                    )
                } else {
                    None
                },
    {
        match position_of(layers, self.layer_id) {
            Some(index) => {
                assert(layers@[index as int].spec.id == self.layer_id);
                if index < layers.len() - 1 {
                    Some(CanvasCommand::MoveLayer { id: self.layer_id, to_index: index + 1 })
                } else {
                    None
                }
            },
            None => None,
        }
    }

    /// The command that moves the current layer one down, unless it is the lowest or gone.
    pub fn move_down_command(&self, layers: &[LayerSnapshot]) -> (r: Option<CanvasCommand>)
        ensures
            !has_layer(layers@, self.layer_id) ==> r is None,
            forall|index: int|
                first_position(layers@, self.layer_id, index) ==> r == if index > 0 {
                    Some(
                        CanvasCommand::MoveLayer {
                            id: self.layer_id,
                            to_index: (index - 1) as usize,
                        },
                    )
                } else {
                    None
                },
    {
        match position_of(layers, self.layer_id) {
            Some(index) => {
                assert(layers@[index as int].spec.id == self.layer_id);
                if index > 0 {
                    Some(CanvasCommand::MoveLayer { id: self.layer_id, to_index: index - 1 })
                } else {
                    None
                }
            },
            None => None,
        }
    }

    /// Moves the cursor to the layer `id`.
    pub fn select(&mut self, id: LayerId)
        ensures
            *final(self) == (LayerCursor { layer_id: id, ..*old(self) }),
    {
        self.layer_id = id;
    }

    /// The command that puts the current layer under `parent`, if that is a change.
    pub fn reparent_command(&self, old_parent: Option<LayerId>, parent: Option<LayerId>) -> (r:
        Option<CanvasCommand>)
        ensures
            r == if parent != old_parent {
                Some(CanvasCommand::SetLayerParent { id: self.layer_id, parent })
            } else {
                None
            },
    {
        if parent != old_parent {
            Some(CanvasCommand::SetLayerParent { id: self.layer_id, parent })
        } else {
            None
        }
    }

    /// The command that sets the group mode of the current layer, if that is a change.
    pub fn regroup_command(&self, old_mode: LayerGroupMode, mode: LayerGroupMode) -> (r: Option<
        CanvasCommand,
    >)
        ensures
            r == if mode != old_mode {
                Some(CanvasCommand::SetLayerGroupMode { id: self.layer_id, mode })
            } else {
                None
            },
    {
        if mode != old_mode {
            Some(CanvasCommand::SetLayerGroupMode { id: self.layer_id, mode })
        } else {
            None
        }
    }

    /// Starts over on a canvas that has one layer.
    pub fn reset_to_first_layer(&mut self)
        ensures
            *final(self) == (LayerCursor { layer_id: LayerId(1), next_layer_id: 2 }),
    {
        self.layer_id = LayerId(1);
        self.next_layer_id = 2;
    }

    /// Takes up the layers of a rebuilt canvas: the top layer is painted on, and new layers
    /// are numbered after all of them.
    pub fn adopt_layers(&mut self, layers: &[LayerSnapshot])
        ensures
            final(self).layer_id == if layers@.len() > 0 {
                layers@.last().spec.id
            } else {
                LayerId(1)
            },
            final(self).next_layer_id == following(highest_id(layers@)),
    {
        let mut highest: u64 = 0;
        let mut i: usize = 0;
        while i < layers.len()
            invariant
                i <= layers@.len(),
                highest == highest_id(layers@.take(i as int)),
            decreases layers@.len() - i,
        {
            assert(layers@.take(i + 1).drop_last() =~= layers@.take(i as int));
            if layers[i].spec.id.0 > highest {
                highest = layers[i].spec.id.0;
            }
            i += 1;
        }
        assert(layers@.take(i as int) =~= layers@);
        self.layer_id = if layers.len() > 0 {
            layers[layers.len() - 1].spec.id
        } else {
            LayerId(1)
        };
        self.next_layer_id = highest.saturating_add(1);
    }
}

/// `index` is where the layer `id` stands first.
pub open spec fn first_position(layers: Seq<LayerSnapshot>, id: LayerId, index: int) -> bool {
    &&& 0 <= index < layers.len()
    &&& layers[index].spec.id == id
    &&& forall|i: int| 0 <= i < index ==> (#[trigger] layers[i]).spec.id != id
}

/// The command that makes an edit of a layer, if the edit changes anything.
pub fn edit_command(before: &LayerSpec, edited: LayerSpec) -> (r: Option<CanvasCommand>)
    ensures
        r == if edited.alike(*before) {
            None
        } else {
            Some(CanvasCommand::SetLayer(edited))
        },
{
    if edited.is_alike(before) {
        None
    } else {
        Some(CanvasCommand::SetLayer(edited))
    }
}

/// On a canvas with layers, syncing always leaves the cursor on one of them, and doing it
/// again changes nothing.
pub proof fn syncing_finds_a_layer(cursor: LayerCursor, layers: Seq<LayerSnapshot>)
    ensures
        layers.len() > 0 ==> has_layer(layers, cursor.synced(layers).layer_id),
        cursor.synced(layers).synced(layers) == cursor.synced(layers),
{
    if layers.len() > 0 {
        assert(layers[layers.len() - 1].spec.id == layers.last().spec.id);
    }
}

/// Every layer's number is below `next`.
pub open spec fn numbered_below(layers: Seq<LayerSnapshot>, next: u64) -> bool {
    forall|i: int| 0 <= i < layers.len() ==> (#[trigger] layers[i]).spec.id.0 < next
}

/// After a canvas was rebuilt, new layers are numbered beyond all of its layers, as long as
/// numbers last.
pub proof fn next_number_is_free(layers: Seq<LayerSnapshot>)
    requires
        highest_id(layers) < u64::MAX,
    ensures
        numbered_below(layers, following(highest_id(layers))),
        !has_layer(layers, LayerId(following(highest_id(layers)))),
{
    lemma_highest_bounds(layers);
}

/// The number that a new layer gets is free, and stays behind once the layer was put in at
/// `index`: no number is given twice, as long as numbers last.
pub proof fn numbers_are_given_once(
    layers: Seq<LayerSnapshot>,
    cursor: LayerCursor,
    added: LayerSnapshot,
    index: int,
)
    requires
        numbered_below(layers, cursor.next_layer_id),
        cursor.next_layer_id < u64::MAX,
        added.spec.id == LayerId(cursor.next_layer_id),
        0 <= index <= layers.len(),
    ensures
        !has_layer(layers, LayerId(cursor.next_layer_id)),
        numbered_below(layers.insert(index, added), following(cursor.next_layer_id)),
{
    let after = layers.insert(index, added);
    assert forall|i: int| 0 <= i < after.len() implies (#[trigger] after[i]).spec.id.0 < following(
        cursor.next_layer_id,
    ) by {
        if i < index {
            assert(after[i] == layers[i]);
        } else if i > index {
            assert(after[i] == layers[i - 1]);
        }
    }
}

proof fn lemma_highest_bounds(layers: Seq<LayerSnapshot>)
    ensures
        forall|i: int|
            0 <= i < layers.len() ==> (#[trigger] layers[i]).spec.id.0 <= highest_id(layers),
    decreases layers.len(),
{
    if layers.len() > 0 {
        lemma_highest_bounds(layers.drop_last());
        assert forall|i: int| 0 <= i < layers.len() implies (#[trigger] layers[i]).spec.id.0
            <= highest_id(layers) by {
            if i < layers.len() - 1 {
                assert(layers.drop_last()[i] == layers[i]);
            }
        }
    }
}

} // verus!
