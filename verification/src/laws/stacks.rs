//! Layers and the clipboard: which layer is meant, and what is done to it.

use crate::command::CanvasCommand;
use crate::layers::{LayerCursor, LayerGroupMode, LayerId, LayerSnapshot, LayerSpec};
use crate::shell::{CanvasApp, ClipboardInfo, PasteRequest};
use vstd::prelude::*;

verus! {

/// The layer is among `layers`.
pub open spec fn among(layers: Seq<LayerSnapshot>, id: LayerId) -> bool {
    exists|i: int| 0 <= i < layers.len() && (#[trigger] layers[i]).spec.id == id
}

/// A layer is found where it stands first, and not found just when it is not there.
pub proof fn layers_are_found_where_they_stand(
    layers: &[LayerSnapshot],
    id: LayerId,
    found: Option<usize>,
    i: int,
)
    requires
        call_ensures(crate::layers::position_of, (layers, id), found),
        0 <= i < layers@.len(),
    ensures
        layers@[i].spec.id == id ==> found is Some && found->0 <= i,
        found is Some ==> found->0 < layers@.len() && layers@[found->0 as int].spec.id == id,
{
}

/// Every layer but the layer itself is offered as its mask or parent, and no other.
pub proof fn all_other_layers_are_offered(
    layers: &[LayerSnapshot],
    id: LayerId,
    offered: Vec<LayerId>,
    other: LayerId,
)
    requires
        call_ensures(crate::layers::other_layers, (layers, id), offered),
    ensures
        offered@.contains(other) <==> other != id && among(layers@, other),
{
    let names = layers@.map_values(|layer: LayerSnapshot| layer.spec.id);
    let wanted = crate::layers::apart_from(id);
    if offered@.contains(other) {
        names.lemma_filter_contains_rev(wanted, other);
        let k = choose|k: int| 0 <= k < offered@.len() && offered@[k] == other;
        names.lemma_filter_pred(wanted, k);
        let i = choose|i: int| 0 <= i < names.len() && names[i] == other;
        assert(layers@[i].spec.id == other);
    }
    if other != id && among(layers@, other) {
        let i = choose|i: int| 0 <= i < layers@.len() && (#[trigger] layers@[i]).spec.id == other;
        assert(names[i] == other);
        names.lemma_filter_contains(wanted, i);
    }
}

/// Layers are offered in the order in which they stand.
pub proof fn layers_are_offered_in_order(
    layers: &[LayerSnapshot],
    id: LayerId,
    offered: Vec<LayerId>,
) -> (at: Seq<int>)
    requires
        call_ensures(crate::layers::other_layers, (layers, id), offered),
    ensures
        at.len() == offered@.len(),
        forall|k: int|
            0 <= k < at.len() ==> 0 <= #[trigger] at[k] < layers@.len() && layers@[at[k]].spec.id
                == offered@[k],
        forall|k: int, l: int| 0 <= k < l < at.len() ==> #[trigger] at[k] < #[trigger] at[l],
{
    let names = layers@.map_values(|layer: LayerSnapshot| layer.spec.id);
    let at = crate::laws::samples::lemma_filter_places(names, crate::layers::apart_from(id));
    assert forall|k: int| 0 <= k < at.len() implies 0 <= #[trigger] at[k] < layers@.len()
        && layers@[at[k]].spec.id == offered@[k] by {
        assert(names[at[k]] == layers@[at[k]].spec.id);
    }
    at
}

/// The first cursor is on the first layer, and the next layer gets the number behind it.
pub proof fn cursors_start_on_the_first_layer(id: LayerId, cursor: LayerCursor)
    requires
        call_ensures(LayerCursor::new, (id,), cursor),
        id.0 < u64::MAX,
    ensures
        cursor.layer_id == id,
        cursor.next_layer_id == id.0 + 1,
{
}

/// A layer that is still there stays the current one; one that is gone gives way to the top
/// layer, if there is any. The number of the next layer is not touched.
pub proof fn cursors_stay_on_a_layer_that_is_there(
    cursor: &mut LayerCursor,
    layers: &[LayerSnapshot],
)
    requires
        call_ensures(LayerCursor::sync_active_layer, (cursor, layers), ()),
    ensures
        among(layers@, old(cursor).layer_id) ==> final(cursor).layer_id == old(cursor).layer_id,
        !among(layers@, old(cursor).layer_id) && layers@.len() > 0 ==> final(cursor).layer_id
            == layers@[layers@.len() - 1].spec.id,
        layers@.len() == 0 ==> final(cursor).layer_id == old(cursor).layer_id,
        layers@.len() > 0 ==> among(layers@, final(cursor).layer_id),
        final(cursor).next_layer_id == old(cursor).next_layer_id,
{
    if !among(layers@, old(cursor).layer_id) && layers@.len() > 0 {
        assert(layers@[layers@.len() - 1].spec.id == final(cursor).layer_id);
    }
    if among(layers@, old(cursor).layer_id) {
        assert(crate::layers::has_layer(layers@, old(cursor).layer_id));
    }
}

/// A new layer is added under the next number and painted on from then on; the layer after it
/// gets the number behind, so that no two new layers share one.
pub proof fn new_layers_are_numbered_on(
    first: &mut LayerCursor,
    second: &mut LayerCursor,
    one: CanvasCommand,
    other: CanvasCommand,
)
    requires
        call_ensures(LayerCursor::take_new_layer, (first,), one),
        call_ensures(LayerCursor::take_new_layer, (second,), other),
        *old(second) == *final(first),
        old(first).next_layer_id < u64::MAX,
    ensures
        one is AddPlainLayer,
        one->AddPlainLayer_0.0 == old(first).next_layer_id,
        final(first).layer_id == one->AddPlainLayer_0,
        other is AddPlainLayer,
        other->AddPlainLayer_0.0 == one->AddPlainLayer_0.0 + 1,
        final(second).layer_id == other->AddPlainLayer_0,
{
}

/// The current layer is removed, but never the last one; it is cleared, and nothing else is.
pub proof fn the_current_layer_is_removed_and_cleared(
    cursor: LayerCursor,
    layers: &[LayerSnapshot],
    removal: Option<CanvasCommand>,
    clearing: CanvasCommand,
)
    requires
        call_ensures(LayerCursor::remove_command, (&cursor, layers), removal),
        call_ensures(LayerCursor::clear_command, (&cursor,), clearing),
    ensures
        removal is Some <==> layers@.len() > 1,
        removal is Some ==> removal->0 == CanvasCommand::RemoveLayer(cursor.layer_id),
        clearing == CanvasCommand::ClearLayer(cursor.layer_id),
{
}

/// The current layer moves up by one place unless it is the topmost, and down by one unless it
/// is the lowest; a layer that is gone does not move.
pub proof fn layers_move_by_one_place(
    cursor: LayerCursor,
    layers: &[LayerSnapshot],
    up: Option<CanvasCommand>,
    down: Option<CanvasCommand>,
    i: int,
)
    requires
        call_ensures(LayerCursor::move_up_command, (&cursor, layers), up),
        call_ensures(LayerCursor::move_down_command, (&cursor, layers), down),
        0 <= i < layers@.len(),
        layers@.len() <= usize::MAX,
        layers@[i].spec.id == cursor.layer_id,
        forall|j: int| 0 <= j < i ==> (#[trigger] layers@[j]).spec.id != cursor.layer_id,
    ensures
        up is Some <==> i < layers@.len() - 1,
        up is Some ==> up->0 is MoveLayer && up->0->MoveLayer_id == cursor.layer_id
            && up->0->to_index == i + 1,
        down is Some <==> i > 0,
        down is Some ==> down->0 is MoveLayer && down->0->MoveLayer_id == cursor.layer_id
            && down->0->to_index == i - 1,
{
    assert(crate::layers::first_position(layers@, cursor.layer_id, i));
}

/// A layer that is gone does not move.
pub proof fn layers_that_are_gone_do_not_move(
    cursor: LayerCursor,
    layers: &[LayerSnapshot],
    up: Option<CanvasCommand>,
    down: Option<CanvasCommand>,
)
    requires
        call_ensures(LayerCursor::move_up_command, (&cursor, layers), up),
        call_ensures(LayerCursor::move_down_command, (&cursor, layers), down),
        !among(layers@, cursor.layer_id),
    ensures
        up is None,
        down is None,
{
}

/// The layer that was picked is the current one, and the next number stays.
pub proof fn the_picked_layer_is_the_current_one(cursor: &mut LayerCursor, id: LayerId)
    requires
        call_ensures(LayerCursor::select, (cursor, id), ()),
    ensures
        final(cursor).layer_id == id,
        final(cursor).next_layer_id == old(cursor).next_layer_id,
{
}

/// Parent and group mode of the current layer are set to what was picked, and only if that is
/// a change.
pub proof fn only_changes_are_sent(
    cursor: LayerCursor,
    old_parent: Option<LayerId>,
    parent: Option<LayerId>,
    old_mode: LayerGroupMode,
    mode: LayerGroupMode,
    reparent: Option<CanvasCommand>,
    regroup: Option<CanvasCommand>,
)
    requires
        call_ensures(LayerCursor::reparent_command, (&cursor, old_parent, parent), reparent),
        call_ensures(LayerCursor::regroup_command, (&cursor, old_mode, mode), regroup),
    ensures
        reparent is None <==> parent == old_parent,
        reparent is Some ==> reparent->0 is SetLayerParent && reparent->0->SetLayerParent_id
            == cursor.layer_id && reparent->0->parent == parent,
        regroup is None <==> mode == old_mode,
        regroup is Some ==> regroup->0 is SetLayerGroupMode && regroup->0->SetLayerGroupMode_id
            == cursor.layer_id && regroup->0->SetLayerGroupMode_mode == mode,
{
}

/// An edit of a layer is sent as it was made, just when it changes an attribute; opacities are
/// compared as numbers.
pub proof fn edits_are_sent_if_they_change_anything(
    before: LayerSpec,
    edited: LayerSpec,
    command: Option<CanvasCommand>,
    alike: bool,
)
    requires
        call_ensures(crate::layers::edit_command, (&before, edited), command),
        call_ensures(LayerSpec::is_alike, (&edited, &before), alike),
    ensures
        command is Some ==> command->0 == CanvasCommand::SetLayer(edited),
        command is None <==> alike,
        alike <==> (edited.id == before.id && edited.visible == before.visible
            && edited.alpha_locked == before.alpha_locked && edited.clip_to_below
            == before.clip_to_below && edited.blend_mode == before.blend_mode
            && edited.mask_layer == before.mask_layer && edited.opacity.same_number(
            before.opacity,
        )),
{
}

/// A canvas with one layer starts over with the first layer and the second number.
pub proof fn cursors_start_over(cursor: &mut LayerCursor)
    requires
        call_ensures(LayerCursor::reset_to_first_layer, (cursor,), ()),
    ensures
        final(cursor).layer_id.0 == 1,
        final(cursor).next_layer_id == 2,
{
}

/// On a rebuilt canvas the top layer is painted on, and the next layer gets the first number
/// behind all that are there.
pub proof fn rebuilt_layers_are_numbered_on(
    cursor: &mut LayerCursor,
    layers: &[LayerSnapshot],
    i: int,
) -> (highest: int)
    requires
        call_ensures(LayerCursor::adopt_layers, (cursor, layers), ()),
        0 <= i < layers@.len(),
    ensures
        final(cursor).layer_id == layers@[layers@.len() - 1].spec.id,
        layers@[i].spec.id.0 < final(cursor).next_layer_id || layers@[i].spec.id.0 == u64::MAX,
        0 <= highest < layers@.len(),
        layers@[highest].spec.id.0 < u64::MAX ==> final(cursor).next_layer_id
            == layers@[highest].spec.id.0 + 1,
        layers@[i].spec.id.0 <= layers@[highest].spec.id.0,
{
    lemma_the_highest_is_there(layers@);
    let top = crate::layers::highest_id(layers@);
    let highest = choose|k: int|
        0 <= k < layers@.len() && (#[trigger] layers@[k]).spec.id.0 == top;
    highest
}

proof fn lemma_the_highest_is_there(layers: Seq<LayerSnapshot>)
    requires
        layers.len() > 0,
    ensures
        exists|k: int|
            0 <= k < layers.len() && (#[trigger] layers[k]).spec.id.0
                == crate::layers::highest_id(layers),
        forall|k: int|
            0 <= k < layers.len() ==> (#[trigger] layers[k]).spec.id.0
                <= crate::layers::highest_id(layers),
    decreases layers.len(),
{
    let before = layers.drop_last();
    let last = layers.len() - 1;
    if before.len() == 0 {
        assert(crate::layers::highest_id(before) == 0);
        assert(layers[0].spec.id.0 == crate::layers::highest_id(layers));
    } else {
        lemma_the_highest_is_there(before);
        let k = choose|k: int|
            0 <= k < before.len() && (#[trigger] before[k]).spec.id.0
                == crate::layers::highest_id(before);
        assert(layers[k] == before[k]);
        assert(layers[last] == layers.last());
    }
    assert forall|k: int| 0 <= k < layers.len() implies (#[trigger] layers[k]).spec.id.0
        <= crate::layers::highest_id(layers) by {
        if k < last {
            assert(before[k] == layers[k]);
        }
    }
}

/// Without layers a rebuilt canvas starts over with the first number.
pub proof fn empty_rebuilds_start_over(cursor: &mut LayerCursor, layers: &[LayerSnapshot])
    requires
        call_ensures(LayerCursor::adopt_layers, (cursor, layers), ()),
        layers@.len() == 0,
    ensures
        final(cursor).layer_id.0 == 1,
        final(cursor).next_layer_id == 1,
{
}

/// After a command the error is the command's, and the current layer is one that is there;
/// nothing else of the shell changes.
pub proof fn commands_leave_a_layer_to_paint_on(
    app: &mut CanvasApp,
    result: Result<(), String>,
    layers: &[LayerSnapshot],
)
    requires
        call_ensures(CanvasApp::execute_canvas_command, (app, result, layers), ()),
    ensures
        result is Ok ==> final(app).last_error is None,
        result is Err ==> final(app).last_error == Some(result->Err_0),
        among(layers@, old(app).cursor.layer_id) ==> final(app).cursor == old(app).cursor,
        layers@.len() > 0 ==> among(layers@, final(app).cursor.layer_id),
        !among(layers@, old(app).cursor.layer_id) && layers@.len() > 0
            ==> final(app).cursor.layer_id == layers@[layers@.len() - 1].spec.id,
        final(app).cursor.next_layer_id == old(app).cursor.next_layer_id,
        *final(app) == (CanvasApp {
            cursor: final(app).cursor,
            last_error: final(app).last_error,
            ..*old(app)
        }),
{
    if !among(layers@, old(app).cursor.layer_id) && layers@.len() > 0 {
        assert(layers@[layers@.len() - 1].spec.id == final(app).cursor.layer_id);
    }
    if among(layers@, old(app).cursor.layer_id) {
        assert(crate::layers::has_layer(layers@, old(app).cursor.layer_id));
    }
}

/// What was copied is on the clipboard, and stays there when nothing could be copied. The
/// canvas has to be shown anew just when pixels were cut out of it.
pub proof fn copies_go_to_the_clipboard(
    app: &mut CanvasApp,
    cut: bool,
    result: Result<Option<ClipboardInfo>, String>,
    shows: bool,
)
    requires
        call_ensures(CanvasApp::copy_selection_to_clipboard, (app, cut, result), shows),
    ensures
        shows <==> cut && result is Ok && result->Ok_0 is Some,
        result is Ok && result->Ok_0 is Some ==> final(app).clipboard == result->Ok_0
            && final(app).last_error is None,
        result is Err || result->Ok_0 is None ==> final(app).clipboard == old(app).clipboard
            && final(app).last_error is Some,
        result is Ok && result->Ok_0 is None ==> final(app).last_error->0@
            == "没有可复制的活动选区"@,
        result is Err ==> final(app).last_error == Some(result->Err_0),
        *final(app) == (CanvasApp {
            clipboard: final(app).clipboard,
            last_error: final(app).last_error,
            ..*old(app)
        }),
{
}

/// The clipboard is pasted where it was copied, onto the current layer or onto a new one under
/// the next number; an empty clipboard is an error and is not pasted.
pub proof fn pastes_go_where_the_copy_was(
    current: &mut CanvasApp,
    fresh: &mut CanvasApp,
    onto_current: Option<PasteRequest>,
    onto_new: Option<PasteRequest>,
)
    requires
        call_ensures(CanvasApp::paste_clipboard_to_active_layer, (current,), onto_current),
        call_ensures(CanvasApp::paste_clipboard_to_new_layer, (fresh,), onto_new),
    ensures
        onto_current is Some <==> old(current).clipboard is Some,
        onto_current is Some ==> onto_current->0.layer == old(current).cursor.layer_id
            && onto_current->0.origin_x == old(current).clipboard->0.bounds.x
            && onto_current->0.origin_y == old(current).clipboard->0.bounds.y && *final(current)
            == *old(current),
        onto_current is None ==> final(current).last_error is Some
            && final(current).last_error->0@ == "剪贴板为空"@ && *final(current) == (
        CanvasApp { last_error: final(current).last_error, ..*old(current) }),
        onto_new is Some <==> old(fresh).clipboard is Some,
        onto_new is Some ==> onto_new->0.layer.0 == old(fresh).cursor.next_layer_id
            && onto_new->0.origin_x == old(fresh).clipboard->0.bounds.x && onto_new->0.origin_y
            == old(fresh).clipboard->0.bounds.y && *final(fresh) == *old(fresh),
        onto_new is None ==> final(fresh).last_error is Some && final(fresh).last_error->0@
            == "剪贴板为空"@ && *final(fresh) == (CanvasApp {
            last_error: final(fresh).last_error,
            ..*old(fresh)
        }),
{
}

/// Pasting onto the current layer changes nothing of the shell but the error: none if
/// anything was pasted, and one if nothing was.
pub proof fn pastes_onto_a_layer_leave_the_shell(app: &mut CanvasApp, result: Result<bool, String>)
    requires
        call_ensures(CanvasApp::finish_paste, (app, result), ()),
    ensures
        result is Ok && result->Ok_0 <==> final(app).last_error is None,
        result is Ok && !result->Ok_0 ==> final(app).last_error->0@ == "粘贴区域超出画布"@,
        result is Err ==> final(app).last_error == Some(result->Err_0),
        *final(app) == (CanvasApp { last_error: final(app).last_error, ..*old(app) }),
{
}

/// A new layer that was made by pasting becomes the current one, and its number is used up;
/// if nothing was pasted, the current layer and the number stay.
pub proof fn pasted_layers_become_current(
    app: &mut CanvasApp,
    result: Result<bool, String>,
    layers: &[LayerSnapshot],
)
    requires
        call_ensures(CanvasApp::finish_paste_to_new_layer, (app, result, layers), ()),
    ensures
        result is Ok && result->Ok_0 <==> final(app).last_error is None,
        result is Ok && !result->Ok_0 ==> final(app).last_error->0@ == "粘贴区域在画布外"@,
        result is Err ==> final(app).last_error == Some(result->Err_0),
        result is Ok && result->Ok_0 && among(
            layers@,
            LayerId(old(app).cursor.next_layer_id),
        ) ==> final(app).cursor.layer_id.0 == old(app).cursor.next_layer_id,
        result is Ok && result->Ok_0 && old(app).cursor.next_layer_id < u64::MAX
            ==> final(app).cursor.next_layer_id == old(app).cursor.next_layer_id + 1,
        result is Err || !result->Ok_0 ==> final(app).cursor.next_layer_id
            == old(app).cursor.next_layer_id,
        (result is Err || !result->Ok_0) && among(layers@, old(app).cursor.layer_id)
            ==> final(app).cursor.layer_id == old(app).cursor.layer_id,
        layers@.len() > 0 ==> among(layers@, final(app).cursor.layer_id),
        *final(app) == (CanvasApp {
            cursor: final(app).cursor,
            last_error: final(app).last_error,
            ..*old(app)
        }),
{
    if layers@.len() > 0 {
        assert(layers@[layers@.len() - 1].spec.id == layers@.last().spec.id);
    }
    if among(layers@, old(app).cursor.layer_id) {
        assert(crate::layers::has_layer(layers@, old(app).cursor.layer_id));
    }
    if among(layers@, LayerId(old(app).cursor.next_layer_id)) {
        assert(crate::layers::has_layer(layers@, LayerId(old(app).cursor.next_layer_id)));
    }
}

} // verus!
