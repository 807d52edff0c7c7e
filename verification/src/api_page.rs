//! The API control pages: a list of operations, each with the parameters
//! entered for it, a pending confirmation and the last result.

use vstd::prelude::*;

use crate::api::{
    all_operations, category_label, op_category, op_title, default_params_spec, needs_confirmation, op_method, op_params, op_path,
    param_label, param_value, supported, with_param, ApiOperation, ApiParamField, ApiParams,
};
use crate::event::{Action, KeyCode, ListEvent};
use crate::kind::ControllerKind;
use crate::list::{moved, sat_sub, Coord, ListState};
use crate::config_page::pad_end;
use crate::path::preview_spec;
use crate::row_text::pad_right;
use crate::text::{concat, owned, pop_char, push_char};

verus! {

/// An operation as the control pages list it.
#[derive(Debug, PartialEq, Eq)]
pub struct ApiItem {
    pub operation: ApiOperation,
    pub last_result: Option<String>,
    pub params: ApiParams,
    /// Which of the operation's parameters is being edited.
    pub param_index: usize,
    pub editing: bool,
    /// A dangerous operation waits for a second Enter.
    pub confirm: bool,
}

/// The list of a control page.
pub type ApiListState = ListState<ApiItem>;

/// An item as it is listed first: default parameters, nothing run yet.
pub open spec fn fresh_item(item: ApiItem, op: ApiOperation) -> bool {
    &&& item.operation == op
    &&& item.last_result is None
    &&& default_params_spec(item.params)
    &&& item.param_index == 0
    &&& !item.editing
    &&& !item.confirm
}

/// The parameter of `item` being edited: the one at its index, or the last
/// one when the index is past the end; `None` for operations without
/// parameters.
pub open spec fn item_param(item: ApiItem) -> Option<ApiParamField> {
    let fields = op_params(item.operation);
    if fields.len() == 0 {
        None
    } else if item.param_index < fields.len() {
        Some(fields[item.param_index as int])
    } else {
        Some(fields[fields.len() - 1])
    }
}

/// The operations of `ops` that a controller of `kind` offers, in order.
pub open spec fn supported_ops(ops: Seq<ApiOperation>, kind: ControllerKind) -> Seq<ApiOperation>
    decreases ops.len(),
{
    if ops.len() == 0 {
        Seq::empty()
    } else {
        let rest = supported_ops(ops.drop_last(), kind);
        if supported(ops.last(), kind) {
            rest.push(ops.last())
        } else {
            rest
        }
    }
}

/// The items of a fresh catalog of `ops`.
pub open spec fn fresh_items(items: Seq<ApiItem>, ops: Seq<ApiOperation>) -> bool {
    items.len() == ops.len() && forall|i: int| 0 <= i < ops.len() ==> fresh_item(#[trigger] items[i], ops[i])
}

impl ApiItem {
    /// A fresh item for `operation`.
    pub fn new(operation: ApiOperation) -> (r: ApiItem)
        ensures
            fresh_item(r, operation),
    {
        ApiItem {
            operation,
            last_result: None,
            params: ApiParams::default(),
            param_index: 0,
            editing: false,
            confirm: false,
        }
    }

    /// Fresh items for `operations`, in order.
    pub fn catalog_for(operations: &[ApiOperation]) -> (r: Vec<ApiItem>)
        ensures
            fresh_items(r@, operations@),
    {
        let mut r: Vec<ApiItem> = Vec::new();
        let mut i: usize = 0;
        while i < operations.len()
            invariant
                i <= operations@.len(),
                r@.len() == i,
                forall|k: int| 0 <= k < i ==> fresh_item(#[trigger] r@[k], operations@[k]),
            decreases operations@.len() - i,
        {
            r.push(ApiItem::new(operations[i]));
            i = i + 1;
        }
        r
    }

    /// The whole catalog.
    pub fn catalog() -> (r: Vec<ApiItem>)
        ensures
            fresh_items(r@, all_operations()),
    {
        let all = ApiOperation::all();
        ApiItem::catalog_for(all.as_slice())
    }

    /// The catalog of what a controller of `kind` offers.
    pub fn catalog_for_kind(kind: ControllerKind) -> (r: Vec<ApiItem>)
        ensures
            fresh_items(r@, supported_ops(all_operations(), kind)),
    {
        let all = ApiOperation::all();
        let ops = keep_supported(&all, kind);
        ApiItem::catalog_for(ops.as_slice())
    }

    /// The parameter being edited; see [`item_param`].
    pub fn current_param(&self) -> (r: Option<ApiParamField>)
        ensures
            r == item_param(*self),
    {
        let fields = self.operation.param_fields();
        if fields.len() == 0 {
            None
        } else if self.param_index < fields.len() {
            Some(fields[self.param_index])
        } else {
            Some(fields[fields.len() - 1])
        }
    }
}

/// The line of an item: the category in a column of 8, the method in a
/// column of 6, the path with the parameters in a column of 58 and the
/// title in a column of 32; then the parameter being edited as
/// ` [label=value]` (a `*` before the label while it is edited), and the
/// last result or how to run the operation.
pub open spec fn item_text(item: ApiItem) -> Seq<char> {
    let op = item.operation;
    let param = match item_param(item) {
        Some(f) => " ["@ + (if item.editing {
            "*"@
        } else {
            Seq::<char>::empty()
        }) + param_label(f) + "="@ + param_value(f, item.params) + "]"@,
        None => Seq::<char>::empty(),
    };
    let result = match item.last_result {
        Some(r) => r@,
        None => "press Enter to invoke"@,
    };
    pad_end(category_label(op_category(op)), 8) + pad_end(op_method(op), 6) + pad_end(
        preview_spec(op, item.params),
        58,
    ) + pad_end(op_title(op), 32) + param + " "@ + result
}

impl ApiItem {
    /// The line of the item; see [`item_text`].
    pub fn line(&self) -> (r: String)
        ensures
            r@ == item_text(*self),
    {
        let op = self.operation;
        let mut r = pad_right(op.category().label(), 8);
        r.append(pad_right(op.method(), 6).as_str());
        r.append(pad_right(op.preview_path(&self.params).as_str(), 58).as_str());
        r.append(pad_right(op.title(), 32).as_str());
        let ghost before = r@;
        if let Some(field) = self.current_param() {
            r.append(" [");
            if self.editing {
                r.append("*");
            }
            r.append(field.label());
            r.append("=");
            r.append(field.get(&self.params));
            r.append("]");
        }
        r.append(" ");
        match &self.last_result {
            Some(result) => r.append(result.as_str()),
            None => r.append("press Enter to invoke"),
        }
        proof {
            let param = match item_param(*self) {
                Some(f) => " ["@ + (if self.editing {
                    "*"@
                } else {
                    Seq::<char>::empty()
                }) + param_label(f) + "="@ + param_value(f, self.params) + "]"@,
                None => Seq::<char>::empty(),
            };
            let result = if self.last_result is Some {
                self.last_result->0@
            } else {
                "press Enter to invoke"@
            };
            assert(r@ =~= before + param + " "@ + result);
        }
        r
    }
}

/// The operations of `ops` that a controller of `kind` offers.
pub fn keep_supported(ops: &Vec<ApiOperation>, kind: ControllerKind) -> (r: Vec<ApiOperation>)
    ensures
        r@ == supported_ops(ops@, kind),
{
    let mut r: Vec<ApiOperation> = Vec::new();
    let mut i: usize = 0;
    while i < ops.len()
        invariant
            i <= ops@.len(),
            r@ == supported_ops(ops@.subrange(0, i as int), kind),
        decreases ops@.len() - i,
    {
        let op = ops[i];
        proof {
            assert(ops@.subrange(0, i + 1).drop_last() =~= ops@.subrange(0, i as int));
        }
        if op.supports(kind) {
            r.push(op);
        }
        i = i + 1;
    }
    assert(ops@.subrange(0, ops@.len() as int) =~= ops@);
    r
}

/// A control page listing `ops` afresh: numbered, oldest first, cursor on
/// the first row.
pub open spec fn fresh_page(state: ApiListState, ops: Seq<ApiOperation>) -> bool {
    &&& fresh_items(state.items@, ops)
    &&& state.offset == (Coord { x: 0, y: 0, hold: false })
    &&& state.with_index
    &&& !state.reverse_index
    &&& !state.reverse_items
    &&& !state.pause_enabled && !state.paused
    &&& state.search_query is None && state.filtered_indices is None
    &&& state.padding == 1
    &&& state.placeholder is None
}

fn api_state_for(items: Vec<ApiItem>) -> (r: ApiListState)
    ensures
        r.items@ == items@,
        r.offset == (Coord { x: 0, y: 0, hold: false }),
        r.with_index && !r.reverse_index && !r.reverse_items,
        !r.pause_enabled && !r.paused,
        r.search_query is None && r.filtered_indices is None,
        r.padding == 1 && r.placeholder is None,
{
    let mut state = ListState::new(items);
    state.with_index();
    state.normal_order();
    state
}

/// The page of the whole catalog.
pub fn default_api_state() -> (r: ApiListState)
    ensures
        fresh_page(r, all_operations()),
{
    api_state_for(ApiItem::catalog())
}

/// The page of what a controller of `kind` offers.
pub fn api_state_for_kind(kind: ControllerKind) -> (r: ApiListState)
    ensures
        fresh_page(r, supported_ops(all_operations(), kind)),
{
    api_state_for(ApiItem::catalog_for_kind(kind))
}

/// The operations of the configuration and core page, in order.
pub open spec fn config_core_operations() -> Seq<ApiOperation> {
    seq![
        ApiOperation::GetConfigs,
        ApiOperation::ReloadConfigs,
        ApiOperation::PatchConfigs,
        ApiOperation::UpdateGeo,
        ApiOperation::Restart,
        ApiOperation::Upgrade,
        ApiOperation::UpgradeUi,
        ApiOperation::UpgradeGeo,
    ]
}

/// The operations of the DNS page, in order.
pub open spec fn dns_operations() -> Seq<ApiOperation> {
    seq![ApiOperation::FlushFakeIpCache, ApiOperation::FlushDnsCache, ApiOperation::DnsQuery]
}

/// The configuration and core page for a Mihomo controller.
pub fn config_core_api_state() -> (r: ApiListState)
    ensures
        fresh_page(r, supported_ops(config_core_operations(), ControllerKind::Mihomo)),
{
    config_core_api_state_for_kind(ControllerKind::Mihomo)
}

/// The configuration and core page for a controller of `kind`.
pub fn config_core_api_state_for_kind(kind: ControllerKind) -> (r: ApiListState)
    ensures
        fresh_page(r, supported_ops(config_core_operations(), kind)),
{
    let ops = vec![
        ApiOperation::GetConfigs,
        ApiOperation::ReloadConfigs,
        ApiOperation::PatchConfigs,
        ApiOperation::UpdateGeo,
        ApiOperation::Restart,
        ApiOperation::Upgrade,
        ApiOperation::UpgradeUi,
        ApiOperation::UpgradeGeo,
    ];
    assert(ops@ =~= config_core_operations());
    let kept = keep_supported(&ops, kind);
    api_state_for(ApiItem::catalog_for(kept.as_slice()))
}

/// The DNS page for a Mihomo controller.
pub fn dns_api_state() -> (r: ApiListState)
    ensures
        fresh_page(r, supported_ops(dns_operations(), ControllerKind::Mihomo)),
{
    dns_api_state_for_kind(ControllerKind::Mihomo)
}

/// The DNS page for a controller of `kind`.
pub fn dns_api_state_for_kind(kind: ControllerKind) -> (r: ApiListState)
    ensures
        fresh_page(r, supported_ops(dns_operations(), kind)),
{
    let ops = vec![ApiOperation::FlushFakeIpCache, ApiOperation::FlushDnsCache, ApiOperation::DnsQuery];
    assert(ops@ =~= dns_operations());
    let kept = keep_supported(&ops, kind);
    api_state_for(ApiItem::catalog_for(kept.as_slice()))
}

/// The item under the cursor of a page.
pub open spec fn current_item(state: ApiListState) -> Option<ApiItem> {
    match state.current_index() {
        Some(i) => if 0 <= i < state.items@.len() {
            Some(state.items@[i])
        } else {
            None
        },
        None => None,
    }
}

/// Position of the item under the cursor, when there is one.
fn current_pos(state: &ApiListState) -> (r: Option<usize>)
    ensures
        match r {
            Some(i) => i < state.items@.len() && state.current_index() == Some(i as int),
            None => current_item(*state) is None,
        },
{
    match state.current_item_index() {
        Some(i) => if i < state.items.len() {
            Some(i)
        } else {
            None
        },
        None => None,
    }
}

/// The operation under the cursor.
pub fn current_operation(state: &ApiListState) -> (r: Option<ApiOperation>)
    ensures
        r == (match current_item(*state) {
            Some(item) => Some(item.operation),
            None => None,
        }),
{
    match current_pos(state) {
        Some(i) => Some(state.items[i].operation),
        None => None,
    }
}

/// The last result of the operation under the cursor.
pub fn current_result(state: &ApiListState) -> (r: Option<&str>)
    ensures
        match r {
            Some(s) => current_item(*state) matches Some(item) && item.last_result matches Some(
                res,
            ) && s@ == res@,
            None => current_item(*state) matches Some(item) ==> item.last_result is None,
        },
{
    match current_pos(state) {
        Some(i) => match &state.items[i].last_result {
            Some(res) => Some(res.as_str()),
            None => None,
        },
        None => None,
    }
}

/// Whether the operation under the cursor has a parameter to fill in and
/// is not waiting for a confirmation.
pub fn current_needs_input(state: &ApiListState) -> (r: bool)
    ensures
        r == (match current_item(*state) {
            Some(item) => item_param(item) is Some && !item.confirm,
            None => false,
        }),
{
    match current_pos(state) {
        Some(i) => {
            let item = &state.items[i];
            item.current_param().is_some() && !item.confirm
        },
        None => false,
    }
}

/// The label of the parameter being edited under the cursor.
pub fn current_param_label(state: &ApiListState) -> (r: Option<&'static str>)
    ensures
        match r {
            Some(s) => current_item(*state) matches Some(item) && item_param(item) matches Some(f)
                && s@ == param_label(f),
            None => current_item(*state) matches Some(item) ==> item_param(item) is None,
        },
{
    match current_pos(state) {
        Some(i) => match state.items[i].current_param() {
            Some(f) => Some(f.label()),
            None => None,
        },
        None => None,
    }
}

/// The value of the parameter being edited under the cursor.
pub fn current_param_value(state: &ApiListState) -> (r: Option<&str>)
    ensures
        match r {
            Some(s) => current_item(*state) matches Some(item) && item_param(item) matches Some(f)
                && s@ == param_value(f, item.params),
            None => current_item(*state) matches Some(item) ==> item_param(item) is None,
        },
{
    match current_pos(state) {
        Some(i) => {
            let item = &state.items[i];
            match item.current_param() {
                Some(f) => Some(f.get(&item.params)),
                None => None,
            }
        },
        None => None,
    }
}

/// Whether the parameter under the cursor is being edited.
pub fn is_editing(state: &ApiListState) -> (r: bool)
    ensures
        r == (match current_item(*state) {
            Some(item) => item.editing,
            None => false,
        }),
{
    match current_pos(state) {
        Some(i) => state.items[i].editing,
        None => false,
    }
}

/// `new` is `old` with only the items changed, to `items`.
pub open spec fn items_now(old: ApiListState, new: ApiListState, items: Seq<ApiItem>) -> bool {
    new.items@ == items && new == (ListState { items: new.items, ..old })
}

/// Effect of [`begin_edit`].
pub open spec fn edit_begun(old: ApiListState, new: ApiListState, r: bool) -> bool {
    &&& r == (match current_item(old) {
        Some(item) => item_param(item) is Some,
        None => false
    })
    &&& match old.current_index() {
        Some(i) if r => items_now(old, new, old.items@.update(
            i,
            ApiItem { editing: true, ..old.items@[i] },
        )),
        _ => new == old
    }
}

/// Starts editing the parameter under the cursor; `false` when there is
/// none.
pub fn begin_edit(state: &mut ApiListState) -> (r: bool)
    ensures
        edit_begun(*old(state), *final(state), r),
{
    match current_pos(state) {
        Some(i) => {
            if state.items[i].current_param().is_none() {
                return false;
            }
            state.items[i].editing = true;
            true
        },
        None => false,
    }
}

/// Effect of [`end_edit`].
pub open spec fn edit_ended(old: ApiListState, new: ApiListState) -> bool {
    &&& match current_item(old) {
        Some(item) => items_now(old, new, old.items@.update(
            old.current_index()->0,
            ApiItem { editing: false, ..item },
        )),
        None => new == old
    }
}

/// Stops editing the parameter under the cursor.
pub fn end_edit(state: &mut ApiListState)
    ensures
        edit_ended(*old(state), *final(state)),
{
    if let Some(i) = current_pos(state) {
        state.items[i].editing = false;
    }
}

/// `(index + 1) % len` without overflow.
pub open spec fn next_index(index: usize, len: nat) -> usize {
    ((index + 1) % (len as int)) as usize
}

/// Effect of [`next_param`].
pub open spec fn param_advanced(old: ApiListState, new: ApiListState, r: bool) -> bool {
    &&& r == (match current_item(old) {
        Some(item) => op_params(item.operation).len() > 0,
        None => false
    })
    &&& r ==> items_now(old, new, old.items@.update(
        old.current_index()->0,
        ApiItem {
            param_index: next_index(
                current_item(old)->0.param_index,
                op_params(current_item(old)->0.operation).len(),
            ),
            ..current_item(old)->0
        }
    ))
    &&& !r ==> new == old
}

/// Moves to the next parameter of the operation under the cursor, round
/// to the first after the last; `false` when it has none.
pub fn next_param(state: &mut ApiListState) -> (r: bool)
    ensures
        param_advanced(*old(state), *final(state), r),
{
    match current_pos(state) {
        Some(i) => {
            let len = state.items[i].operation.param_fields().len();
            if len == 0 {
                return false;
            }
            let index = state.items[i].param_index;
            let next = (index % len + 1) % len;
            proof {
                assert(next as int == (index + 1) % (len as int)) by (nonlinear_arith)
                    requires
                        len > 0,
                        next as int == (index % len + 1) % (len as int),
                ;
            }
            state.items[i].param_index = next;
            true
        },
        None => false,
    }
}

/// The parameters `new`: those of `old`, with `f` set to `v`.
pub open spec fn params_set(old: ApiParams, new: ApiParams, f: ApiParamField, v: Seq<char>) -> bool {
    forall|g: ApiParamField|
        #[trigger] param_value(g, new) == if g == f {
            v
        } else {
            param_value(g, old)
        }
}

proof fn lemma_with_param(f: ApiParamField, p: ApiParams, v: String)
    ensures
        params_set(p, with_param(f, p, v), f, v@),
{
}

/// The page after the parameter `f` of the item at `i` became `v`.
pub open spec fn param_changed(old: ApiListState, new: ApiListState, i: int, f: ApiParamField, v: Seq<char>) -> bool {
    &&& new == (ListState { items: new.items, ..old })
    &&& new.items@.len() == old.items@.len()
    &&& forall|k: int| 0 <= k < old.items@.len() && k != i ==> new.items@[k] == old.items@[k]
    &&& new.items@[i].operation == old.items@[i].operation
    &&& new.items@[i].last_result == old.items@[i].last_result
    &&& new.items@[i].param_index == old.items@[i].param_index
    &&& new.items@[i].editing == old.items@[i].editing
    &&& new.items@[i].confirm == old.items@[i].confirm
    &&& params_set(old.items@[i].params, new.items@[i].params, f, v)
}

/// Sets the parameter `f` of the item at `i` to `v`.
fn set_param(state: &mut ApiListState, i: usize, f: ApiParamField, v: String)
    requires
        i < old(state).items@.len(),
    ensures
        param_changed(*old(state), *final(state), i as int, f, v@),
{
    let ghost before = state.items@[i as int].params;
    f.set(&mut state.items[i].params, v);
    proof {
        lemma_with_param(f, before, v);
    }
}

/// Effect of [`input_char`].
pub open spec fn char_typed(old: ApiListState, new: ApiListState, ch: char, r: bool) -> bool {
    &&& r == (match current_item(old) {
        Some(item) => item.editing && item_param(item) is Some,
        None => false
    })
    &&& r ==> {
        let item = current_item(old)->0;
        let f = item_param(item)->0;
        param_changed(
            old,
            new,
            old.current_index()->0,
            f,
            param_value(f, item.params).push(ch),
        )
    }
    &&& !r ==> new == old
}

/// Types `ch` into the parameter being edited under the cursor; `false`
/// when nothing is being edited.
pub fn input_char(state: &mut ApiListState, ch: char) -> (r: bool)
    ensures
        char_typed(*old(state), *final(state), ch, r),
{
    match current_pos(state) {
        Some(i) => {
            if !state.items[i].editing {
                return false;
            }
            match state.items[i].current_param() {
                Some(f) => {
                    let mut v = owned(f.get(&state.items[i].params));
                    push_char(&mut v, ch);
                    set_param(state, i, f, v);
                    true
                },
                None => false,
            }
        },
        None => false,
    }
}

/// Effect of [`backspace_current_param`].
pub open spec fn char_deleted(old: ApiListState, new: ApiListState, r: bool) -> bool {
    &&& r == (match current_item(old) {
        Some(item) => item.editing && match item_param(item) {
            Some(f) => param_value(f, item.params).len() > 0,
            None => false,
        },
        None => false
    })
    &&& r ==> {
        let item = current_item(old)->0;
        let f = item_param(item)->0;
        param_changed(
            old,
            new,
            old.current_index()->0,
            f,
            param_value(f, item.params).drop_last(),
        )
    }
    &&& !r ==> new == old
}

/// Deletes the last character of the parameter being edited under the
/// cursor; `true` when there was one to delete.
pub fn backspace_current_param(state: &mut ApiListState) -> (r: bool)
    ensures
        char_deleted(*old(state), *final(state), r),
{
    match current_pos(state) {
        Some(i) => {
            if !state.items[i].editing {
                return false;
            }
            match state.items[i].current_param() {
                Some(f) => {
                    let mut v = owned(f.get(&state.items[i].params));
                    if v.unicode_len() == 0 {
                        return false;
                    }
                    let _ = pop_char(&mut v);
                    set_param(state, i, f, v);
                    true
                },
                None => false,
            }
        },
        None => false,
    }
}

/// Effect of [`clear_current_param`].
pub open spec fn param_cleared(old: ApiListState, new: ApiListState, r: bool) -> bool {
    &&& r == (match current_item(old) {
        Some(item) => item_param(item) is Some,
        None => false
    })
    &&& r ==> param_changed(
        old,
        new,
        old.current_index()->0,
        item_param(current_item(old)->0)->0,
        Seq::empty()
    )
    &&& !r ==> new == old
}

/// Empties the parameter being edited under the cursor; `false` when the
/// operation has none.
pub fn clear_current_param(state: &mut ApiListState) -> (r: bool)
    ensures
        param_cleared(*old(state), *final(state), r),
{
    match current_pos(state) {
        Some(i) => match state.items[i].current_param() {
            Some(f) => {
                set_param(state, i, f, String::new());
                true
            },
            None => false,
        },
        None => false,
    }
}

/// Effect of [`set_current_param_value`].
pub open spec fn param_set(old: ApiListState, new: ApiListState, value: Seq<char>, r: bool) -> bool {
    &&& r == (match current_item(old) {
        Some(item) => item_param(item) is Some,
        None => false
    })
    &&& r ==> param_changed(
        old,
        new,
        old.current_index()->0,
        item_param(current_item(old)->0)->0,
        value
    )
    &&& !r ==> new == old
}

/// Sets the parameter being edited under the cursor to `value`, as a picker
/// does; `false` when the operation has none.
pub fn set_current_param_value(state: &mut ApiListState, value: &str) -> (r: bool)
    ensures
        param_set(*old(state), *final(state), value@, r),
{
    match current_pos(state) {
        Some(i) => match state.items[i].current_param() {
            Some(f) => {
                set_param(state, i, f, owned(value));
                true
            },
            None => false,
        },
        None => false,
    }
}

/// `pos` is the first position of an item for `op`.
pub open spec fn first_position(items: Seq<ApiItem>, op: ApiOperation, pos: int) -> bool {
    &&& 0 <= pos < items.len()
    &&& items[pos].operation == op
    &&& forall|j: int| 0 <= j < pos ==> (#[trigger] items[j]).operation != op
}

/// Position of the first item for `op`.
fn position_of(items: &Vec<ApiItem>, op: ApiOperation) -> (r: Option<usize>)
    ensures
        match r {
            Some(pos) => first_position(items@, op, pos as int),
            None => forall|j: int| 0 <= j < items@.len() ==> (#[trigger] items@[j]).operation != op,
        },
{
    let mut i: usize = 0;
    while i < items.len()
        invariant
            i <= items@.len(),
            forall|j: int| 0 <= j < i ==> (#[trigger] items@[j]).operation != op,
        decreases items@.len() - i,
    {
        if items[i].operation == op {
            return Some(i);
        }
        i = i + 1;
    }
    None
}

/// The smaller of `a` and `b`.
pub open spec fn min(a: int, b: int) -> int {
    if a <= b {
        a
    } else {
        b
    }
}

/// Puts the cursor on the first item for `operation`, as if the list were
/// released and Down pressed as often as its position; `None` when no item
/// is for it.
pub fn select_operation(state: &mut ApiListState, operation: ApiOperation) -> (r: Option<()>)
    ensures
        r is None <==> forall|j: int|
            0 <= j < old(state).items@.len() ==> (#[trigger] old(state).items@[j]).operation
                != operation,
        r is None ==> *final(state) == *old(state),
        r is Some ==> exists|pos: int|
            first_position(old(state).items@, operation, pos) && *final(state) == (ListState {
                offset: Coord {
                    x: 0,
                    y: min(pos, sat_sub(old(state).visible_len_spec() as int, 1)) as usize,
                    hold: pos > 0,
                },
                ..*old(state)
            }),
{
    let pos = match position_of(&state.items, operation) {
        Some(pos) => pos,
        None => return None,
    };
    proof {
        crate::list::lemma_vec_len_fits(&state.items);
        if state.filtered_indices is Some {
            crate::list::lemma_vec_len_fits(&state.filtered_indices->0);
        }
    }
    let ghost start = *state;
    let ghost last = sat_sub(start.visible_len_spec() as int, 1);
    state.end();
    let mut k: usize = 0;
    while k < pos
        invariant
            k <= pos,
            pos < start.items@.len(),
            last == sat_sub(start.visible_len_spec() as int, 1),
            start.visible_len_spec() <= usize::MAX,
            *state == (ListState {
                offset: Coord { x: 0, y: min(k as int, last) as usize, hold: k > 0 },
                ..start
            }),
        decreases pos - k,
    {
        state.handle(ListEvent { fast: false, code: KeyCode::Down });
        k = k + 1;
    }
    Some(())
}

/// The note a dangerous operation shows until Enter is pressed again.
pub open spec fn confirm_message(op: ApiOperation) -> Seq<char> {
    "dangerous operation: press Enter again to confirm "@ + op_method(op) + " "@ + op_path(op)
}

/// The items with no confirmation pending, everything else as it was.
pub open spec fn confirmations_cleared(old: ApiListState, new: ApiListState) -> bool {
    &&& new == (ListState { items: new.items, ..old })
    &&& new.items@.len() == old.items@.len()
    &&& forall|k: int|
        0 <= k < old.items@.len() ==> #[trigger] new.items@[k] == (ApiItem {
            confirm: false,
            ..old.items@[k]
        })
}

/// Drops every pending confirmation.
fn clear_confirmations(state: &mut ApiListState)
    ensures
        confirmations_cleared(*old(state), *final(state)),
{
    let ghost start = *state;
    let mut i: usize = 0;
    while i < state.items.len()
        invariant
            i <= state.items@.len(),
            *state == (ListState { items: state.items, ..start }),
            state.items@.len() == start.items@.len(),
            forall|k: int|
                0 <= k < i ==> #[trigger] state.items@[k] == (ApiItem {
                    confirm: false,
                    ..start.items@[k]
                }),
            forall|k: int| i <= k < start.items@.len() ==> #[trigger] state.items@[k] == start.items@[k],
        decreases start.items@.len() - i,
    {
        state.items[i].confirm = false;
        i = i + 1;
    }
}

/// Drops every pending confirmation.
pub fn cancel_confirmation(state: &mut ApiListState)
    ensures
        confirmations_cleared(*old(state), *final(state)),
{
    clear_confirmations(state);
}

/// Effect of [`submit_current`].
pub open spec fn current_submitted(old: ApiListState, new: ApiListState, r: Option<Action>) -> bool {
    &&& match current_item(old) {
        None => r is None && new == old,
        Some(item) => if needs_confirmation(item.operation) && !item.confirm {
            let i = old.current_index()->0;
            &&& r is None
            &&& new.items@.len() == old.items@.len()
            &&& new == (ListState { items: new.items, ..old })
            &&& forall|k: int|
                0 <= k < old.items@.len() && k != i ==> new.items@[k] == old.items@[k]
            &&& new.items@[i].confirm
            &&& new.items@[i].last_result matches Some(m) && m@ == confirm_message(
                item.operation,
            )
            &&& new.items@[i] == (ApiItem {
                confirm: true,
                last_result: new.items@[i].last_result,
                ..item
            })
        } else {
            &&& r == Some(Action::InvokeApi { operation: item.operation, params: item.params })
            &&& confirmations_cleared(old, new)
        }
    }
}

/// Enter on the operation under the cursor. A dangerous operation first
/// asks for confirmation: its result line shows [`confirm_message`] and
/// nothing runs. Otherwise every pending confirmation is dropped and the
/// operation is asked for with the parameters entered for it.
pub fn submit_current(state: &mut ApiListState) -> (r: Option<Action>)
    ensures
        current_submitted(*old(state), *final(state), r),
{
    let i = match current_pos(state) {
        Some(i) => i,
        None => return None,
    };
    let operation = state.items[i].operation;
    if operation.requires_confirmation() && !state.items[i].confirm {
        let mut m = owned("dangerous operation: press Enter again to confirm ");
        m.append(operation.method());
        m.append(" ");
        m.append(operation.path());
        state.items[i].confirm = true;
        state.items[i].last_result = Some(m);
        return None;
    }
    let params = state.items[i].params.copy();
    clear_confirmations(state);
    Some(Action::InvokeApi { operation, params })
}

/// `new` is `old` with `result` shown as the last result of the first item
/// for `op` and that item's pending confirmation dropped; every other item
/// and the rest of the list are unchanged.
pub open spec fn result_recorded(old: ApiListState, new: ApiListState, op: ApiOperation, result: Seq<char>) -> bool {
    &&& new == (ListState { items: new.items, ..old })
    &&& new.items@.len() == old.items@.len()
    &&& forall|j: int|
        0 <= j < old.items@.len() && !first_position(old.items@, op, j) ==> #[trigger] new.items@[j]
            == old.items@[j]
    &&& forall|pos: int|
        #[trigger] first_position(old.items@, op, pos) ==> {
            &&& new.items@[pos] == ApiItem { confirm: false, last_result: new.items@[pos].last_result, ..old.items@[pos] }
            &&& new.items@[pos].last_result matches Some(t) && t@ == result
        }
}

/// What [`update_result`] ensures gives [`result_recorded`].
pub proof fn lemma_result_recorded(old: ApiListState, new: ApiListState, op: ApiOperation, result: String)
    requires
        (forall|j: int| 0 <= j < old.items@.len() ==> (#[trigger] old.items@[j]).operation != op) ==> new == old,
        forall|pos: int|
            first_position(old.items@, op, pos) ==> items_now(
                old,
                new,
                old.items@.update(pos, ApiItem { confirm: false, last_result: Some(result), ..old.items@[pos] }),
            ),
    ensures
        result_recorded(old, new, op, result@),
{
    if exists|j: int| 0 <= j < old.items@.len() && (#[trigger] old.items@[j]).operation == op {
        let j0 = choose|j: int| 0 <= j < old.items@.len() && (#[trigger] old.items@[j]).operation == op;
        let pos = lemma_first_of(old.items@, op, j0);
        assert(first_position(old.items@, op, pos));
        assert forall|p2: int| #[trigger] first_position(old.items@, op, p2) implies p2 == pos by {
            if p2 < pos {
                assert(old.items@[p2].operation != op);
            } else if p2 > pos {
                assert(old.items@[pos].operation != op);
            }
        }
    } else {
        assert forall|p2: int| !#[trigger] first_position(old.items@, op, p2) by {
            if first_position(old.items@, op, p2) {
                assert(old.items@[p2].operation == op);
            }
        }
    }
}

/// The first position of `op` at or before `j`, where `items[j]` is for it.
proof fn lemma_first_of(items: Seq<ApiItem>, op: ApiOperation, j: int) -> (pos: int)
    requires
        0 <= j < items.len(),
        items[j].operation == op,
    ensures
        first_position(items, op, pos),
    decreases j,
{
    if exists|k: int| 0 <= k < j && (#[trigger] items[k]).operation == op {
        let k = choose|k: int| 0 <= k < j && (#[trigger] items[k]).operation == op;
        lemma_first_of(items, op, k)
    } else {
        j
    }
}

/// Shows `result` as the last result of the first item for `operation`, and
/// drops its pending confirmation; nothing happens when no item is for it.
pub fn update_result(state: &mut ApiListState, operation: ApiOperation, result: String)
    ensures
        (forall|j: int|
            0 <= j < old(state).items@.len() ==> (#[trigger] old(state).items@[j]).operation
                != operation) ==> *final(state) == *old(state),
        forall|pos: int|
            first_position(old(state).items@, operation, pos) ==> items_now(
                *old(state),
                *final(state),
                old(state).items@.update(
                    pos,
                    ApiItem { confirm: false, last_result: Some(result), ..old(state).items@[pos] },
                ),
            ),
{
    if let Some(pos) = position_of(&state.items, operation) {
        let ghost start = *state;
        state.items[pos].confirm = false;
        state.items[pos].last_result = Some(result);
        assert(state.items@[pos as int] == ApiItem { confirm: false, last_result: Some(result), ..start.items@[pos as int] });
        assert(state.items@ =~= start.items@.update(
                pos as int,
                ApiItem { confirm: false, last_result: Some(result), ..start.items@[pos as int] },
            ));
        assert(items_now(
            start,
            *state,
            start.items@.update(
                pos as int,
                ApiItem { confirm: false, last_result: Some(result), ..start.items@[pos as int] },
            ),
        ));
        proof {
            assert forall|p: int| first_position(old(state).items@, operation, p) implies p
                == pos by {
                if p < pos {
                    assert(old(state).items@[p].operation != operation);
                } else if pos < p {
                    assert(old(state).items@[pos as int].operation != operation);
                }
            }
        }
    }
}


/// A dangerous operation runs on the second Enter: the first asks for
/// confirmation and runs nothing, the second asks for the operation with
/// the parameters entered for it.
pub proof fn second_enter_runs_dangerous_operation(
    s0: ApiListState,
    s1: ApiListState,
    s2: ApiListState,
    r1: Option<Action>,
    r2: Option<Action>,
)
    requires
        current_item(s0) matches Some(item) && needs_confirmation(item.operation) && !item.confirm,
        current_submitted(s0, s1, r1),
        current_submitted(s1, s2, r2),
    ensures
        r1 is None,
        r2 == Some(Action::InvokeApi {
            operation: current_item(s0)->0.operation,
            params: current_item(s0)->0.params,
        }),
{
    let i = s0.current_index()->0;
    assert(s1.current_index() == s0.current_index());
    assert(current_item(s1) == Some(s1.items@[i]));
}

} // verus!
