use vstd::prelude::*;
use vstd::string::StrSliceExecFns;

use crate::elem_type::{
    AccessMode, DisplayNotation, FloatRepresentation, IncrementMode, IntegerRepresentation,
};
use crate::node_base::opt_view;
use crate::evaluator::{check_value, value_allowed};
use crate::store::{
    access_of, flag_of, lemma_first_custom_error_reported, node_of, FloatState, read_check, write_check, CommandState, EnumEntryNode, EnumerationState,
    GenApiError, IntegerState, NodeData, NodeId, NodeKind, NodeStore, StringState,
};
use crate::text::str_eq;

verus! {

/// A handle to a node with the integer capability.
#[derive(Debug, Clone, Copy, PartialEq, Eq, Structural)]
pub struct IntegerNode(pub NodeId);

/// A handle to a node with the float capability.
#[derive(Debug, Clone, Copy, PartialEq, Eq, Structural)]
pub struct FloatNode(pub NodeId);

/// A handle to a node with the string capability.
#[derive(Debug, Clone, Copy, PartialEq, Eq, Structural)]
pub struct StringNode(pub NodeId);

/// A handle to a node with the enumeration capability.
#[derive(Debug, Clone, Copy, PartialEq, Eq, Structural)]
pub struct EnumerationNode(pub NodeId);

/// A handle to a node with the command capability.
#[derive(Debug, Clone, Copy, PartialEq, Eq, Structural)]
pub struct CommandNode(pub NodeId);

pub open spec fn with_kind(n: NodeData, k: NodeKind) -> NodeData {
    NodeData { kind: k, ..n }
}

/// Replaces the node `id` of `s` by `n`.
pub open spec fn stored(s: NodeStore, id: NodeId, n: NodeData) -> Seq<NodeData> {
    s.nodes@.update(id.0 as int, n)
}

pub open spec fn int_state(s: NodeStore, id: NodeId) -> Result<IntegerState, GenApiError> {
    match node_of(s, id) {
        None => Err(GenApiError::NotFound),
        Some(n) => match n.kind {
            NodeKind::Integer(st) => Ok(st),
            _ => Err(GenApiError::KindMismatch),
        },
    }
}

pub open spec fn float_state(s: NodeStore, id: NodeId) -> Result<FloatState, GenApiError> {
    match node_of(s, id) {
        None => Err(GenApiError::NotFound),
        Some(n) => match n.kind {
            NodeKind::Float(st) => Ok(st),
            _ => Err(GenApiError::KindMismatch),
        },
    }
}

pub open spec fn str_state(s: NodeStore, id: NodeId) -> Result<StringState, GenApiError> {
    match node_of(s, id) {
        None => Err(GenApiError::NotFound),
        Some(n) => match n.kind {
            NodeKind::Str(st) => Ok(st),
            _ => Err(GenApiError::KindMismatch),
        },
    }
}

pub open spec fn enum_state(s: NodeStore, id: NodeId) -> Result<EnumerationState, GenApiError> {
    match node_of(s, id) {
        None => Err(GenApiError::NotFound),
        Some(n) => match n.kind {
            NodeKind::Enumeration(st) => Ok(st),
            _ => Err(GenApiError::KindMismatch),
        },
    }
}

pub open spec fn cmd_state(s: NodeStore, id: NodeId) -> Result<CommandState, GenApiError> {
    match node_of(s, id) {
        None => Err(GenApiError::NotFound),
        Some(n) => match n.kind {
            NodeKind::Command(st) => Ok(st),
            _ => Err(GenApiError::KindMismatch),
        },
    }
}

/// Whether node `id` of `s` is readable.
pub open spec fn readable_at(s: NodeStore, id: NodeId) -> Result<bool, GenApiError> {
    match access_of(s, node_of(s, id).unwrap()) {
        Err(e) => Err(e),
        Ok((r, _)) => Ok(r),
    }
}

/// Whether node `id` of `s` is writable.
pub open spec fn writable_at(s: NodeStore, id: NodeId) -> Result<bool, GenApiError> {
    match access_of(s, node_of(s, id).unwrap()) {
        Err(e) => Err(e),
        Ok((_, w)) => Ok(w),
    }
}

/// The node that holds the value of the integer node `id`: the node it mirrors,
/// if any, else itself.
pub open spec fn int_target(s: NodeStore, id: NodeId) -> NodeId {
    match node_of(s, id).unwrap().p_alias {
        Some(a) => a,
        None => id,
    }
}

/// The state that holds the value, bounds and increment of the integer node
/// `id`: that of the node it mirrors, if any, else its own.
pub open spec fn int_held(s: NodeStore, id: NodeId) -> Result<IntegerState, GenApiError> {
    match int_state(s, id) {
        Err(e) => Err(e),
        Ok(_) => int_state(s, int_target(s, id)),
    }
}

/// The nodes after the state that holds the integer node `id` became `st`.
pub open spec fn int_held_written(s: NodeStore, id: NodeId, st: IntegerState) -> Seq<NodeData> {
    let tgt = int_target(s, id);
    stored(s, tgt, with_kind(node_of(s, tgt).unwrap(), NodeKind::Integer(st)))
}

/// What reading the integer node `id` gives.
pub open spec fn int_value_of(s: NodeStore, id: NodeId) -> Result<i64, GenApiError> {
    match int_state(s, id) {
        Err(e) => Err(e),
        Ok(_) => match read_check(s, node_of(s, id).unwrap()) {
            Err(e) => Err(e),
            Ok(_) => match int_held(s, id) {
                Err(e) => Err(e),
                Ok(st) => Ok(st.value),
            },
        },
    }
}

/// Whether writing `v` to the integer node `id` is accepted, and why not.
pub open spec fn int_set_check(s: NodeStore, id: NodeId, v: i64) -> Result<(), GenApiError> {
    match int_state(s, id) {
        Err(e) => Err(e),
        Ok(_) => match write_check(s, node_of(s, id).unwrap()) {
            Err(e) => Err(e),
            Ok(_) => match int_held(s, id) {
                Err(e) => Err(e),
                Ok(st) => if value_allowed(v as int, st.min as int, st.max as int, st.inc_mode, st.inc as int) {
                    Ok(())
                } else {
                    Err(GenApiError::InvalidValue)
                },
            },
        },
    }
}

/// The nodes after the integer node `id` took the value `v`.
pub open spec fn int_written(s: NodeStore, id: NodeId, v: i64) -> Seq<NodeData> {
    int_held_written(s, id, IntegerState { value: v, ..int_held(s, id)->Ok_0 })
}

/// What reading the string node `id` gives.
pub open spec fn str_value_of(s: NodeStore, id: NodeId) -> Result<Seq<char>, GenApiError> {
    match str_state(s, id) {
        Err(e) => Err(e),
        Ok(st) => match read_check(s, node_of(s, id).unwrap()) {
            Err(e) => Err(e),
            Ok(_) => Ok(st.value@),
        },
    }
}

/// Whether writing `v` to the string node `id` is accepted, and why not.
pub open spec fn str_set_check(s: NodeStore, id: NodeId, v: Seq<char>) -> Result<(), GenApiError> {
    match str_state(s, id) {
        Err(e) => Err(e),
        Ok(st) => match write_check(s, node_of(s, id).unwrap()) {
            Err(e) => Err(e),
            Ok(_) => if v.len() <= st.max_length {
                Ok(())
            } else {
                Err(GenApiError::InvalidValue)
            },
        },
    }
}

/// The index of the first entry at or after `k` named `name`.
pub open spec fn find_name(es: Seq<EnumEntryNode>, name: Seq<char>, k: int) -> Option<int>
    decreases es.len() - k,
{
    if k < 0 || k >= es.len() {
        None
    } else if es[k].name@ == name {
        Some(k)
    } else {
        find_name(es, name, k + 1)
    }
}

/// The index of the first entry at or after `k` whose value is `v`.
pub open spec fn find_value(es: Seq<EnumEntryNode>, v: i64, k: int) -> Option<int>
    decreases es.len() - k,
{
    if k < 0 || k >= es.len() {
        None
    } else if es[k].value == v {
        Some(k)
    } else {
        find_value(es, v, k + 1)
    }
}

/// Selecting the entry found by `found` in the enumeration node `id`: the index
/// that becomes active, or why none does.
pub open spec fn enum_select(s: NodeStore, id: NodeId, found: spec_fn(Seq<EnumEntryNode>) -> Option<int>) -> Result<int, GenApiError> {
    match enum_state(s, id) {
        Err(e) => Err(e),
        Ok(st) => match write_check(s, node_of(s, id).unwrap()) {
            Err(e) => Err(e),
            Ok(_) => match found(st.entries@) {
                Some(k) => Ok(k),
                None => Err(GenApiError::InvalidValue),
            },
        },
    }
}

/// The nodes after entry `k` of the enumeration node `id` became active.
pub open spec fn enum_written(s: NodeStore, id: NodeId, k: int) -> Seq<NodeData> {
    let n = node_of(s, id).unwrap();
    let st = enum_state(s, id)->Ok_0;
    stored(s, id, with_kind(n, NodeKind::Enumeration(EnumerationState { current: k as usize, ..st })))
}

/// The active entry of the enumeration node `id`, or why it cannot be read.
pub open spec fn current_entry_of(s: NodeStore, id: NodeId) -> Result<EnumEntryNode, GenApiError> {
    match enum_state(s, id) {
        Err(e) => Err(e),
        Ok(st) => match read_check(s, node_of(s, id).unwrap()) {
            Err(e) => Err(e),
            Ok(_) => if st.current < st.entries@.len() {
                Ok(st.entries@[st.current as int])
            } else {
                Err(GenApiError::InvalidValue)
            },
        },
    }
}

pub open spec fn same_entries(a: Seq<EnumEntryNode>, b: Seq<EnumEntryNode>) -> bool {
    &&& a.len() == b.len()
    &&& forall|i: int| 0 <= i < a.len() ==> a[i].name@ == b[i].name@ && a[i].value == b[i].value
}

fn clone_entry(e: &EnumEntryNode) -> (r: EnumEntryNode)
    ensures
        r.name@ == e.name@,
        r.value == e.value,
{
    EnumEntryNode { name: e.name.clone(), value: e.value }
}

impl IntegerNode {
    /// The node that holds the value, with its state.
    fn held(self, store: &NodeStore) -> (r: Result<(NodeId, &IntegerState), GenApiError>)
        ensures
            match r {
                Ok((t, st)) => t == int_target(*store, self.0) && int_held(*store, self.0) == Ok::<IntegerState, GenApiError>(*st),
                Err(e) => int_held(*store, self.0) == Err::<IntegerState, GenApiError>(e),
            },
    {
        let n = store.node(self.0)?;
        match &n.kind {
            NodeKind::Integer(_) => {},
            _ => return Err(GenApiError::KindMismatch),
        }
        let target = match n.p_alias {
            Some(a) => a,
            None => self.0,
        };
        match &store.node(target)?.kind {
            NodeKind::Integer(st) => Ok((target, st)),
            _ => Err(GenApiError::KindMismatch),
        }
    }

    /// Returns the value of the node, or of the node it mirrors.
    pub fn value(self, store: &NodeStore) -> (r: Result<i64, GenApiError>)
        ensures
            r == int_value_of(*store, self.0),
    {
        let n = store.node(self.0)?;
        match &n.kind {
            NodeKind::Integer(_) => {},
            _ => return Err(GenApiError::KindMismatch),
        }
        store.check_read(n)?;
        let (_, st) = self.held(store)?;
        Ok(st.value)
    }

    /// Sets the value of the node, or of the node it mirrors, within the bounds
    /// and increment that `min`, `max` and `inc` report.
    pub fn set_value(self, store: &mut NodeStore, value: i64) -> (r: Result<(), GenApiError>)
        ensures
            r == int_set_check(*old(store), self.0, value),
            r is Ok ==> final(store).nodes@ == int_written(*old(store), self.0, value),
            r is Err ==> final(store).nodes@ == old(store).nodes@,
    {
        let n = store.node(self.0)?;
        match &n.kind {
            NodeKind::Integer(_) => {},
            _ => return Err(GenApiError::KindMismatch),
        }
        store.check_write(n)?;
        let (target, st) = self.held(store)?;
        if !check_value(value, st.min, st.max, st.inc_mode, st.inc) {
            return Err(GenApiError::InvalidValue);
        }
        let i = target.0 as usize;
        match &mut store.nodes[i].kind {
            NodeKind::Integer(st) => {
                st.value = value;
            },
            _ => {},
        }
        proof {
            assert(store.nodes@ =~= int_written(*old(store), self.0, value));
        }
        Ok(())
    }

    /// Returns the minimum value which the node can take.
    pub fn min(self, store: &NodeStore) -> (r: Result<i64, GenApiError>)
        ensures
            r == (match int_held(*store, self.0) {
                Ok(st) => Ok(st.min),
                Err(e) => Err(e),
            }),
    {
        let (_, st) = self.held(store)?;
        Ok(st.min)
    }

    /// Returns the maximum value which the node can take.
    pub fn max(self, store: &NodeStore) -> (r: Result<i64, GenApiError>)
        ensures
            r == (match int_held(*store, self.0) {
                Ok(st) => Ok(st.max),
                Err(e) => Err(e),
            }),
    {
        let (_, st) = self.held(store)?;
        Ok(st.max)
    }

    /// Restricts the minimum: accepted when it stays within the declared minimum and the current maximum.
    pub fn set_min(self, store: &mut NodeStore, value: i64) -> (r: Result<(), GenApiError>)
        ensures
            r == (match int_held(*old(store), self.0) {
                Ok(st) => if st.schema_min <= value <= st.max {
                    Ok(())
                } else {
                    Err(GenApiError::InvalidValue)
                },
                Err(e) => Err(e),
            }),
            r is Ok ==> final(store).nodes@ == int_held_written(
                *old(store),
                self.0,
                IntegerState { min: value, ..int_held(*old(store), self.0)->Ok_0 },
            ),
            r is Err ==> final(store).nodes@ == old(store).nodes@,
    {
        let (target, st) = self.held(store)?;
        if !(st.schema_min <= value && value <= st.max) {
            return Err(GenApiError::InvalidValue);
        }
        let i = target.0 as usize;
        match &mut store.nodes[i].kind {
            NodeKind::Integer(st) => {
                st.min = value;
            },
            _ => {},
        }
        proof {
            assert(store.nodes@ =~= int_held_written(
                *old(store),
                self.0,
                IntegerState { min: value, ..int_held(*old(store), self.0)->Ok_0 },
            ));
        }
        Ok(())
    }

    /// Restricts the maximum: accepted when it stays within the current minimum and the declared maximum.
    pub fn set_max(self, store: &mut NodeStore, value: i64) -> (r: Result<(), GenApiError>)
        ensures
            r == (match int_held(*old(store), self.0) {
                Ok(st) => if st.min <= value <= st.schema_max {
                    Ok(())
                } else {
                    Err(GenApiError::InvalidValue)
                },
                Err(e) => Err(e),
            }),
            r is Ok ==> final(store).nodes@ == int_held_written(
                *old(store),
                self.0,
                IntegerState { max: value, ..int_held(*old(store), self.0)->Ok_0 },
            ),
            r is Err ==> final(store).nodes@ == old(store).nodes@,
    {
        let (target, st) = self.held(store)?;
        if !(st.min <= value && value <= st.schema_max) {
            return Err(GenApiError::InvalidValue);
        }
        let i = target.0 as usize;
        match &mut store.nodes[i].kind {
            NodeKind::Integer(st) => {
                st.max = value;
            },
            _ => {},
        }
        proof {
            assert(store.nodes@ =~= int_held_written(
                *old(store),
                self.0,
                IntegerState { max: value, ..int_held(*old(store), self.0)->Ok_0 },
            ));
        }
        Ok(())
    }

    /// Returns the increment under a fixed increment, and `None` otherwise.
    pub fn inc(self, store: &NodeStore) -> (r: Result<Option<i64>, GenApiError>)
        ensures
            r == (match int_held(*store, self.0) {
                Ok(st) => Ok(
                    if st.inc_mode == IncrementMode::FixedIncrement {
                        Some(st.inc)
                    } else {
                        None
                    },
                ),
                Err(e) => Err(e),
            }),
    {
        let (_, st) = self.held(store)?;
        match st.inc_mode {
            IncrementMode::FixedIncrement => Ok(Some(st.inc)),
            IncrementMode::VariableIncrement => Ok(None),
        }
    }

    /// Returns the increment mode of the node.
    pub fn inc_mode(self, store: &NodeStore) -> (r: Result<IncrementMode, GenApiError>)
        ensures
            r == (match int_held(*store, self.0) {
                Ok(st) => Ok(st.inc_mode),
                Err(e) => Err(e),
            }),
    {
        let (_, st) = self.held(store)?;
        Ok(st.inc_mode)
    }

    /// Returns how a user interface should present the value.
    pub fn representation(self, store: &NodeStore) -> (r: Result<IntegerRepresentation, GenApiError>)
        ensures
            r == (match int_held(*store, self.0) {
                Ok(st) => Ok(st.representation),
                Err(e) => Err(e),
            }),
    {
        let (_, st) = self.held(store)?;
        Ok(st.representation)
    }

    /// Returns `true` if the node is readable.
    pub fn is_readable(self, store: &NodeStore) -> (r: Result<bool, GenApiError>)
        ensures
            r == (match int_state(*store, self.0) {
                Ok(_) => readable_at(*store, self.0),
                Err(e) => Err(e),
            }),
    {
        let n = store.node(self.0)?;
        match &n.kind {
            NodeKind::Integer(_) => {},
            _ => return Err(GenApiError::KindMismatch),
        }
        let (rd, _) = store.access(n)?;
        Ok(rd)
    }

    /// Returns `true` if the node is writable.
    pub fn is_writable(self, store: &NodeStore) -> (r: Result<bool, GenApiError>)
        ensures
            r == (match int_state(*store, self.0) {
                Ok(_) => writable_at(*store, self.0),
                Err(e) => Err(e),
            }),
    {
        let n = store.node(self.0)?;
        match &n.kind {
            NodeKind::Integer(_) => {},
            _ => return Err(GenApiError::KindMismatch),
        }
        let (_, wr) = store.access(n)?;
        Ok(wr)
    }
}

impl FloatNode {
    /// Returns the unit that gives the value its physical meaning.
    pub fn unit(self, store: &NodeStore) -> (r: Result<Option<String>, GenApiError>)
        ensures
            match r {
                Ok(u) => float_state(*store, self.0) matches Ok(st) && opt_view(u) == opt_view(st.unit),
                Err(e) => float_state(*store, self.0) == Err::<FloatState, GenApiError>(e),
            },
    {
        match &store.node(self.0)?.kind {
            NodeKind::Float(st) => match &st.unit {
                Some(u) => Ok(Some(u.clone())),
                None => Ok(None),
            },
            _ => Err(GenApiError::KindMismatch),
        }
    }

    /// Returns the increment mode of the node.
    pub fn inc_mode(self, store: &NodeStore) -> (r: Result<IncrementMode, GenApiError>)
        ensures
            r == (match float_state(*store, self.0) {
                Ok(st) => Ok(st.inc_mode),
                Err(e) => Err(e),
            }),
    {
        match &store.node(self.0)?.kind {
            NodeKind::Float(st) => Ok(st.inc_mode),
            _ => Err(GenApiError::KindMismatch),
        }
    }

    /// Returns how a user interface should present the value.
    pub fn representation(self, store: &NodeStore) -> (r: Result<FloatRepresentation, GenApiError>)
        ensures
            r == (match float_state(*store, self.0) {
                Ok(st) => Ok(st.representation),
                Err(e) => Err(e),
            }),
    {
        match &store.node(self.0)?.kind {
            NodeKind::Float(st) => Ok(st.representation),
            _ => Err(GenApiError::KindMismatch),
        }
    }

    /// Returns the notation in which the value is shown.
    pub fn display_notation(self, store: &NodeStore) -> (r: Result<DisplayNotation, GenApiError>)
        ensures
            r == (match float_state(*store, self.0) {
                Ok(st) => Ok(st.display_notation),
                Err(e) => Err(e),
            }),
    {
        match &store.node(self.0)?.kind {
            NodeKind::Float(st) => Ok(st.display_notation),
            _ => Err(GenApiError::KindMismatch),
        }
    }

    /// Returns `true` if the node is readable.
    pub fn is_readable(self, store: &NodeStore) -> (r: Result<bool, GenApiError>)
        ensures
            r == (match float_state(*store, self.0) {
                Ok(_) => readable_at(*store, self.0),
                Err(e) => Err(e),
            }),
    {
        let n = store.node(self.0)?;
        match &n.kind {
            NodeKind::Float(_) => {},
            _ => return Err(GenApiError::KindMismatch),
        }
        let (rd, _) = store.access(n)?;
        Ok(rd)
    }

    /// Returns `true` if the node is writable.
    pub fn is_writable(self, store: &NodeStore) -> (r: Result<bool, GenApiError>)
        ensures
            r == (match float_state(*store, self.0) {
                Ok(_) => writable_at(*store, self.0),
                Err(e) => Err(e),
            }),
    {
        let n = store.node(self.0)?;
        match &n.kind {
            NodeKind::Float(_) => {},
            _ => return Err(GenApiError::KindMismatch),
        }
        let (_, wr) = store.access(n)?;
        Ok(wr)
    }
}

impl StringNode {
    /// Returns the value of the node.
    pub fn value(self, store: &NodeStore) -> (r: Result<String, GenApiError>)
        ensures
            match r {
                Ok(v) => str_value_of(*store, self.0) == Ok::<Seq<char>, GenApiError>(v@),
                Err(e) => str_value_of(*store, self.0) == Err::<Seq<char>, GenApiError>(e),
            },
    {
        let n = store.node(self.0)?;
        let v = match &n.kind {
            NodeKind::Str(st) => st.value.clone(),
            _ => return Err(GenApiError::KindMismatch),
        };
        store.check_read(n)?;
        Ok(v)
    }

    /// Sets the value of the node; it may hold at most `max_length` characters.
    pub fn set_value(self, store: &mut NodeStore, value: &str) -> (r: Result<(), GenApiError>)
        ensures
            r == str_set_check(*old(store), self.0, value@),
            r is Ok ==> final(store).nodes@ == stored(
                *old(store),
                self.0,
                with_kind(
                    node_of(*old(store), self.0).unwrap(),
                    NodeKind::Str(StringState { value: final(store).nodes@[self.0.0 as int].kind->Str_0.value, ..str_state(*old(store), self.0)->Ok_0 }),
                ),
            ),
            r is Ok ==> final(store).nodes@[self.0.0 as int].kind->Str_0.value@ == value@,
            r is Err ==> final(store).nodes@ == old(store).nodes@,
    {
        let n = store.node(self.0)?;
        let max_length = match &n.kind {
            NodeKind::Str(st) => st.max_length,
            _ => return Err(GenApiError::KindMismatch),
        };
        store.check_write(n)?;
        let len = value.unicode_len();
        if (len as i128) > (max_length as i128) {
            return Err(GenApiError::InvalidValue);
        }
        let i = self.0.0 as usize;
        match &mut store.nodes[i].kind {
            NodeKind::Str(st) => {
                st.value = value.to_owned();
            },
            _ => {},
        }
        proof {
            assert(store.nodes@ =~= stored(
                *old(store),
                self.0,
                with_kind(
                    node_of(*old(store), self.0).unwrap(),
                    NodeKind::Str(StringState { value: store.nodes@[self.0.0 as int].kind->Str_0.value, ..str_state(*old(store), self.0)->Ok_0 }),
                ),
            ));
        }
        Ok(())
    }

    /// Returns the maximum length of the string.
    pub fn max_length(self, store: &NodeStore) -> (r: Result<i64, GenApiError>)
        ensures
            r == (match str_state(*store, self.0) {
                Ok(st) => Ok(st.max_length),
                Err(e) => Err(e),
            }),
    {
        match &store.node(self.0)?.kind {
            NodeKind::Str(st) => Ok(st.max_length),
            _ => Err(GenApiError::KindMismatch),
        }
    }

    /// Returns `true` if the node is readable.
    pub fn is_readable(self, store: &NodeStore) -> (r: Result<bool, GenApiError>)
        ensures
            r == (match str_state(*store, self.0) {
                Ok(_) => readable_at(*store, self.0),
                Err(e) => Err(e),
            }),
    {
        let n = store.node(self.0)?;
        match &n.kind {
            NodeKind::Str(_) => {},
            _ => return Err(GenApiError::KindMismatch),
        }
        let (rd, _) = store.access(n)?;
        Ok(rd)
    }

    /// Returns `true` if the node is writable.
    pub fn is_writable(self, store: &NodeStore) -> (r: Result<bool, GenApiError>)
        ensures
            r == (match str_state(*store, self.0) {
                Ok(_) => writable_at(*store, self.0),
                Err(e) => Err(e),
            }),
    {
        let n = store.node(self.0)?;
        match &n.kind {
            NodeKind::Str(_) => {},
            _ => return Err(GenApiError::KindMismatch),
        }
        let (_, wr) = store.access(n)?;
        Ok(wr)
    }
}

impl EnumerationNode {
    /// Makes the first entry named `name` the active one.
    pub fn set_entry_by_name(self, store: &mut NodeStore, name: &str) -> (r: Result<(), GenApiError>)
        ensures
            match enum_select(*old(store), self.0, |es: Seq<EnumEntryNode>| find_name(es, name@, 0)) {
                Ok(k) => r is Ok && final(store).nodes@ == enum_written(*old(store), self.0, k),
                Err(e) => r == Err::<(), GenApiError>(e) && final(store).nodes@ == old(store).nodes@,
            },
    {
        let n = store.node(self.0)?;
        let mut found: Option<usize> = None;
        match &n.kind {
            NodeKind::Enumeration(st) => {
                let mut k: usize = 0;
                loop
                    invariant_except_break
                        0 <= k <= st.entries@.len(),
                        find_name(st.entries@, name@, 0) == find_name(st.entries@, name@, k as int),
                        found is None,
                    ensures
                        found matches Some(j) ==> j < st.entries@.len() && find_name(st.entries@, name@, 0) == Some(j as int),
                        found is None ==> find_name(st.entries@, name@, 0) is None,
                    decreases st.entries@.len() - k,
                {
                    if k >= st.entries.len() {
                        break;
                    }
                    if str_eq(st.entries[k].name.as_str(), name) {
                        found = Some(k);
                        break;
                    }
                    k = k + 1;
                }
            },
            _ => return Err(GenApiError::KindMismatch),
        };
        store.check_write(n)?;
        self.select(store, found)
    }

    /// Makes the first entry whose value is `value` the active one.
    pub fn set_entry_by_value(self, store: &mut NodeStore, value: i64) -> (r: Result<(), GenApiError>)
        ensures
            match enum_select(*old(store), self.0, |es: Seq<EnumEntryNode>| find_value(es, value, 0)) {
                Ok(k) => r is Ok && final(store).nodes@ == enum_written(*old(store), self.0, k),
                Err(e) => r == Err::<(), GenApiError>(e) && final(store).nodes@ == old(store).nodes@,
            },
    {
        let n = store.node(self.0)?;
        let mut found: Option<usize> = None;
        match &n.kind {
            NodeKind::Enumeration(st) => {
                let mut k: usize = 0;
                loop
                    invariant_except_break
                        0 <= k <= st.entries@.len(),
                        find_value(st.entries@, value, 0) == find_value(st.entries@, value, k as int),
                        found is None,
                    ensures
                        found matches Some(j) ==> j < st.entries@.len() && find_value(st.entries@, value, 0) == Some(j as int),
                        found is None ==> find_value(st.entries@, value, 0) is None,
                    decreases st.entries@.len() - k,
                {
                    if k >= st.entries.len() {
                        break;
                    }
                    if st.entries[k].value == value {
                        found = Some(k);
                        break;
                    }
                    k = k + 1;
                }
            },
            _ => return Err(GenApiError::KindMismatch),
        };
        store.check_write(n)?;
        self.select(store, found)
    }

    /// Activates entry `found` of a node already known to be an enumeration.
    fn select(self, store: &mut NodeStore, found: Option<usize>) -> (r: Result<(), GenApiError>)
        requires
            enum_state(*old(store), self.0) is Ok,
            found matches Some(k) ==> k < enum_state(*old(store), self.0)->Ok_0.entries@.len(),
        ensures
            match found {
                Some(k) => r is Ok && final(store).nodes@ == enum_written(*old(store), self.0, k as int),
                None => r == Err::<(), GenApiError>(GenApiError::InvalidValue) && final(store).nodes@ == old(store).nodes@,
            },
    {
        let k = match found {
            Some(k) => k,
            None => return Err(GenApiError::InvalidValue),
        };
        let i = self.0.0 as usize;
        match &mut store.nodes[i].kind {
            NodeKind::Enumeration(st) => {
                st.current = k;
            },
            _ => {},
        }
        proof {
            assert(store.nodes@ =~= enum_written(*old(store), self.0, k as int));
        }
        Ok(())
    }

    /// Returns the entry that is active.
    pub fn current_entry(self, store: &NodeStore) -> (r: Result<EnumEntryNode, GenApiError>)
        ensures
            match r {
                Ok(e) => current_entry_of(*store, self.0) matches Ok(c) && c.name@ == e.name@ && c.value == e.value,
                Err(e) => current_entry_of(*store, self.0) == Err::<EnumEntryNode, GenApiError>(e),
            },
    {
        let n = store.node(self.0)?;
        let st = match &n.kind {
            NodeKind::Enumeration(st) => st,
            _ => return Err(GenApiError::KindMismatch),
        };
        store.check_read(n)?;
        if st.current < st.entries.len() {
            Ok(clone_entry(&st.entries[st.current]))
        } else {
            Err(GenApiError::InvalidValue)
        }
    }

    /// Hands the entries, in display order, to `f` without copying them, and
    /// returns what `f` returns.
    pub fn with_entries<R, F: FnOnce(&Vec<EnumEntryNode>) -> R>(self, store: &NodeStore, f: F) -> (r: Result<R, GenApiError>)
        requires
            enum_state(*store, self.0) is Ok ==> f.requires((&enum_state(*store, self.0)->Ok_0.entries,)),
        ensures
            match r {
                Ok(v) => enum_state(*store, self.0) is Ok && f.ensures((&enum_state(*store, self.0)->Ok_0.entries,), v),
                Err(e) => enum_state(*store, self.0) == Err::<EnumerationState, GenApiError>(e),
            },
    {
        let n = store.node(self.0)?;
        match &n.kind {
            NodeKind::Enumeration(st) => Ok(f(&st.entries)),
            _ => Err(GenApiError::KindMismatch),
        }
    }

    /// Returns a copy of the entries, in display order.
    pub fn entries(self, store: &NodeStore) -> (r: Result<Vec<EnumEntryNode>, GenApiError>)
        ensures
            match r {
                Ok(v) => enum_state(*store, self.0) matches Ok(st) && same_entries(v@, st.entries@),
                Err(e) => enum_state(*store, self.0) == Err::<EnumerationState, GenApiError>(e),
            },
    {
        let n = store.node(self.0)?;
        let st = match &n.kind {
            NodeKind::Enumeration(st) => st,
            _ => return Err(GenApiError::KindMismatch),
        };
        let mut out: Vec<EnumEntryNode> = Vec::new();
        let mut k: usize = 0;
        while k < st.entries.len()
            invariant
                0 <= k <= st.entries@.len(),
                out@.len() == k,
                forall|j: int| 0 <= j < k ==> out@[j].name@ == st.entries@[j].name@ && out@[j].value == st.entries@[j].value,
            decreases st.entries@.len() - k,
        {
            out.push(clone_entry(&st.entries[k]));
            k = k + 1;
        }
        Ok(out)
    }

    /// Returns `true` if the node is readable.
    pub fn is_readable(self, store: &NodeStore) -> (r: Result<bool, GenApiError>)
        ensures
            r == (match enum_state(*store, self.0) {
                Ok(_) => readable_at(*store, self.0),
                Err(e) => Err(e),
            }),
    {
        let n = store.node(self.0)?;
        match &n.kind {
            NodeKind::Enumeration(_) => {},
            _ => return Err(GenApiError::KindMismatch),
        }
        let (rd, _) = store.access(n)?;
        Ok(rd)
    }

    /// Returns `true` if the node is writable.
    pub fn is_writable(self, store: &NodeStore) -> (r: Result<bool, GenApiError>)
        ensures
            r == (match enum_state(*store, self.0) {
                Ok(_) => writable_at(*store, self.0),
                Err(e) => Err(e),
            }),
    {
        let n = store.node(self.0)?;
        match &n.kind {
            NodeKind::Enumeration(_) => {},
            _ => return Err(GenApiError::KindMismatch),
        }
        let (_, wr) = store.access(n)?;
        Ok(wr)
    }
}

impl CommandNode {
    /// Executes the command: the node stays pending until the device reports
    /// completion.
    pub fn execute(self, store: &mut NodeStore) -> (r: Result<(), GenApiError>)
        ensures
            r == (match cmd_state(*old(store), self.0) {
                Ok(_) => write_check(*old(store), node_of(*old(store), self.0).unwrap()),
                Err(e) => Err(e),
            }),
            r is Ok ==> final(store).nodes@ == stored(
                *old(store),
                self.0,
                with_kind(node_of(*old(store), self.0).unwrap(), NodeKind::Command(CommandState { pending: true })),
            ),
            r is Err ==> final(store).nodes@ == old(store).nodes@,
    {
        let n = store.node(self.0)?;
        match &n.kind {
            NodeKind::Command(_) => {},
            _ => return Err(GenApiError::KindMismatch),
        }
        store.check_write(n)?;
        self.set_pending(store, true);
        Ok(())
    }

    /// Records that the device finished the command.
    pub fn complete(self, store: &mut NodeStore) -> (r: Result<(), GenApiError>)
        ensures
            r == (match cmd_state(*old(store), self.0) {
                Ok(_) => Ok(()),
                Err(e) => Err(e),
            }),
            r is Ok ==> final(store).nodes@ == stored(
                *old(store),
                self.0,
                with_kind(node_of(*old(store), self.0).unwrap(), NodeKind::Command(CommandState { pending: false })),
            ),
            r is Err ==> final(store).nodes@ == old(store).nodes@,
    {
        match &store.node(self.0)?.kind {
            NodeKind::Command(_) => {},
            _ => return Err(GenApiError::KindMismatch),
        }
        self.set_pending(store, false);
        Ok(())
    }

    fn set_pending(self, store: &mut NodeStore, pending: bool)
        requires
            cmd_state(*old(store), self.0) is Ok,
        ensures
            final(store).nodes@ == stored(
                *old(store),
                self.0,
                with_kind(node_of(*old(store), self.0).unwrap(), NodeKind::Command(CommandState { pending })),
            ),
    {
        let i = self.0.0 as usize;
        match &mut store.nodes[i].kind {
            NodeKind::Command(st) => {
                st.pending = pending;
            },
            _ => {},
        }
        proof {
            assert(store.nodes@ =~= stored(
                *old(store),
                self.0,
                with_kind(node_of(*old(store), self.0).unwrap(), NodeKind::Command(CommandState { pending })),
            ));
        }
    }

    /// Returns `true` once the device has finished the last execution.
    pub fn is_done(self, store: &NodeStore) -> (r: Result<bool, GenApiError>)
        ensures
            r == (match cmd_state(*store, self.0) {
                Ok(st) => Ok(!st.pending),
                Err(e) => Err(e),
            }),
    {
        match &store.node(self.0)?.kind {
            NodeKind::Command(st) => Ok(!st.pending),
            _ => Err(GenApiError::KindMismatch),
        }
    }

    /// Returns `true` if the node is writable (executable).
    pub fn is_writable(self, store: &NodeStore) -> (r: Result<bool, GenApiError>)
        ensures
            r == (match cmd_state(*store, self.0) {
                Ok(_) => writable_at(*store, self.0),
                Err(e) => Err(e),
            }),
    {
        let n = store.node(self.0)?;
        match &n.kind {
            NodeKind::Command(_) => {},
            _ => return Err(GenApiError::KindMismatch),
        }
        let (_, wr) = store.access(n)?;
        Ok(wr)
    }
}

/// Any value accepted under a fixed increment lies on a step from the minimum,
/// as `inc_mode`, `inc` and `min` report them.
pub proof fn lemma_set_value_on_step(s: NodeStore, id: NodeId, v: i64)
    requires
        int_set_check(s, id, v) is Ok,
        int_held(s, id) matches Ok(st) && st.inc_mode == IncrementMode::FixedIncrement,
    ensures
        int_held(s, id)->Ok_0.inc > 0,
        (v - int_held(s, id)->Ok_0.min) % (int_held(s, id)->Ok_0.inc as int) == 0,
{
}

/// Any value accepted lies within the bounds that `min` and `max` report.
pub proof fn lemma_set_value_within_bounds(s: NodeStore, id: NodeId, v: i64)
    requires
        int_set_check(s, id, v) is Ok,
    ensures
        int_held(s, id) matches Ok(st) && st.min <= v <= st.max,
{
}

/// Integer operations on an enumeration node fail with a kind mismatch.
pub proof fn lemma_integer_on_enumeration(s: NodeStore, id: NodeId, v: i64)
    requires
        node_of(s, id) matches Some(n) && n.kind is Enumeration,
    ensures
        int_state(s, id) == Err::<IntegerState, GenApiError>(GenApiError::KindMismatch),
        int_value_of(s, id) == Err::<i64, GenApiError>(GenApiError::KindMismatch),
        int_set_check(s, id, v) == Err::<(), GenApiError>(GenApiError::KindMismatch),
{
}

/// Reading an integer node after writing `v` to it gives `v`, when the read is
/// permitted in the new state.
pub proof fn lemma_integer_round_trip(s: NodeStore, t: NodeStore, id: NodeId, v: i64)
    requires
        int_set_check(s, id, v) is Ok,
        t.nodes@ == int_written(s, id, v),
        read_check(t, node_of(t, id).unwrap()) is Ok,
    ensures
        int_value_of(t, id) == Ok::<i64, GenApiError>(v),
{
}

/// Reading a string node after writing `v` to it gives `v`, when the read is
/// permitted in the new state.
pub proof fn lemma_string_round_trip(s: NodeStore, t: NodeStore, id: NodeId, w: String)
    requires
        str_set_check(s, id, w@) is Ok,
        t.nodes@ == stored(
            s,
            id,
            with_kind(node_of(s, id).unwrap(), NodeKind::Str(StringState { value: w, ..str_state(s, id)->Ok_0 })),
        ),
        read_check(t, node_of(t, id).unwrap()) is Ok,
    ensures
        str_value_of(t, id) == Ok::<Seq<char>, GenApiError>(w@),
{
}

proof fn lemma_find_name(es: Seq<EnumEntryNode>, name: Seq<char>, k: int)
    requires
        0 <= k,
    ensures
        find_name(es, name, k) matches Some(j) ==> k <= j < es.len() && es[j].name@ == name,
    decreases es.len() - k,
{
    if k < es.len() && es[k].name@ != name {
        lemma_find_name(es, name, k + 1);
    }
}

proof fn lemma_find_value_absent(es: Seq<EnumEntryNode>, v: i64, k: int)
    requires
        0 <= k,
        forall|i: int| 0 <= i < es.len() ==> es[i].value != v,
    ensures
        find_value(es, v, k) is None,
    decreases es.len() - k,
{
    if k < es.len() {
        lemma_find_value_absent(es, v, k + 1);
    }
}

/// After selecting an entry by name, the active entry carries that name, when
/// the read is permitted in the new state.
pub proof fn lemma_entry_by_name(s: NodeStore, t: NodeStore, id: NodeId, name: Seq<char>)
    requires
        enum_state(s, id) matches Ok(st) && st.entries@.len() <= usize::MAX,
        enum_select(s, id, |es: Seq<EnumEntryNode>| find_name(es, name, 0)) is Ok,
        t.nodes@ == enum_written(s, id, enum_select(s, id, |es: Seq<EnumEntryNode>| find_name(es, name, 0))->Ok_0),
        read_check(t, node_of(t, id).unwrap()) is Ok,
    ensures
        current_entry_of(t, id) matches Ok(e) && e.name@ == name,
{
    let st = enum_state(s, id)->Ok_0;
    let es = st.entries@;
    lemma_find_name(es, name, 0);
    let f = |es: Seq<EnumEntryNode>| find_name(es, name, 0);
    assert(f(es) == find_name(es, name, 0));
    let k = enum_select(s, id, f)->Ok_0;
    assert(find_name(es, name, 0) == Some(k));
    assert(0 <= k < es.len());
    let tn = t.nodes@[id.0 as int];
    assert(tn.kind == NodeKind::Enumeration(EnumerationState { current: k as usize, ..st }));
    assert(enum_state(t, id) == Ok::<EnumerationState, GenApiError>(EnumerationState { current: k as usize, ..st }));
}

/// Selecting by a value that no entry has fails with an invalid value, once the
/// node is a writable enumeration.
pub proof fn lemma_entry_by_absent_value(s: NodeStore, id: NodeId, v: i64)
    requires
        enum_state(s, id) is Ok,
        write_check(s, node_of(s, id).unwrap()) is Ok,
        forall|i: int| 0 <= i < enum_state(s, id)->Ok_0.entries@.len() ==> enum_state(s, id)->Ok_0.entries@[i].value != v,
    ensures
        enum_select(s, id, |es: Seq<EnumEntryNode>| find_value(es, v, 0)) == Err::<int, GenApiError>(GenApiError::InvalidValue),
{
    lemma_find_value_absent(enum_state(s, id)->Ok_0.entries@, v, 0);
}

/// Once the device reports completion, the command reads as done, without
/// another execution.
pub proof fn lemma_command_completion(s: NodeStore, t: NodeStore, id: NodeId)
    requires
        cmd_state(s, id) is Ok,
        t.nodes@ == stored(
            s,
            id,
            with_kind(node_of(s, id).unwrap(), NodeKind::Command(CommandState { pending: false })),
        ),
    ensures
        cmd_state(t, id) == Ok::<CommandState, GenApiError>(CommandState { pending: false }),
{
}

/// A node under a read-only ceiling never reads as writable.
pub proof fn lemma_read_only_ceiling(s: NodeStore, id: NodeId)
    requires
        node_of(s, id) matches Some(n) && n.imposed == AccessMode::RO,
    ensures
        writable_at(s, id) != Ok::<bool, GenApiError>(true),
{
}

/// A node whose lock evaluates true never reads as writable.
pub proof fn lemma_locked_not_writable(s: NodeStore, id: NodeId)
    requires
        node_of(s, id) matches Some(n) && flag_of(s, n.p_is_locked, false) == Ok::<bool, GenApiError>(true),
    ensures
        writable_at(s, id) != Ok::<bool, GenApiError>(true),
{
}

/// When the custom error conditions of an integer node before index `i`
/// evaluate false and the one at `i` true, reading and writing the node report
/// the one at `i`.
pub proof fn lemma_integer_custom_error_priority(s: NodeStore, id: NodeId, i: int, v: i64)
    requires
        int_state(s, id) is Ok,
        access_of(s, node_of(s, id).unwrap()) is Ok,
        0 <= i < node_of(s, id).unwrap().p_errors@.len(),
        flag_of(s, Some(node_of(s, id).unwrap().p_errors@[i]), false) == Ok::<bool, GenApiError>(true),
        forall|h: int|
            0 <= h < i ==> flag_of(s, Some(node_of(s, id).unwrap().p_errors@[h]), false) == Ok::<bool, GenApiError>(false),
    ensures
        int_value_of(s, id) == Err::<i64, GenApiError>(GenApiError::CustomError(node_of(s, id).unwrap().p_errors@[i])),
        int_set_check(s, id, v) == Err::<(), GenApiError>(GenApiError::CustomError(node_of(s, id).unwrap().p_errors@[i])),
{
    lemma_first_custom_error_reported(s, node_of(s, id).unwrap(), i);
}

} // verus!
