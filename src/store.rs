use vstd::prelude::*;

use crate::text::str_eq;

use crate::elem_type::{
    AccessMode, DisplayNotation, FloatRepresentation, IncrementMode, IntegerRepresentation,
};
use crate::evaluator::{readable, readable_of, writable, writable_of};

verus! {

/// The identity of a node: its index in the store.
#[derive(Debug, Clone, Copy, PartialEq, Eq, Structural)]
pub struct NodeId(pub u32);

/// Why an operation on a node failed.
#[derive(Debug, Clone, Copy, PartialEq, Eq, Structural)]
pub enum GenApiError {
    /// The identity does not resolve in the store.
    NotFound,
    /// The node is of another kind than the operation expects.
    KindMismatch,
    NotReadable,
    NotWritable,
    /// The value lies outside the bounds, off the increment, or is too long.
    InvalidValue,
    /// The custom error condition held by this node evaluated true.
    CustomError(NodeId),
}

pub struct IntegerState {
    pub value: i64,
    /// The effective bounds, within the declared ones.
    pub min: i64,
    pub max: i64,
    /// The bounds declared by the schema.
    pub schema_min: i64,
    pub schema_max: i64,
    pub inc_mode: IncrementMode,
    pub inc: i64,
    pub representation: IntegerRepresentation,
}

/// What a float node describes of itself. Its value, bounds and increment are
/// floating point and are not held here.
pub struct FloatState {
    /// The physical unit of the value, such as `Hz` or `ms`.
    pub unit: Option<String>,
    pub inc_mode: IncrementMode,
    pub representation: FloatRepresentation,
    pub display_notation: DisplayNotation,
}

pub struct StringState {
    pub value: String,
    pub max_length: i64,
}

/// One entry of an enumeration.
#[derive(Debug, Clone)]
pub struct EnumEntryNode {
    pub name: String,
    pub value: i64,
}

pub struct EnumerationState {
    /// The entries in display order.
    pub entries: Vec<EnumEntryNode>,
    /// The index of the active entry.
    pub current: usize,
}

pub struct CommandState {
    /// Set by an execution, cleared when the device reports completion.
    pub pending: bool,
}

/// The capability of a node with its kind-specific state.
pub enum NodeKind {
    Integer(IntegerState),
    Float(FloatState),
    Str(StringState),
    Enumeration(EnumerationState),
    Command(CommandState),
}

/// One node: its name, its own access mode, the imposed ceiling, its dependency references
/// (resolved to identities), the node whose value it mirrors, and its kind.
pub struct NodeData {
    pub name: String,
    pub access: AccessMode,
    pub imposed: AccessMode,
    pub p_is_implemented: Option<NodeId>,
    pub p_is_available: Option<NodeId>,
    pub p_is_locked: Option<NodeId>,
    pub p_errors: Vec<NodeId>,
    pub p_alias: Option<NodeId>,
    pub kind: NodeKind,
}

/// Owns every node; a node's identity is its index.
pub struct NodeStore {
    pub nodes: Vec<NodeData>,
}

pub open spec fn node_of(s: NodeStore, id: NodeId) -> Option<NodeData> {
    if (id.0 as int) < s.nodes@.len() {
        Some(s.nodes@[id.0 as int])
    } else {
        None
    }
}

/// The boolean that a dependency reference evaluates to: `default` when the
/// reference is absent, else whether the referenced integer node is non-zero.
pub open spec fn flag_of(s: NodeStore, r: Option<NodeId>, default: bool) -> Result<bool, GenApiError> {
    match r {
        None => Ok(default),
        Some(id) => match node_of(s, id) {
            None => Err(GenApiError::NotFound),
            Some(n) => match n.kind {
                NodeKind::Integer(st) => Ok(st.value != 0),
                _ => Err(GenApiError::KindMismatch),
            },
        },
    }
}

/// Whether `n` is readable and whether it is writable, from its dependencies.
pub open spec fn access_of(s: NodeStore, n: NodeData) -> Result<(bool, bool), GenApiError> {
    match flag_of(s, n.p_is_implemented, true) {
        Err(e) => Err(e),
        Ok(i) => match flag_of(s, n.p_is_available, true) {
            Err(e) => Err(e),
            Ok(a) => match flag_of(s, n.p_is_locked, false) {
                Err(e) => Err(e),
                Ok(l) => Ok((readable_of(n.access, n.imposed, i, a), writable_of(n.access, n.imposed, i, a, l))),
            },
        },
    }
}

/// The first custom error condition at or after index `k` that evaluates true.
pub open spec fn raised_from(s: NodeStore, errs: Seq<NodeId>, k: int) -> Result<Option<NodeId>, GenApiError>
    decreases errs.len() - k,
{
    if k < 0 || k >= errs.len() {
        Ok(None)
    } else {
        match flag_of(s, Some(errs[k]), false) {
            Err(e) => Err(e),
            Ok(true) => Ok(Some(errs[k])),
            Ok(false) => raised_from(s, errs, k + 1),
        }
    }
}

/// The outcome of a read of `n`: a custom error condition that holds is
/// reported first, in declared order, and otherwise the read right decides.
pub open spec fn read_check(s: NodeStore, n: NodeData) -> Result<(), GenApiError> {
    match access_of(s, n) {
        Err(e) => Err(e),
        Ok((r, _)) => match raised_from(s, n.p_errors@, 0) {
            Err(e) => Err(e),
            Ok(Some(c)) => Err(GenApiError::CustomError(c)),
            Ok(None) => if r {
                Ok(())
            } else {
                Err(GenApiError::NotReadable)
            },
        },
    }
}

/// The outcome of a write to `n`: a custom error condition that holds is
/// reported first, in declared order, and otherwise the write right decides.
pub open spec fn write_check(s: NodeStore, n: NodeData) -> Result<(), GenApiError> {
    match access_of(s, n) {
        Err(e) => Err(e),
        Ok((_, w)) => match raised_from(s, n.p_errors@, 0) {
            Err(e) => Err(e),
            Ok(Some(c)) => Err(GenApiError::CustomError(c)),
            Ok(None) => if w {
                Ok(())
            } else {
                Err(GenApiError::NotWritable)
            },
        },
    }
}

proof fn lemma_raised_is(s: NodeStore, errs: Seq<NodeId>, k: int, i: int)
    requires
        0 <= k <= i < errs.len(),
        flag_of(s, Some(errs[i]), false) == Ok::<bool, GenApiError>(true),
        forall|h: int| 0 <= h < i ==> flag_of(s, Some(errs[h]), false) == Ok::<bool, GenApiError>(false),
    ensures
        raised_from(s, errs, k) == Ok::<Option<NodeId>, GenApiError>(Some(errs[i])),
    decreases i - k,
{
    if k < i {
        lemma_raised_is(s, errs, k + 1, i);
    }
}

/// When the custom error conditions before index `i` evaluate false and the one
/// at `i` true, a read and a write of `n` both report the one at `i`, whatever
/// holds after it and whatever the access rights are.
pub proof fn lemma_first_custom_error_reported(s: NodeStore, n: NodeData, i: int)
    requires
        access_of(s, n) is Ok,
        0 <= i < n.p_errors@.len(),
        flag_of(s, Some(n.p_errors@[i]), false) == Ok::<bool, GenApiError>(true),
        forall|h: int| 0 <= h < i ==> flag_of(s, Some(n.p_errors@[h]), false) == Ok::<bool, GenApiError>(false),
    ensures
        read_check(s, n) == Err::<(), GenApiError>(GenApiError::CustomError(n.p_errors@[i])),
        write_check(s, n) == Err::<(), GenApiError>(GenApiError::CustomError(n.p_errors@[i])),
{
    lemma_raised_is(s, n.p_errors@, 0, i);
}

/// When two custom error conditions both hold, the later one is reported only
/// if the same identity also stands at or before the earlier one.
pub proof fn lemma_custom_error_priority(s: NodeStore, errs: Seq<NodeId>, i: int, j: int)
    requires
        0 <= i < j < errs.len(),
        flag_of(s, Some(errs[i]), false) == Ok::<bool, GenApiError>(true),
        flag_of(s, Some(errs[j]), false) == Ok::<bool, GenApiError>(true),
    ensures
        raised_from(s, errs, 0) matches Ok(Some(c)) ==> exists|k: int| 0 <= k <= i && errs[k] == c,
        raised_from(s, errs, 0) is Ok ==> raised_from(s, errs, 0) != Ok::<Option<NodeId>, GenApiError>(None),
{
    lemma_raised_upto(s, errs, 0, i);
}

proof fn lemma_raised_upto(s: NodeStore, errs: Seq<NodeId>, k: int, i: int)
    requires
        0 <= k <= i < errs.len(),
        flag_of(s, Some(errs[i]), false) == Ok::<bool, GenApiError>(true),
    ensures
        raised_from(s, errs, k) matches Ok(Some(c)) ==> exists|m: int| k <= m <= i && errs[m] == c,
        raised_from(s, errs, k) is Ok ==> raised_from(s, errs, k) != Ok::<Option<NodeId>, GenApiError>(None),
    decreases i - k,
{
    if k < i {
        lemma_raised_upto(s, errs, k + 1, i);
        match raised_from(s, errs, k) {
            Ok(Some(c)) => {
                if flag_of(s, Some(errs[k]), false) != Ok::<bool, GenApiError>(true) {
                    let m = choose|m: int| k + 1 <= m <= i && errs[m] == c;
                    assert(k <= m <= i && errs[m] == c);
                }
            },
            _ => {},
        }
    }
}

/// The index of the first node at or after `k` named `name`.
pub open spec fn find_node(nodes: Seq<NodeData>, name: Seq<char>, k: int) -> Option<int>
    decreases nodes.len() - k,
{
    if k < 0 || k >= nodes.len() {
        None
    } else if nodes[k].name@ == name {
        Some(k)
    } else {
        find_node(nodes, name, k + 1)
    }
}

impl NodeStore {
    /// Resolves a name, case-sensitively, to the identity of the first node
    /// that carries it.
    pub fn lookup(&self, name: &str) -> (r: Result<NodeId, GenApiError>)
        requires
            self.nodes@.len() <= u32::MAX,
        ensures
            match find_node(self.nodes@, name@, 0) {
                Some(k) => r == Ok::<NodeId, GenApiError>(NodeId(k as u32)),
                None => r == Err::<NodeId, GenApiError>(GenApiError::NotFound),
            },
    {
        let mut k: usize = 0;
        while k < self.nodes.len()
            invariant
                0 <= k <= self.nodes@.len() <= u32::MAX,
                find_node(self.nodes@, name@, 0) == find_node(self.nodes@, name@, k as int),
            decreases self.nodes@.len() - k,
        {
            if str_eq(self.nodes[k].name.as_str(), name) {
                return Ok(NodeId(k as u32));
            }
            k = k + 1;
        }
        Err(GenApiError::NotFound)
    }

    /// Resolves an optional reference by name.
    pub fn resolve(&self, name: Option<&str>) -> (r: Result<Option<NodeId>, GenApiError>)
        requires
            self.nodes@.len() <= u32::MAX,
        ensures
            match name {
                None => r == Ok::<Option<NodeId>, GenApiError>(None),
                Some(t) => match find_node(self.nodes@, t@, 0) {
                    Some(k) => r == Ok::<Option<NodeId>, GenApiError>(Some(NodeId(k as u32))),
                    None => r == Err::<Option<NodeId>, GenApiError>(GenApiError::NotFound),
                },
            },
    {
        match name {
            None => Ok(None),
            Some(t) => Ok(Some(self.lookup(t)?)),
        }
    }

    pub fn node(&self, id: NodeId) -> (r: Result<&NodeData, GenApiError>)
        ensures
            match r {
                Ok(n) => node_of(*self, id) == Some(*n),
                Err(e) => e == GenApiError::NotFound && node_of(*self, id).is_none(),
            },
    {
        if (id.0 as usize) < self.nodes.len() {
            Ok(&self.nodes[id.0 as usize])
        } else {
            Err(GenApiError::NotFound)
        }
    }

    pub fn eval_flag(&self, r: Option<NodeId>, default: bool) -> (res: Result<bool, GenApiError>)
        ensures
            res == flag_of(*self, r, default),
    {
        match r {
            None => Ok(default),
            Some(id) => {
                let n = self.node(id)?;
                match &n.kind {
                    NodeKind::Integer(st) => Ok(st.value != 0),
                    _ => Err(GenApiError::KindMismatch),
                }
            },
        }
    }

    /// Whether `n` is readable and whether it is writable.
    pub fn access(&self, n: &NodeData) -> (res: Result<(bool, bool), GenApiError>)
        ensures
            res == access_of(*self, *n),
    {
        let i = self.eval_flag(n.p_is_implemented, true)?;
        let a = self.eval_flag(n.p_is_available, true)?;
        let l = self.eval_flag(n.p_is_locked, false)?;
        Ok((readable(n.access, n.imposed, i, a), writable(n.access, n.imposed, i, a, l)))
    }

    /// The first of `errs`, in order, whose condition evaluates true.
    pub fn raised(&self, errs: &Vec<NodeId>) -> (res: Result<Option<NodeId>, GenApiError>)
        ensures
            res == raised_from(*self, errs@, 0),
    {
        let mut k: usize = 0;
        while k < errs.len()
            invariant
                0 <= k <= errs@.len(),
                raised_from(*self, errs@, 0) == raised_from(*self, errs@, k as int),
            decreases errs@.len() - k,
        {
            if self.eval_flag(Some(errs[k]), false)? {
                return Ok(Some(errs[k]));
            }
            k = k + 1;
        }
        Ok(None)
    }

    pub fn check_read(&self, n: &NodeData) -> (res: Result<(), GenApiError>)
        ensures
            res == read_check(*self, *n),
    {
        let (r, _) = self.access(n)?;
        match self.raised(&n.p_errors)? {
            Some(c) => Err(GenApiError::CustomError(c)),
            None => if r {
                Ok(())
            } else {
                Err(GenApiError::NotReadable)
            },
        }
    }

    pub fn check_write(&self, n: &NodeData) -> (res: Result<(), GenApiError>)
        ensures
            res == write_check(*self, *n),
    {
        let (_, w) = self.access(n)?;
        match self.raised(&n.p_errors)? {
            Some(c) => Err(GenApiError::CustomError(c)),
            None => if w {
                Ok(())
            } else {
                Err(GenApiError::NotWritable)
            },
        }
    }
}

} // verus!
