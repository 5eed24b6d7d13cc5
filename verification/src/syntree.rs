//! A plain, owned syntax tree.
//!
//! The parse layer flattens the grammar engine's tree into a vector of
//! records in depth-first pre-order.  Each node carries its kind, the field
//! name linking it to its parent, the parent's index, a byte range into the
//! source, and a 0-based row and column.  Pre-order gives two facts the
//! extractors lean on: a node's parent index is smaller than its own, and
//! index order is document order.

use vstd::prelude::*;

verus! {

/// Upper bound on stored rows and columns; positions are clamped to it so
/// that the 1-based conversion cannot overflow.
pub const MAX_POS: usize = 0x7fff_ffff;

/// One node of the flattened syntax tree.
#[derive(Clone, Debug)]
pub struct SynNode {
    /// Grammar kind of the node, as UTF-8 bytes.
    pub kind: Vec<u8>,
    /// Field name under which the parent holds this node, if any.
    pub field: Option<Vec<u8>>,
    /// Index of the parent node; the root points at itself.
    pub parent: usize,
    pub start_byte: usize,
    pub end_byte: usize,
    /// 0-based row of the node's start.
    pub row: usize,
    /// 0-based column of the node's start.
    pub col: usize,
    /// Whether the grammar names this node (keyword tokens are unnamed).
    pub is_named: bool,
}

/// Well-formedness of one node at index `i` of a tree over `src_len` bytes.
pub open spec fn node_wf(n: SynNode, i: int, src_len: int) -> bool {
    &&& if i == 0 {
        n.parent == 0
    } else {
        (n.parent as int) < i
    }
    &&& n.start_byte <= n.end_byte
    &&& n.end_byte <= src_len
    &&& n.row <= MAX_POS
    &&& n.col <= MAX_POS
}

/// The flattened syntax tree of one file, together with its source bytes.
#[derive(Clone, Debug)]
pub struct SynTree {
    pub nodes: Vec<SynNode>,
    pub source: Vec<u8>,
}

impl SynTree {
    /// Every node is well-formed: parents point backwards and byte ranges
    /// are ordered and within the source.
    pub open spec fn wf(self) -> bool {
        forall|i: int|
            0 <= i < self.nodes@.len() ==> node_wf(
                #[trigger] self.nodes@[i],
                i,
                self.source@.len() as int,
            )
    }

    /// The kind bytes of node `i`.
    pub open spec fn kind_of(self, i: int) -> Seq<u8> {
        self.nodes@[i].kind@
    }

    /// The source text covered by node `i`.
    pub open spec fn text_of(self, i: int) -> Seq<u8> {
        self.source@.subrange(self.nodes@[i].start_byte as int, self.nodes@[i].end_byte as int)
    }

    /// Whether node `i` is held by its parent under field name `f`.
    pub open spec fn field_matches(self, i: int, f: Seq<u8>) -> bool {
        match self.nodes@[i].field {
            Some(v) => v@ == f,
            None => false,
        }
    }

    /// Number of nodes.
    pub fn len(&self) -> (r: usize)
        ensures
            r == self.nodes@.len(),
    {
        self.nodes.len()
    }

    /// Whether node `i` has the kind named by the literal `s`.
    pub fn kind_is(&self, i: usize, s: &str) -> (r: bool)
        requires
            i < self.nodes@.len(),
        ensures
            r == (self.kind_of(i as int) == crate::bytes::lit_bytes(s)),
    {
        crate::bytes::bytes_eq_str(self.nodes[i].kind.as_slice(), s)
    }

    /// Whether node `i` sits under its parent at the field named `s`.
    pub fn field_is(&self, i: usize, s: &str) -> (r: bool)
        requires
            i < self.nodes@.len(),
        ensures
            r == self.field_matches(i as int, crate::bytes::lit_bytes(s)),
    {
        match &self.nodes[i].field {
            Some(v) => crate::bytes::bytes_eq_str(v.as_slice(), s),
            None => false,
        }
    }

    /// Whether node `i` is a named node of the grammar.
    pub fn named_at(&self, i: usize) -> (r: bool)
        requires
            i < self.nodes@.len(),
        ensures
            r == self.nodes@[i as int].is_named,
    {
        self.nodes[i].is_named
    }

    /// The parent index of node `i`.
    pub fn parent_of(&self, i: usize) -> (r: usize)
        requires
            i < self.nodes@.len(),
        ensures
            r == self.nodes@[i as int].parent,
    {
        self.nodes[i].parent
    }

    /// The start byte of node `i`.
    pub fn start_of(&self, i: usize) -> (r: usize)
        requires
            i < self.nodes@.len(),
        ensures
            r == self.nodes@[i as int].start_byte,
    {
        self.nodes[i].start_byte
    }

    /// The end byte of node `i`.
    pub fn end_of(&self, i: usize) -> (r: usize)
        requires
            i < self.nodes@.len(),
        ensures
            r == self.nodes@[i as int].end_byte,
    {
        self.nodes[i].end_byte
    }

    /// The 0-based row of node `i`.
    pub fn row_of(&self, i: usize) -> (r: usize)
        requires
            i < self.nodes@.len(),
        ensures
            r == self.nodes@[i as int].row,
    {
        self.nodes[i].row
    }

    /// The 0-based column of node `i`.
    pub fn col_of(&self, i: usize) -> (r: usize)
        requires
            i < self.nodes@.len(),
        ensures
            r == self.nodes@[i as int].col,
    {
        self.nodes[i].col
    }

    /// An owned copy of the source text covered by node `i`.
    pub fn text(&self, i: usize) -> (r: Vec<u8>)
        requires
            self.wf(),
            i < self.nodes@.len(),
        ensures
            r@ == self.text_of(i as int),
    {
        assert(node_wf(self.nodes@[i as int], i as int, self.source@.len() as int));
        let sb: usize = self.nodes[i].start_byte;
        let eb: usize = self.nodes[i].end_byte;
        let sl: &[u8] = vstd::slice::slice_subrange(self.source.as_slice(), sb, eb);
        crate::bytes::bytes_to_vec(sl)
    }
}

/// First index at or after `j` that is a child of `i` with field name `f`.
pub open spec fn child_by_field_from(t: SynTree, i: int, f: Seq<u8>, j: int) -> Option<int>
    decreases t.nodes@.len() - j
        when 0 <= j <= t.nodes@.len()
{
    if j >= t.nodes@.len() {
        None
    } else if t.nodes@[j].parent == i && j != i && t.field_matches(j, f) {
        Some(j)
    } else {
        child_by_field_from(t, i, f, j + 1)
    }
}

/// First child of `i` held under field name `f`.
pub open spec fn child_by_field(t: SynTree, i: int, f: Seq<u8>) -> Option<int> {
    child_by_field_from(t, i, f, i + 1)
}

/// First index at or after `j` that is a child of `i` with kind `k`.
pub open spec fn child_by_kind_from(t: SynTree, i: int, k: Seq<u8>, j: int) -> Option<int>
    decreases t.nodes@.len() - j
        when 0 <= j <= t.nodes@.len()
{
    if j >= t.nodes@.len() {
        None
    } else if t.nodes@[j].parent == i && j != i && t.kind_of(j) == k {
        Some(j)
    } else {
        child_by_kind_from(t, i, k, j + 1)
    }
}

/// First child of `i` with kind `k`.
pub open spec fn child_by_kind(t: SynTree, i: int, k: Seq<u8>) -> Option<int> {
    child_by_kind_from(t, i, k, i + 1)
}

/// Nearest strict ancestor of `i` whose kind is `k`, walking parent links.
pub open spec fn nearest_anc_kind(t: SynTree, i: int, k: Seq<u8>) -> Option<int>
    decreases i
        when 0 <= i < t.nodes@.len()
{
    if i <= 0 || i >= t.nodes@.len() {
        None
    } else {
        let p = t.nodes@[i].parent as int;
        if p >= i {
            None
        } else if t.kind_of(p) == k {
            Some(p)
        } else {
            nearest_anc_kind(t, p, k)
        }
    }
}

/// Walking up from `i`: does an ancestor of kind `want` appear strictly
/// before any ancestor of kind `stop`?
pub open spec fn anc_kind_before(t: SynTree, i: int, want: Seq<u8>, stop: Seq<u8>) -> bool
    decreases i
        when 0 <= i < t.nodes@.len()
{
    if i <= 0 || i >= t.nodes@.len() {
        false
    } else {
        let p = t.nodes@[i].parent as int;
        if p >= i {
            false
        } else if t.kind_of(p) == want {
            true
        } else if t.kind_of(p) == stop {
            false
        } else {
            anc_kind_before(t, p, want, stop)
        }
    }
}

/// `a` is a strict ancestor of `j`.
pub open spec fn is_anc(t: SynTree, a: int, j: int) -> bool
    decreases j
        when 0 <= j
{
    if 0 < j < t.nodes@.len() {
        let p = t.nodes@[j].parent as int;
        p == a || (p < j && is_anc(t, a, p))
    } else {
        false
    }
}

impl SynTree {
    /// First child of node `i` held under the field named `s`.
    pub fn child_by_field(&self, i: usize, s: &str) -> (r: Option<usize>)
        requires
            i < self.nodes@.len(),
        ensures
            match r {
                Some(c) => Some(c as int) == child_by_field(
                    *self,
                    i as int,
                    crate::bytes::lit_bytes(s),
                ) && c < self.nodes@.len(),
                None => child_by_field(*self, i as int, crate::bytes::lit_bytes(s)).is_none(),
            },
    {
        let ghost f = crate::bytes::lit_bytes(s);
        let n: usize = self.nodes.len();
        let mut j: usize = i + 1;
        while j < n
            invariant
                i < n <= self.nodes@.len(),
                n == self.nodes@.len(),
                i + 1 <= j,
                j <= n,
                f == crate::bytes::lit_bytes(s),
                child_by_field(*self, i as int, f) == child_by_field_from(*self, i as int, f, j as int),
            decreases n - j,
        {
            if self.parent_of(j) == i && self.field_is(j, s) {
                return Some(j);
            }
            j = j + 1;
        }
        None
    }

    /// First child of node `i` whose kind is named by `s`.
    pub fn child_by_kind(&self, i: usize, s: &str) -> (r: Option<usize>)
        requires
            i < self.nodes@.len(),
        ensures
            match r {
                Some(c) => Some(c as int) == child_by_kind(
                    *self,
                    i as int,
                    crate::bytes::lit_bytes(s),
                ) && c < self.nodes@.len(),
                None => child_by_kind(*self, i as int, crate::bytes::lit_bytes(s)).is_none(),
            },
    {
        let ghost k = crate::bytes::lit_bytes(s);
        let n: usize = self.nodes.len();
        let mut j: usize = i + 1;
        while j < n
            invariant
                i < n <= self.nodes@.len(),
                n == self.nodes@.len(),
                i + 1 <= j,
                j <= n,
                k == crate::bytes::lit_bytes(s),
                child_by_kind(*self, i as int, k) == child_by_kind_from(*self, i as int, k, j as int),
            decreases n - j,
        {
            if self.parent_of(j) == i && self.kind_is(j, s) {
                return Some(j);
            }
            j = j + 1;
        }
        None
    }

    /// Nearest strict ancestor of `i` whose kind is named by `s`.
    pub fn nearest_anc(&self, i: usize, s: &str) -> (r: Option<usize>)
        requires
            self.wf(),
            i < self.nodes@.len(),
        ensures
            match r {
                Some(a) => Some(a as int) == nearest_anc_kind(
                    *self,
                    i as int,
                    crate::bytes::lit_bytes(s),
                ) && a < self.nodes@.len(),
                None => nearest_anc_kind(*self, i as int, crate::bytes::lit_bytes(s)).is_none(),
            },
    {
        let ghost k = crate::bytes::lit_bytes(s);
        let mut cur: usize = i;
        while cur > 0
            invariant
                self.wf(),
                cur < self.nodes@.len(),
                k == crate::bytes::lit_bytes(s),
                nearest_anc_kind(*self, i as int, k) == nearest_anc_kind(*self, cur as int, k),
            decreases cur,
        {
            assert(node_wf(self.nodes@[cur as int], cur as int, self.source@.len() as int));
            let p: usize = self.parent_of(cur);
            if self.kind_is(p, s) {
                return Some(p);
            }
            cur = p;
        }
        None
    }

    /// Walking up from `i`: is there an ancestor of kind `want` strictly
    /// below the nearest ancestor of kind `stop`?
    pub fn anc_before(&self, i: usize, want: &str, stop: &str) -> (r: bool)
        requires
            self.wf(),
            i < self.nodes@.len(),
        ensures
            r == anc_kind_before(
                *self,
                i as int,
                crate::bytes::lit_bytes(want),
                crate::bytes::lit_bytes(stop),
            ),
    {
        let ghost w = crate::bytes::lit_bytes(want);
        let ghost st = crate::bytes::lit_bytes(stop);
        let mut cur: usize = i;
        while cur > 0
            invariant
                self.wf(),
                cur < self.nodes@.len(),
                w == crate::bytes::lit_bytes(want),
                st == crate::bytes::lit_bytes(stop),
                anc_kind_before(*self, i as int, w, st) == anc_kind_before(*self, cur as int, w, st),
            decreases cur,
        {
            assert(node_wf(self.nodes@[cur as int], cur as int, self.source@.len() as int));
            let p: usize = self.parent_of(cur);
            if self.kind_is(p, want) {
                return true;
            }
            if self.kind_is(p, stop) {
                return false;
            }
            cur = p;
        }
        false
    }

    /// Whether node `a` is a strict ancestor of node `j`.
    pub fn is_ancestor(&self, a: usize, j: usize) -> (r: bool)
        requires
            self.wf(),
            j < self.nodes@.len(),
        ensures
            r == is_anc(*self, a as int, j as int),
    {
        let mut cur: usize = j;
        while cur > 0
            invariant
                self.wf(),
                cur < self.nodes@.len(),
                is_anc(*self, a as int, j as int) == is_anc(*self, a as int, cur as int),
            decreases cur,
        {
            assert(node_wf(self.nodes@[cur as int], cur as int, self.source@.len() as int));
            let p: usize = self.parent_of(cur);
            if p == a {
                return true;
            }
            cur = p;
        }
        false
    }

    /// Whether any descendant of `a` has the kind named by `s`.
    pub fn subtree_has_kind(&self, a: usize, s: &str) -> (r: bool)
        requires
            self.wf(),
        ensures
            r == exists|j: int|
                0 <= j < self.nodes@.len() && #[trigger] self.kind_of(j) == crate::bytes::lit_bytes(
                    s,
                ) && is_anc(*self, a as int, j),
    {
        let ghost k = crate::bytes::lit_bytes(s);
        let n: usize = self.nodes.len();
        let mut j: usize = 0;
        while j < n
            invariant
                self.wf(),
                n == self.nodes@.len(),
                j <= n,
                k == crate::bytes::lit_bytes(s),
                forall|m: int|
                    0 <= m < j ==> !(#[trigger] self.kind_of(m) == k && is_anc(*self, a as int, m)),
            decreases n - j,
        {
            if self.kind_is(j, s) && self.is_ancestor(a, j) {
                return true;
            }
            j = j + 1;
        }
        false
    }
}


/// A 0-based position as the parse layer reports it.
#[derive(Clone, Copy, Debug)]
pub struct AstLocation {
    pub start_line: usize,
    pub start_col: usize,
}

/// Positions are clamped by the parse layer, so the 1-based conversion at
/// the normalization boundary cannot overflow.
pub open spec fn loc_wf(l: AstLocation) -> bool {
    l.start_line <= MAX_POS && l.start_col <= MAX_POS
}

impl SynTree {
    /// The 0-based location of node `i`.
    pub fn loc_at(&self, i: usize) -> (r: AstLocation)
        requires
            self.wf(),
            i < self.nodes@.len(),
        ensures
            loc_wf(r),
            r.start_line == self.nodes@[i as int].row,
            r.start_col == self.nodes@[i as int].col,
    {
        assert(node_wf(self.nodes@[i as int], i as int, self.source@.len() as int));
        AstLocation { start_line: self.nodes[i].row, start_col: self.nodes[i].col }
    }
}

} // verus!

