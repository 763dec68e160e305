//! Expression graph.
//!
//! An effect's per-attribute logic is built as a small expression graph. A
//! [`Module`] owns the nodes; an [`ExprHandle`] is an index into it. Init and
//! update modifiers reference expressions by handle, and the codegen pass
//! lowers the reachable part of the graph into WGSL `let` bindings.
//!
//! Literal nodes carry the WGSL spelling of their value (for example `1.0`),
//! which is all the lowering reads of them.

use vstd::prelude::*;

verus! {

/// Index into a [`Module`]'s expression arena.
#[derive(Clone, Copy, Debug, PartialEq, Eq, Hash, Structural)]
pub struct ExprHandle(pub u32);

/// A single node in the expression graph.
#[derive(Clone, Debug)]
pub enum Expr {
    /// Scalar constant, as its WGSL float literal (e.g. `0.5`).
    LitF32(String),
    /// Vector constant, as the WGSL float literals of its three components.
    LitVec3(String, String, String),
    /// A built-in particle attribute by name (`"origin"`, `"position"`,
    /// `"velocity"`, `"age"`, `"lifetime"`, `"seed"`).
    Attribute(String),
    /// A CPU-updatable named property declared on the effect's program.
    Property(String),
    /// A fresh uniform random scalar in `0..1` (emit only).
    Rand,
    /// A fresh uniform random unit vector (emit only).
    RandUnit,
    /// Component-wise sum.
    Add(ExprHandle, ExprHandle),
    /// Component-wise difference.
    Sub(ExprHandle, ExprHandle),
    /// Product; `vec3 * f32` broadcasts.
    Mul(ExprHandle, ExprHandle),
    /// Quotient; same typing rules as `Mul`.
    Div(ExprHandle, ExprHandle),
    /// Sine of a scalar.
    Sin(ExprHandle),
    /// Cosine of a scalar.
    Cos(ExprHandle),
    /// Broadcast a scalar to a `vec3`.
    Splat3(ExprHandle),
    /// Normalize a `vec3`.
    Normalize(ExprHandle),
    /// Length of a `vec3`.
    Length(ExprHandle),
    /// Cross product of two `vec3`s.
    Cross(ExprHandle, ExprHandle),
    /// Component-wise minimum.
    Min(ExprHandle, ExprHandle),
    /// Component-wise maximum.
    Max(ExprHandle, ExprHandle),
    /// Clamp `x` to `[lo, hi]`.
    Clamp(ExprHandle, ExprHandle, ExprHandle),
    /// 3D gradient value noise of a `vec3` sample point (scalar).
    Noise(ExprHandle),
    /// Divergence-free curl noise of a `vec3` sample point (`vec3`).
    CurlNoise(ExprHandle),
}

/// The child handles of a node, in the order the node names them.
pub open spec fn expr_children(e: Expr) -> Seq<u32> {
    match e {
        Expr::Add(a, b) => seq![a.0, b.0],
        Expr::Sub(a, b) => seq![a.0, b.0],
        Expr::Mul(a, b) => seq![a.0, b.0],
        Expr::Div(a, b) => seq![a.0, b.0],
        Expr::Cross(a, b) => seq![a.0, b.0],
        Expr::Min(a, b) => seq![a.0, b.0],
        Expr::Max(a, b) => seq![a.0, b.0],
        Expr::Sin(a) => seq![a.0],
        Expr::Cos(a) => seq![a.0],
        Expr::Splat3(a) => seq![a.0],
        Expr::Normalize(a) => seq![a.0],
        Expr::Length(a) => seq![a.0],
        Expr::Noise(a) => seq![a.0],
        Expr::CurlNoise(a) => seq![a.0],
        Expr::Clamp(x, lo, hi) => seq![x.0, lo.0, hi.0],
        _ => seq![],
    }
}

/// Node `child` is a direct operand of node `parent`.
pub open spec fn is_child(nodes: Seq<Expr>, parent: int, child: int) -> bool {
    &&& 0 <= parent < nodes.len()
    &&& exists|k: int| 0 <= k < expr_children(nodes[parent]).len()
        && #[trigger] expr_children(nodes[parent])[k] == child
}

/// Every operand of every node indexes a node of the arena.
pub open spec fn operands_in_bounds(nodes: Seq<Expr>) -> bool {
    forall|i: int, k: int|
        0 <= i < nodes.len() && 0 <= k < expr_children(nodes[i]).len()
            ==> #[trigger] expr_children(nodes[i])[k] < nodes.len()
}

/// Every operand of every node is an earlier node: node indices are a
/// topological (child-before-parent) order.
pub open spec fn topologically_ordered(nodes: Seq<Expr>) -> bool {
    forall|i: int, k: int|
        0 <= i < nodes.len() && 0 <= k < expr_children(nodes[i]).len()
            ==> #[trigger] expr_children(nodes[i])[k] < i
}

/// `path` is a walk from parent to operand through the arena.
pub open spec fn is_path(nodes: Seq<Expr>, path: Seq<int>) -> bool {
    &&& path.len() > 0
    &&& forall|k: int| 0 <= k < path.len() - 1 ==> is_child(nodes, #[trigger] path[k], path[k + 1])
}

/// `i` is one of the root handles.
pub open spec fn is_root(roots: Seq<ExprHandle>, i: int) -> bool {
    exists|k: int| 0 <= k < roots.len() && #[trigger] roots[k].0 == i
}

/// Node `i` can be reached from one of `roots` by following operands.
pub open spec fn reaches(nodes: Seq<Expr>, roots: Seq<ExprHandle>, i: int) -> bool {
    exists|path: Seq<int>|
        #[trigger] is_path(nodes, path) && is_root(roots, path[0]) && path.last() == i
}

/// The nodes below `n` that are reachable from `roots`, in ascending order.
pub open spec fn reachable_below(nodes: Seq<Expr>, roots: Seq<ExprHandle>, n: nat) -> Seq<u32>
    decreases n,
{
    if n == 0 {
        seq![]
    } else {
        let rest = reachable_below(nodes, roots, (n - 1) as nat);
        if reaches(nodes, roots, n - 1) {
            rest.push((n - 1) as u32)
        } else {
            rest
        }
    }
}

/// Owns the expression nodes for one effect and hands out [`ExprHandle`]s.
///
/// Children created through the builder methods exist before their parents,
/// so node indices are a valid topological order.
#[derive(Clone, Debug)]
pub struct Module {
    nodes: Vec<Expr>,
}

impl View for Module {
    type V = Seq<Expr>;

    closed spec fn view(&self) -> Seq<Expr> {
        self.nodes@
    }
}

impl Default for Module {
    fn default() -> (m: Self)
        ensures
            m@ == Seq::<Expr>::empty(),
    {
        Module { nodes: Vec::new() }
    }
}

/// Appending a node whose operands all exist keeps the arena in
/// child-before-parent order.
pub proof fn lemma_push_keeps_topological_order(nodes: Seq<Expr>, e: Expr)
    requires
        topologically_ordered(nodes),
        forall|k: int| 0 <= k < expr_children(e).len() ==> #[trigger] expr_children(e)[k] < nodes.len(),
    ensures
        topologically_ordered(nodes.push(e)),
        operands_in_bounds(nodes.push(e)),
{
    assert forall|i: int, k: int|
        0 <= i < nodes.push(e).len() && 0 <= k < expr_children(nodes.push(e)[i]).len()
            implies #[trigger] expr_children(nodes.push(e)[i])[k] < i by {
        if i < nodes.len() {
            assert(nodes.push(e)[i] == nodes[i]);
        } else {
            assert(nodes.push(e)[i] == e);
        }
    }
}

impl Module {
    /// A fresh, empty module.
    pub fn new() -> (m: Self)
        ensures
            m@ == Seq::<Expr>::empty(),
    {
        Module { nodes: Vec::new() }
    }

    /// Intern an expression and return a handle to it.
    pub fn push(&mut self, expr: Expr) -> (h: ExprHandle)
        requires
            old(self)@.len() < u32::MAX,
        ensures
            final(self)@ == old(self)@.push(expr),
            h.0 == old(self)@.len(),
    {
        let idx = self.nodes.len() as u32;
        self.nodes.push(expr);
        ExprHandle(idx)
    }

    /// Scalar literal, given as its WGSL spelling.
    pub fn lit(&mut self, literal: String) -> (h: ExprHandle)
        requires
            old(self)@.len() < u32::MAX,
        ensures
            final(self)@ == old(self)@.push(Expr::LitF32(literal)),
            h.0 == old(self)@.len(),
    {
        self.push(Expr::LitF32(literal))
    }

    /// Vector literal, given as the WGSL spellings of its components.
    pub fn lit_vec3(&mut self, x: String, y: String, z: String) -> (h: ExprHandle)
        requires
            old(self)@.len() < u32::MAX,
        ensures
            final(self)@ == old(self)@.push(Expr::LitVec3(x, y, z)),
            h.0 == old(self)@.len(),
    {
        self.push(Expr::LitVec3(x, y, z))
    }

    /// Read a built-in attribute by name.
    pub fn attr(&mut self, name: String) -> (h: ExprHandle)
        requires
            old(self)@.len() < u32::MAX,
        ensures
            final(self)@ == old(self)@.push(Expr::Attribute(name)),
            h.0 == old(self)@.len(),
    {
        self.push(Expr::Attribute(name))
    }

    /// Read a CPU-updatable named property.
    pub fn property(&mut self, name: String) -> (h: ExprHandle)
        requires
            old(self)@.len() < u32::MAX,
        ensures
            final(self)@ == old(self)@.push(Expr::Property(name)),
            h.0 == old(self)@.len(),
    {
        self.push(Expr::Property(name))
    }

    /// Fresh random scalar in `0..1`.
    pub fn rand(&mut self) -> (h: ExprHandle)
        requires
            old(self)@.len() < u32::MAX,
        ensures
            final(self)@ == old(self)@.push(Expr::Rand),
            h.0 == old(self)@.len(),
    {
        self.push(Expr::Rand)
    }

    /// Fresh random unit vector.
    pub fn rand_unit(&mut self) -> (h: ExprHandle)
        requires
            old(self)@.len() < u32::MAX,
        ensures
            final(self)@ == old(self)@.push(Expr::RandUnit),
            h.0 == old(self)@.len(),
    {
        self.push(Expr::RandUnit)
    }

    /// `a + b`.
    pub fn add(&mut self, a: ExprHandle, b: ExprHandle) -> (h: ExprHandle)
        requires
            old(self)@.len() < u32::MAX,
        ensures
            final(self)@ == old(self)@.push(Expr::Add(a, b)),
            h.0 == old(self)@.len(),
    {
        self.push(Expr::Add(a, b))
    }

    /// `a - b`.
    pub fn sub(&mut self, a: ExprHandle, b: ExprHandle) -> (h: ExprHandle)
        requires
            old(self)@.len() < u32::MAX,
        ensures
            final(self)@ == old(self)@.push(Expr::Sub(a, b)),
            h.0 == old(self)@.len(),
    {
        self.push(Expr::Sub(a, b))
    }

    /// `a * b`.
    pub fn mul(&mut self, a: ExprHandle, b: ExprHandle) -> (h: ExprHandle)
        requires
            old(self)@.len() < u32::MAX,
        ensures
            final(self)@ == old(self)@.push(Expr::Mul(a, b)),
            h.0 == old(self)@.len(),
    {
        self.push(Expr::Mul(a, b))
    }

    /// `a / b`.
    pub fn div(&mut self, a: ExprHandle, b: ExprHandle) -> (h: ExprHandle)
        requires
            old(self)@.len() < u32::MAX,
        ensures
            final(self)@ == old(self)@.push(Expr::Div(a, b)),
            h.0 == old(self)@.len(),
    {
        self.push(Expr::Div(a, b))
    }

    /// `sin(a)`.
    pub fn sin(&mut self, a: ExprHandle) -> (h: ExprHandle)
        requires
            old(self)@.len() < u32::MAX,
        ensures
            final(self)@ == old(self)@.push(Expr::Sin(a)),
            h.0 == old(self)@.len(),
    {
        self.push(Expr::Sin(a))
    }

    /// `cos(a)`.
    pub fn cos(&mut self, a: ExprHandle) -> (h: ExprHandle)
        requires
            old(self)@.len() < u32::MAX,
        ensures
            final(self)@ == old(self)@.push(Expr::Cos(a)),
            h.0 == old(self)@.len(),
    {
        self.push(Expr::Cos(a))
    }

    /// Broadcast a scalar to a vector.
    pub fn splat3(&mut self, a: ExprHandle) -> (h: ExprHandle)
        requires
            old(self)@.len() < u32::MAX,
        ensures
            final(self)@ == old(self)@.push(Expr::Splat3(a)),
            h.0 == old(self)@.len(),
    {
        self.push(Expr::Splat3(a))
    }

    /// `normalize(a)`.
    pub fn normalize(&mut self, a: ExprHandle) -> (h: ExprHandle)
        requires
            old(self)@.len() < u32::MAX,
        ensures
            final(self)@ == old(self)@.push(Expr::Normalize(a)),
            h.0 == old(self)@.len(),
    {
        self.push(Expr::Normalize(a))
    }

    /// `length(a)`.
    pub fn length(&mut self, a: ExprHandle) -> (h: ExprHandle)
        requires
            old(self)@.len() < u32::MAX,
        ensures
            final(self)@ == old(self)@.push(Expr::Length(a)),
            h.0 == old(self)@.len(),
    {
        self.push(Expr::Length(a))
    }

    /// `cross(a, b)`.
    pub fn cross(&mut self, a: ExprHandle, b: ExprHandle) -> (h: ExprHandle)
        requires
            old(self)@.len() < u32::MAX,
        ensures
            final(self)@ == old(self)@.push(Expr::Cross(a, b)),
            h.0 == old(self)@.len(),
    {
        self.push(Expr::Cross(a, b))
    }

    /// `min(a, b)`.
    pub fn min(&mut self, a: ExprHandle, b: ExprHandle) -> (h: ExprHandle)
        requires
            old(self)@.len() < u32::MAX,
        ensures
            final(self)@ == old(self)@.push(Expr::Min(a, b)),
            h.0 == old(self)@.len(),
    {
        self.push(Expr::Min(a, b))
    }

    /// `max(a, b)`.
    pub fn max(&mut self, a: ExprHandle, b: ExprHandle) -> (h: ExprHandle)
        requires
            old(self)@.len() < u32::MAX,
        ensures
            final(self)@ == old(self)@.push(Expr::Max(a, b)),
            h.0 == old(self)@.len(),
    {
        self.push(Expr::Max(a, b))
    }

    /// `clamp(x, lo, hi)`.
    pub fn clamp(&mut self, x: ExprHandle, lo: ExprHandle, hi: ExprHandle) -> (h: ExprHandle)
        requires
            old(self)@.len() < u32::MAX,
        ensures
            final(self)@ == old(self)@.push(Expr::Clamp(x, lo, hi)),
            h.0 == old(self)@.len(),
    {
        self.push(Expr::Clamp(x, lo, hi))
    }

    /// 3D gradient value noise (scalar) of a `vec3` sample point.
    pub fn noise(&mut self, p: ExprHandle) -> (h: ExprHandle)
        requires
            old(self)@.len() < u32::MAX,
        ensures
            final(self)@ == old(self)@.push(Expr::Noise(p)),
            h.0 == old(self)@.len(),
    {
        self.push(Expr::Noise(p))
    }

    /// Divergence-free curl noise (`vec3`) of a `vec3` sample point.
    pub fn curl_noise(&mut self, p: ExprHandle) -> (h: ExprHandle)
        requires
            old(self)@.len() < u32::MAX,
        ensures
            final(self)@ == old(self)@.push(Expr::CurlNoise(p)),
            h.0 == old(self)@.len(),
    {
        self.push(Expr::CurlNoise(p))
    }

    /// Read a node by handle.
    pub fn get(&self, handle: ExprHandle) -> (e: &Expr)
        requires
            handle.0 < self@.len(),
        ensures
            *e == self@[handle.0 as int],
    {
        &self.nodes[handle.0 as usize]
    }

    /// Number of interned nodes.
    pub fn len(&self) -> (n: usize)
        ensures
            n == self@.len(),
    {
        self.nodes.len()
    }

    /// Whether the module holds no nodes.
    pub fn is_empty(&self) -> (b: bool)
        ensures
            b == (self@.len() == 0),
    {
        self.nodes.len() == 0
    }

    /// Whether every operand of every node indexes a node of the module.
    pub fn operands_in_bounds(&self) -> (b: bool)
        ensures
            b == operands_in_bounds(self@),
    {
        let n = self.nodes.len();
        let mut i: usize = 0;
        while i < n
            invariant
                i <= n,
                n == self@.len(),
                forall|q: int, k: int|
                    0 <= q < i && 0 <= k < expr_children(self@[q]).len()
                        ==> #[trigger] expr_children(self@[q])[k] < n,
            decreases n - i,
        {
            let ch = operand_indices(&self.nodes[i]);
            let mut k: usize = 0;
            while k < ch.len()
                invariant
                    k <= ch@.len(),
                    i < n,
                    ch@ == expr_children(self@[i as int]),
                    n == self@.len(),
                    forall|kk: int| 0 <= kk < k ==> #[trigger] ch@[kk] < n,
                decreases ch@.len() - k,
            {
                if ch[k] as usize >= n {
                    assert(expr_children(self@[i as int])[k as int] >= self@.len());
                    return false;
                }
                k = k + 1;
            }
            i = i + 1;
        }
        true
    }

    /// Handles reachable from `roots`, in ascending (child-before-parent)
    /// order: exactly the nodes some root reaches by following operands.
    pub fn reachable(&self, roots: &[ExprHandle]) -> (res: Vec<u32>)
        requires
            self@.len() <= u32::MAX,
            operands_in_bounds(self@),
            forall|k: int| 0 <= k < roots@.len() ==> #[trigger] roots@[k].0 < self@.len(),
        ensures
            res@ == reachable_below(self@, roots@, self@.len()),
    {
        let ghost nodes = self@;
        let n = self.nodes.len();
        let mut seen: Vec<bool> = Vec::new();
        let mut z: usize = 0;
        while z < n
            invariant
                z <= n,
                n == nodes.len(),
                seen@.len() == z,
                forall|j: int| 0 <= j < z ==> !#[trigger] seen@[j],
            decreases n - z,
        {
            seen.push(false);
            z = z + 1;
        }
        proof {
            lemma_count_false_all(seen@);
        }
        let mut stack: Vec<u32> = Vec::new();
        let mut r: usize = 0;
        while r < roots.len()
            invariant
                r <= roots@.len(),
                n == nodes.len(),
                nodes == self@,
                seen@.len() == n,
                forall|j: int| 0 <= j < n ==> !#[trigger] seen@[j],
                count_false(seen@) == n,
                forall|k: int| 0 <= k < roots@.len() ==> #[trigger] roots@[k].0 < nodes.len(),
                stack@.len() == r,
                forall|k: int| 0 <= k < r ==> #[trigger] stack@[k] == roots@[k].0,
            decreases roots@.len() - r,
        {
            stack.push(roots[r].0);
            r = r + 1;
        }
        proof {
            assert forall|k: int| 0 <= k < stack@.len() implies reaches(nodes, roots@, #[trigger] stack@[k] as int) by {
                let path = seq![stack@[k] as int];
                assert(is_path(nodes, path));
                assert(is_root(roots@, path[0]));
            }
            assert forall|k: int| 0 <= k < roots@.len() implies
                seen@[#[trigger] roots@[k].0 as int] || stack@.contains(roots@[k].0) by {
                assert(stack@[k] == roots@[k].0);
            }
            reveal(stack_in_bounds);
            reveal(stack_reachable);
            reveal(marked_reachable);
            reveal(roots_covered);
            reveal(operands_covered);
        }
        while stack.len() > 0
            invariant
                n == nodes.len(),
                nodes == self@,
                nodes.len() <= u32::MAX,
                operands_in_bounds(nodes),
                seen@.len() == n,
                count_false(seen@) <= n,
                forall|k: int| 0 <= k < stack@.len() ==> #[trigger] stack@[k] < nodes.len(),
                forall|k: int| 0 <= k < roots@.len() ==> #[trigger] roots@[k].0 < nodes.len(),
                worklist_inv(nodes, roots@, seen@, stack@),
            decreases 4 * count_false(seen@) + stack@.len(),
        {
            let ghost old_stack = stack@;
            let ghost old_seen = seen@;
            let i = stack.pop().unwrap();
            assert(old_stack == stack@.push(i));
            assert(old_stack.drop_last() == stack@);
            assert(old_stack[old_stack.len() - 1] == i);
            if seen[i as usize] {
                proof {
                    lemma_worklist_skip(nodes, roots@, seen@, old_stack);
                }
                continue;
            }
            seen.set(i as usize, true);
            proof {
                lemma_count_false_set(old_seen, i as int);
            }
            let ghost mid_stack = stack@;
            let mut ch = operand_indices(&self.nodes[i as usize]);
            stack.append(&mut ch);
            proof {
                assert(stack@ == mid_stack + expr_children(nodes[i as int]));
                lemma_worklist_visit(nodes, roots@, old_seen, old_stack);
                assert forall|k: int| 0 <= k < stack@.len() implies #[trigger] stack@[k] < nodes.len() by {
                    if k < mid_stack.len() {
                        assert(stack@[k] == old_stack[k]);
                    } else {
                        assert(stack@[k] == expr_children(nodes[i as int])[k - mid_stack.len()]);
                    }
                }
            }
        }
        proof {
            reveal(marked_reachable);
            reveal(roots_covered);
            reveal(operands_covered);
            assert forall|k: int| 0 <= k < roots@.len() implies #[trigger] seen@[roots@[k].0 as int] by {
                assert(!stack@.contains(roots@[k].0));
            }
            assert forall|j: int, c: int| 0 <= j < nodes.len() && seen@[j] && #[trigger] is_child(nodes, j, c) implies seen@[c] by {
                assert(!stack@.contains(c as u32));
            }
            assert forall|j: int| 0 <= j < n implies (seen@[j] <==> #[trigger] reaches(nodes, roots@, j)) by {
                if reaches(nodes, roots@, j) {
                    let p = choose|path: Seq<int>|
                        #[trigger] is_path(nodes, path) && is_root(roots@, path[0]) && path.last() == j;
                    lemma_path_stays_seen(nodes, roots@, seen@, p);
                }
            }
        }
        let mut res: Vec<u32> = Vec::new();
        let mut t: usize = 0;
        while t < n
            invariant
                t <= n,
                n == nodes.len(),
                nodes.len() <= u32::MAX,
                seen@.len() == n,
                forall|j: int| 0 <= j < n ==> (seen@[j] <==> #[trigger] reaches(nodes, roots@, j)),
                res@ == reachable_below(nodes, roots@, t as nat),
            decreases n - t,
        {
            if seen[t] {
                res.push(t as u32);
            }
            t = t + 1;
        }
        res
    }
}

/// The operand indices of a node, in the order the node names them.
fn operand_indices(e: &Expr) -> (v: Vec<u32>)
    ensures
        v@ == expr_children(*e),
{
    match e {
        Expr::Add(a, b) | Expr::Sub(a, b) | Expr::Mul(a, b) | Expr::Div(a, b)
        | Expr::Cross(a, b) | Expr::Min(a, b) | Expr::Max(a, b) => vec![a.0, b.0],
        Expr::Sin(a) | Expr::Cos(a) | Expr::Splat3(a) | Expr::Normalize(a)
        | Expr::Length(a) | Expr::Noise(a) | Expr::CurlNoise(a) => vec![a.0],
        Expr::Clamp(x, lo, hi) => vec![x.0, lo.0, hi.0],
        _ => Vec::new(),
    }
}

/// Every pending stack entry indexes a node.
#[verifier::opaque]
pub open spec fn stack_in_bounds(nodes: Seq<Expr>, stack: Seq<u32>) -> bool {
    forall|k: int| 0 <= k < stack.len() ==> #[trigger] stack[k] < nodes.len()
}

/// Every pending stack entry is reachable.
#[verifier::opaque]
pub open spec fn stack_reachable(nodes: Seq<Expr>, roots: Seq<ExprHandle>, stack: Seq<u32>) -> bool {
    forall|k: int| 0 <= k < stack.len() ==> reaches(nodes, roots, #[trigger] stack[k] as int)
}

/// Every marked node is reachable.
#[verifier::opaque]
pub open spec fn marked_reachable(nodes: Seq<Expr>, roots: Seq<ExprHandle>, seen: Seq<bool>) -> bool {
    forall|j: int| 0 <= j < nodes.len() && #[trigger] seen[j] ==> reaches(nodes, roots, j)
}

/// Every root is marked or pending.
#[verifier::opaque]
pub open spec fn roots_covered(roots: Seq<ExprHandle>, seen: Seq<bool>, stack: Seq<u32>) -> bool {
    forall|k: int| 0 <= k < roots.len() ==>
        seen[#[trigger] roots[k].0 as int] || stack.contains(roots[k].0)
}

/// Every operand of a marked node is marked or pending.
#[verifier::opaque]
pub open spec fn operands_covered(nodes: Seq<Expr>, seen: Seq<bool>, stack: Seq<u32>) -> bool {
    forall|j: int, c: int| 0 <= j < nodes.len() && seen[j] && #[trigger] is_child(nodes, j, c) ==>
        seen[c] || stack.contains(c as u32)
}

/// The worklist state of the reachability search: everything marked or on
/// the stack is reachable, every root is marked or pending, and every
/// operand of a marked node is marked or pending.
pub open spec fn worklist_inv(nodes: Seq<Expr>, roots: Seq<ExprHandle>, seen: Seq<bool>, stack: Seq<u32>) -> bool {
    &&& seen.len() == nodes.len()
    &&& stack_in_bounds(nodes, stack)
    &&& stack_reachable(nodes, roots, stack)
    &&& marked_reachable(nodes, roots, seen)
    &&& roots_covered(roots, seen, stack)
    &&& operands_covered(nodes, seen, stack)
}

proof fn lemma_worklist_skip(nodes: Seq<Expr>, roots: Seq<ExprHandle>, seen: Seq<bool>, stack: Seq<u32>)
    requires
        stack.len() > 0,
        worklist_inv(nodes, roots, seen, stack),
        seen[stack.last() as int],
    ensures
        worklist_inv(nodes, roots, seen, stack.drop_last()),
{
    reveal(stack_in_bounds);
    reveal(stack_reachable);
    reveal(roots_covered);
    reveal(operands_covered);
    let rest = stack.drop_last();
    assert forall|k: int| 0 <= k < rest.len() implies #[trigger] rest[k] < nodes.len()
        && reaches(nodes, roots, rest[k] as int) by {
        assert(rest[k] == stack[k]);
    }
    assert forall|k: int| 0 <= k < roots.len() implies
        seen[#[trigger] roots[k].0 as int] || rest.contains(roots[k].0) by {
        if !seen[roots[k].0 as int] {
            let w = choose|w: int| 0 <= w < stack.len() && stack[w] == roots[k].0;
            assert(rest[w] == stack[w]);
        }
    }
    assert forall|j: int, c: int| 0 <= j < nodes.len() && seen[j] && #[trigger] is_child(nodes, j, c) implies
        seen[c] || rest.contains(c as u32) by {
        if !seen[c] {
            let w = choose|w: int| 0 <= w < stack.len() && stack[w] == c as u32;
            assert(rest[w] == stack[w]);
        }
    }
}

proof fn lemma_visit_stack(nodes: Seq<Expr>, roots: Seq<ExprHandle>, stack: Seq<u32>)
    requires
        stack.len() > 0,
        operands_in_bounds(nodes),
        stack_in_bounds(nodes, stack),
        stack_reachable(nodes, roots, stack),
    ensures
        stack_in_bounds(nodes, stack.drop_last() + expr_children(nodes[stack.last() as int])),
        stack_reachable(nodes, roots, stack.drop_last() + expr_children(nodes[stack.last() as int])),
{
    reveal(stack_in_bounds);
    reveal(stack_reachable);
    let i = stack.last() as int;
    let mid = stack.drop_last();
    let ch = expr_children(nodes[i]);
    let ns = mid + ch;
    assert(stack[stack.len() - 1] as int == i);
    assert(reaches(nodes, roots, i));
    let ip = choose|path: Seq<int>|
        #[trigger] is_path(nodes, path) && is_root(roots, path[0]) && path.last() == i;
    assert forall|k: int| 0 <= k < ns.len() implies #[trigger] ns[k] < nodes.len()
        && reaches(nodes, roots, ns[k] as int) by {
        if k < mid.len() {
            assert(ns[k] == stack[k]);
        } else {
            let c = ns[k];
            assert(c == ch[k - mid.len()]);
            assert(is_child(nodes, i, c as int));
            lemma_path_extend(nodes, ip, c as int);
            let np = ip.push(c as int);
            assert(np[0] == ip[0]);
            assert(is_path(nodes, np) && is_root(roots, np[0]) && np.last() == c as int);
        }
    }
}

proof fn lemma_visit_marks(nodes: Seq<Expr>, roots: Seq<ExprHandle>, seen: Seq<bool>, stack: Seq<u32>)
    requires
        stack.len() > 0,
        seen.len() == nodes.len(),
        stack.last() < nodes.len(),
        forall|k: int| 0 <= k < roots.len() ==> #[trigger] roots[k].0 < nodes.len(),
        stack_reachable(nodes, roots, stack),
        marked_reachable(nodes, roots, seen),
        roots_covered(roots, seen, stack),
    ensures
        marked_reachable(nodes, roots, seen.update(stack.last() as int, true)),
        roots_covered(roots, seen.update(stack.last() as int, true),
            stack.drop_last() + expr_children(nodes[stack.last() as int])),
{
    reveal(stack_reachable);
    reveal(marked_reachable);
    reveal(roots_covered);
    let i = stack.last() as int;
    let mid = stack.drop_last();
    let ns = mid + expr_children(nodes[i]);
    let nseen = seen.update(i, true);
    assert(stack[stack.len() - 1] as int == i);
    assert forall|j: int| 0 <= j < nodes.len() && #[trigger] nseen[j] implies reaches(nodes, roots, j) by {
        if j != i {
            assert(seen[j]);
        }
    }
    assert forall|k: int| 0 <= k < roots.len() implies
        nseen[#[trigger] roots[k].0 as int] || ns.contains(roots[k].0) by {
        if roots[k].0 as int != i && !seen[roots[k].0 as int] {
            let w = choose|w: int| 0 <= w < stack.len() && stack[w] == roots[k].0;
            assert(w < mid.len());
            assert(ns[w] == stack[w]);
        }
    }
}

proof fn lemma_visit_operands(nodes: Seq<Expr>, seen: Seq<bool>, stack: Seq<u32>)
    requires
        stack.len() > 0,
        seen.len() == nodes.len(),
        stack.last() < nodes.len(),
        operands_in_bounds(nodes),
        operands_covered(nodes, seen, stack),
    ensures
        operands_covered(nodes, seen.update(stack.last() as int, true),
            stack.drop_last() + expr_children(nodes[stack.last() as int])),
{
    reveal(operands_covered);
    let i = stack.last() as int;
    let mid = stack.drop_last();
    let ch = expr_children(nodes[i]);
    let ns = mid + ch;
    let nseen = seen.update(i, true);
    assert(stack[stack.len() - 1] as int == i);
    assert forall|j: int, c: int| 0 <= j < nodes.len() && nseen[j] && #[trigger] is_child(nodes, j, c) implies
        nseen[c] || ns.contains(c as u32) by {
        if j == i {
            let kk = choose|kk: int| 0 <= kk < ch.len() && #[trigger] ch[kk] == c;
            assert(ns[mid.len() + kk] == ch[kk]);
        } else if !nseen[c] {
            let kk = choose|kk: int| 0 <= kk < expr_children(nodes[j]).len() && #[trigger] expr_children(nodes[j])[kk] == c;
            assert(expr_children(nodes[j])[kk] < nodes.len());
            assert(seen[j]);
            assert(!seen[c]);
            let w = choose|w: int| 0 <= w < stack.len() && stack[w] == c as u32;
            if w == stack.len() - 1 {
                assert(c == i);
            }
            assert(w < mid.len());
            assert(ns[w] == stack[w]);
        }
    }
}

proof fn lemma_worklist_visit(nodes: Seq<Expr>, roots: Seq<ExprHandle>, seen: Seq<bool>, stack: Seq<u32>)
    requires
        stack.len() > 0,
        operands_in_bounds(nodes),
        forall|k: int| 0 <= k < roots.len() ==> #[trigger] roots[k].0 < nodes.len(),
        worklist_inv(nodes, roots, seen, stack),
        !seen[stack.last() as int],
    ensures
        worklist_inv(nodes, roots, seen.update(stack.last() as int, true),
            stack.drop_last() + expr_children(nodes[stack.last() as int])),
{
    reveal(stack_in_bounds);
    assert(stack[stack.len() - 1] < nodes.len());
    lemma_visit_stack(nodes, roots, stack);
    lemma_visit_marks(nodes, roots, seen, stack);
    lemma_visit_operands(nodes, seen, stack);
}

/// Number of `false` entries.
pub open spec fn count_false(s: Seq<bool>) -> nat
    decreases s.len(),
{
    if s.len() == 0 {
        0
    } else {
        count_false(s.drop_last()) + if s.last() { 0nat } else { 1nat }
    }
}

proof fn lemma_count_false_all(s: Seq<bool>)
    requires
        forall|j: int| 0 <= j < s.len() ==> !#[trigger] s[j],
    ensures
        count_false(s) == s.len(),
    decreases s.len(),
{
    if s.len() > 0 {
        lemma_count_false_all(s.drop_last());
    }
}

proof fn lemma_count_false_bound(s: Seq<bool>)
    ensures
        count_false(s) <= s.len(),
    decreases s.len(),
{
    if s.len() > 0 {
        lemma_count_false_bound(s.drop_last());
    }
}

proof fn lemma_count_false_set(s: Seq<bool>, i: int)
    requires
        0 <= i < s.len(),
        !s[i],
    ensures
        count_false(s.update(i, true)) + 1 == count_false(s),
        count_false(s.update(i, true)) <= s.len(),
    decreases s.len(),
{
    lemma_count_false_bound(s.update(i, true));
    if i == s.len() - 1 {
        assert(s.update(i, true).drop_last() == s.drop_last());
    } else {
        assert(s.update(i, true).drop_last() == s.drop_last().update(i, true));
        lemma_count_false_set(s.drop_last(), i);
    }
}

/// Extending a walk by an operand of its last node is a walk.
pub proof fn lemma_path_extend(nodes: Seq<Expr>, p: Seq<int>, c: int)
    requires
        is_path(nodes, p),
        is_child(nodes, p.last(), c),
    ensures
        is_path(nodes, p.push(c)),
{
    let q = p.push(c);
    assert forall|k: int| 0 <= k < q.len() - 1 implies is_child(nodes, #[trigger] q[k], q[k + 1]) by {
        if k < p.len() - 1 {
            assert(q[k] == p[k] && q[k + 1] == p[k + 1]);
        } else {
            assert(q[k] == p.last() && q[k + 1] == c);
        }
    }
}

/// A set of nodes that holds the roots and is closed under operands holds
/// every node a path from a root ends at.
proof fn lemma_path_stays_seen(nodes: Seq<Expr>, roots: Seq<ExprHandle>, seen: Seq<bool>, p: Seq<int>)
    requires
        seen.len() == nodes.len(),
        operands_in_bounds(nodes),
        is_path(nodes, p),
        is_root(roots, p[0]),
        forall|k: int| 0 <= k < roots.len() ==> #[trigger] roots[k].0 < nodes.len(),
        forall|k: int| 0 <= k < roots.len() ==> #[trigger] seen[roots[k].0 as int],
        forall|j: int, c: int| 0 <= j < nodes.len() && seen[j] && #[trigger] is_child(nodes, j, c) ==> seen[c],
    ensures
        0 <= p.last() < nodes.len(),
        seen[p.last()],
    decreases p.len(),
{
    if p.len() == 1 {
        let k = choose|k: int| 0 <= k < roots.len() && #[trigger] roots[k].0 == p[0];
        assert(seen[roots[k].0 as int]);
    } else {
        let q = p.drop_last();
        assert forall|k: int| 0 <= k < q.len() - 1 implies is_child(nodes, #[trigger] q[k], q[k + 1]) by {
            assert(q[k] == p[k] && q[k + 1] == p[k + 1]);
        }
        assert(q[0] == p[0]);
        lemma_path_stays_seen(nodes, roots, seen, q);
        let j = q.last();
        assert(is_child(nodes, p[p.len() - 2], p[p.len() - 1]));
        assert(j == p[p.len() - 2]);
        let c = p.last();
        let kk = choose|kk: int| 0 <= kk < expr_children(nodes[j]).len() && #[trigger] expr_children(nodes[j])[kk] == c;
        assert(expr_children(nodes[j])[kk] < nodes.len());
    }
}

} // verus!

verus! {

/// The reachable list holds every reachable node below the bound exactly
/// once, in strictly ascending order, and nothing else.
pub proof fn lemma_reachable_below_exact(nodes: Seq<Expr>, roots: Seq<ExprHandle>, n: nat)
    requires
        n <= u32::MAX + 1,
    ensures
        forall|a: int, b: int| 0 <= a < b < reachable_below(nodes, roots, n).len()
            ==> #[trigger] reachable_below(nodes, roots, n)[a] < #[trigger] reachable_below(nodes, roots, n)[b],
        forall|k: int| 0 <= k < reachable_below(nodes, roots, n).len() ==> {
            &&& #[trigger] reachable_below(nodes, roots, n)[k] < n
            &&& reaches(nodes, roots, reachable_below(nodes, roots, n)[k] as int)
        },
        forall|i: int| 0 <= i < n && reaches(nodes, roots, i) ==> #[trigger] reachable_below(nodes, roots, n).contains(i as u32),
    decreases n,
{
    if n > 0 {
        let m = (n - 1) as nat;
        lemma_reachable_below_exact(nodes, roots, m);
        let rest = reachable_below(nodes, roots, m);
        let all = reachable_below(nodes, roots, n);
        assert forall|a: int, b: int| 0 <= a < b < all.len() implies #[trigger] all[a] < #[trigger] all[b] by {
            if b < rest.len() {
                assert(all[a] == rest[a] && all[b] == rest[b]);
            } else {
                assert(all[a] == rest[a]);
            }
        }
        assert forall|k: int| 0 <= k < all.len() implies {
            &&& #[trigger] all[k] < n
            &&& reaches(nodes, roots, all[k] as int)
        } by {
            if k < rest.len() {
                assert(all[k] == rest[k]);
            }
        }
        assert forall|i: int| 0 <= i < n && reaches(nodes, roots, i) implies #[trigger] all.contains(i as u32) by {
            if i < m {
                assert(rest.contains(i as u32));
                let w = choose|w: int| 0 <= w < rest.len() && rest[w] == i as u32;
                assert(all[w] == rest[w]);
            } else {
                assert(all[all.len() - 1] == i as u32);
            }
        }
    }
}

} // verus!
