use vstd::prelude::*;

verus! {

/// A tree: the data of its root and the trees below the root, in the order
/// in which they were added.
pub struct Tree<T> {
    /// The data at the root of this tree.
    pub data: T,
    /// The trees below the root.
    pub children: Vec<Tree<T>>,
}

/// The data of `tree` in post-order: the data of the trees below the root
/// in post-order, from the first of them to the last, and then the data of
/// the root.
pub open spec fn postorder<T>(tree: Tree<T>) -> Seq<T>
    decreases tree, 0nat,
{
    postorder_of_first(tree.children, tree.children.len() as nat).push(tree.data)
}

/// The data of the first `n` trees of `trees`, each in post-order.
pub open spec fn postorder_of_first<T>(trees: Vec<Tree<T>>, n: nat) -> Seq<T>
    decreases trees, n,
{
    if n == 0 || n > trees.len() {
        Seq::empty()
    } else {
        postorder_of_first(trees, (n - 1) as nat) + postorder(trees[n - 1])
    }
}

/// The data of `tree` in pre-order: the data of the root, and then the data
/// of the trees below the root in pre-order, from the first of them to the
/// last.
pub open spec fn preorder<T>(tree: Tree<T>) -> Seq<T>
    decreases tree, 0nat,
{
    seq![tree.data] + preorder_of_first(tree.children, tree.children.len() as nat)
}

/// The data of the first `n` trees of `trees`, each in pre-order.
pub open spec fn preorder_of_first<T>(trees: Vec<Tree<T>>, n: nat) -> Seq<T>
    decreases trees, n,
{
    if n == 0 || n > trees.len() {
        Seq::empty()
    } else {
        preorder_of_first(trees, (n - 1) as nat) + preorder(trees[n - 1])
    }
}

/// Each element of `copies` is a clone of the element of `values` at the
/// same place.
pub open spec fn cloned_from<T: Clone>(copies: Seq<T>, values: Seq<T>) -> bool {
    &&& copies.len() == values.len()
    &&& forall|i: int| 0 <= i < values.len() ==> cloned(#[trigger] values[i], copies[i])
}

impl<T: Clone> Tree<T> {
    /// A tree with `root_val` at its root and no trees below it.
    pub fn new(root_val: T) -> (tree: Self)
        ensures
            tree.data == root_val,
            tree.children@ == Seq::<Tree<T>>::empty(),
    {
        Tree { data: root_val, children: Vec::new() }
    }

    /// Puts `tree` below the root, behind the trees that are there.
    pub fn add_subtree(&mut self, tree: Tree<T>)
        ensures
            final(self).data == old(self).data,
            final(self).children@ == old(self).children@.push(tree),
    {
        self.children.push(tree);
    }

    /// Puts a tree that holds only `value` below the root, behind the
    /// trees that are there.
    pub fn add_subtree_value(&mut self, value: T)
        ensures
            final(self).data == old(self).data,
            final(self).children@.len() == old(self).children@.len() + 1,
            final(self).children@.subrange(0, old(self).children@.len() as int) == old(
                self,
            ).children@,
            final(self).children@.last().data == value,
            final(self).children@.last().children@ == Seq::<Tree<T>>::empty(),
    {
        let subtree = Tree::new(value);
        self.add_subtree(subtree);
        assert(final(self).children@.subrange(0, old(self).children@.len() as int) =~= old(
            self,
        ).children@);
    }

    /// Clones of the data of the tree in post-order.
    pub fn postorder_traversal(&self) -> (values: Vec<T>)
        ensures
            cloned_from(values@, postorder(*self)),
    {
        let mut values: Vec<T> = Vec::new();
        let mut visited = Tree::postorder_traversal_node(self);
        values.append(&mut visited);
        values
    }

    /// Clones of the data of `start_node` in post-order.
    pub fn postorder_traversal_node(start_node: &Tree<T>) -> (values: Vec<T>)
        ensures
            cloned_from(values@, postorder(*start_node)),
        decreases *start_node,
    {
        let mut values: Vec<T> = Vec::new();
        let mut i: usize = 0;
        while i < start_node.children.len()
            invariant
                i <= start_node.children.len(),
                cloned_from(values@, postorder_of_first(start_node.children, i as nat)),
            decreases start_node.children.len() - i,
        {
            let mut visited = Tree::postorder_traversal_node(&start_node.children[i]);
            let ghost so_far = values@;
            let ghost found = visited@;
            values.append(&mut visited);
            i = i + 1;
            proof {
                let below = postorder_of_first(start_node.children, (i - 1) as nat);
                let here = postorder(start_node.children[i - 1]);
                assert(postorder_of_first(start_node.children, i as nat) == below + here);
                assert(values@ =~= so_far + found);
            }
        }
        values.push(start_node.data.clone());
        values
    }

    /// Clones of the data of `start_node` in pre-order.
    pub fn preorder_traversal_node(start_node: &Tree<T>) -> (values: Vec<T>)
        ensures
            cloned_from(values@, preorder(*start_node)),
        decreases *start_node,
    {
        let mut values: Vec<T> = Vec::new();
        values.push(start_node.data.clone());
        let mut i: usize = 0;
        while i < start_node.children.len()
            invariant
                i <= start_node.children.len(),
                cloned_from(
                    values@,
                    seq![start_node.data] + preorder_of_first(start_node.children, i as nat),
                ),
            decreases start_node.children.len() - i,
        {
            let mut visited = Tree::preorder_traversal_node(&start_node.children[i]);
            let ghost so_far = values@;
            let ghost found = visited@;
            values.append(&mut visited);
            i = i + 1;
            proof {
                let below = preorder_of_first(start_node.children, (i - 1) as nat);
                let here = preorder(start_node.children[i - 1]);
                assert(preorder_of_first(start_node.children, i as nat) == below + here);
                assert(values@ =~= so_far + found);
                assert(seq![start_node.data] + (below + here) =~= (seq![start_node.data] + below)
                    + here);
            }
        }
        values
    }

    /// Clones of the data of the tree in pre-order.
    pub fn preorder_traversal(&self) -> (values: Vec<T>)
        ensures
            cloned_from(values@, preorder(*self)),
    {
        let mut values: Vec<T> = Vec::new();
        let mut visited = Tree::preorder_traversal_node(self);
        values.append(&mut visited);
        values
    }
}

} // verus!
